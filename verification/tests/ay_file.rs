use spectrusty::formats::ay::{parse_ay, AyPlayerCpu};

fn sample_ay() -> Vec<u8> {
    let mut raw = Vec::new();
    raw.extend_from_slice(b"ZXAYEMUL");
    raw.extend_from_slice(&[3, 2]); // file version, player version
    raw.extend_from_slice(&[0, 0]); // no special player
    raw.extend_from_slice(&[0, 43]); // author at 55
    raw.extend_from_slice(&[0, 0]); // no misc
    raw.extend_from_slice(&[0, 0]); // one song, the first one
    raw.extend_from_slice(&[0, 2]); // songs at 20
    raw.extend_from_slice(&[0, 38, 0, 2]); // name at 58, info at 24
    raw.extend_from_slice(&[0, 1, 2, 3, 0x01, 0x00, 0x00, 0x10, 0x12, 0x34, 0, 4, 0, 8]);
    raw.extend_from_slice(&[0xF0, 0x00, 0x80, 0x00, 0x00, 0x00]); // stack, init, interrupt
    raw.extend_from_slice(&[0x80, 0x00, 0x00, 0x03, 0, 4]); // block at 0x8000, 3 bytes at 52
    raw.extend_from_slice(&[0, 0]); // end of blocks
    raw.extend_from_slice(&[0xAA, 0xBB, 0xCC]);
    raw.extend_from_slice(b"Me\0");
    raw.extend_from_slice(b"Tune\0");
    raw
}

#[test]
fn ay_file_parses() {
    let raw = sample_ay();
    let ay = parse_ay(raw.clone()).unwrap();
    assert_eq!(ay.raw, raw);
    assert_eq!(ay.meta.file_version, 3);
    assert_eq!(ay.meta.player_version, 2);
    assert!(!ay.meta.special_player);
    assert_eq!(ay.meta.author.as_slice(), b"Me");
    assert_eq!(ay.meta.author.to_str().unwrap(), "Me");
    assert_eq!(ay.meta.misc.as_slice(), b"");
    assert_eq!(ay.songs.len(), 1);
    let song = &ay.songs[0];
    assert_eq!(song.name.to_str_lossy(), "Tune");
    assert_eq!((song.chan_a, song.chan_b, song.chan_c, song.noise), (0, 1, 2, 3));
    assert_eq!((song.song_duration, song.fade_duration), (0x100, 0x10));
    assert_eq!((song.hi_reg, song.lo_reg), (0x12, 0x34));
    assert_eq!((song.stack, song.init, song.interrupt), (0xF000, 0x8000, 0));
    assert_eq!(song.blocks.len(), 1);
    assert_eq!(song.blocks[0].address, 0x8000);
    assert_eq!(song.blocks[0].data.as_slice(), &[0xAA, 0xBB, 0xCC]);
}

#[test]
fn ay_player_is_initialized() {
    let ay = parse_ay(sample_ay()).unwrap();
    let mut mem = vec![0x55u8; 0x10000];
    let cpu = ay.initialize_player(&mut mem, 0);
    assert_eq!(cpu, AyPlayerCpu { i: 2, hi_reg: 0x12, lo_reg: 0x34, stack: 0xF000 });
    assert_eq!(&mem[0..10], &[0xF3, 0xCD, 0x00, 0x80, 0xED, 0x5E, 0xFB, 0x76, 0x18, 0xFA]);
    assert_eq!(mem[0x38], 0xFB);
    assert_eq!(mem[0x50], 0xC9);
    assert_eq!(mem[0x200], 0xFF);
    assert_eq!(&mem[0x8000..0x8004], &[0xAA, 0xBB, 0xCC, 0x00]);
    assert_eq!(mem[0xFFFF], 0);
}

#[test]
fn ay_file_errors() {
    let mut raw = sample_ay();
    raw[0] = b'X';
    let err = parse_ay(raw.clone()).unwrap_err();
    assert_eq!(err.data, raw);
    let mut raw = sample_ay();
    raw.truncate(15);
    assert!(parse_ay(raw).is_err());
    // a songs offset pointing past the end of the file
    let mut raw = sample_ay();
    raw[19] = 200;
    assert!(parse_ay(raw).is_err());
    // a second song entry (the song info bytes) whose info offset points past the end of the file
    let mut raw = sample_ay();
    raw[16] = 1;
    assert!(parse_ay(raw).is_err());
}
