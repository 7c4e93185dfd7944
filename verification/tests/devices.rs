use spectrusty::bus::PortAddress;
use spectrusty::chip::{duration_from_frame_tc_cpu_hz, duration_of_nanos, nanos_from_frame_tc_cpu_hz};
use spectrusty::peripherals::bus::mouse::{KempstonMousePortAddress, MouseBusDevice};
use spectrusty::peripherals::bus::parallel::Plus3CentronicsBusDevice;
use spectrusty::peripherals::bus::zxprinter::{ZxPrinterBusDevice, ZxPrinterPortAddress};
use spectrusty::peripherals::mouse::kempston::KempstonMouseDevice;
use spectrusty::peripherals::mouse::{MouseButtons, MouseDevice, MouseInterface, MouseMovement, NullMouseDevice};
use spectrusty::peripherals::network::zxnet::{outbound_after_push, DataAsZxNetHead, NetState, ZxNet, ZxNetSocket};
use spectrusty::peripherals::parallel::NullParallelPort;
use spectrusty::peripherals::serial::rs232::Rs232Io;
use spectrusty::peripherals::serial::{ControlState, DataState};
use spectrusty::peripherals::zxprinter::{
    Spooler, ZxPrinterDevice, STATUS_BIT_READY, STATUS_NEW_LINE, STATUS_NOT_READY, STATUS_OFF,
};

const BTN_PORT: u16 = 64223;
const X_PORT: u16 = 64479;
const Y_PORT: u16 = 65503;

#[test]
fn kempston_mouse_buttons_and_moves() {
    let mut mouse = KempstonMouseDevice::default();
    assert_eq!(mouse.port_read(BTN_PORT), 255);
    assert_eq!(mouse.port_read(X_PORT), 255);
    assert_eq!(mouse.port_read(Y_PORT), 255);
    mouse.set_buttons(MouseButtons::LEFT());
    assert_eq!(mouse.port_read(BTN_PORT), 254);
    mouse.set_buttons(MouseButtons::RIGHT());
    assert_eq!(mouse.port_read(BTN_PORT), 253);
    mouse.set_buttons(MouseButtons::LEFT().union(MouseButtons::RIGHT()));
    assert_eq!(mouse.port_read(BTN_PORT), 252);
    assert_eq!(mouse.get_buttons(), MouseButtons::LEFT().union(MouseButtons::RIGHT()));
    mouse.set_buttons(MouseButtons::MIDDLE());
    assert_eq!(mouse.port_read(BTN_PORT), 255);
    // half of the movement, wrapping around
    mouse.move_mouse(MouseMovement::from((10, -20)));
    assert_eq!(mouse.port_read(X_PORT), 4);
    assert_eq!(mouse.port_read(Y_PORT), 9);
    // limited to 127 steps at once
    mouse.move_mouse(MouseMovement::from([1000, 1000]));
    assert_eq!(mouse.port_read(X_PORT), 4 + 127);
    assert_eq!(mouse.port_read(Y_PORT), 137);
    // odd negative movements are halved downwards
    mouse.move_mouse(MouseMovement { horizontal: -3, vertical: 0 });
    assert_eq!(mouse.port_read(X_PORT), 4 + 127 - 2);
}

#[test]
fn null_mouse_reads_high() {
    let mut mouse = NullMouseDevice;
    mouse.set_buttons(MouseButtons::all());
    assert_eq!(mouse.get_buttons(), MouseButtons::empty());
    assert_eq!(mouse.port_read(0), 255);
}

#[test]
fn mouse_bus_device_combines_data() {
    assert!(KempstonMousePortAddress::match_port(X_PORT));
    assert!(!KempstonMousePortAddress::match_port(0x00FE));
    let mut bus = MouseBusDevice::<KempstonMousePortAddress, _, ()>::new(KempstonMouseDevice::default(), ());
    bus.mouse.move_mouse(MouseMovement { horizontal: 2, vertical: 0 });
    assert_eq!(bus.read_io(X_PORT, None), Some((0, None)));
    assert_eq!(bus.read_io(X_PORT, Some((0xF0, Some(3)))), Some((0, Some(3))));
    assert_eq!(bus.read_io(0x00FE, Some((0x1F, None))), Some((0x1F, None)));
    assert_eq!(bus.write_io(X_PORT, 1), None);
}

#[derive(Debug, Default)]
struct LineSpooler {
    lines: Vec<Vec<u8>>,
    motor: bool,
}

impl Spooler for LineSpooler {
    fn motor_on(&mut self) {
        self.motor = true;
    }
    fn motor_off(&mut self) {
        self.motor = false;
    }
    fn push_line(&mut self, line: &[u8]) {
        self.lines.push(line.to_vec());
    }
}

#[test]
fn zx_printer_prints_dots() {
    let mut printer = ZxPrinterDevice::<LineSpooler>::default();
    assert_eq!(printer.bit_delay, 855);
    assert_eq!(printer.read_status(0), STATUS_OFF);
    printer.write_control(0x00, 0);
    assert!(printer.spooler.motor);
    assert_eq!(printer.read_status(10), STATUS_NOT_READY);
    assert_eq!(printer.read_status(900), STATUS_NEW_LINE);
    printer.write_control(0x80, 900);
    assert_eq!(printer.read_status(901), STATUS_NOT_READY);
    assert_eq!(printer.read_status(2000), STATUS_BIT_READY);
    // slow motor: the next bit takes twice as long
    printer.write_control(0x02, 2000);
    assert_eq!(printer.read_status(2000 + 855 + 1), STATUS_NOT_READY);
    assert_eq!(printer.read_status(2000 + 2 * 855 + 1), STATUS_BIT_READY);
    printer.write_control(0x04, 5000);
    assert!(!printer.spooler.motor);
    // the last byte of a line cut short keeps only the bit of its last dot
    assert_eq!(printer.spooler.lines, vec![vec![0x00]]);
    assert_eq!(printer.read_status(6000), STATUS_OFF);
}

#[test]
fn zx_printer_pushes_full_lines() {
    let mut printer = ZxPrinterDevice::<LineSpooler>::default();
    printer.bit_delay = 1;
    let mut ts = 0;
    printer.write_control(0x00, ts);
    for dot in 0..256 {
        ts += 10;
        assert_eq!(printer.read_status(ts), if dot == 0 { STATUS_NEW_LINE } else { STATUS_BIT_READY });
        printer.write_control(if dot % 2 == 0 { 0x80 } else { 0x00 }, ts);
    }
    assert_eq!(printer.spooler.lines, vec![vec![0xAA; 32]]);
    ts += 10;
    assert_eq!(printer.read_status(ts), STATUS_NEW_LINE);
    printer.next_frame(ts);
    printer.reset();
    assert_eq!(printer.read_status(0), STATUS_OFF);
}

#[test]
fn zx_printer_bus_device_works() {
    let mut bus = ZxPrinterBusDevice::<ZxPrinterPortAddress, _, ()>::new(ZxPrinterDevice::<LineSpooler>::default(), ());
    assert_eq!(bus.read_io(0x00FB, 0, None), Some((STATUS_OFF, None)));
    assert_eq!(bus.read_io(0x00FF, 0, Some((1, None))), Some((1, None)));
    assert_eq!(bus.write_io(0x00FB, 0, 0), Some(0));
    assert!(bus.printer.spooler.motor);
    assert_eq!(bus.write_io(0x00FF, 4, 0), None);
    assert!(bus.printer.spooler.motor);
}

#[test]
fn plus3_centronics_port_works() {
    let mut bus = Plus3CentronicsBusDevice::new(NullParallelPort::<i32>::default(), ());
    assert_eq!(bus.read_io(0x0FFD), Some((0xFE, None)));
    assert_eq!(bus.read_io(0x7FFD), None);
    assert_eq!(bus.write_io(0x0FFD, 0x41, 0), Some(0));
    assert_eq!(bus.write_io(0x1FFD, 0x10, 0), None);
    assert_eq!(bus.read_io(0x0FFD), Some((0xFE, None)));
    bus.update_timestamp();
    bus.next_frame();
}

#[test]
fn rs232_receives_and_sends_bytes() {
    let mut rs = Rs232Io::<&[u8], Vec<u8>>::default();
    assert_eq!(rs.baud_rate(), 9600);
    // the Spectrum sends 'A' at 9600 bauds: a START bit, 8 data bits and a STOP bit
    assert_eq!(rs.write_data(DataState::Space, 0), ControlState::Active);
    for k in 0..8 {
        let bit = if (b'A' >> k) & 1 == 1 { DataState::Mark } else { DataState::Space };
        assert_eq!(rs.write_data(bit, 364 * (k + 1)), ControlState::Active);
    }
    assert_eq!(rs.write_data(DataState::Mark, 364 * 9), ControlState::Active);
    assert_eq!(rs.writer, b"A".to_vec());
    assert_eq!(rs.baud_rate(), 9600);
    // the Spectrum receives 'B'
    rs.reader = b"B";
    rs.update_cts(ControlState::Active, 4000);
    assert_eq!(rs.read_data(4000), DataState::Space);
    let mut ts = 4000 + 364;
    let mut byte = 0u8;
    for k in 0..8 {
        if rs.read_data(ts) == DataState::Mark {
            byte |= 1 << k;
        }
        ts += 360;
    }
    assert_eq!(byte, b'B');
    assert_eq!(rs.read_data(ts), DataState::Mark);
    rs.update_cts(ControlState::Inactive, ts);
    assert_eq!(rs.read_data(ts + 10), DataState::Mark);
    rs.next_frame(70000);
}

#[test]
fn rs232_fails_out_of_time() {
    let mut rs = Rs232Io::<&[u8], Vec<u8>>::default();
    assert_eq!(rs.write_data(DataState::Space, 0), ControlState::Active);
    assert_eq!(rs.write_data(DataState::Mark, 100_000), ControlState::Inactive);
    assert_eq!(rs.poll_ready(100_001), ControlState::Inactive);
    assert_eq!(rs.poll_ready(100_000 + 785_708), ControlState::Active);
}

#[derive(Debug, Default)]
struct NoSocket {
    packet: Vec<u8>,
    sent: Vec<Vec<u8>>,
}

impl ZxNetSocket for NoSocket {
    fn packet_data(&self) -> &[u8] {
        &self.packet
    }
    fn begin_packet(&mut self) {
        self.packet.clear();
    }
    fn push_byte(&mut self, byte: u8) -> usize {
        self.packet.push(byte);
        self.packet.len()
    }
    fn outbound_index(&self) -> usize {
        self.packet.len()
    }
    fn send_packet(&mut self) {
        self.sent.push(self.packet.clone());
    }
    fn recv_accept(&mut self) -> bool {
        false
    }
    fn recv_packet(&mut self) -> bool {
        false
    }
    fn pull_byte(&mut self) -> Option<u8> {
        None
    }
    fn inbound_index(&self) -> usize {
        0
    }
    fn send_accept(&mut self) {}
}

#[test]
fn zxnet_idle_and_scout() {
    let mut net = ZxNet::<NoSocket>::default();
    assert!(!net.poll_state(10));
    assert!(!net.poll_state(20));
    // a scout starts an outbound packet
    net.send_state(false, 30);
    net.send_state(true, 40);
    // the start bit and a byte of bits, then the stop bit
    net.send_state(false, 60);
    for k in 0..8 {
        net.send_state(k % 2 == 0, 100 + 50 * k);
    }
    net.send_state(true, 500);
    assert_eq!(net.socket.packet, vec![0b0101_0101]);
    net.wait_data(1000);
    assert!(!net.poll_state(20000));
    net.next_frame(70000);
}

fn send_byte(net: &mut ZxNet<NoSocket>, byte: u8, mut t: i32) -> i32 {
    net.send_state(false, t);
    t += 50;
    for k in 0..8 {
        net.send_state((byte >> k) & 1 == 1, t);
        t += 50;
    }
    net.send_state(true, t);
    t + 50
}

#[test]
fn zxnet_sends_a_broadcast_packet_when_complete() {
    let mut net = ZxNet::<NoSocket>::default();
    net.send_state(false, 30);
    net.send_state(true, 40);
    let header = [0u8, 1, 0, 0, 0, 1, 0, 0];
    let mut t = 60;
    for b in header {
        t = send_byte(&mut net, b, t);
    }
    assert_eq!(net.socket.packet, header.to_vec());
    assert!(net.socket.sent.is_empty());
    // the end of the header, then the line raised again for the data
    net.send_state(false, t);
    net.send_state(true, t + 10);
    send_byte(&mut net, 0x42, t + 30);
    let mut packet = header.to_vec();
    packet.push(0x42);
    assert_eq!(net.socket.sent, vec![packet]);
}

#[test]
fn zxnet_outbound_after_push_decides() {
    let data = [0u8, 1, 0, 0, 0, 2, 0, 0, 7, 8];
    assert_eq!(outbound_after_push(8, &data[..8]), (NetState::OutputEnd, false));
    assert_eq!(outbound_after_push(9, &data[..9]), (NetState::OutputStart, false));
    assert_eq!(outbound_after_push(10, &data), (NetState::OutputEnd, true));
    assert_eq!(outbound_after_push(3, &data[..3]), (NetState::OutputStart, false));
}

#[test]
fn zxnet_head_reads_bytes() {
    let data: &[u8] = &[1, 2, 3, 4, 0, 5, 6, 7, 8];
    let head = data.as_zxnet_header();
    assert_eq!(head.dest, 1);
    assert_eq!(head.ours, 2);
    assert_eq!(head.serial, [3, 4]);
    assert_eq!(head.eof, 0);
    assert_eq!(head.size, 5);
    assert_eq!(head.dchk, 6);
    assert_eq!(head.hchk, 7);
}

#[test]
fn frame_duration_works() {
    assert_eq!(nanos_from_frame_tc_cpu_hz(69888, 3_500_000), 19_968_000);
    assert_eq!(duration_from_frame_tc_cpu_hz(69888, 3_500_000), std::time::Duration::from_nanos(19_968_000));
    assert_eq!(duration_of_nanos(1_500_000_007), std::time::Duration::new(1, 500_000_007));
    assert_eq!(duration_of_nanos(u64::MAX), std::time::Duration::from_nanos(u64::MAX));
}
