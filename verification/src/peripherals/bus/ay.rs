//! `AY-3-8910` programmable sound generator as a bus device.
use vstd::prelude::*;

use core::marker::PhantomData;

use crate::audio::AmpLevels;
use crate::audio::sample::SampleDelta;
use crate::peripherals::ay::audio::{Ay3_891xAudio, CLOCK_INCREASE};
use crate::peripherals::ay::{
    spec_reg_of, write_ay_io, Ay3_891xIo, AyIoPort, AyPortDecode, AyRegVecRecorder, AyRegister,
};

verus! {

/// Implement this empty trait for bus devices that pass the rendering of the `AY-3-8910` audio
/// on to the next devices.
pub trait PassByAyAudioBusDevice {
}

/// `AY-3-8910/8912/8913` programmable sound generator as a bus device at the ports decoded by
/// `P`, in front of the next device `D` on the bus.
///
/// Envelops [Ay3_891xAudio] sound generator and [Ay3_891xIo] I/O ports peripherals, whose register
/// changes are recorded with their timestamps, in T-states, to be rendered as the sound of the frame.
#[derive(Debug)]
pub struct Ay3_891xBusDevice<P, A, B, D> {
    /// Provides a direct access to the sound generator.
    pub ay_sound: Ay3_891xAudio,
    /// Provides a direct access to the I/O ports.
    pub ay_io: Ay3_891xIo<i32, AyRegVecRecorder<i32>, A, B>,
    bus: D,
    _port_decode: PhantomData<P>,
}

impl<P, A, B, D> Ay3_891xBusDevice<P, A, B, D> {
    /// Creates the chip with the given sound generator and I/O, in front of `bus`.
    pub fn new(ay_sound: Ay3_891xAudio, ay_io: Ay3_891xIo<i32, AyRegVecRecorder<i32>, A, B>, bus: D) -> (r: Self)
        ensures r.spec_ay_sound() == ay_sound, r.spec_ay_io() == ay_io, r.spec_next_device() == bus,
    {
        Ay3_891xBusDevice { ay_sound, ay_io, bus, _port_decode: PhantomData }
    }
    /// The sound generator.
    pub closed spec fn spec_ay_sound(&self) -> Ay3_891xAudio {
        self.ay_sound
    }
    /// The I/O ports.
    pub closed spec fn spec_ay_io(&self) -> Ay3_891xIo<i32, AyRegVecRecorder<i32>, A, B> {
        self.ay_io
    }
    /// The next device on the bus.
    pub closed spec fn spec_next_device(&self) -> D {
        self.bus
    }
    /// Returns a reference to the next device on the bus.
    pub fn next_device_ref(&self) -> (r: &D)
        ensures *r == self.spec_next_device(),
    {
        &self.bus
    }
    /// Returns the next device on the bus.
    pub fn into_next_device(self) -> (r: D)
        ensures r == self.spec_next_device(),
    {
        self.bus
    }
}

impl<P: AyPortDecode, A: AyIoPort<Timestamp = i32>, B: AyIoPort<Timestamp = i32>, D> Ay3_891xBusDevice<P, A, B, D> {
    /// Resets the sound generator and the I/O.
    pub fn reset(&mut self, timestamp: i32)
        ensures
            final(self).spec_ay_sound().spec_wf(),
            final(self).spec_ay_io().spec_regs() == Seq::new(16, |i: int| 0u8),
            final(self).spec_ay_io().spec_selected() == AyRegister::ToneFineA,
            final(self).spec_next_device() == old(self).spec_next_device(),
    {
        self.ay_sound.reset();
        self.ay_io.reset(timestamp);
    }

    /// Reads the selected register when `port` reads the data of the chip; other ports are left
    /// to the next device on the bus (`None`).
    pub fn read_io(&mut self, port: u16, timestamp: i32) -> (r: Option<(u8, Option<u16>)>)
        ensures
            (r is Some) == (port & P::spec_port_mask() == P::spec_port_data_read() & P::spec_port_mask()),
            final(self).spec_ay_io().spec_regs() == old(self).spec_ay_io().spec_regs(),
            final(self).spec_ay_io().spec_selected() == old(self).spec_ay_io().spec_selected(),
            final(self).spec_ay_sound() == old(self).spec_ay_sound(),
            final(self).spec_next_device() == old(self).spec_next_device(),
    {
        if P::is_data_read(port) {
            return Some((self.ay_io.data_port_read(port, timestamp), None));
        }
        None
    }

    /// Selects a register or writes the selected one when `port` is that of the chip, and then
    /// returns `Some(0)`; other ports are left to the next device on the bus (`None`).
    pub fn write_io(&mut self, port: u16, data: u8, timestamp: i32) -> (r: Option<u16>)
        ensures
            r == None::<u16> || r == Some(0u16),
            (r is Some) == (port & P::spec_port_mask() == P::spec_port_select()
                || port & P::spec_port_mask() == P::spec_port_data_write()),
            final(self).spec_ay_sound() == old(self).spec_ay_sound(),
            final(self).spec_next_device() == old(self).spec_next_device(),
    {
        if write_ay_io::<P, i32, AyRegVecRecorder<i32>, A, B>(&mut self.ay_io, port, data, timestamp) {
            return Some(0);
        }
        None
    }

    /// The sound generator `s` after taking the values of the first `k` registers of `regs`, in
    /// the order of the registers.
    pub open spec fn spec_with_sound_regs(s: Ay3_891xAudio, regs: Seq<u8>, k: nat) -> Ay3_891xAudio
        decreases k,
    {
        if k == 0 {
            s
        } else {
            Self::spec_with_sound_regs(s, regs, (k - 1) as nat).spec_with_register(
                spec_reg_of((k - 1) as u8),
                regs[k - 1],
            )
        }
    }

    /// Ends the frame: when register changes were left unrendered, the sound generator takes
    /// the values of the sound registers as they are, and then the changes are forgotten.
    pub fn next_frame(&mut self, timestamp: i32)
        requires
            old(self).spec_ay_sound().spec_wf(),
        ensures
            final(self).spec_ay_sound().spec_wf(),
            final(self).spec_ay_io().spec_regs() == old(self).spec_ay_io().spec_regs(),
            final(self).spec_ay_io().spec_selected() == old(self).spec_ay_io().spec_selected(),
            final(self).spec_next_device() == old(self).spec_next_device(),
            final(self).spec_ay_sound() == (if old(self).spec_ay_io().spec_recorder().0@.len() == 0 {
                old(self).spec_ay_sound()
            } else {
                Self::spec_with_sound_regs(old(self).spec_ay_sound(), old(self).spec_ay_io().spec_regs(), 14)
            }),
    {
        if !self.ay_io.recorder_mut().is_empty() {
            let regs = self.ay_io.iter_sound_gen_regs();
            let mut k: usize = 0;
            while k < regs.len()
                invariant
                    k <= regs@.len(),
                    self.ay_sound.spec_wf(),
                    self.ay_sound == Self::spec_with_sound_regs(old(self).ay_sound, old(self).ay_io.spec_regs(), k as nat),
                    regs@.len() == 14,
                    forall|i: int| 0 <= i < 14 ==> regs@[i] == (spec_reg_of(i as u8), old(self).ay_io.spec_regs()[i]),
                    self.ay_io.spec_regs() == old(self).ay_io.spec_regs(),
                    self.ay_io.spec_selected() == old(self).ay_io.spec_selected(),
                    self.bus == old(self).bus,
                decreases regs@.len() - k,
            {
                let (reg, val) = regs[k];
                self.ay_sound.update_register(reg, val);
                k = k + 1;
            }
        }
        self.ay_io.next_frame(timestamp);
    }

    /// Renders the sound of the frame ending at `end_ts` from the recorded register changes,
    /// which are taken out of the recorder, as [Ay3_891xAudio::render_audio] renders it.
    pub fn render_ay_audio<L: AmpLevels<T>, T: SampleDelta>(
        &mut self,
        end_ts: i32,
        frame_tstates: i32,
        chans: [usize; 3],
    ) -> (r: Vec<(usize, i32, T)>)
        requires
            old(self).spec_ay_sound().spec_wf(),
            end_ts <= i32::MAX - CLOCK_INCREASE,
            frame_tstates >= 0,
            old(self).spec_ay_sound().spec_current_ts() - frame_tstates >= i32::MIN,
            end_ts - frame_tstates >= i32::MIN,
        ensures
            final(self).spec_ay_sound().spec_wf(),
            final(self).spec_ay_io().spec_recorder().0@.len() == 0,
            forall|k: int| 0 <= k < r@.len() ==> chans@.contains(#[trigger] r@[k].0),
    {
        let changes = self.ay_io.recorder_mut().drain_ay_reg_changes();
        self.ay_sound.render_audio::<L, T>(changes.as_slice(), end_ts, frame_tstates, chans)
    }
}

} // verus!
