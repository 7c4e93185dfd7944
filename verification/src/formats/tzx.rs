//! The *TZX* tape format: block identifiers and the interface of its chunks.
use vstd::prelude::*;

verus! {

/// The identifier of a *TZX* block.
#[derive(Clone, Copy, Debug, PartialEq, Eq, PartialOrd, Ord, Hash, Structural)]
pub enum TzxId {
    StandardSpeed,
    TurboSpeed,
    PureTone,
    SeqOfPulses,
    PureData,
    DirectRec,
    CswRecording,
    Generalized,
    Pause,
    GroupStart,
    GroupEnd,
    Jump,
    LoopStart,
    LoopEnd,
    CallSeq,
    Return,
    Select,
    StopIn48k,
    SetLevel,
    Text,
    Message,
    Archive,
    Hardware,
    Custom,
    Glue,
}

/// The byte that identifies a block of the kind `id`.
pub open spec fn spec_tzx_id_value(id: TzxId) -> u8 {
    match id {
        TzxId::StandardSpeed => 0x10,
        TzxId::TurboSpeed => 0x11,
        TzxId::PureTone => 0x12,
        TzxId::SeqOfPulses => 0x13,
        TzxId::PureData => 0x14,
        TzxId::DirectRec => 0x15,
        TzxId::CswRecording => 0x18,
        TzxId::Generalized => 0x19,
        TzxId::Pause => 0x20,
        TzxId::GroupStart => 0x21,
        TzxId::GroupEnd => 0x22,
        TzxId::Jump => 0x23,
        TzxId::LoopStart => 0x24,
        TzxId::LoopEnd => 0x25,
        TzxId::CallSeq => 0x26,
        TzxId::Return => 0x27,
        TzxId::Select => 0x28,
        TzxId::StopIn48k => 0x2A,
        TzxId::SetLevel => 0x2B,
        TzxId::Text => 0x30,
        TzxId::Message => 0x31,
        TzxId::Archive => 0x32,
        TzxId::Hardware => 0x33,
        TzxId::Custom => 0x35,
        TzxId::Glue => 0x5A,
    }
}

/// The kind of block identified by `value`, if any.
pub open spec fn spec_tzx_id(value: u8) -> Option<TzxId> {
    match value {
        0x10 => Some(TzxId::StandardSpeed),
        0x11 => Some(TzxId::TurboSpeed),
        0x12 => Some(TzxId::PureTone),
        0x13 => Some(TzxId::SeqOfPulses),
        0x14 => Some(TzxId::PureData),
        0x15 => Some(TzxId::DirectRec),
        0x18 => Some(TzxId::CswRecording),
        0x19 => Some(TzxId::Generalized),
        0x20 => Some(TzxId::Pause),
        0x21 => Some(TzxId::GroupStart),
        0x22 => Some(TzxId::GroupEnd),
        0x23 => Some(TzxId::Jump),
        0x24 => Some(TzxId::LoopStart),
        0x25 => Some(TzxId::LoopEnd),
        0x26 => Some(TzxId::CallSeq),
        0x27 => Some(TzxId::Return),
        0x28 => Some(TzxId::Select),
        0x2A => Some(TzxId::StopIn48k),
        0x2B => Some(TzxId::SetLevel),
        0x30 => Some(TzxId::Text),
        0x31 => Some(TzxId::Message),
        0x32 => Some(TzxId::Archive),
        0x33 => Some(TzxId::Hardware),
        0x35 => Some(TzxId::Custom),
        0x5A => Some(TzxId::Glue),
        _ => None,
    }
}

impl From<TzxId> for u8 {
    fn from(id: TzxId) -> (r: u8) {
        match id {
            TzxId::StandardSpeed => 0x10,
            TzxId::TurboSpeed => 0x11,
            TzxId::PureTone => 0x12,
            TzxId::SeqOfPulses => 0x13,
            TzxId::PureData => 0x14,
            TzxId::DirectRec => 0x15,
            TzxId::CswRecording => 0x18,
            TzxId::Generalized => 0x19,
            TzxId::Pause => 0x20,
            TzxId::GroupStart => 0x21,
            TzxId::GroupEnd => 0x22,
            TzxId::Jump => 0x23,
            TzxId::LoopStart => 0x24,
            TzxId::LoopEnd => 0x25,
            TzxId::CallSeq => 0x26,
            TzxId::Return => 0x27,
            TzxId::Select => 0x28,
            TzxId::StopIn48k => 0x2A,
            TzxId::SetLevel => 0x2B,
            TzxId::Text => 0x30,
            TzxId::Message => 0x31,
            TzxId::Archive => 0x32,
            TzxId::Hardware => 0x33,
            TzxId::Custom => 0x35,
            TzxId::Glue => 0x5A,
        }
    }
}

impl vstd::std_specs::convert::FromSpecImpl<TzxId> for u8 {
    open spec fn obeys_from_spec() -> bool {
        true
    }

    open spec fn from_spec(id: TzxId) -> u8 {
        spec_tzx_id_value(id)
    }
}

impl core::convert::TryFrom<u8> for TzxId {
    type Error = &'static str;

    fn try_from(value: u8) -> (r: Result<TzxId, &'static str>)
        ensures
            r is Ok <==> spec_tzx_id(value) is Some,
            r is Ok ==> r->Ok_0 == spec_tzx_id(value)->0,
    {
        match value {
            0x10 => Ok(TzxId::StandardSpeed),
            0x11 => Ok(TzxId::TurboSpeed),
            0x12 => Ok(TzxId::PureTone),
            0x13 => Ok(TzxId::SeqOfPulses),
            0x14 => Ok(TzxId::PureData),
            0x15 => Ok(TzxId::DirectRec),
            0x18 => Ok(TzxId::CswRecording),
            0x19 => Ok(TzxId::Generalized),
            0x20 => Ok(TzxId::Pause),
            0x21 => Ok(TzxId::GroupStart),
            0x22 => Ok(TzxId::GroupEnd),
            0x23 => Ok(TzxId::Jump),
            0x24 => Ok(TzxId::LoopStart),
            0x25 => Ok(TzxId::LoopEnd),
            0x26 => Ok(TzxId::CallSeq),
            0x27 => Ok(TzxId::Return),
            0x28 => Ok(TzxId::Select),
            0x2A => Ok(TzxId::StopIn48k),
            0x2B => Ok(TzxId::SetLevel),
            0x30 => Ok(TzxId::Text),
            0x31 => Ok(TzxId::Message),
            0x32 => Ok(TzxId::Archive),
            0x33 => Ok(TzxId::Hardware),
            0x35 => Ok(TzxId::Custom),
            0x5A => Ok(TzxId::Glue),
            _ => Err("Unknown TZX ID"),
        }
    }
}

impl vstd::std_specs::convert::TryFromSpecImpl<u8> for TzxId {
    open spec fn obeys_try_from_spec() -> bool {
        true
    }

    open spec fn try_from_spec(value: u8) -> Result<TzxId, &'static str> {
        match spec_tzx_id(value) {
            Some(id) => Ok(id),
            None => Err("Unknown TZX ID"),
        }
    }
}

/// Every identifier goes to its byte and back unchanged, and a byte identifies at most one kind
/// of block.
pub proof fn lemma_tzx_id_value(id: TzxId, value: u8)
    ensures
        spec_tzx_id(spec_tzx_id_value(id)) == Some(id),
        spec_tzx_id(value) is Some ==> spec_tzx_id_value(spec_tzx_id(value)->0) == value,
{
}

/// A chunk of a *TZX* tape.
pub trait TzxChunk {
    /// The kind of the chunk.
    fn id(&self) -> TzxId;
    /// The length of the chunk's data in bytes.
    fn len(&self) -> usize;
    /// The intervals between the pulses the chunk encodes, in T-states.
    fn pulse_iter(&self) -> Vec<u32>;
    /// The chunk's data.
    fn as_slice(&self) -> &[u8];
    /// Writes the chunk to a *TAP* file; returns the number of *TAP* chunks written, or `None`
    /// when the chunk has no *TAP* form.
    fn write_to_tap<W: std::io::Write + std::io::Seek>(
        &self,
        wr: &mut crate::formats::tap::write::TapChunkWriter<W>,
    ) -> Result<Option<usize>, std::io::Error>;
}

} // verus!
