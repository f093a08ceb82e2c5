//! The eight-byte identifier of a camera.

use vstd::prelude::*;
use crate::abi::RawId;

verus! {

/// An identifier programmed into the hardware: a serial number or the
/// identifier kept in flash.  It is eight bytes, not text.
#[derive(Debug, Clone, Copy, PartialEq, Eq)]
pub struct ASIID {
    pub id: [u8; 8],
}

impl ASIID {
    pub open spec fn spec_from_raw(raw: RawId) -> ASIID {
        ASIID { id: raw.id }
    }

    pub open spec fn spec_to_raw(self) -> RawId {
        RawId { id: self.id }
    }

    /// Takes the eight bytes as they are.
    pub fn from_raw(raw: RawId) -> (v: Self)
        ensures
            v == Self::spec_from_raw(raw),
            v.id@ == raw.id@,
    {
        Self { id: raw.id }
    }

    /// Hands the eight bytes on as they are.
    pub fn to_raw(self) -> (raw: RawId)
        ensures
            raw == self.spec_to_raw(),
            raw.id@ == self.id@,
    {
        RawId { id: self.id }
    }

    /// An identifier passes through its raw record byte for byte.
    pub proof fn lemma_round_trip(id: ASIID)
        ensures
            Self::spec_from_raw(id.spec_to_raw()) == id,
    {
    }

    /// A raw record passes through the identifier byte for byte.
    pub proof fn lemma_raw_round_trip(raw: RawId)
        ensures
            Self::spec_from_raw(raw).spec_to_raw() == raw,
    {
    }
}

} // verus!
