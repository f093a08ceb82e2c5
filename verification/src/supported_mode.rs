//! The operating modes a trigger-capable camera accepts.

use vstd::prelude::*;
use crate::abi;
use crate::abi::RawSupportedMode;
use crate::enums::ASICameraMode;
use crate::sentinel::{lemma_used_len_exists, lemma_used_of_padded, padded, scan, used, used_len};

verus! {

/// The modes a camera supports, in the SDK's order.
#[derive(Debug, Clone, PartialEq, Eq)]
pub struct ASISupportedMode {
    pub supported_camera_mode: Vec<ASICameraMode>,
}

/// The modes that a raw list names: its used part, each value decoded.
pub open spec fn spec_modes_from_raw(slots: Seq<i32>) -> Seq<ASICameraMode> {
    used(slots, abi::ASI_MODE_END).map_values(|raw: i32| ASICameraMode::spec_from_raw(raw))
}

/// The raw list of `capacity` slots that names `modes`: each encoded, then
/// the end tag to the last slot.
pub open spec fn spec_modes_to_raw(modes: Seq<ASICameraMode>, capacity: nat) -> Seq<i32> {
    padded(modes.map_values(|m: ASICameraMode| m.spec_to_raw()), abi::ASI_MODE_END, capacity)
}

/// Whether every used slot of a raw list of modes holds a documented value.
pub open spec fn spec_modes_known(slots: Seq<i32>) -> bool {
    forall|i: int|
        0 <= i < used_len(slots, abi::ASI_MODE_END) ==> ASICameraMode::spec_is_known(
            #[trigger] slots[i],
        )
}

/// The invariant of a list of supported modes: it is no longer than the
/// hardware's array and does not hold the tag that ends it there.
pub open spec fn spec_modes_wf(modes: Seq<ASICameraMode>) -> bool {
    &&& modes.len() <= abi::MODE_CAPACITY
    &&& forall|i: int| 0 <= i < modes.len() ==> modes[i] != ASICameraMode::End
}

/// A list of modes that keeps the invariant is decoded unchanged from the
/// raw list it is encoded to.
pub proof fn lemma_modes_round_trip(modes: Seq<ASICameraMode>)
    requires
        spec_modes_wf(modes),
    ensures
        spec_modes_known(spec_modes_to_raw(modes, abi::MODE_CAPACITY as nat)),
        spec_modes_from_raw(spec_modes_to_raw(modes, abi::MODE_CAPACITY as nat)) == modes,
{
    let raws = modes.map_values(|m: ASICameraMode| m.spec_to_raw());
    let slots = spec_modes_to_raw(modes, abi::MODE_CAPACITY as nat);
    lemma_used_of_padded(raws, abi::ASI_MODE_END, abi::MODE_CAPACITY as nat);
    assert forall|i: int| 0 <= i < modes.len() implies ASICameraMode::spec_from_raw(raws[i])
        == modes[i] && ASICameraMode::spec_is_known(slots[i]) by {
        ASICameraMode::lemma_to_raw_from_raw(modes[i]);
    }
    assert(spec_modes_from_raw(slots) =~= modes);
}

/// A raw list of modes whose unused slots all hold the end tag is written
/// again, slot for slot, from the list decoded out of it.
pub proof fn lemma_raw_modes_round_trip(raw: RawSupportedMode)
    requires
        spec_modes_known(raw.supported_camera_mode@),
        forall|i: int|
            used_len(raw.supported_camera_mode@, abi::ASI_MODE_END) <= i < abi::MODE_CAPACITY
                ==> raw.supported_camera_mode@[i] == abi::ASI_MODE_END,
    ensures
        spec_modes_to_raw(
            spec_modes_from_raw(raw.supported_camera_mode@),
            abi::MODE_CAPACITY as nat,
        ) == raw.supported_camera_mode@,
{
    let slots = raw.supported_camera_mode@;
    lemma_used_len_exists(slots, abi::ASI_MODE_END);
    let modes = spec_modes_from_raw(slots);
    assert forall|i: int| 0 <= i < modes.len() implies modes[i].spec_to_raw() == slots[i] by {
        ASICameraMode::lemma_from_raw_to_raw(slots[i]);
    }
    assert(spec_modes_to_raw(modes, abi::MODE_CAPACITY as nat) =~= slots);
}

impl View for ASISupportedMode {
    type V = Seq<ASICameraMode>;

    open spec fn view(&self) -> Seq<ASICameraMode> {
        self.supported_camera_mode@
    }
}

impl ASISupportedMode {
    /// Whether `raw` may be handed to `from_raw`.
    pub fn accepts(raw: &RawSupportedMode) -> (b: bool)
        ensures
            b == spec_modes_known(raw.supported_camera_mode@),
    {
        let n = scan(raw.supported_camera_mode.as_slice(), abi::ASI_MODE_END);
        let mut i: usize = 0;
        while i < n
            invariant
                i <= n <= 16,
                n == used_len(raw.supported_camera_mode@, abi::ASI_MODE_END),
                forall|j: int|
                    0 <= j < i ==> ASICameraMode::spec_is_known(
                        #[trigger] raw.supported_camera_mode@[j],
                    ),
            decreases n - i,
        {
            if !ASICameraMode::is_known(raw.supported_camera_mode[i]) {
                return false;
            }
            i = i + 1;
        }
        true
    }

    /// Decodes the list: the slots before the first end tag, or all of them
    /// if there is none.
    pub fn from_raw(raw: RawSupportedMode) -> (v: Self)
        requires
            spec_modes_known(raw.supported_camera_mode@),
        ensures
            v@ == spec_modes_from_raw(raw.supported_camera_mode@),
            spec_modes_wf(v@),
    {
        let n = scan(raw.supported_camera_mode.as_slice(), abi::ASI_MODE_END);
        let mut modes: Vec<ASICameraMode> = Vec::new();
        let mut i: usize = 0;
        while i < n
            invariant
                i <= n <= 16,
                n == used_len(raw.supported_camera_mode@, abi::ASI_MODE_END),
                spec_modes_known(raw.supported_camera_mode@),
                forall|j: int| 0 <= j < n ==> raw.supported_camera_mode@[j] != abi::ASI_MODE_END,
                modes@.len() == i,
                forall|j: int|
                    0 <= j < i ==> modes@[j] == ASICameraMode::spec_from_raw(
                        #[trigger] raw.supported_camera_mode@[j],
                    ),
                forall|j: int| 0 <= j < i ==> modes@[j] != ASICameraMode::End,
            decreases n - i,
        {
            let mode = ASICameraMode::from_raw(raw.supported_camera_mode[i]);
            modes.push(mode);
            i = i + 1;
        }
        assert(modes@ =~= spec_modes_from_raw(raw.supported_camera_mode@));
        Self { supported_camera_mode: modes }
    }

    /// Whether the list keeps the invariant.
    pub fn is_well_formed(&self) -> (b: bool)
        ensures
            b == spec_modes_wf(self@),
    {
        if self.supported_camera_mode.len() > abi::MODE_CAPACITY {
            return false;
        }
        let mut i: usize = 0;
        while i < self.supported_camera_mode.len()
            invariant
                i <= self.supported_camera_mode@.len(),
                forall|j: int| 0 <= j < i ==> self.supported_camera_mode@[j] != ASICameraMode::End,
            decreases self.supported_camera_mode@.len() - i,
        {
            if self.supported_camera_mode[i].to_raw() == abi::ASI_MODE_END {
                return false;
            }
            i = i + 1;
        }
        true
    }

    /// Whether the list may be handed to `to_raw`.
    pub fn fits_raw(&self) -> (b: bool)
        ensures
            b == (self@.len() <= abi::MODE_CAPACITY),
    {
        self.supported_camera_mode.len() <= abi::MODE_CAPACITY
    }

    /// Encodes the list: the modes from the first slot on, the end tag in
    /// every slot behind them.  A list longer than the array is not
    /// accepted.
    pub fn to_raw(&self) -> (raw: RawSupportedMode)
        requires
            self@.len() <= abi::MODE_CAPACITY,
        ensures
            raw.supported_camera_mode@ == spec_modes_to_raw(self@, abi::MODE_CAPACITY as nat),
    {
        let mut slots = [abi::ASI_MODE_END;16];
        let mut i: usize = 0;
        while i < self.supported_camera_mode.len()
            invariant
                i <= self.supported_camera_mode@.len() <= 16,
                forall|j: int|
                    0 <= j < i ==> slots@[j] == self.supported_camera_mode@[j].spec_to_raw(),
                forall|j: int| i <= j < 16 ==> slots@[j] == abi::ASI_MODE_END,
            decreases self.supported_camera_mode@.len() - i,
        {
            slots[i] = self.supported_camera_mode[i].to_raw();
            i = i + 1;
        }
        assert(slots@ =~= spec_modes_to_raw(self@, abi::MODE_CAPACITY as nat));
        RawSupportedMode { supported_camera_mode: slots }
    }
}

} // verus!
