//! What one adjustable parameter of a camera offers.

use vstd::prelude::*;
use crate::abi;
use crate::abi::{RawControlCaps, RawControlCapsView};
use crate::enums::{ASIBool, ASIControlType};
use crate::sentinel::used_len;
use crate::text::{
    chars_to_string, is_nul_free, lemma_buffer_round_trip, lemma_decoded_text_fits,
    lemma_decoded_text_nul_free, lemma_text_round_trip, spec_chars_to_string, spec_nul_free,
    spec_string_to_chars, spec_text_fits, string_to_chars, text_fits, TextError, NUL,
};
use crate::width;

verus! {

/// The capability of one control: its name, its range, and what may be done
/// with it.
#[derive(Debug, Clone, PartialEq, Eq)]
pub struct ASIControlCaps {
    pub name: String,
    pub description: String,
    pub max_value: i32,
    pub min_value: i32,
    pub default_value: i32,
    pub is_auto_supported: bool,
    pub is_writable: bool,
    pub control_type: ASIControlType,
}

/// What an `ASIControlCaps` holds.
pub struct ControlCapsView {
    pub name: Seq<char>,
    pub description: Seq<char>,
    pub max_value: i32,
    pub min_value: i32,
    pub default_value: i32,
    pub is_auto_supported: bool,
    pub is_writable: bool,
    pub control_type: ASIControlType,
}

impl View for ASIControlCaps {
    type V = ControlCapsView;

    open spec fn view(&self) -> ControlCapsView {
        ControlCapsView {
            name: self.name@,
            description: self.description@,
            max_value: self.max_value,
            min_value: self.min_value,
            default_value: self.default_value,
            is_auto_supported: self.is_auto_supported,
            is_writable: self.is_writable,
            control_type: self.control_type,
        }
    }
}

impl ControlCapsView {
    /// The invariant of a capability: the default lies within the range.
    pub open spec fn wf(self) -> bool {
        self.min_value <= self.default_value <= self.max_value
    }

    /// Whether the capability fits into a raw record: each text with its
    /// NUL into its buffer.
    pub open spec fn fits_raw(self) -> bool {
        &&& spec_text_fits(self.name, abi::NAME_CAPACITY as nat)
        &&& spec_text_fits(self.description, abi::DESCRIPTION_CAPACITY as nat)
    }

    /// Whether a raw record can hold the capability so that it is read back
    /// as it is: it fits, and no NUL character in a text would end the text
    /// early.
    pub open spec fn representable(self) -> bool {
        &&& self.fits_raw()
        &&& spec_nul_free(self.name)
        &&& spec_nul_free(self.description)
    }

    /// The raw record that holds this capability.
    pub open spec fn to_raw(self) -> RawControlCapsView {
        RawControlCapsView {
            name: spec_string_to_chars(self.name, abi::NAME_CAPACITY as nat),
            description: spec_string_to_chars(self.description, abi::DESCRIPTION_CAPACITY as nat),
            max_value: self.max_value as i64,
            min_value: self.min_value as i64,
            default_value: self.default_value as i64,
            is_auto_supported: ASIBool::spec_from_bool(self.is_auto_supported).spec_to_raw(),
            is_writable: ASIBool::spec_from_bool(self.is_writable).spec_to_raw(),
            control_type: self.control_type.spec_to_raw(),
            unused: Seq::new(32, |i: int| 0u8),
        }
    }
}

impl RawControlCapsView {
    /// Whether the record is one the SDK may hand out: the boolean and
    /// enumeration fields hold documented values and the wide fields fit the
    /// host's width.
    pub open spec fn known(self) -> bool {
        &&& width::spec_fits(self.max_value)
        &&& width::spec_fits(self.min_value)
        &&& width::spec_fits(self.default_value)
        &&& ASIBool::spec_is_known(self.is_auto_supported)
        &&& ASIBool::spec_is_known(self.is_writable)
        &&& ASIControlType::spec_is_known(self.control_type)
    }

    /// Whether the record's default lies within its range.
    pub open spec fn wf(self) -> bool {
        self.min_value <= self.default_value <= self.max_value
    }

    /// The capability that the record holds, or why one of its texts cannot
    /// be read; the name is read first.  The padding is not looked at.
    pub open spec fn decode(self) -> Result<ControlCapsView, TextError> {
        match spec_chars_to_string(self.name) {
            Err(e) => Err(e),
            Ok(name) => match spec_chars_to_string(self.description) {
                Err(e) => Err(e),
                Ok(description) => Ok(
                    ControlCapsView {
                        name,
                        description,
                        max_value: self.max_value as i32,
                        min_value: self.min_value as i32,
                        default_value: self.default_value as i32,
                        is_auto_supported: ASIBool::spec_from_raw(
                            self.is_auto_supported,
                        ).spec_to_bool(),
                        is_writable: ASIBool::spec_from_raw(self.is_writable).spec_to_bool(),
                        control_type: ASIControlType::spec_from_raw(self.control_type),
                    },
                ),
            },
        }
    }
}

/// Whether a record is laid out as `to_raw` lays it out: zeros behind
/// each text, and zeroed padding.
pub open spec fn spec_tidy(raw: RawControlCapsView) -> bool {
    &&& forall|i: int| used_len(raw.name, NUL) <= i < raw.name.len() ==> raw.name[i] == NUL
    &&& forall|i: int|
        used_len(raw.description, NUL) <= i < raw.description.len() ==> raw.description[i] == NUL
    &&& forall|i: int| 0 <= i < raw.unused.len() ==> raw.unused[i] == 0
}

/// A representable capability is decoded unchanged from the record it is
/// encoded to.
pub proof fn lemma_control_caps_round_trip(caps: ControlCapsView)
    requires
        caps.representable(),
    ensures
        caps.to_raw().known(),
        caps.to_raw().decode() == Ok::<ControlCapsView, TextError>(caps),
{
    lemma_text_round_trip(caps.name, abi::NAME_CAPACITY as nat);
    lemma_text_round_trip(caps.description, abi::DESCRIPTION_CAPACITY as nat);
    ASIControlType::lemma_to_raw_from_raw(caps.control_type);
    ASIBool::lemma_flag_round_trip(caps.is_auto_supported);
    ASIBool::lemma_flag_round_trip(caps.is_writable);
}

/// Whatever is decoded from a record is representable, and so is decoded
/// unchanged once more from the record it is encoded to.
pub proof fn lemma_decoded_control_caps_round_trip(raw: RawControlCaps)
    requires
        raw@.known(),
    ensures
        raw@.decode() matches Ok(caps) ==> caps.representable() && caps.to_raw().decode() == Ok::<
            ControlCapsView,
            TextError,
        >(caps),
{
    if let Ok(caps) = raw@.decode() {
        lemma_decoded_text_fits(raw.name@);
        lemma_decoded_text_nul_free(raw.name@);
        lemma_decoded_text_fits(raw.description@);
        lemma_decoded_text_nul_free(raw.description@);
        lemma_control_caps_round_trip(caps);
    }
}

/// A tidy record that the SDK may hand out is encoded again, byte for
/// byte, from the capability decoded out of it.
pub proof fn lemma_raw_control_caps_round_trip(raw: RawControlCaps)
    requires
        raw@.known(),
        spec_tidy(raw@),
    ensures
        raw@.decode() matches Ok(caps) ==> caps.to_raw() == raw@,
{
    if let Ok(caps) = raw@.decode() {
        lemma_buffer_round_trip(raw.name@);
        lemma_buffer_round_trip(raw.description@);
        ASIControlType::lemma_from_raw_to_raw(raw.control_type);
        ASIBool::lemma_raw_flag_round_trip(raw.is_auto_supported);
        ASIBool::lemma_raw_flag_round_trip(raw.is_writable);
        assert(caps.to_raw().unused =~= raw@.unused);
    }
}

impl ASIControlCaps {
    /// Whether `raw` may be handed to `from_raw`.
    pub fn accepts(raw: &RawControlCaps) -> (b: bool)
        ensures
            b == raw@.known(),
    {
        width::fits(raw.max_value) && width::fits(raw.min_value) && width::fits(raw.default_value)
            && ASIBool::is_known(raw.is_auto_supported) && ASIBool::is_known(raw.is_writable)
            && ASIControlType::is_known(raw.control_type)
    }

    /// Decodes a capability record.  The only failure is a buffer that holds
    /// no text.  The range is taken as it stands: it is ordered in the
    /// result exactly if it is ordered in the record.
    pub fn from_raw(raw: RawControlCaps) -> (r: Result<Self, TextError>)
        requires
            raw@.known(),
        ensures
            match r {
                Ok(caps) => raw@.decode() == Ok::<ControlCapsView, TextError>(caps@)
                    && caps@.representable() && (caps@.wf() <==> raw@.wf()),
                Err(e) => raw@.decode() == Err::<ControlCapsView, TextError>(e),
            },
    {
        let name = match chars_to_string(raw.name.as_slice()) {
            Ok(name) => name,
            Err(e) => {
                return Err(e);
            },
        };
        let description = match chars_to_string(raw.description.as_slice()) {
            Ok(description) => description,
            Err(e) => {
                return Err(e);
            },
        };
        Ok(
            Self {
                name,
                description,
                max_value: width::narrow(raw.max_value),
                min_value: width::narrow(raw.min_value),
                default_value: width::narrow(raw.default_value),
                is_auto_supported: ASIBool::from_raw(raw.is_auto_supported).to_bool(),
                is_writable: ASIBool::from_raw(raw.is_writable).to_bool(),
                control_type: ASIControlType::from_raw(raw.control_type),
            },
        )
    }

    /// Whether the capability keeps the invariant.
    pub fn is_well_formed(&self) -> (b: bool)
        ensures
            b == self@.wf(),
    {
        self.min_value <= self.default_value && self.default_value <= self.max_value
    }

    /// Whether the capability is read back as it is from the record it is
    /// encoded to.
    pub fn is_representable(&self) -> (b: bool)
        ensures
            b == self@.representable(),
    {
        self.fits_raw() && is_nul_free(self.name.as_str()) && is_nul_free(
            self.description.as_str(),
        )
    }

    /// Whether the capability may be handed to `to_raw`.
    pub fn fits_raw(&self) -> (b: bool)
        ensures
            b == self@.fits_raw(),
    {
        text_fits(self.name.as_str(), abi::NAME_CAPACITY) && text_fits(
            self.description.as_str(),
            abi::DESCRIPTION_CAPACITY,
        )
    }

    /// Encodes the capability.  A text that does not fit is not accepted:
    /// nothing is cut.  The padding is zeroed.
    pub fn to_raw(&self) -> (raw: RawControlCaps)
        requires
            self@.fits_raw(),
        ensures
            raw@ == self@.to_raw(),
    {
        let raw = RawControlCaps {
            name: string_to_chars::<64>(self.name.as_str()),
            description: string_to_chars::<128>(self.description.as_str()),
            max_value: width::widen(self.max_value),
            min_value: width::widen(self.min_value),
            default_value: width::widen(self.default_value),
            is_auto_supported: ASIBool::from_bool(self.is_auto_supported).to_raw(),
            is_writable: ASIBool::from_bool(self.is_writable).to_raw(),
            control_type: self.control_type.to_raw(),
            unused: [0u8;32],
        };
        assert(raw.unused@ =~= Seq::new(32, |i: int| 0u8));
        raw
    }
}

impl Default for ASIControlCaps {
    /// The empty capability: no texts, the range from zero to zero, nothing
    /// allowed, of type gain.
    fn default() -> (caps: Self)
        ensures
            caps@ == (ControlCapsView {
                name: Seq::<char>::empty(),
                description: Seq::<char>::empty(),
                max_value: 0,
                min_value: 0,
                default_value: 0,
                is_auto_supported: false,
                is_writable: false,
                control_type: ASIControlType::Gain,
            }),
            caps@.representable(),
            caps@.wf(),
    {
        Self {
            name: String::new(),
            description: String::new(),
            max_value: 0,
            min_value: 0,
            default_value: 0,
            is_auto_supported: false,
            is_writable: false,
            control_type: ASIControlType::Gain,
        }
    }
}

} // verus!
