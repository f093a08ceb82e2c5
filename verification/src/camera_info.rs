//! A camera's identity and what it can do.

use vstd::prelude::*;
use crate::abi;
use crate::abi::{RawCameraInfo, RawCameraInfoView};
use crate::enums::{ASIBayerPattern, ASIBool, ASIImageType};
use crate::sentinel::{
    fill, lemma_padded_of_used, lemma_used_len_exists, lemma_used_of_padded, padded, scan,
    take_used, used, used_len,
};
use crate::text::{
    chars_to_string, is_nul_free, lemma_buffer_round_trip, lemma_decoded_text_fits,
    lemma_decoded_text_nul_free, lemma_text_round_trip, spec_chars_to_string, spec_nul_free,
    spec_string_to_chars, spec_text_fits, string_to_chars, text_fits, TextError, NUL,
};
use crate::width;

verus! {

/// The property snapshot of one camera.
///
/// `pixel_size` and `elec_per_adu` are the IEEE 754 bit patterns of the
/// SDK's floating-point fields.
#[derive(Debug, Clone, PartialEq, Eq)]
pub struct ASICameraInfo {
    pub name: String,
    pub camera_id: i32,
    pub max_height: i32,
    pub max_width: i32,
    pub is_color_cam: bool,
    pub bayer_pattern: ASIBayerPattern,
    pub supported_bins: Vec<i32>,
    pub supported_video_format: Vec<ASIImageType>,
    pub pixel_size: u64,
    pub mechanical_shutter: bool,
    pub st4_port: bool,
    pub is_cooler_cam: bool,
    pub is_usb3_host: bool,
    pub is_usb3_camera: bool,
    pub elec_per_adu: u32,
    pub bit_depth: i32,
    pub is_trigger_cam: bool,
}

/// What an `ASICameraInfo` holds.
pub struct CameraInfoView {
    pub name: Seq<char>,
    pub camera_id: i32,
    pub max_height: i32,
    pub max_width: i32,
    pub is_color_cam: bool,
    pub bayer_pattern: ASIBayerPattern,
    pub supported_bins: Seq<i32>,
    pub supported_video_format: Seq<ASIImageType>,
    pub pixel_size: u64,
    pub mechanical_shutter: bool,
    pub st4_port: bool,
    pub is_cooler_cam: bool,
    pub is_usb3_host: bool,
    pub is_usb3_camera: bool,
    pub elec_per_adu: u32,
    pub bit_depth: i32,
    pub is_trigger_cam: bool,
}

impl View for ASICameraInfo {
    type V = CameraInfoView;

    open spec fn view(&self) -> CameraInfoView {
        CameraInfoView {
            name: self.name@,
            camera_id: self.camera_id,
            max_height: self.max_height,
            max_width: self.max_width,
            is_color_cam: self.is_color_cam,
            bayer_pattern: self.bayer_pattern,
            supported_bins: self.supported_bins@,
            supported_video_format: self.supported_video_format@,
            pixel_size: self.pixel_size,
            mechanical_shutter: self.mechanical_shutter,
            st4_port: self.st4_port,
            is_cooler_cam: self.is_cooler_cam,
            is_usb3_host: self.is_usb3_host,
            is_usb3_camera: self.is_usb3_camera,
            elec_per_adu: self.elec_per_adu,
            bit_depth: self.bit_depth,
            is_trigger_cam: self.is_trigger_cam,
        }
    }
}

/// The image types that a raw list names: its used part, each value
/// decoded.
pub open spec fn spec_formats_from_raw(slots: Seq<i32>) -> Seq<ASIImageType> {
    used(slots, abi::ASI_IMG_END).map_values(|raw: i32| ASIImageType::spec_from_raw(raw))
}

/// The raw list of `capacity` slots that names `formats`: each encoded, then
/// the end tag to the last slot.
pub open spec fn spec_formats_to_raw(formats: Seq<ASIImageType>, capacity: nat) -> Seq<i32> {
    padded(formats.map_values(|t: ASIImageType| t.spec_to_raw()), abi::ASI_IMG_END, capacity)
}

/// Whether every used slot of a raw list of image types holds a documented
/// value.
pub open spec fn spec_formats_known(slots: Seq<i32>) -> bool {
    forall|i: int|
        0 <= i < used_len(slots, abi::ASI_IMG_END) ==> ASIImageType::spec_is_known(
            #[trigger] slots[i],
        )
}

/// Whether `slots` may be handed to `formats_from_raw`.
pub fn formats_known(slots: &[i32]) -> (b: bool)
    ensures
        b == spec_formats_known(slots@),
{
    let n = scan(slots, abi::ASI_IMG_END);
    let mut i: usize = 0;
    while i < n
        invariant
            i <= n <= slots@.len(),
            n == used_len(slots@, abi::ASI_IMG_END),
            forall|j: int| 0 <= j < i ==> ASIImageType::spec_is_known(#[trigger] slots@[j]),
        decreases n - i,
    {
        if !ASIImageType::is_known(slots[i]) {
            return false;
        }
        i = i + 1;
    }
    true
}

/// Decodes a sentinel-terminated list of image types.
pub fn formats_from_raw(slots: &[i32]) -> (formats: Vec<ASIImageType>)
    requires
        spec_formats_known(slots@),
    ensures
        formats@ == spec_formats_from_raw(slots@),
        formats@.len() <= slots@.len(),
        forall|i: int| 0 <= i < formats@.len() ==> formats@[i] != ASIImageType::End,
{
    let n = scan(slots, abi::ASI_IMG_END);
    let mut formats: Vec<ASIImageType> = Vec::new();
    let mut i: usize = 0;
    while i < n
        invariant
            i <= n <= slots@.len(),
            n == used_len(slots@, abi::ASI_IMG_END),
            spec_formats_known(slots@),
            forall|j: int| 0 <= j < n ==> slots@[j] != abi::ASI_IMG_END,
            formats@.len() == i,
            forall|j: int|
                0 <= j < i ==> formats@[j] == ASIImageType::spec_from_raw(#[trigger] slots@[j]),
            forall|j: int| 0 <= j < i ==> formats@[j] != ASIImageType::End,
        decreases n - i,
    {
        let format = ASIImageType::from_raw(slots[i]);
        formats.push(format);
        i = i + 1;
    }
    assert(formats@ =~= spec_formats_from_raw(slots@));
    formats
}

/// Encodes a list of image types into `N` slots.
pub fn formats_to_raw<const N: usize>(formats: &[ASIImageType]) -> (slots: [i32; N])
    requires
        formats@.len() <= N,
    ensures
        slots@ == spec_formats_to_raw(formats@, N as nat),
{
    let mut slots = [abi::ASI_IMG_END;N];
    let mut i: usize = 0;
    while i < formats.len()
        invariant
            i <= formats@.len() <= N,
            forall|j: int| 0 <= j < i ==> slots@[j] == formats@[j].spec_to_raw(),
            forall|j: int| i <= j < N ==> slots@[j] == abi::ASI_IMG_END,
        decreases formats@.len() - i,
    {
        slots[i] = formats[i].to_raw();
        i = i + 1;
    }
    assert(slots@ =~= spec_formats_to_raw(formats@, N as nat));
    slots
}

/// A list of image types that fits the array and does not hold the end tag
/// is decoded unchanged from its raw list.
pub proof fn lemma_formats_round_trip(formats: Seq<ASIImageType>, capacity: nat)
    requires
        formats.len() <= capacity,
        forall|i: int| 0 <= i < formats.len() ==> formats[i] != ASIImageType::End,
    ensures
        spec_formats_known(spec_formats_to_raw(formats, capacity)),
        spec_formats_from_raw(spec_formats_to_raw(formats, capacity)) == formats,
{
    let raws = formats.map_values(|t: ASIImageType| t.spec_to_raw());
    let slots = spec_formats_to_raw(formats, capacity);
    lemma_used_of_padded(raws, abi::ASI_IMG_END, capacity);
    assert forall|i: int| 0 <= i < formats.len() implies ASIImageType::spec_from_raw(raws[i])
        == formats[i] && ASIImageType::spec_is_known(slots[i]) by {
        ASIImageType::lemma_to_raw_from_raw(formats[i]);
    }
    assert(spec_formats_from_raw(slots) =~= formats);
}

/// A raw list of image types whose unused slots all hold the end tag is
/// written again, slot for slot, from the list decoded out of it.
pub proof fn lemma_raw_formats_round_trip(slots: Seq<i32>)
    requires
        spec_formats_known(slots),
        forall|i: int|
            used_len(slots, abi::ASI_IMG_END) <= i < slots.len() ==> slots[i] == abi::ASI_IMG_END,
    ensures
        spec_formats_to_raw(spec_formats_from_raw(slots), slots.len()) == slots,
{
    lemma_used_len_exists(slots, abi::ASI_IMG_END);
    let formats = spec_formats_from_raw(slots);
    assert forall|i: int| 0 <= i < formats.len() implies formats[i].spec_to_raw() == slots[i] by {
        ASIImageType::lemma_from_raw_to_raw(slots[i]);
    }
    assert(spec_formats_to_raw(formats, slots.len()) =~= slots);
}

impl CameraInfoView {
    /// The invariant of a camera's property snapshot: neither list is
    /// longer than the hardware's array, and neither holds the value that
    /// ends it there.
    pub open spec fn wf(self) -> bool {
        &&& self.supported_bins.len() <= abi::BIN_CAPACITY
        &&& forall|i: int|
            0 <= i < self.supported_bins.len() ==> self.supported_bins[i] != abi::BIN_END
        &&& self.supported_video_format.len() <= abi::FORMAT_CAPACITY
        &&& forall|i: int|
            0 <= i < self.supported_video_format.len() ==> self.supported_video_format[i]
                != ASIImageType::End
    }

    /// Whether the snapshot fits into a raw record: the name with its NUL
    /// into the name buffer, each list into its array.
    pub open spec fn fits_raw(self) -> bool {
        &&& spec_text_fits(self.name, abi::NAME_CAPACITY as nat)
        &&& self.supported_bins.len() <= abi::BIN_CAPACITY
        &&& self.supported_video_format.len() <= abi::FORMAT_CAPACITY
    }

    /// Whether a raw record can hold the snapshot so that it is read back
    /// as it is: it fits, it keeps the invariant, and no NUL character in
    /// its name would end the name early.
    pub open spec fn representable(self) -> bool {
        &&& self.fits_raw()
        &&& self.wf()
        &&& spec_nul_free(self.name)
    }

    /// The raw record that holds this snapshot.
    pub open spec fn to_raw(self) -> RawCameraInfoView {
        RawCameraInfoView {
            name: spec_string_to_chars(self.name, abi::NAME_CAPACITY as nat),
            camera_id: self.camera_id,
            max_height: self.max_height as i64,
            max_width: self.max_width as i64,
            is_color_cam: ASIBool::spec_from_bool(self.is_color_cam).spec_to_raw(),
            bayer_pattern: self.bayer_pattern.spec_to_raw(),
            supported_bins: padded(self.supported_bins, abi::BIN_END, abi::BIN_CAPACITY as nat),
            supported_video_format: spec_formats_to_raw(
                self.supported_video_format,
                abi::FORMAT_CAPACITY as nat,
            ),
            pixel_size: self.pixel_size,
            mechanical_shutter: ASIBool::spec_from_bool(self.mechanical_shutter).spec_to_raw(),
            st4_port: ASIBool::spec_from_bool(self.st4_port).spec_to_raw(),
            is_cooler_cam: ASIBool::spec_from_bool(self.is_cooler_cam).spec_to_raw(),
            is_usb3_host: ASIBool::spec_from_bool(self.is_usb3_host).spec_to_raw(),
            is_usb3_camera: ASIBool::spec_from_bool(self.is_usb3_camera).spec_to_raw(),
            elec_per_adu: self.elec_per_adu,
            bit_depth: self.bit_depth,
            is_trigger_cam: ASIBool::spec_from_bool(self.is_trigger_cam).spec_to_raw(),
            unused: Seq::new(16, |i: int| 0u8),
        }
    }
}

impl RawCameraInfoView {
    /// Whether the record is one the SDK may hand out: every boolean and
    /// enumeration field holds a documented value, every used slot of the
    /// list of image types does, and the wide fields fit the host's width.
    pub open spec fn known(self) -> bool {
        &&& width::spec_fits(self.max_height)
        &&& width::spec_fits(self.max_width)
        &&& ASIBool::spec_is_known(self.is_color_cam)
        &&& ASIBayerPattern::spec_is_known(self.bayer_pattern)
        &&& spec_formats_known(self.supported_video_format)
        &&& ASIBool::spec_is_known(self.mechanical_shutter)
        &&& ASIBool::spec_is_known(self.st4_port)
        &&& ASIBool::spec_is_known(self.is_cooler_cam)
        &&& ASIBool::spec_is_known(self.is_usb3_host)
        &&& ASIBool::spec_is_known(self.is_usb3_camera)
        &&& ASIBool::spec_is_known(self.is_trigger_cam)
    }

    /// The snapshot that the record holds, or why its name cannot be read.
    /// The padding is not looked at.
    pub open spec fn decode(self) -> Result<CameraInfoView, TextError> {
        match spec_chars_to_string(self.name) {
            Err(e) => Err(e),
            Ok(name) => Ok(
                CameraInfoView {
                    name,
                    camera_id: self.camera_id,
                    max_height: self.max_height as i32,
                    max_width: self.max_width as i32,
                    is_color_cam: ASIBool::spec_from_raw(self.is_color_cam).spec_to_bool(),
                    bayer_pattern: ASIBayerPattern::spec_from_raw(self.bayer_pattern),
                    supported_bins: used(self.supported_bins, abi::BIN_END),
                    supported_video_format: spec_formats_from_raw(self.supported_video_format),
                    pixel_size: self.pixel_size,
                    mechanical_shutter: ASIBool::spec_from_raw(
                        self.mechanical_shutter,
                    ).spec_to_bool(),
                    st4_port: ASIBool::spec_from_raw(self.st4_port).spec_to_bool(),
                    is_cooler_cam: ASIBool::spec_from_raw(self.is_cooler_cam).spec_to_bool(),
                    is_usb3_host: ASIBool::spec_from_raw(self.is_usb3_host).spec_to_bool(),
                    is_usb3_camera: ASIBool::spec_from_raw(self.is_usb3_camera).spec_to_bool(),
                    elec_per_adu: self.elec_per_adu,
                    bit_depth: self.bit_depth,
                    is_trigger_cam: ASIBool::spec_from_raw(self.is_trigger_cam).spec_to_bool(),
                },
            ),
        }
    }
}

/// Whether a record is laid out as `to_raw` lays it out: zeros behind the
/// name and behind the last binning factor, the end tag behind the last
/// image type, and zeroed padding.
pub open spec fn spec_tidy(raw: RawCameraInfoView) -> bool {
    &&& forall|i: int| used_len(raw.name, NUL) <= i < raw.name.len() ==> raw.name[i] == NUL
    &&& forall|i: int|
        used_len(raw.supported_bins, abi::BIN_END) <= i < raw.supported_bins.len()
            ==> raw.supported_bins[i] == abi::BIN_END
    &&& forall|i: int|
        used_len(raw.supported_video_format, abi::ASI_IMG_END) <= i
            < raw.supported_video_format.len() ==> raw.supported_video_format[i]
            == abi::ASI_IMG_END
    &&& forall|i: int| 0 <= i < raw.unused.len() ==> raw.unused[i] == 0
}

/// A representable snapshot is decoded unchanged from the record it is
/// encoded to.
pub proof fn lemma_camera_info_round_trip(info: CameraInfoView)
    requires
        info.representable(),
    ensures
        info.to_raw().known(),
        info.to_raw().decode() == Ok::<CameraInfoView, TextError>(info),
{
    lemma_text_round_trip(info.name, abi::NAME_CAPACITY as nat);
    lemma_used_of_padded(info.supported_bins, abi::BIN_END, abi::BIN_CAPACITY as nat);
    lemma_formats_round_trip(info.supported_video_format, abi::FORMAT_CAPACITY as nat);
    ASIBayerPattern::lemma_to_raw_from_raw(info.bayer_pattern);
    ASIBool::lemma_flag_round_trip(info.is_color_cam);
    ASIBool::lemma_flag_round_trip(info.mechanical_shutter);
    ASIBool::lemma_flag_round_trip(info.st4_port);
    ASIBool::lemma_flag_round_trip(info.is_cooler_cam);
    ASIBool::lemma_flag_round_trip(info.is_usb3_host);
    ASIBool::lemma_flag_round_trip(info.is_usb3_camera);
    ASIBool::lemma_flag_round_trip(info.is_trigger_cam);
}

/// Whatever is decoded from a record is representable, and so is decoded
/// unchanged once more from the record it is encoded to.
pub proof fn lemma_decoded_camera_info_round_trip(raw: RawCameraInfo)
    requires
        raw@.known(),
    ensures
        raw@.decode() matches Ok(info) ==> info.representable() && info.to_raw().decode() == Ok::<
            CameraInfoView,
            TextError,
        >(info),
{
    if let Ok(info) = raw@.decode() {
        lemma_decoded_text_fits(raw.name@);
        lemma_decoded_text_nul_free(raw.name@);
        lemma_used_len_exists(raw.supported_bins@, abi::BIN_END);
        lemma_used_len_exists(raw.supported_video_format@, abi::ASI_IMG_END);
        assert forall|i: int| 0 <= i < info.supported_video_format.len() implies
            info.supported_video_format[i] != ASIImageType::End by {
            ASIImageType::lemma_from_raw_to_raw(raw.supported_video_format@[i]);
        }
        lemma_camera_info_round_trip(info);
    }
}

/// A tidy record that the SDK may hand out is encoded again, byte for
/// byte, from the snapshot decoded out of it.
pub proof fn lemma_raw_camera_info_round_trip(raw: RawCameraInfo)
    requires
        raw@.known(),
        spec_tidy(raw@),
    ensures
        raw@.decode() matches Ok(info) ==> info.to_raw() == raw@,
{
    if let Ok(info) = raw@.decode() {
        lemma_buffer_round_trip(raw.name@);
        lemma_padded_of_used(raw.supported_bins@, abi::BIN_END);
        lemma_raw_formats_round_trip(raw.supported_video_format@);
        ASIBayerPattern::lemma_from_raw_to_raw(raw.bayer_pattern);
        ASIBool::lemma_raw_flag_round_trip(raw.is_color_cam);
        ASIBool::lemma_raw_flag_round_trip(raw.mechanical_shutter);
        ASIBool::lemma_raw_flag_round_trip(raw.st4_port);
        ASIBool::lemma_raw_flag_round_trip(raw.is_cooler_cam);
        ASIBool::lemma_raw_flag_round_trip(raw.is_usb3_host);
        ASIBool::lemma_raw_flag_round_trip(raw.is_usb3_camera);
        ASIBool::lemma_raw_flag_round_trip(raw.is_trigger_cam);
        assert(info.to_raw().unused =~= raw@.unused);
    }
}

impl ASICameraInfo {
    /// Whether `raw` may be handed to `from_raw`.
    pub fn accepts(raw: &RawCameraInfo) -> (b: bool)
        ensures
            b == raw@.known(),
    {
        width::fits(raw.max_height) && width::fits(raw.max_width) && ASIBool::is_known(
            raw.is_color_cam,
        ) && ASIBayerPattern::is_known(raw.bayer_pattern) && formats_known(
            raw.supported_video_format.as_slice(),
        ) && ASIBool::is_known(raw.mechanical_shutter) && ASIBool::is_known(raw.st4_port)
            && ASIBool::is_known(raw.is_cooler_cam) && ASIBool::is_known(raw.is_usb3_host)
            && ASIBool::is_known(raw.is_usb3_camera) && ASIBool::is_known(raw.is_trigger_cam)
    }

    /// Decodes a property record.  The only failure is a name buffer that
    /// holds no text.
    pub fn from_raw(raw: RawCameraInfo) -> (r: Result<Self, TextError>)
        requires
            raw@.known(),
        ensures
            match r {
                Ok(info) => raw@.decode() == Ok::<CameraInfoView, TextError>(info@)
                    && info@.representable(),
                Err(e) => raw@.decode() == Err::<CameraInfoView, TextError>(e),
            },
    {
        let name = match chars_to_string(raw.name.as_slice()) {
            Ok(name) => name,
            Err(e) => {
                return Err(e);
            },
        };
        let supported_bins = take_used(raw.supported_bins.as_slice(), abi::BIN_END);
        let supported_video_format = formats_from_raw(raw.supported_video_format.as_slice());
        let info = Self {
            name,
            camera_id: raw.camera_id,
            max_height: width::narrow(raw.max_height),
            max_width: width::narrow(raw.max_width),
            is_color_cam: ASIBool::from_raw(raw.is_color_cam).to_bool(),
            bayer_pattern: ASIBayerPattern::from_raw(raw.bayer_pattern),
            supported_bins,
            supported_video_format,
            pixel_size: raw.pixel_size,
            mechanical_shutter: ASIBool::from_raw(raw.mechanical_shutter).to_bool(),
            st4_port: ASIBool::from_raw(raw.st4_port).to_bool(),
            is_cooler_cam: ASIBool::from_raw(raw.is_cooler_cam).to_bool(),
            is_usb3_host: ASIBool::from_raw(raw.is_usb3_host).to_bool(),
            is_usb3_camera: ASIBool::from_raw(raw.is_usb3_camera).to_bool(),
            elec_per_adu: raw.elec_per_adu,
            bit_depth: raw.bit_depth,
            is_trigger_cam: ASIBool::from_raw(raw.is_trigger_cam).to_bool(),
        };
        Ok(info)
    }

    /// Whether the snapshot keeps the invariant.
    pub fn is_well_formed(&self) -> (b: bool)
        ensures
            b == self@.wf(),
    {
        if self.supported_bins.len() > abi::BIN_CAPACITY || self.supported_video_format.len()
            > abi::FORMAT_CAPACITY {
            return false;
        }
        let mut i: usize = 0;
        while i < self.supported_bins.len()
            invariant
                i <= self.supported_bins@.len(),
                forall|j: int| 0 <= j < i ==> self.supported_bins@[j] != abi::BIN_END,
            decreases self.supported_bins@.len() - i,
        {
            if self.supported_bins[i] == abi::BIN_END {
                return false;
            }
            i = i + 1;
        }
        let mut k: usize = 0;
        while k < self.supported_video_format.len()
            invariant
                k <= self.supported_video_format@.len(),
                forall|j: int| 0 <= j < k ==> self.supported_video_format@[j] != ASIImageType::End,
            decreases self.supported_video_format@.len() - k,
        {
            if self.supported_video_format[k].to_raw() == abi::ASI_IMG_END {
                return false;
            }
            k = k + 1;
        }
        true
    }

    /// Whether the snapshot is read back as it is from the record it is
    /// encoded to.
    pub fn is_representable(&self) -> (b: bool)
        ensures
            b == self@.representable(),
    {
        self.fits_raw() && self.is_well_formed() && is_nul_free(self.name.as_str())
    }

    /// Whether the snapshot may be handed to `to_raw`.
    pub fn fits_raw(&self) -> (b: bool)
        ensures
            b == self@.fits_raw(),
    {
        text_fits(self.name.as_str(), abi::NAME_CAPACITY) && self.supported_bins.len()
            <= abi::BIN_CAPACITY && self.supported_video_format.len() <= abi::FORMAT_CAPACITY
    }

    /// Encodes the snapshot.  Whatever does not fit is not accepted: no name
    /// is cut and no list entry dropped.  The padding is zeroed.
    pub fn to_raw(&self) -> (raw: RawCameraInfo)
        requires
            self@.fits_raw(),
        ensures
            raw@ == self@.to_raw(),
    {
        let raw = RawCameraInfo {
            name: string_to_chars::<64>(self.name.as_str()),
            camera_id: self.camera_id,
            max_height: width::widen(self.max_height),
            max_width: width::widen(self.max_width),
            is_color_cam: ASIBool::from_bool(self.is_color_cam).to_raw(),
            bayer_pattern: self.bayer_pattern.to_raw(),
            supported_bins: fill::<16>(self.supported_bins.as_slice(), abi::BIN_END),
            supported_video_format: formats_to_raw::<8>(self.supported_video_format.as_slice()),
            pixel_size: self.pixel_size,
            mechanical_shutter: ASIBool::from_bool(self.mechanical_shutter).to_raw(),
            st4_port: ASIBool::from_bool(self.st4_port).to_raw(),
            is_cooler_cam: ASIBool::from_bool(self.is_cooler_cam).to_raw(),
            is_usb3_host: ASIBool::from_bool(self.is_usb3_host).to_raw(),
            is_usb3_camera: ASIBool::from_bool(self.is_usb3_camera).to_raw(),
            elec_per_adu: self.elec_per_adu,
            bit_depth: self.bit_depth,
            is_trigger_cam: ASIBool::from_bool(self.is_trigger_cam).to_raw(),
            unused: [0u8;16],
        };
        assert(raw.unused@ =~= Seq::new(16, |i: int| 0u8));
        raw
    }
}

impl Default for ASICameraInfo {
    /// The empty snapshot: no name, no bins, no formats, every number zero
    /// and every flag off.
    fn default() -> (info: Self)
        ensures
            info@ == (CameraInfoView {
                name: Seq::<char>::empty(),
                camera_id: 0,
                max_height: 0,
                max_width: 0,
                is_color_cam: false,
                bayer_pattern: ASIBayerPattern::RG,
                supported_bins: Seq::<i32>::empty(),
                supported_video_format: Seq::<ASIImageType>::empty(),
                pixel_size: 0,
                mechanical_shutter: false,
                st4_port: false,
                is_cooler_cam: false,
                is_usb3_host: false,
                is_usb3_camera: false,
                elec_per_adu: 0,
                bit_depth: 0,
                is_trigger_cam: false,
            }),
            info@.representable(),
    {
        Self {
            name: String::new(),
            camera_id: 0,
            max_height: 0,
            max_width: 0,
            is_color_cam: false,
            bayer_pattern: ASIBayerPattern::RG,
            supported_bins: Vec::new(),
            supported_video_format: Vec::new(),
            pixel_size: 0,
            mechanical_shutter: false,
            st4_port: false,
            is_cooler_cam: false,
            is_usb3_host: false,
            is_usb3_camera: false,
            elec_per_adu: 0,
            bit_depth: 0,
            is_trigger_cam: false,
        }
    }
}

} // verus!
