//! The typed half of each SDK operation.
//!
//! An SDK call takes raw arguments and answers with a status code and, on
//! success, with raw out-values.  The caller makes the call; the functions
//! here compute what goes in and what comes out.  A setter's function turns
//! typed arguments into the raw ones.  A getter's function takes the status
//! and the out-values and returns the typed result: the failure that the
//! status names, or the decoded values.  Out-values are looked at only after
//! a success, so nothing is asked of them otherwise.
//!
//! Operations that pass numbers through unchanged, or hand over nothing but
//! a status, need no function of their own: `reply` and
//! `ASIError::from_raw` serve them.

use vstd::prelude::*;
use crate::abi::{RawCameraInfo, RawControlCaps, RawSupportedMode};
use crate::camera_info::{ASICameraInfo, CameraInfoView};
use crate::control_caps::{ASIControlCaps, ControlCapsView};
use crate::enums::{ASIBool, ASICameraMode, ASIExposureStatus, ASIImageType, ASITrigOutput};
use crate::error::{ASIError, ASI_SUCCESS};
use crate::supported_mode::{
    spec_modes_from_raw, spec_modes_known, spec_modes_wf, ASISupportedMode,
};
use crate::text::TextError;
use crate::width;

verus! {

/// Why an operation that returns a record gave none.
#[derive(Debug, Clone, Copy, PartialEq, Eq, Structural)]
pub enum CallError {
    /// The SDK reported a failure.
    Sdk(ASIError),
    /// The call succeeded, but a text in the record cannot be read.
    Text(TextError),
}

/// The result of an operation that answered `status` and, on success,
/// `value`.
pub open spec fn spec_reply<T>(status: i32, value: T) -> Result<T, ASIError> {
    match ASIError::spec_from_raw(status) {
        Ok(()) => Ok(value),
        Err(e) => Err(e),
    }
}

/// The result of an operation that answered `status` and, on success, a
/// record that decodes to `decoded`.
pub open spec fn spec_record_reply<V>(status: i32, decoded: Result<V, TextError>) -> Result<
    V,
    CallError,
> {
    match ASIError::spec_from_raw(status) {
        Err(e) => Err(CallError::Sdk(e)),
        Ok(()) => match decoded {
            Err(e) => Err(CallError::Text(e)),
            Ok(v) => Ok(v),
        },
    }
}

/// Gates a value by the status it came with: the value after a success,
/// else the failure.
pub fn reply<T>(status: i32, value: T) -> (r: Result<T, ASIError>)
    requires
        ASIError::spec_is_known(status),
    ensures
        r == spec_reply(status, value),
        r is Ok <==> status == ASI_SUCCESS,
        r matches Err(e) ==> e.spec_code() == status,
{
    match ASIError::from_raw(status) {
        Ok(()) => Ok(value),
        Err(e) => Err(e),
    }
}

/// The property record of a camera, looked up by index or by id.
pub fn get_camera_property(status: i32, raw: RawCameraInfo) -> (r: Result<
    ASICameraInfo,
    CallError,
>)
    requires
        ASIError::spec_is_known(status),
        status == ASI_SUCCESS ==> raw@.known(),
    ensures
        match r {
            Ok(info) => spec_record_reply(status, raw@.decode()) == Ok::<CameraInfoView, CallError>(
                info@,
            ) && info@.representable(),
            Err(e) => spec_record_reply(status, raw@.decode()) == Err::<CameraInfoView, CallError>(
                e,
            ),
        },
        r matches Err(CallError::Sdk(e)) ==> e.spec_code() == status,
        status != ASI_SUCCESS ==> r is Err && r->Err_0 is Sdk,
{
    match ASIError::from_raw(status) {
        Err(e) => Err(CallError::Sdk(e)),
        Ok(()) => match ASICameraInfo::from_raw(raw) {
            Err(e) => Err(CallError::Text(e)),
            Ok(info) => Ok(info),
        },
    }
}

/// The capability record of one control.
pub fn get_control_caps(status: i32, raw: RawControlCaps) -> (r: Result<ASIControlCaps, CallError>)
    requires
        ASIError::spec_is_known(status),
        status == ASI_SUCCESS ==> raw@.known(),
    ensures
        match r {
            Ok(caps) => spec_record_reply(status, raw@.decode()) == Ok::<
                ControlCapsView,
                CallError,
            >(caps@) && caps@.representable() && (caps@.wf() <==> raw@.wf()),
            Err(e) => spec_record_reply(status, raw@.decode()) == Err::<
                ControlCapsView,
                CallError,
            >(e),
        },
        r matches Err(CallError::Sdk(e)) ==> e.spec_code() == status,
        status != ASI_SUCCESS ==> r is Err && r->Err_0 is Sdk,
{
    match ASIError::from_raw(status) {
        Err(e) => Err(CallError::Sdk(e)),
        Ok(()) => match ASIControlCaps::from_raw(raw) {
            Err(e) => Err(CallError::Text(e)),
            Ok(caps) => Ok(caps),
        },
    }
}

/// The value of a control and whether it is set automatically.
pub fn get_control_value(status: i32, value: i64, auto: i32) -> (r: Result<(i32, bool), ASIError>)
    requires
        ASIError::spec_is_known(status),
        status == ASI_SUCCESS ==> width::spec_fits(value) && ASIBool::spec_is_known(auto),
    ensures
        r == spec_reply(status, (value as i32, ASIBool::spec_from_raw(auto).spec_to_bool())),
        r is Ok <==> status == ASI_SUCCESS,
        r matches Err(e) ==> e.spec_code() == status,
        r matches Ok(v) ==> v.0 == value && ASIBool::spec_from_bool(v.1).spec_to_raw() == auto,
{
    match ASIError::from_raw(status) {
        Err(e) => Err(e),
        Ok(()) => Ok((width::narrow(value), ASIBool::from_raw(auto).to_bool())),
    }
}

/// The raw arguments that set the region of interest: width and height
/// after binning, the binning factor, and the image type.
pub fn set_roi_format(width: i32, height: i32, bin: i32, image_type: ASIImageType) -> (raw: (
    i32,
    i32,
    i32,
    i32,
))
    ensures
        raw == (width, height, bin, image_type.spec_to_raw()),
{
    (width, height, bin, image_type.to_raw())
}

/// The region of interest: width and height after binning, the binning
/// factor, and the image type.
pub fn get_roi_format(status: i32, width: i32, height: i32, bin: i32, image_type: i32) -> (r:
    Result<(i32, i32, i32, ASIImageType), ASIError>)
    requires
        ASIError::spec_is_known(status),
        status == ASI_SUCCESS ==> ASIImageType::spec_is_known(image_type),
    ensures
        r == spec_reply(status, (width, height, bin, ASIImageType::spec_from_raw(image_type))),
        r is Ok <==> status == ASI_SUCCESS,
        r matches Err(e) ==> e.spec_code() == status,
        r matches Ok(v) ==> v.3.spec_to_raw() == image_type,
{
    match ASIError::from_raw(status) {
        Err(e) => Err(e),
        Ok(()) => Ok((width, height, bin, ASIImageType::from_raw(image_type))),
    }
}

/// Where a single exposure stands.
pub fn get_exp_status(status: i32, exposure_status: i32) -> (r: Result<
    ASIExposureStatus,
    ASIError,
>)
    requires
        ASIError::spec_is_known(status),
        status == ASI_SUCCESS ==> ASIExposureStatus::spec_is_known(exposure_status),
    ensures
        r == spec_reply(status, ASIExposureStatus::spec_from_raw(exposure_status)),
        r is Ok <==> status == ASI_SUCCESS,
        r matches Err(e) ==> e.spec_code() == status,
        r matches Ok(v) ==> v.spec_to_raw() == exposure_status,
{
    match ASIError::from_raw(status) {
        Err(e) => Err(e),
        Ok(()) => Ok(ASIExposureStatus::from_raw(exposure_status)),
    }
}

/// The modes a trigger-capable camera supports.
pub fn get_camera_support_mode(status: i32, raw: RawSupportedMode) -> (r: Result<
    ASISupportedMode,
    ASIError,
>)
    requires
        ASIError::spec_is_known(status),
        status == ASI_SUCCESS ==> spec_modes_known(raw.supported_camera_mode@),
    ensures
        match r {
            Ok(modes) => spec_reply(status, spec_modes_from_raw(raw.supported_camera_mode@))
                == Ok::<Seq<ASICameraMode>, ASIError>(modes@),
            Err(e) => spec_reply(status, spec_modes_from_raw(raw.supported_camera_mode@))
                == Err::<Seq<ASICameraMode>, ASIError>(e),
        },
        r is Ok <==> status == ASI_SUCCESS,
        r matches Err(e) ==> e.spec_code() == status,
        r matches Ok(modes) ==> spec_modes_wf(modes@),
{
    match ASIError::from_raw(status) {
        Err(e) => Err(e),
        Ok(()) => Ok(ASISupportedMode::from_raw(raw)),
    }
}

/// The mode a trigger-capable camera is in.
pub fn get_camera_mode(status: i32, camera_mode: i32) -> (r: Result<ASICameraMode, ASIError>)
    requires
        ASIError::spec_is_known(status),
        status == ASI_SUCCESS ==> ASICameraMode::spec_is_known(camera_mode),
    ensures
        r == spec_reply(status, ASICameraMode::spec_from_raw(camera_mode)),
        r is Ok <==> status == ASI_SUCCESS,
        r matches Err(e) ==> e.spec_code() == status,
        r matches Ok(v) ==> v.spec_to_raw() == camera_mode,
{
    match ASIError::from_raw(status) {
        Err(e) => Err(e),
        Ok(()) => Ok(ASICameraMode::from_raw(camera_mode)),
    }
}

/// The raw arguments that configure an output pin of the trigger port: the
/// pin, its level when active, and delay and duration in the SDK's wide
/// type.
pub fn set_trigger_output_io_conf(
    pin: ASITrigOutput,
    pin_high: bool,
    delay: i32,
    duration: i32,
) -> (raw: (i32, i32, i64, i64))
    ensures
        raw == (
            pin.spec_to_raw(),
            ASIBool::spec_from_bool(pin_high).spec_to_raw(),
            delay as i64,
            duration as i64,
        ),
{
    (
        pin.to_raw(),
        ASIBool::from_bool(pin_high).to_raw(),
        width::widen(delay),
        width::widen(duration),
    )
}

/// The configuration of an output pin: its level when active, its delay
/// and its duration.
pub fn get_trigger_output_io_conf(status: i32, pin_high: i32, delay: i64, duration: i64) -> (r:
    Result<(bool, i32, i32), ASIError>)
    requires
        ASIError::spec_is_known(status),
        status == ASI_SUCCESS ==> ASIBool::spec_is_known(pin_high) && width::spec_fits(delay)
            && width::spec_fits(duration),
    ensures
        r == spec_reply(
            status,
            (ASIBool::spec_from_raw(pin_high).spec_to_bool(), delay as i32, duration as i32),
        ),
        r is Ok <==> status == ASI_SUCCESS,
        r matches Err(e) ==> e.spec_code() == status,
        r matches Ok(v) ==> ASIBool::spec_from_bool(v.0).spec_to_raw() == pin_high && v.1 == delay
            && v.2 == duration,
{
    match ASIError::from_raw(status) {
        Err(e) => Err(e),
        Ok(()) => Ok(
            (ASIBool::from_raw(pin_high).to_bool(), width::narrow(delay), width::narrow(duration)),
        ),
    }
}

/// A region of interest that was set is the one read back, if the SDK
/// answers with the values it was given.
pub proof fn lemma_roi_format_round_trip(
    width: i32,
    height: i32,
    bin: i32,
    image_type: ASIImageType,
)
    ensures
        ASIImageType::spec_is_known(image_type.spec_to_raw()),
        spec_reply(
            ASI_SUCCESS,
            (width, height, bin, ASIImageType::spec_from_raw(image_type.spec_to_raw())),
        ) == Ok::<(i32, i32, i32, ASIImageType), ASIError>((width, height, bin, image_type)),
{
    ASIImageType::lemma_to_raw_from_raw(image_type);
}

/// A pin configuration that was set is the one read back, if the SDK
/// answers with the values it was given.
pub proof fn lemma_trigger_output_round_trip(pin_high: bool, delay: i32, duration: i32)
    ensures
        ASIBool::spec_is_known(ASIBool::spec_from_bool(pin_high).spec_to_raw()),
        width::spec_fits(delay as i64),
        width::spec_fits(duration as i64),
        spec_reply(
            ASI_SUCCESS,
            (
                ASIBool::spec_from_raw(
                    ASIBool::spec_from_bool(pin_high).spec_to_raw(),
                ).spec_to_bool(),
                (delay as i64) as i32,
                (duration as i64) as i32,
            ),
        ) == Ok::<(bool, i32, i32), ASIError>((pin_high, delay, duration)),
{
    ASIBool::lemma_flag_round_trip(pin_high);
}

} // verus!
