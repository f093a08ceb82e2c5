//! Status codes and the failures they stand for.

use vstd::prelude::*;

verus! {

/// The status code of a call that succeeded.
pub const ASI_SUCCESS: i32 = 0;

/// The largest status code the SDK documents.
pub const ASI_ERROR_LAST: i32 = 18;

/// The character that writes the digit `d`.
pub open spec fn digit_char(d: nat) -> char
    recommends
        d < 10,
{
    if d == 0 {
        '0'
    } else if d == 1 {
        '1'
    } else if d == 2 {
        '2'
    } else if d == 3 {
        '3'
    } else if d == 4 {
        '4'
    } else if d == 5 {
        '5'
    } else if d == 6 {
        '6'
    } else if d == 7 {
        '7'
    } else if d == 8 {
        '8'
    } else {
        '9'
    }
}

/// The decimal numeral of `n`, most significant digit first, without
/// leading zeros.
pub open spec fn decimal(n: nat) -> Seq<char>
    decreases n,
{
    if n < 10 {
        seq![digit_char(n)]
    } else {
        decimal(n / 10).push(digit_char(n % 10))
    }
}

fn digit_str(d: u32) -> (s: &'static str)
    requires
        d < 10,
    ensures
        s@ == seq![digit_char(d as nat)],
{
    proof {
        reveal_strlit("0");
        reveal_strlit("1");
        reveal_strlit("2");
        reveal_strlit("3");
        reveal_strlit("4");
        reveal_strlit("5");
        reveal_strlit("6");
        reveal_strlit("7");
        reveal_strlit("8");
        reveal_strlit("9");
    }
    let s = match d {
        0 => "0",
        1 => "1",
        2 => "2",
        3 => "3",
        4 => "4",
        5 => "5",
        6 => "6",
        7 => "7",
        8 => "8",
        _ => "9",
    };
    assert(s@ =~= seq![digit_char(d as nat)]);
    s
}

/// Writes `n` in decimal.
pub fn decimal_string(n: u32) -> (s: String)
    ensures
        s@ == decimal(n as nat),
    decreases n,
{
    if n < 10 {
        String::from_str(digit_str(n))
    } else {
        let mut s = decimal_string(n / 10);
        s.append(digit_str(n % 10));
        assert(s@ =~= decimal(n as nat));
        s
    }
}

/// A failure reported by the SDK.
#[derive(Debug, Clone, Copy, PartialEq, Eq, Structural)]
pub enum ASIError {
    InvalidIndex,
    InvalidID,
    InvalidControlType,
    CameraClosed,
    CameraRemoved,
    InvalidPath,
    InvalidFileformat,
    InvalidSize,
    InvalidImgtype,
    OutofBoundary,
    Timeout,
    InvalidSequence,
    BufferTooSmall,
    VideoModeActive,
    ExposureInProgress,
    GeneralError,
    InvalidMode,
    End,
}

impl ASIError {
    /// The status code that reports this failure.
    pub open spec fn spec_code(self) -> i32 {
        match self {
            ASIError::InvalidIndex => 1,
            ASIError::InvalidID => 2,
            ASIError::InvalidControlType => 3,
            ASIError::CameraClosed => 4,
            ASIError::CameraRemoved => 5,
            ASIError::InvalidPath => 6,
            ASIError::InvalidFileformat => 7,
            ASIError::InvalidSize => 8,
            ASIError::InvalidImgtype => 9,
            ASIError::OutofBoundary => 10,
            ASIError::Timeout => 11,
            ASIError::InvalidSequence => 12,
            ASIError::BufferTooSmall => 13,
            ASIError::VideoModeActive => 14,
            ASIError::ExposureInProgress => 15,
            ASIError::GeneralError => 16,
            ASIError::InvalidMode => 17,
            ASIError::End => 18,
        }
    }

    /// Whether `code` is a status the SDK documents: success or one of the
    /// eighteen failures.
    pub open spec fn spec_is_known(code: i32) -> bool {
        ASI_SUCCESS <= code <= ASI_ERROR_LAST
    }

    /// What a documented status code means: `Ok` for success, else the one
    /// failure whose code it is.
    pub open spec fn spec_from_raw(code: i32) -> Result<(), ASIError> {
        if code == ASI_SUCCESS {
            Ok(())
        } else {
            Err(choose|e: ASIError| e.spec_code() == code)
        }
    }

    /// No two failures share a status code.
    pub proof fn lemma_codes_distinct(a: ASIError, b: ASIError)
        ensures
            a.spec_code() == b.spec_code() ==> a == b,
    {
    }

    /// Success maps to no failure.
    pub proof fn lemma_success_is_ok()
        ensures
            Self::spec_is_known(ASI_SUCCESS),
            Self::spec_from_raw(ASI_SUCCESS) == Ok::<(), ASIError>(()),
    {
    }

    /// Every failure is what its own status code maps to.
    pub proof fn lemma_failure_from_its_code(e: ASIError)
        ensures
            Self::spec_is_known(e.spec_code()),
            e.spec_code() != ASI_SUCCESS,
            Self::spec_from_raw(e.spec_code()) == Err::<(), ASIError>(e),
    {
        let found = Self::spec_from_raw(e.spec_code());
        assert(found->Err_0.spec_code() == e.spec_code());
    }

    /// Every documented failure code maps to exactly one failure: the one
    /// that carries this code.
    pub proof fn lemma_code_maps_to_one_failure(code: i32)
        requires
            Self::spec_is_known(code),
            code != ASI_SUCCESS,
        ensures
            Self::spec_from_raw(code) is Err,
            Self::spec_from_raw(code)->Err_0.spec_code() == code,
            forall|e: ASIError| e.spec_code() == code ==> Self::spec_from_raw(code) == Err::<
                (),
                ASIError,
            >(e),
    {
        let witness = Self::failure_with_code(code);
        assert(witness.spec_code() == code);
        assert forall|e: ASIError| e.spec_code() == code implies Self::spec_from_raw(code)
            == Err::<(), ASIError>(e) by {
            Self::lemma_failure_from_its_code(e);
        }
    }

    /// The documented status codes are success and the codes that some
    /// failure carries; nothing else.
    pub proof fn lemma_known_iff_documented(code: i32)
        ensures
            Self::spec_is_known(code) <==> (code == ASI_SUCCESS || exists|e: ASIError|
                e.spec_code() == code),
    {
        if Self::spec_is_known(code) && code != ASI_SUCCESS {
            assert(Self::failure_with_code(code).spec_code() == code);
        }
    }

    /// The failure that carries `code`, found by counting.
    spec fn failure_with_code(code: i32) -> ASIError {
        if code == 1 {
            ASIError::InvalidIndex
        } else if code == 2 {
            ASIError::InvalidID
        } else if code == 3 {
            ASIError::InvalidControlType
        } else if code == 4 {
            ASIError::CameraClosed
        } else if code == 5 {
            ASIError::CameraRemoved
        } else if code == 6 {
            ASIError::InvalidPath
        } else if code == 7 {
            ASIError::InvalidFileformat
        } else if code == 8 {
            ASIError::InvalidSize
        } else if code == 9 {
            ASIError::InvalidImgtype
        } else if code == 10 {
            ASIError::OutofBoundary
        } else if code == 11 {
            ASIError::Timeout
        } else if code == 12 {
            ASIError::InvalidSequence
        } else if code == 13 {
            ASIError::BufferTooSmall
        } else if code == 14 {
            ASIError::VideoModeActive
        } else if code == 15 {
            ASIError::ExposureInProgress
        } else if code == 16 {
            ASIError::GeneralError
        } else if code == 17 {
            ASIError::InvalidMode
        } else {
            ASIError::End
        }
    }

    #[verifier::when_used_as_spec(spec_code)]
    pub fn code(self) -> (c: i32)
        ensures
            c == self.spec_code(),
            ASI_SUCCESS < c <= ASI_ERROR_LAST,
    {
        match self {
            ASIError::InvalidIndex => 1,
            ASIError::InvalidID => 2,
            ASIError::InvalidControlType => 3,
            ASIError::CameraClosed => 4,
            ASIError::CameraRemoved => 5,
            ASIError::InvalidPath => 6,
            ASIError::InvalidFileformat => 7,
            ASIError::InvalidSize => 8,
            ASIError::InvalidImgtype => 9,
            ASIError::OutofBoundary => 10,
            ASIError::Timeout => 11,
            ASIError::InvalidSequence => 12,
            ASIError::BufferTooSmall => 13,
            ASIError::VideoModeActive => 14,
            ASIError::ExposureInProgress => 15,
            ASIError::GeneralError => 16,
            ASIError::InvalidMode => 17,
            ASIError::End => 18,
        }
    }

    /// What the failure is, in words.
    pub open spec fn spec_description(self) -> Seq<char> {
        match self {
            ASIError::InvalidIndex => "Invalid index"@,
            ASIError::InvalidID => "Invalid id"@,
            ASIError::InvalidControlType => "Invalid control type"@,
            ASIError::CameraClosed => "Camera closed"@,
            ASIError::CameraRemoved => "Camera removed"@,
            ASIError::InvalidPath => "Invalid path"@,
            ASIError::InvalidFileformat => "Invalid file format"@,
            ASIError::InvalidSize => "Invalid size"@,
            ASIError::InvalidImgtype => "Invalid image type"@,
            ASIError::OutofBoundary => "Out of boundary"@,
            ASIError::Timeout => "Timeout"@,
            ASIError::InvalidSequence => "Invalid sequence"@,
            ASIError::BufferTooSmall => "Buffer too small"@,
            ASIError::VideoModeActive => "Video mode active"@,
            ASIError::ExposureInProgress => "Exposure in progress"@,
            ASIError::GeneralError => "General error"@,
            ASIError::InvalidMode => "Invalid mode"@,
            ASIError::End => "End"@,
        }
    }

    /// The text shown for this failure: the description, a full stop, and
    /// the status code in decimal.
    pub open spec fn spec_message(self) -> Seq<char> {
        self.spec_description() + ". asi error code "@ + decimal(self.spec_code() as nat)
    }

    pub fn description(self) -> (s: &'static str)
        ensures
            s@ == self.spec_description(),
    {
        match self {
            ASIError::InvalidIndex => "Invalid index",
            ASIError::InvalidID => "Invalid id",
            ASIError::InvalidControlType => "Invalid control type",
            ASIError::CameraClosed => "Camera closed",
            ASIError::CameraRemoved => "Camera removed",
            ASIError::InvalidPath => "Invalid path",
            ASIError::InvalidFileformat => "Invalid file format",
            ASIError::InvalidSize => "Invalid size",
            ASIError::InvalidImgtype => "Invalid image type",
            ASIError::OutofBoundary => "Out of boundary",
            ASIError::Timeout => "Timeout",
            ASIError::InvalidSequence => "Invalid sequence",
            ASIError::BufferTooSmall => "Buffer too small",
            ASIError::VideoModeActive => "Video mode active",
            ASIError::ExposureInProgress => "Exposure in progress",
            ASIError::GeneralError => "General error",
            ASIError::InvalidMode => "Invalid mode",
            ASIError::End => "End",
        }
    }

    /// Renders the failure for diagnostics, with its status code.
    pub fn message(self) -> (s: String)
        ensures
            s@ == self.spec_message(),
    {
        let mut s = String::from_str(self.description());
        s.append(". asi error code ");
        let digits = decimal_string(self.code() as u32);
        s.append(digits.as_str());
        s
    }

    #[verifier::when_used_as_spec(spec_is_known)]
    pub fn is_known(code: i32) -> (b: bool)
        ensures
            b == Self::spec_is_known(code),
    {
        ASI_SUCCESS <= code && code <= ASI_ERROR_LAST
    }

    /// Translates a status code.  A code outside the documented set means
    /// that the binding and the hardware disagree, and is not accepted.
    pub fn from_raw(error_code: i32) -> (r: Result<(), ASIError>)
        requires
            Self::spec_is_known(error_code),
        ensures
            r == Self::spec_from_raw(error_code),
            r is Ok <==> error_code == ASI_SUCCESS,
            r matches Err(e) ==> e.spec_code() == error_code,
    {
        let r = match error_code {
            0 => Ok(()),
            1 => Err(ASIError::InvalidIndex),
            2 => Err(ASIError::InvalidID),
            3 => Err(ASIError::InvalidControlType),
            4 => Err(ASIError::CameraClosed),
            5 => Err(ASIError::CameraRemoved),
            6 => Err(ASIError::InvalidPath),
            7 => Err(ASIError::InvalidFileformat),
            8 => Err(ASIError::InvalidSize),
            9 => Err(ASIError::InvalidImgtype),
            10 => Err(ASIError::OutofBoundary),
            11 => Err(ASIError::Timeout),
            12 => Err(ASIError::InvalidSequence),
            13 => Err(ASIError::BufferTooSmall),
            14 => Err(ASIError::VideoModeActive),
            15 => Err(ASIError::ExposureInProgress),
            16 => Err(ASIError::GeneralError),
            17 => Err(ASIError::InvalidMode),
            18 => Err(ASIError::End),
            _ => unreached(),
        };
        proof {
            if let Err(e) = r {
                let chosen = choose|x: ASIError| x.spec_code() == error_code;
                assert(e.spec_code() == error_code);
                assert(chosen.spec_code() == error_code);
            }
        }
        r
    }
}

} // verus!
