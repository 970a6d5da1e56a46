//! Status codes reported by the native drawing library, and their typed form.
//!
//! The native library keeps an integer status on each object. Zero means
//! success; every other value names one error. Unknown values are kept as
//! they are, so that no code is lost on the way to the caller and back.

use vstd::prelude::*;

verus! {

/// The status code that means success.
pub const STATUS_SUCCESS: i32 = 0;

/// A non-success status of the native library.
#[derive(Clone, Copy, Debug, PartialEq, Eq, Structural)]
pub enum Error {
    NoMemory,
    InvalidRestore,
    InvalidPopGroup,
    NoCurrentPoint,
    InvalidMatrix,
    InvalidStatus,
    NullPointer,
    InvalidString,
    InvalidPathData,
    ReadError,
    WriteError,
    SurfaceFinished,
    SurfaceTypeMismatch,
    PatternTypeMismatch,
    InvalidContent,
    InvalidFormat,
    InvalidVisual,
    FileNotFound,
    InvalidDash,
    InvalidDscComment,
    InvalidIndex,
    ClipNotRepresentable,
    TempFileError,
    InvalidStride,
    FontTypeMismatch,
    UserFontImmutable,
    UserFontError,
    NegativeCount,
    InvalidClusters,
    InvalidSlant,
    InvalidWeight,
    InvalidSize,
    UserFontNotImplemented,
    DeviceTypeMismatch,
    DeviceError,
    InvalidMeshConstruction,
    DeviceFinished,
    JBig2GlobalMissing,
    PngError,
    FreetypeError,
    Win32GdiError,
    TagError,
    LastStatus,
    /// A status code that this library has no name for.
    Unknown(i32),
}

/// The typed error for a non-success status code.
pub open spec fn error_of(code: i32) -> Error {
    if code == 1 {
        Error::NoMemory
    } else if code == 2 {
        Error::InvalidRestore
    } else if code == 3 {
        Error::InvalidPopGroup
    } else if code == 4 {
        Error::NoCurrentPoint
    } else if code == 5 {
        Error::InvalidMatrix
    } else if code == 6 {
        Error::InvalidStatus
    } else if code == 7 {
        Error::NullPointer
    } else if code == 8 {
        Error::InvalidString
    } else if code == 9 {
        Error::InvalidPathData
    } else if code == 10 {
        Error::ReadError
    } else if code == 11 {
        Error::WriteError
    } else if code == 12 {
        Error::SurfaceFinished
    } else if code == 13 {
        Error::SurfaceTypeMismatch
    } else if code == 14 {
        Error::PatternTypeMismatch
    } else if code == 15 {
        Error::InvalidContent
    } else if code == 16 {
        Error::InvalidFormat
    } else if code == 17 {
        Error::InvalidVisual
    } else if code == 18 {
        Error::FileNotFound
    } else if code == 19 {
        Error::InvalidDash
    } else if code == 20 {
        Error::InvalidDscComment
    } else if code == 21 {
        Error::InvalidIndex
    } else if code == 22 {
        Error::ClipNotRepresentable
    } else if code == 23 {
        Error::TempFileError
    } else if code == 24 {
        Error::InvalidStride
    } else if code == 25 {
        Error::FontTypeMismatch
    } else if code == 26 {
        Error::UserFontImmutable
    } else if code == 27 {
        Error::UserFontError
    } else if code == 28 {
        Error::NegativeCount
    } else if code == 29 {
        Error::InvalidClusters
    } else if code == 30 {
        Error::InvalidSlant
    } else if code == 31 {
        Error::InvalidWeight
    } else if code == 32 {
        Error::InvalidSize
    } else if code == 33 {
        Error::UserFontNotImplemented
    } else if code == 34 {
        Error::DeviceTypeMismatch
    } else if code == 35 {
        Error::DeviceError
    } else if code == 36 {
        Error::InvalidMeshConstruction
    } else if code == 37 {
        Error::DeviceFinished
    } else if code == 38 {
        Error::JBig2GlobalMissing
    } else if code == 39 {
        Error::PngError
    } else if code == 40 {
        Error::FreetypeError
    } else if code == 41 {
        Error::Win32GdiError
    } else if code == 42 {
        Error::TagError
    } else if code == 43 {
        Error::LastStatus
    } else {
        Error::Unknown(code)
    }
}

/// The status code that an error stands for.
pub open spec fn code_of(e: Error) -> i32 {
    match e {
        Error::NoMemory => 1,
        Error::InvalidRestore => 2,
        Error::InvalidPopGroup => 3,
        Error::NoCurrentPoint => 4,
        Error::InvalidMatrix => 5,
        Error::InvalidStatus => 6,
        Error::NullPointer => 7,
        Error::InvalidString => 8,
        Error::InvalidPathData => 9,
        Error::ReadError => 10,
        Error::WriteError => 11,
        Error::SurfaceFinished => 12,
        Error::SurfaceTypeMismatch => 13,
        Error::PatternTypeMismatch => 14,
        Error::InvalidContent => 15,
        Error::InvalidFormat => 16,
        Error::InvalidVisual => 17,
        Error::FileNotFound => 18,
        Error::InvalidDash => 19,
        Error::InvalidDscComment => 20,
        Error::InvalidIndex => 21,
        Error::ClipNotRepresentable => 22,
        Error::TempFileError => 23,
        Error::InvalidStride => 24,
        Error::FontTypeMismatch => 25,
        Error::UserFontImmutable => 26,
        Error::UserFontError => 27,
        Error::NegativeCount => 28,
        Error::InvalidClusters => 29,
        Error::InvalidSlant => 30,
        Error::InvalidWeight => 31,
        Error::InvalidSize => 32,
        Error::UserFontNotImplemented => 33,
        Error::DeviceTypeMismatch => 34,
        Error::DeviceError => 35,
        Error::InvalidMeshConstruction => 36,
        Error::DeviceFinished => 37,
        Error::JBig2GlobalMissing => 38,
        Error::PngError => 39,
        Error::FreetypeError => 40,
        Error::Win32GdiError => 41,
        Error::TagError => 42,
        Error::LastStatus => 43,
        Error::Unknown(c) => c,
    }
}

/// What a status check reports for a status code.
pub open spec fn result_of(code: i32) -> Result<(), Error> {
    if code == STATUS_SUCCESS {
        Ok(())
    } else {
        Err(error_of(code))
    }
}

impl Error {
    /// The typed error for a status code other than success.
    pub fn from_code(code: i32) -> (r: Error)
        requires
            code != STATUS_SUCCESS,
        ensures
            r == error_of(code),
    {
        if code == 1 {
            Error::NoMemory
        } else if code == 2 {
            Error::InvalidRestore
        } else if code == 3 {
            Error::InvalidPopGroup
        } else if code == 4 {
            Error::NoCurrentPoint
        } else if code == 5 {
            Error::InvalidMatrix
        } else if code == 6 {
            Error::InvalidStatus
        } else if code == 7 {
            Error::NullPointer
        } else if code == 8 {
            Error::InvalidString
        } else if code == 9 {
            Error::InvalidPathData
        } else if code == 10 {
            Error::ReadError
        } else if code == 11 {
            Error::WriteError
        } else if code == 12 {
            Error::SurfaceFinished
        } else if code == 13 {
            Error::SurfaceTypeMismatch
        } else if code == 14 {
            Error::PatternTypeMismatch
        } else if code == 15 {
            Error::InvalidContent
        } else if code == 16 {
            Error::InvalidFormat
        } else if code == 17 {
            Error::InvalidVisual
        } else if code == 18 {
            Error::FileNotFound
        } else if code == 19 {
            Error::InvalidDash
        } else if code == 20 {
            Error::InvalidDscComment
        } else if code == 21 {
            Error::InvalidIndex
        } else if code == 22 {
            Error::ClipNotRepresentable
        } else if code == 23 {
            Error::TempFileError
        } else if code == 24 {
            Error::InvalidStride
        } else if code == 25 {
            Error::FontTypeMismatch
        } else if code == 26 {
            Error::UserFontImmutable
        } else if code == 27 {
            Error::UserFontError
        } else if code == 28 {
            Error::NegativeCount
        } else if code == 29 {
            Error::InvalidClusters
        } else if code == 30 {
            Error::InvalidSlant
        } else if code == 31 {
            Error::InvalidWeight
        } else if code == 32 {
            Error::InvalidSize
        } else if code == 33 {
            Error::UserFontNotImplemented
        } else if code == 34 {
            Error::DeviceTypeMismatch
        } else if code == 35 {
            Error::DeviceError
        } else if code == 36 {
            Error::InvalidMeshConstruction
        } else if code == 37 {
            Error::DeviceFinished
        } else if code == 38 {
            Error::JBig2GlobalMissing
        } else if code == 39 {
            Error::PngError
        } else if code == 40 {
            Error::FreetypeError
        } else if code == 41 {
            Error::Win32GdiError
        } else if code == 42 {
            Error::TagError
        } else if code == 43 {
            Error::LastStatus
        } else {
            Error::Unknown(code)
        }
    }

    /// The status code of this error.
    pub fn code(&self) -> (r: i32)
        ensures
            r == code_of(*self),
    {
        match self {
            Error::NoMemory => 1,
            Error::InvalidRestore => 2,
            Error::InvalidPopGroup => 3,
            Error::NoCurrentPoint => 4,
            Error::InvalidMatrix => 5,
            Error::InvalidStatus => 6,
            Error::NullPointer => 7,
            Error::InvalidString => 8,
            Error::InvalidPathData => 9,
            Error::ReadError => 10,
            Error::WriteError => 11,
            Error::SurfaceFinished => 12,
            Error::SurfaceTypeMismatch => 13,
            Error::PatternTypeMismatch => 14,
            Error::InvalidContent => 15,
            Error::InvalidFormat => 16,
            Error::InvalidVisual => 17,
            Error::FileNotFound => 18,
            Error::InvalidDash => 19,
            Error::InvalidDscComment => 20,
            Error::InvalidIndex => 21,
            Error::ClipNotRepresentable => 22,
            Error::TempFileError => 23,
            Error::InvalidStride => 24,
            Error::FontTypeMismatch => 25,
            Error::UserFontImmutable => 26,
            Error::UserFontError => 27,
            Error::NegativeCount => 28,
            Error::InvalidClusters => 29,
            Error::InvalidSlant => 30,
            Error::InvalidWeight => 31,
            Error::InvalidSize => 32,
            Error::UserFontNotImplemented => 33,
            Error::DeviceTypeMismatch => 34,
            Error::DeviceError => 35,
            Error::InvalidMeshConstruction => 36,
            Error::DeviceFinished => 37,
            Error::JBig2GlobalMissing => 38,
            Error::PngError => 39,
            Error::FreetypeError => 40,
            Error::Win32GdiError => 41,
            Error::TagError => 42,
            Error::LastStatus => 43,
            Error::Unknown(c) => *c,
        }
    }
}

/// Turns a status code into a result: success is silent, any other code is
/// its typed error.
pub fn status_to_result(code: i32) -> (r: Result<(), Error>)
    ensures
        r == result_of(code),
        r is Ok <==> code == STATUS_SUCCESS,
{
    if code == STATUS_SUCCESS {
        Ok(())
    } else {
        Err(Error::from_code(code))
    }
}

/// Every non-success code comes back unchanged from its typed error.
pub proof fn lemma_code_round_trip(code: i32)
    requires
        code != STATUS_SUCCESS,
    ensures
        code_of(error_of(code)) == code,
{
}

/// Every error with a name comes back unchanged from its code, and an
/// unnamed code other than success comes back as the same unnamed code.
pub proof fn lemma_error_round_trip(e: Error)
    requires
        code_of(e) != STATUS_SUCCESS,
        e matches Error::Unknown(c) ==> !(1 <= c <= LAST_NAMED_CODE),
    ensures
        error_of(code_of(e)) == e,
        result_of(code_of(e)) == Err::<(), Error>(e),
{
}

/// The largest status code that has a name of its own.
pub const LAST_NAMED_CODE: i32 = 43;

} // verus!
