//! The engine's error codes, and how they are told apart from the values
//! that the engine hands back on success.
//!
//! The engine reports a failure as the negation of a small positive number,
//! in an integer or in place of an address. The greatest such number is
//! `MAX_ERRNO`, so the topmost `MAX_ERRNO` addresses never name data.

use vstd::prelude::*;

verus! {

/// The greatest magnitude of an encoded error.
pub const MAX_ERRNO: u16 = 4095;

/// The engine numbers its own failure reasons upwards from here; magnitudes
/// below are operating-system error numbers.
pub const ERR_START: u16 = 2048;

/// The operating system's number for an input or output error.
pub const EIO: u16 = 5;

/// The operating system's number for a failed allocation.
pub const ENOMEM: u16 = 12;

/// The magnitude of `ErrorCode::InvalidSbMagic`.
pub const ERR_INVALID_SB_MAGIC: u16 = 2049;

/// The magnitude of `ErrorCode::InvalidSbVersion`.
pub const ERR_INVALID_SB_VERSION: u16 = 2050;

/// The magnitude of `ErrorCode::InvalidSbTooBig`.
pub const ERR_INVALID_SB_TOO_BIG: u16 = 2051;

/// The magnitude of `ErrorCode::InvalidSbCsumType`.
pub const ERR_INVALID_SB_CSUM_TYPE: u16 = 2052;

/// The magnitude of `ErrorCode::InvalidSbCsum`.
pub const ERR_INVALID_SB_CSUM: u16 = 2053;

/// A failure reason. The reasons that this library raises itself have a name;
/// any other is kept by its magnitude.
#[derive(Clone, Copy, Debug, PartialEq, Eq, Structural, Hash)]
pub enum ErrorCode {
    /// The header does not carry a known magic.
    InvalidSbMagic,
    /// The header's version range is not supported.
    InvalidSbVersion,
    /// The header is longer than its layout allows.
    InvalidSbTooBig,
    /// The header names a checksum algorithm that does not exist.
    InvalidSbCsumType,
    /// The header's checksum does not match its contents.
    InvalidSbCsum,
    /// Any other reason, by its magnitude.
    Other(u16),
}

/// `m` is the magnitude of one of the named reasons.
pub open spec fn is_named(m: u16) -> bool {
    ERR_INVALID_SB_MAGIC <= m <= ERR_INVALID_SB_CSUM
}

/// The reason with magnitude `m`.
pub open spec fn code_of(m: u16) -> ErrorCode {
    if m == ERR_INVALID_SB_MAGIC {
        ErrorCode::InvalidSbMagic
    } else if m == ERR_INVALID_SB_VERSION {
        ErrorCode::InvalidSbVersion
    } else if m == ERR_INVALID_SB_TOO_BIG {
        ErrorCode::InvalidSbTooBig
    } else if m == ERR_INVALID_SB_CSUM_TYPE {
        ErrorCode::InvalidSbCsumType
    } else if m == ERR_INVALID_SB_CSUM {
        ErrorCode::InvalidSbCsum
    } else {
        ErrorCode::Other(m)
    }
}

/// An address stands for an error when it is one of the topmost `MAX_ERRNO`.
pub open spec fn is_err_addr(addr: usize) -> bool {
    addr > usize::MAX - MAX_ERRNO
}

/// The magnitude that an error address encodes: its distance from the end
/// of the address space.
pub open spec fn addr_magnitude(addr: usize) -> int {
    usize::MAX - addr + 1
}

/// An integer stands for an error when it is negative and no less than
/// `-MAX_ERRNO`.
pub open spec fn is_err_ret(ret: i32) -> bool {
    -(MAX_ERRNO as int) <= ret < 0
}

impl ErrorCode {
    /// A value is well formed when its magnitude is one that can be encoded,
    /// and when it does not hide a named reason behind `Other`.
    pub open spec fn wf(self) -> bool {
        match self {
            ErrorCode::Other(m) => 1 <= m <= MAX_ERRNO && !is_named(m),
            _ => true,
        }
    }

    /// The magnitude of the reason: the positive number whose negation the
    /// engine hands back.
    pub open spec fn spec_magnitude(&self) -> u16 {
        match *self {
            ErrorCode::InvalidSbMagic => ERR_INVALID_SB_MAGIC,
            ErrorCode::InvalidSbVersion => ERR_INVALID_SB_VERSION,
            ErrorCode::InvalidSbTooBig => ERR_INVALID_SB_TOO_BIG,
            ErrorCode::InvalidSbCsumType => ERR_INVALID_SB_CSUM_TYPE,
            ErrorCode::InvalidSbCsum => ERR_INVALID_SB_CSUM,
            ErrorCode::Other(m) => m,
        }
    }

    /// The magnitude of the reason.
    #[verifier::when_used_as_spec(spec_magnitude)]
    pub fn magnitude(&self) -> (m: u16)
        ensures
            m == self.spec_magnitude(),
    {
        match self {
            ErrorCode::InvalidSbMagic => ERR_INVALID_SB_MAGIC,
            ErrorCode::InvalidSbVersion => ERR_INVALID_SB_VERSION,
            ErrorCode::InvalidSbTooBig => ERR_INVALID_SB_TOO_BIG,
            ErrorCode::InvalidSbCsumType => ERR_INVALID_SB_CSUM_TYPE,
            ErrorCode::InvalidSbCsum => ERR_INVALID_SB_CSUM,
            ErrorCode::Other(m) => *m,
        }
    }

    /// The reason with magnitude `m`, or `None` where `m` is not a magnitude
    /// that can be encoded.
    pub fn from_magnitude(m: u16) -> (r: Option<ErrorCode>)
        ensures
            r is Some <==> 1 <= m <= MAX_ERRNO,
            r matches Some(e) ==> e == code_of(m) && e.wf(),
    {
        if m == 0 || m > MAX_ERRNO {
            None
        } else if m == ERR_INVALID_SB_MAGIC {
            Some(ErrorCode::InvalidSbMagic)
        } else if m == ERR_INVALID_SB_VERSION {
            Some(ErrorCode::InvalidSbVersion)
        } else if m == ERR_INVALID_SB_TOO_BIG {
            Some(ErrorCode::InvalidSbTooBig)
        } else if m == ERR_INVALID_SB_CSUM_TYPE {
            Some(ErrorCode::InvalidSbCsumType)
        } else if m == ERR_INVALID_SB_CSUM {
            Some(ErrorCode::InvalidSbCsum)
        } else {
            Some(ErrorCode::Other(m))
        }
    }

    /// The integer that the engine hands back for this reason.
    pub fn to_ret(&self) -> (ret: i32)
        ensures
            ret == -(self.spec_magnitude() as int),
    {
        let m: i32 = self.magnitude() as i32;
        -m
    }
}

/// Tells an address that names data from one that stands for an error. An
/// address that names data, the null address among them, is handed back
/// unchanged; an error address gives the reason that it encodes.
pub fn errptr_to_result(p: usize) -> (r: Result<usize, ErrorCode>)
    ensures
        is_err_addr(p) <==> r is Err,
        r matches Ok(q) ==> q == p,
        r matches Err(e) ==> e.wf() && e == code_of(addr_magnitude(p) as u16),
{
    if p > usize::MAX - (MAX_ERRNO as usize) {
        let m: u16 = (usize::MAX - p + 1) as u16;
        match ErrorCode::from_magnitude(m) {
            Some(e) => Err(e),
            None => Ok(p),
        }
    } else {
        Ok(p)
    }
}

/// `errptr_to_result` for an address through which nothing is written: the
/// encoding is the same.
pub fn errptr_to_result_c(p: usize) -> (r: Result<usize, ErrorCode>)
    ensures
        is_err_addr(p) <==> r is Err,
        r matches Ok(q) ==> q == p,
        r matches Err(e) ==> e.wf() && e == code_of(addr_magnitude(p) as u16),
{
    errptr_to_result(p)
}

/// Tells an integer that reports success from one that stands for an error.
/// An integer outside the error range is handed back unchanged.
pub fn ret_to_result(ret: i32) -> (r: Result<i32, ErrorCode>)
    ensures
        is_err_ret(ret) <==> r is Err,
        r matches Ok(v) ==> v == ret,
        r matches Err(e) ==> e.wf() && e == code_of((-ret) as u16),
{
    if ret < 0 && ret >= -(MAX_ERRNO as i32) {
        let m: u16 = (-ret) as u16;
        match ErrorCode::from_magnitude(m) {
            Some(e) => Err(e),
            None => Ok(ret),
        }
    } else {
        Ok(ret)
    }
}

/// A magnitude that can be encoded names a reason of that magnitude, and a
/// well-formed reason is the one that its own magnitude names.
pub proof fn magnitude_round_trip(m: u16, e: ErrorCode)
    ensures
        1 <= m <= MAX_ERRNO ==> code_of(m).wf() && code_of(m).spec_magnitude() == m,
        e.wf() ==> 1 <= e.spec_magnitude() <= MAX_ERRNO && code_of(e.spec_magnitude()) == e,
{
}

/// The integer handed back for a well-formed reason is read as that reason
/// again, and so is the address with the same bits.
pub proof fn encoding_round_trip(e: ErrorCode, ret: i32, addr: usize)
    requires
        e.wf(),
        ret == -(e.spec_magnitude() as int),
        addr == usize::MAX - e.spec_magnitude() + 1,
    ensures
        is_err_ret(ret),
        code_of((-ret) as u16) == e,
        is_err_addr(addr),
        code_of(addr_magnitude(addr) as u16) == e,
{
}

} // verus!
