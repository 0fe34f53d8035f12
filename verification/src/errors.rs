//! The error surface of the library.
//!
//! Setup, read, write and close failures carry the operating system's
//! error code.  A read can also fail without data in non-blocking mode,
//! or because the event buffer itself is untrustworthy; decode failures
//! are fatal for the buffer, and the caller should stop trusting the
//! descriptor rather than resynchronize on offsets derived from corrupt
//! data.

use vstd::prelude::*;

use crate::flags::EINVAL;
use crate::flags::EMFILE;
use crate::flags::ENOMEM;
use crate::flags::ENOSYS;
use crate::flags::EPERM;

verus! {

/// Why a byte buffer could not be decoded.  Every variant is
/// protocol-fatal: decoding of the buffer stops where it arose.
#[derive(Clone, Copy, Debug, PartialEq, Eq, Structural)]
pub enum DecodeError {
    /// A record's version tag differs from the compiled-in
    /// [`crate::flags::FANOTIFY_METADATA_VERSION`].
    BadVersion,
    /// A record's header length and total length are inconsistent.
    BadHeader,
    /// A record declares more bytes than the buffer holds.
    Truncated,
    /// An extension block is malformed or overruns its record.
    BadExtension,
}

/// Why a read produced no records.
#[derive(Clone, Copy, Debug, PartialEq, Eq, Structural)]
pub enum ReadError {
    /// The operating system reported this error code.
    Os(i32),
    /// The descriptor is non-blocking and no data was ready.
    WouldBlock,
    /// The bytes read could not be decoded.
    Decode(DecodeError),
}

/// An error from one of the library's operations.
#[derive(Clone, Copy, Debug, PartialEq, Eq, Structural)]
pub enum FanotifyError {
    /// Initializing the notification group failed.
    Init(i32),
    /// Changing a mark failed.
    Mark(i32),
    /// Reading events failed.
    Read(ReadError),
    /// Writing a permission response failed.
    Write(i32),
    /// Closing a descriptor failed.
    Close(i32),
}

/// An error code reported by the group-initialization call, with a
/// description of the codes that call is documented to produce.
#[derive(Clone, Copy, Debug, PartialEq, Eq, Structural)]
pub struct FanotifyInitError {
    code: i32,
}

/// The description that belongs to an initialization error code.
pub open spec fn init_error_message(code: i32) -> Seq<char> {
    if code == EINVAL {
        "An invalid value was passed in flags or event_f_flags."@
    } else if code == EMFILE {
        "The number of notification groups for this user, or the number of open file descriptors of this process, reached its limit."@
    } else if code == ENOMEM {
        "The allocation of memory for the notification group failed."@
    } else if code == ENOSYS {
        "This kernel does not implement the fanotify interface."@
    } else if code == EPERM {
        "The operation requires the CAP_SYS_ADMIN capability."@
    } else {
        "Unknown error occurred."@
    }
}

impl FanotifyInitError {
    /// The wrapped error code, for contracts.
    pub closed spec fn spec_code(&self) -> i32 {
        self.code
    }

    /// Wraps an error code reported by the initialization call.
    pub fn new(code: i32) -> (r: FanotifyInitError)
        ensures
            r.spec_code() == code,
    {
        FanotifyInitError { code }
    }

    /// The operating system's error code.
    pub fn code(&self) -> (r: i32)
        ensures
            r == self.spec_code(),
    {
        self.code
    }

    /// A description of the error code.
    pub fn message(&self) -> (r: &'static str)
        ensures
            r@ == init_error_message(self.spec_code()),
    {
        if self.code == EINVAL {
            "An invalid value was passed in flags or event_f_flags."
        } else if self.code == EMFILE {
            "The number of notification groups for this user, or the number of open file descriptors of this process, reached its limit."
        } else if self.code == ENOMEM {
            "The allocation of memory for the notification group failed."
        } else if self.code == ENOSYS {
            "This kernel does not implement the fanotify interface."
        } else if self.code == EPERM {
            "The operation requires the CAP_SYS_ADMIN capability."
        } else {
            "Unknown error occurred."
        }
    }
}

} // verus!
