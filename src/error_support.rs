use vstd::prelude::*;
use vstd::string::StringExecFns;

verus! {

/// Represents the Component Model `error-context` type.
///
/// The value is move-only: it is neither `Clone` nor `Copy`, so at most one
/// live value names a given handle, and `release` consumes it.
pub struct ErrorContext {
    handle: u32,
}

impl View for ErrorContext {
    type V = u32;

    /// The raw handle held.
    closed spec fn view(&self) -> u32 {
        self.handle
    }
}

/// The argument of the `error-context-drop` call that releasing handle `h`
/// makes: none for the reserved handle `0`.
pub open spec fn release_arg(h: u32) -> Option<u32> {
    if h == 0 {
        None
    } else {
        Some(h)
    }
}

/// The human-readable report: always `Error`.
pub open spec fn display_text() -> Seq<char> {
    seq!['E', 'r', 'r', 'o', 'r']
}

/// The debug report: the bare type name, without the handle.
pub open spec fn debug_text() -> Seq<char> {
    seq!['E', 'r', 'r', 'o', 'r', 'C', 'o', 'n', 't', 'e', 'x', 't']
}

/// The length argument of `error-context-new` for a message of `len` bytes:
/// none where it does not fit a signed 32-bit integer.
pub open spec fn message_len_arg(len: usize) -> Option<i32> {
    if len <= i32::MAX {
        Some(len as i32)
    } else {
        None
    }
}

/// Checks the byte length of a debug message before `error-context-new` is
/// called: the call takes the length as a signed 32-bit integer.
pub fn checked_message_len(len: usize) -> (r: Option<i32>)
    ensures
        r == message_len_arg(len),
{
    if len <= i32::MAX as usize {
        Some(len as i32)
    } else {
        None
    }
}

impl ErrorContext {
    /// Adopts a handle obtained elsewhere, with no side effect.
    pub fn from_handle(handle: u32) -> (r: Self)
        ensures
            r@ == handle,
    {
        ErrorContext { handle }
    }

    /// Wraps the handle that `error-context-new` returned, which the host
    /// gives as a non-negative signed 32-bit integer.
    pub fn from_new_handle(raw: i32) -> (r: Self)
        requires
            raw >= 0,
        ensures
            r@ == raw,
    {
        ErrorContext::from_handle(raw as u32)
    }

    /// The raw handle, for passing to further boundary calls.
    pub fn handle(&self) -> (r: u32)
        ensures
            r == self@,
    {
        self.handle
    }

    /// The human-readable report, whatever the handle.
    pub fn to_string(&self) -> (r: String)
        ensures
            r@ == display_text(),
    {
        let r = String::from_str("Error");
        proof {
            reveal_strlit("Error");
            assert(r@ =~= display_text());
        }
        r
    }

    /// The debug report, which names the type and hides the handle.
    pub fn to_debug_string(&self) -> (r: String)
        ensures
            r@ == debug_text(),
    {
        let r = String::from_str("ErrorContext");
        proof {
            reveal_strlit("ErrorContext");
            assert(r@ =~= debug_text());
        }
        r
    }

    /// Ends this value's life and says which handle, if any, must be passed
    /// to `error-context-drop`: the held one unless it is `0`.
    pub fn release(self) -> (r: Option<u32>)
        ensures
            r == release_arg(self@),
    {
        if self.handle != 0 {
            Some(self.handle)
        } else {
            None
        }
    }
}

} // verus!
