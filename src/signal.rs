use crate::error::RuntimeError;
use nix::sys::signal::Signal;
use vstd::prelude::*;

verus! {

/// Whether nix knows a signal with this number on the platform.
pub uninterp spec fn is_signal(n: int) -> bool;

/// The text nix gives for an error number.
pub uninterp spec fn errno_text(code: int) -> Seq<char>;

/// Relies on nix's `TryFrom<i32>` for `Signal`: it accepts exactly the
/// numbers of the platform's standard signals, which on Linux all lie in
/// 1..=31 and include SIGKILL (9) and SIGTERM (15).
#[verifier::external_body]
fn names_signal(n: i32) -> (r: bool)
    ensures
        r == is_signal(n as int),
        r ==> 1 <= n <= 31,
        n == 9 || n == 15 ==> r,
{
    Signal::try_from(n).is_ok()
}

/// Relies on nix's `Errno::from_raw` and `Display` for `Errno`: the text
/// depends on the number alone.
#[verifier::external_body]
fn errno_message(code: i32) -> (r: String)
    ensures
        r@ == errno_text(code as int),
{
    nix::errno::Errno::from_raw(code).to_string()
}

/// The runtime error for a failed system call with error number `code`.
pub fn nix_to_io(code: i32) -> (r: RuntimeError)
    ensures
        r matches RuntimeError::Io(m) && m@ == errno_text(code as int),
{
    RuntimeError::Io(errno_message(code))
}

/// Maps a caller-supplied signal number: 0 is the liveness probe (no signal
/// is delivered, `None`), any other number must name a signal and is
/// returned as is.
pub fn signal_from_i32(n: i32) -> (r: Result<Option<i32>, RuntimeError>)
    ensures
        n == 0 ==> r == Ok::<Option<i32>, RuntimeError>(None),
        n != 0 && is_signal(n as int) ==> r == Ok::<Option<i32>, RuntimeError>(Some(n)),
        n != 0 && !is_signal(n as int) ==> r == Err::<Option<i32>, RuntimeError>(RuntimeError::InvalidSignal(n)),
        n == 9 || n == 15 ==> r == Ok::<Option<i32>, RuntimeError>(Some(n)),
        (n < 0 || n > 31) ==> r == Err::<Option<i32>, RuntimeError>(RuntimeError::InvalidSignal(n)),
{
    if n == 0 {
        return Ok(None);
    }
    if names_signal(n) {
        Ok(Some(n))
    } else {
        Err(RuntimeError::InvalidSignal(n))
    }
}

} // verus!
