//! Decisions the X11 overlay takes before it opens: whether the session is Wayland (where
//! the X11 root cannot be captured), and how long to keep asking for the keyboard and
//! pointer grabs.

use vstd::prelude::*;

verus! {

/// Code of a character with ASCII upper-case letters turned into lower case.
pub open spec fn ascii_fold(c: char) -> u32 {
    if 'A' <= c <= 'Z' {
        (c as u32 + 32) as u32
    } else {
        c as u32
    }
}

/// Whether two strings are equal when ASCII letters are compared without case, as
/// `str::eq_ignore_ascii_case` compares them.
pub open spec fn spec_eq_ignore_ascii_case(a: Seq<char>, b: Seq<char>) -> bool {
    a.len() == b.len() && forall|i: int| 0 <= i < a.len() ==> ascii_fold(#[trigger] a[i]) == ascii_fold(b[i])
}

fn fold(c: char) -> (r: u32)
    ensures
        r == ascii_fold(c),
{
    let x = c as u32;
    if 'A' <= c && c <= 'Z' {
        x + 32
    } else {
        x
    }
}

/// Compares two strings ignoring the case of ASCII letters; see
/// [`spec_eq_ignore_ascii_case`].
pub fn eq_ignore_ascii_case(a: &str, b: &str) -> (r: bool)
    ensures
        r == spec_eq_ignore_ascii_case(a@, b@),
{
    let n = a.unicode_len();
    if n != b.unicode_len() {
        return false;
    }
    let mut i: usize = 0;
    while i < n
        invariant
            n == a@.len(),
            n == b@.len(),
            i <= n,
            forall|j: int| 0 <= j < i ==> ascii_fold(#[trigger] a@[j]) == ascii_fold(b@[j]),
        decreases n - i,
    {
        if fold(a.get_char(i)) != fold(b.get_char(i)) {
            return false;
        }
        i = i + 1;
    }
    true
}

/// A Wayland session: `XDG_SESSION_TYPE` is `wayland` in any ASCII case, or
/// `WAYLAND_DISPLAY` is set and not empty. `DISPLAY` proves nothing, since XWayland sets
/// it too. A variable that is unset or not Unicode counts as absent (`None`).
pub open spec fn spec_is_wayland_session(session_type: Option<Seq<char>>, wayland_display: Option<Seq<char>>) -> bool {
    ||| session_type matches Some(t) && spec_eq_ignore_ascii_case(t, "wayland"@)
    ||| wayland_display matches Some(d) && d.len() > 0
}

/// Whether the graphical session is Wayland, from the values of `XDG_SESSION_TYPE` and
/// `WAYLAND_DISPLAY`; see [`spec_is_wayland_session`].
pub fn is_wayland_session(session_type: Option<&str>, wayland_display: Option<&str>) -> (r: bool)
    ensures
        r == spec_is_wayland_session(
            match session_type { Some(t) => Some(t@), None => None },
            match wayland_display { Some(d) => Some(d@), None => None },
        ),
{
    let x11_says = match session_type {
        Some(t) => eq_ignore_ascii_case(t, "wayland"),
        None => false,
    };
    let display_says = match wayland_display {
        Some(d) => d.unicode_len() > 0,
        None => false,
    };
    x11_says || display_says
}

/// Attempts at a keyboard or pointer grab before giving up.
pub const GRAB_RETRIES: u32 = 20;

/// What to do after an attempt at a grab.
#[derive(Clone, Copy, Debug, PartialEq, Eq, Structural)]
pub enum GrabStep {
    /// The server granted the grab.
    Granted,
    /// Another client holds it: wait a little and try again.
    Retry,
    /// Another client held it through every attempt: wait, then give up.
    GiveUp,
}

/// The step after the `attempts`-th attempt (counting from 1), which the server granted or
/// not: granted ends the wait; otherwise retry while fewer than [`GRAB_RETRIES`] attempts
/// were made, give up at the last one.
pub open spec fn spec_grab_step(attempts: u32, granted: bool) -> GrabStep {
    if granted {
        GrabStep::Granted
    } else if attempts < GRAB_RETRIES {
        GrabStep::Retry
    } else {
        GrabStep::GiveUp
    }
}

/// The step after an attempt at a grab; see [`spec_grab_step`].
pub fn grab_step(attempts: u32, granted: bool) -> (step: GrabStep)
    ensures
        step == spec_grab_step(attempts, granted),
{
    if granted {
        GrabStep::Granted
    } else if attempts < GRAB_RETRIES {
        GrabStep::Retry
    } else {
        GrabStep::GiveUp
    }
}

/// Asking for a grab ends after at most [`GRAB_RETRIES`] attempts: counting attempts from
/// 1, every refused attempt before the last one is retried, and the last one gives up.
pub proof fn lemma_grab_gives_up_at_the_last_attempt(attempts: u32)
    requires
        1 <= attempts <= GRAB_RETRIES,
    ensures
        spec_grab_step(attempts, true) == GrabStep::Granted,
        attempts < GRAB_RETRIES ==> spec_grab_step(attempts, false) == GrabStep::Retry,
        attempts == GRAB_RETRIES ==> spec_grab_step(attempts, false) == GrabStep::GiveUp,
{
}

} // verus!
