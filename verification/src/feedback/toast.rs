//! Transient notification toasts.
use std::time::{Duration, Instant};

use vstd::prelude::*;

use crate::text::owned;

verus! {

/// How long toasts are displayed before auto-dismissing, in milliseconds
pub const TOAST_DURATION_MS: u128 = 3000;

#[verifier::external_type_specification]
#[verifier::external_body]
pub struct ExInstant(Instant);

/// `Instant::now`: the current time; nothing is claimed of its value.
#[verifier::external_body]
fn now() -> Instant {
    Instant::now()
}

/// `Instant::elapsed`: the time since the instant; nothing is claimed of it.
#[verifier::external_body]
fn elapsed_since(i: &Instant) -> Duration {
    i.elapsed()
}

/// `Duration::as_millis`: the whole milliseconds of a duration; nothing is
/// claimed of the value, which depends on the clock that produced it.
#[verifier::external_body]
fn whole_millis(d: &Duration) -> u128 {
    d.as_millis()
}

/// Toast severity/type
#[derive(Debug, Clone, Copy, PartialEq, Eq, Structural)]
pub enum ToastLevel {
    /// Informational (blue)
    Info,
    /// Success (green)
    Success,
    /// Warning (yellow)
    Warning,
    /// Error (red)
    Error,
}

/// A transient notification that auto-dismisses
#[derive(Debug)]
pub struct Toast {
    /// Message to display
    pub message: String,
    /// Severity/type
    pub level: ToastLevel,
    /// When the toast was created
    pub created: Instant,
}

impl Clone for Toast {
    fn clone(&self) -> (res: Self)
        ensures
            res == *self,
    {
        Toast { message: self.message.clone(), level: self.level, created: self.created }
    }
}

/// Whether a toast shown for `elapsed_ms` milliseconds has expired.
pub open spec fn expired_after(elapsed_ms: u128) -> bool {
    elapsed_ms >= TOAST_DURATION_MS
}

/// Whether a toast shown for `elapsed_ms` milliseconds has expired.
pub fn is_expired_after(elapsed_ms: u128) -> (res: bool)
    ensures
        res == expired_after(elapsed_ms),
{
    elapsed_ms >= TOAST_DURATION_MS
}

impl Toast {
    /// Create a new toast, timed from now
    pub fn new(message: &str, level: ToastLevel) -> (res: Self)
        ensures
            res.message@ == message@,
            res.level == level,
    {
        Toast::from_string(owned(message), level)
    }

    /// Create a new toast from an owned message, timed from now
    pub fn from_string(message: String, level: ToastLevel) -> (res: Self)
        ensures
            res.message == message,
            res.level == level,
    {
        Toast { message, level, created: now() }
    }

    /// Create an info toast
    pub fn info(message: &str) -> (res: Self)
        ensures
            res.message@ == message@,
            res.level == ToastLevel::Info,
    {
        Toast::new(message, ToastLevel::Info)
    }

    /// Create a success toast
    pub fn success(message: &str) -> (res: Self)
        ensures
            res.message@ == message@,
            res.level == ToastLevel::Success,
    {
        Toast::new(message, ToastLevel::Success)
    }

    /// Create a warning toast
    pub fn warning(message: &str) -> (res: Self)
        ensures
            res.message@ == message@,
            res.level == ToastLevel::Warning,
    {
        Toast::new(message, ToastLevel::Warning)
    }

    /// Create an error toast
    pub fn error(message: &str) -> (res: Self)
        ensures
            res.message@ == message@,
            res.level == ToastLevel::Error,
    {
        Toast::new(message, ToastLevel::Error)
    }

    /// Milliseconds since the toast was created.
    pub fn elapsed_ms(&self) -> u128 {
        whole_millis(&elapsed_since(&self.created))
    }

    /// Check if the toast has expired: it is shown for three seconds.  What it
    /// returns depends on the clock; for the elapsed time it reads, it is
    /// `is_expired_after` of that time.
    pub fn is_expired(&self) -> bool {
        is_expired_after(self.elapsed_ms())
    }
}

} // verus!
