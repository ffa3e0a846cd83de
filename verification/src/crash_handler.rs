//! Crash handlers of the wrapper.
use vstd::prelude::*;

verus! {

/// A crash handler that writes the crash message to standard error.
pub struct ConsoleCrashHandler {
    _private: (),
}

impl ConsoleCrashHandler {
    pub fn new() -> (r: Self) {
        ConsoleCrashHandler { _private: () }
    }
}

/// A crash handler that offers to copy the crash message to the clipboard.
pub struct DialogCrashHandler {
    _private: (),
}

impl DialogCrashHandler {
    pub fn new() -> (r: Self) {
        DialogCrashHandler { _private: () }
    }
}

/// The line that a crash handler writes for a crash message.
pub fn crash_line(message: &str) -> (r: String)
    ensures
        r@ == "OBS crashed: "@ + message@,
{
    let mut s = String::new();
    s.append("OBS crashed: ");
    s.append(message);
    s
}

} // verus!
