//! What the loggers of the wrapper write.
use colored::Colorize;
use vstd::prelude::*;

use crate::enums::ObsLogLevel;
use crate::utils::decimal::{format_i64, spec_decimal_int};
use crate::utils::text::push_char;

verus! {

/// A logger that writes every message to standard output.
#[derive(Debug)]
pub struct ConsoleLogger {
    _private: (),
}

impl ConsoleLogger {
    pub fn new() -> (r: Self) {
        ConsoleLogger { _private: () }
    }
}

/// The line that a logger writes for a message: the level in brackets, a
/// space, then the message.
pub open spec fn spec_log_line(level_text: Seq<char>, msg: Seq<char>) -> Seq<char> {
    seq!['['] + level_text + seq![']', ' '] + msg
}

/// Builds the line `[level] msg` that a logger writes.
pub fn format_log_line(level_text: &str, msg: &str) -> (r: String)
    ensures
        r@ == spec_log_line(level_text@, msg@),
{
    let mut s = String::new();
    push_char(&mut s, '[');
    s.append(level_text);
    push_char(&mut s, ']');
    push_char(&mut s, ' ');
    s.append(msg);
    assert(s@ =~= spec_log_line(level_text@, msg@));
    s
}

/// Builds the line that the console logger writes for a message, with the
/// level's name.
pub fn console_log_line(level: ObsLogLevel, msg: &str) -> (r: String)
    ensures
        r@ == spec_log_line(level.spec_name(), msg@),
{
    format_log_line(level.name(), msg)
}

/// The remark added when no more than the one expected allocation leaked.
pub open spec fn spec_leak_notice() -> Seq<char> {
    " (this is an issue in the OBS source code that cannot be fixed)"@
}

/// The message logged at shutdown about the number of allocations that libobs
/// still holds.
pub open spec fn spec_leak_message(allocs: i64) -> Seq<char> {
    "Number of memory leaks: "@ + spec_decimal_int(allocs as int) + if allocs > 1 {
        Seq::<char>::empty()
    } else {
        spec_leak_notice()
    }
}

/// The level and message logged at shutdown about leaked allocations: more
/// than one leak is an error; one leak is expected, as libobs does not free a
/// data path.
pub fn leak_report(allocs: i64) -> (r: (ObsLogLevel, String))
    ensures
        r.0 == (if allocs > 1 {
            ObsLogLevel::Error
        } else {
            ObsLogLevel::Info
        }),
        r.1@ == spec_leak_message(allocs),
{
    let mut s = String::new();
    s.append("Number of memory leaks: ");
    let n = format_i64(allocs);
    s.append(n.as_str());
    if allocs > 1 {
        assert(s@ =~= spec_leak_message(allocs));
        (ObsLogLevel::Error, s)
    } else {
        s.append(" (this is an issue in the OBS source code that cannot be fixed)");
        assert(s@ =~= spec_leak_message(allocs));
        (ObsLogLevel::Info, s)
    }
}

/// The escape sequence that ends a colored text.
pub open spec fn spec_reset_sequence() -> Seq<char> {
    seq!['\x1B', '[', '0', 'm']
}

/// Whether a text holds the reset sequence somewhere.
pub open spec fn spec_has_reset(s: Seq<char>) -> bool {
    exists|i: int| 0 <= i && i + 4 <= s.len() && #[trigger] s.subrange(i, i + 4) == spec_reset_sequence()
}

/// Whether `r` is `s` as the `colored` crate writes it with the escape
/// sequence `style`: unchanged when coloring is switched off; otherwise the
/// style, the text and the reset sequence. The crate changes the text in the
/// middle only where it holds a reset sequence itself.
pub open spec fn spec_painted(r: Seq<char>, s: Seq<char>, style: Seq<char>) -> bool {
    ||| r == s
    ||| {
        &&& r.len() >= style.len() + 4
        &&& r.take(style.len() as int) == style
        &&& r.skip(r.len() - 4) == spec_reset_sequence()
        &&& !spec_has_reset(s) ==> r == style + s + spec_reset_sequence()
    }
}

/// The escape sequence `colored` writes for a red background.
pub open spec fn spec_on_red_style() -> Seq<char> {
    seq!['\x1B', '[', '4', '1', 'm']
}

/// The escape sequence `colored` writes for a yellow foreground.
pub open spec fn spec_yellow_style() -> Seq<char> {
    seq!['\x1B', '[', '3', '3', 'm']
}

/// The escape sequence `colored` writes for bold text on a green foreground.
pub open spec fn spec_green_bold_style() -> Seq<char> {
    seq!['\x1B', '[', '1', ';', '3', '2', 'm']
}

/// The escape sequence `colored` writes for a blue foreground.
pub open spec fn spec_blue_style() -> Seq<char> {
    seq!['\x1B', '[', '3', '4', 'm']
}

/// `colored`'s `Colorize::on_red` followed by `to_string`.
/// Claimed: the text unchanged, or wrapped in the red background sequence and
/// the reset sequence; which one depends on the environment and on
/// `colored::control`.
#[verifier::external_body]
fn paint_on_red(s: &str) -> (r: String)
    ensures
        spec_painted(r@, s@, spec_on_red_style()),
{
    s.on_red().to_string()
}

/// `colored`'s `Colorize::yellow` followed by `to_string`.
/// Claimed: the text unchanged, or wrapped in the yellow sequence and the
/// reset sequence; which one depends on the environment and on
/// `colored::control`.
#[verifier::external_body]
fn paint_yellow(s: &str) -> (r: String)
    ensures
        spec_painted(r@, s@, spec_yellow_style()),
{
    s.yellow().to_string()
}

/// `colored`'s `Colorize::green` and `bold`, followed by `to_string`.
/// Claimed: the text unchanged, or wrapped in the bold green sequence and the
/// reset sequence; which one depends on the environment and on
/// `colored::control`.
#[verifier::external_body]
fn paint_green_bold(s: &str) -> (r: String)
    ensures
        spec_painted(r@, s@, spec_green_bold_style()),
{
    s.green().bold().to_string()
}

/// `colored`'s `Colorize::blue` followed by `to_string`.
/// Claimed: the text unchanged, or wrapped in the blue sequence and the reset
/// sequence; which one depends on the environment and on `colored::control`.
#[verifier::external_body]
fn paint_blue(s: &str) -> (r: String)
    ensures
        spec_painted(r@, s@, spec_blue_style()),
{
    s.blue().to_string()
}

impl ObsLogLevel {
    /// The escape sequence with which a level's messages are colored.
    pub open spec fn spec_style(self) -> Seq<char> {
        match self {
            ObsLogLevel::Error => spec_on_red_style(),
            ObsLogLevel::Warning => spec_yellow_style(),
            ObsLogLevel::Info => spec_green_bold_style(),
            ObsLogLevel::Debug => spec_blue_style(),
        }
    }

    /// Colors a text by severity: errors on red, warnings yellow, information
    /// green and bold, debug messages blue.
    pub fn colorize(&self, s: &str) -> (r: String)
        ensures
            spec_painted(r@, s@, self.spec_style()),
    {
        match self {
            ObsLogLevel::Error => paint_on_red(s),
            ObsLogLevel::Warning => paint_yellow(s),
            ObsLogLevel::Info => paint_green_bold(s),
            ObsLogLevel::Debug => paint_blue(s),
        }
    }
}

} // verus!
