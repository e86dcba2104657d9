//! Output tiers and the text the status reporter writes for each of them.
use vstd::prelude::*;
use vstd::string::*;
use crate::text::{concat2, concat3, repeated, repeat_char, str_eq};

verus! {

/// How much progress text a run shows.
#[derive(Clone, Copy, Debug, PartialEq, Eq, Structural)]
pub enum OutputLevel {
    /// One status line, rewritten in place with a carriage return.
    Minimal,
    /// Multi-line phase headers with a "done" marker per phase.
    Normal,
    /// As `Normal`, with every detail shown.
    Verbose,
}

/// What `str::to_lowercase` returns for a string.
pub uninterp spec fn lower_of(s: Seq<char>) -> Seq<char>;

/// Relies on `str::to_lowercase`: the result depends on the characters alone.
#[verifier::external_body]
fn lowercase(s: &str) -> (r: String)
    ensures
        r@ == lower_of(s@),
{
    s.to_lowercase()
}

/// The tier that an already lower-cased name selects; any other name is minimal.
pub open spec fn level_of(name: Seq<char>) -> OutputLevel {
    if name == "verbose"@ || name == "v"@ {
        OutputLevel::Verbose
    } else if name == "normal"@ || name == "n"@ {
        OutputLevel::Normal
    } else {
        OutputLevel::Minimal
    }
}

/// Maps a lower-cased tier name to its tier.
pub fn level_from_lowered(name: &str) -> (r: OutputLevel)
    ensures
        r == level_of(name@),
{
    if str_eq(name, "verbose") || str_eq(name, "v") {
        OutputLevel::Verbose
    } else if str_eq(name, "normal") || str_eq(name, "n") {
        OutputLevel::Normal
    } else {
        OutputLevel::Minimal
    }
}

/// Maps a tier name, in any letter case, to its tier.
pub fn level_from_name(name: &str) -> (r: OutputLevel)
    ensures
        r == level_of(lower_of(name@)),
{
    let lowered = lowercase(name);
    level_from_lowered(lowered.as_str())
}

/// Width of the blank run that wipes the status line.
pub const CLEAR_WIDTH: usize = 80;

/// The text that shows `message` as the current status.
pub open spec fn status_text(level: OutputLevel, message: Seq<char>) -> Seq<char> {
    match level {
        OutputLevel::Minimal => seq!['\r'] + message + seq![' '],
        _ => message + seq!['\n'],
    }
}

/// The text that blanks the status line before foreign output is written.
pub open spec fn clear_text(level: OutputLevel) -> Seq<char> {
    match level {
        OutputLevel::Minimal => seq!['\r'] + repeat_char(' ', CLEAR_WIDTH as nat) + seq!['\r'],
        _ => Seq::empty(),
    }
}

/// Renders `message` as the current status line of the tier.
pub fn render_status(level: OutputLevel, message: &str) -> (r: String)
    ensures
        r@ == status_text(level, message@),
{
    proof {
        reveal_strlit("\r");
        reveal_strlit(" ");
        reveal_strlit("\n");
    }
    match level {
        OutputLevel::Minimal => concat3("\r", message, " "),
        _ => concat2(message, "\n"),
    }
}

/// Renders the text that blanks the status line: carriage return, spaces,
/// carriage return in the minimal tier, nothing in the others.
pub fn render_clear(level: OutputLevel) -> (r: String)
    ensures
        r@ == clear_text(level),
{
    proof {
        reveal_strlit("\r");
    }
    match level {
        OutputLevel::Minimal => {
            let blank = repeated(' ', CLEAR_WIDTH);
            concat3("\r", blank.as_str(), "\r")
        },
        _ => String::new(),
    }
}

} // verus!
