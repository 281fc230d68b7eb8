//! Minimal ANSI coloring. Whether color is on (the NO_COLOR convention, and
//! stdout being a terminal) is decided by the caller, which reads the
//! environment; these functions only wrap text in the escape sequence.

use vstd::prelude::*;

verus! {

/// `text` wrapped in the SGR sequence `code` when coloring is on, or `text`
/// unchanged when it is off.
pub open spec fn painted(enabled: bool, code: Seq<char>, text: Seq<char>) -> Seq<char> {
    if enabled {
        "\x1b["@ + code + "m"@ + text + "\x1b[0m"@
    } else {
        text
    }
}

pub open spec fn green_text(enabled: bool, text: Seq<char>) -> Seq<char> {
    painted(enabled, "32"@, text)
}

pub open spec fn red_text(enabled: bool, text: Seq<char>) -> Seq<char> {
    painted(enabled, "31"@, text)
}

pub open spec fn yellow_text(enabled: bool, text: Seq<char>) -> Seq<char> {
    painted(enabled, "33"@, text)
}

pub open spec fn cyan_text(enabled: bool, text: Seq<char>) -> Seq<char> {
    painted(enabled, "36"@, text)
}

/// Wrap `text` in the SGR sequence `code` when coloring is on.
pub fn paint(enabled: bool, code: &str, text: &str) -> (r: String)
    ensures
        r@ == painted(enabled, code@, text@),
{
    if enabled {
        let mut out = String::from_str("\x1b[");
        out.append(code);
        out.append("m");
        out.append(text);
        out.append("\x1b[0m");
        out
    } else {
        String::from_str(text)
    }
}

/// Green text (success).
pub fn green(enabled: bool, text: &str) -> (r: String)
    ensures
        r@ == green_text(enabled, text@),
{
    paint(enabled, "32", text)
}

/// Red text (failure, removal).
pub fn red(enabled: bool, text: &str) -> (r: String)
    ensures
        r@ == red_text(enabled, text@),
{
    paint(enabled, "31", text)
}

/// Yellow text (skipped, changed).
pub fn yellow(enabled: bool, text: &str) -> (r: String)
    ensures
        r@ == yellow_text(enabled, text@),
{
    paint(enabled, "33", text)
}

/// Cyan text (headings).
pub fn cyan(enabled: bool, text: &str) -> (r: String)
    ensures
        r@ == cyan_text(enabled, text@),
{
    paint(enabled, "36", text)
}

/// With coloring off, every color is the identity: a pipe or a NO_COLOR
/// terminal gets the plain text.
pub proof fn lemma_uncolored_is_plain(code: Seq<char>, text: Seq<char>)
    ensures
        painted(false, code, text) == text,
{
}

} // verus!
