//! What the wizards show: banners and marks, with color only on a terminal.

use vstd::prelude::*;

use crate::text;

verus! {

/// `s` in bold cyan on a terminal, and as it is elsewhere.
pub open spec fn in_bold_cyan(s: Seq<char>, color: bool) -> Seq<char> {
    if color {
        "\x1b[1;36m"@ + s + "\x1b[0m"@
    } else {
        s
    }
}

/// Wraps `s` in bold cyan where `color` says that a terminal shows it.
pub fn bold_cyan(s: &str, color: bool) -> (r: String)
    ensures
        r@ == in_bold_cyan(s@, color),
{
    if color {
        text::cat3("\x1b[1;36m", s, "\x1b[0m")
    } else {
        s.to_owned()
    }
}

/// A check mark, green where `color` says that a terminal shows it.
pub fn ok_mark(color: bool) -> (r: &'static str)
    ensures
        r@ == (if color {
            "\x1b[32m\u{2713}\x1b[0m"@
        } else {
            "\u{2713}"@
        }),
{
    if color {
        "\x1b[32m\u{2713}\x1b[0m"
    } else {
        "\u{2713}"
    }
}

/// The banner over step `n` of `total`.
pub open spec fn step_title(n: u8, total: u8, title: Seq<char>) -> Seq<char> {
    "Step "@ + text::decimal(n as nat) + "/"@ + text::decimal(total as nat) + (": "@ + title)
}

/// The banner over step `n` of `total`: `Step n/total: title`.
pub fn step_banner(n: u8, total: u8, title: &str, color: bool) -> (r: String)
    ensures
        r@ == in_bold_cyan(step_title(n, total, title@), color),
{
    let line = text::cat5(
        "Step ",
        text::decimal_text(n as u64).as_str(),
        "/",
        text::decimal_text(total as u64).as_str(),
        text::cat2(": ", title).as_str(),
    );
    bold_cyan(line.as_str(), color)
}

/// The banner over the closing note of a wizard: `Done: title`.
pub fn done_banner(title: &str, color: bool) -> (r: String)
    ensures
        r@ == in_bold_cyan("Done: "@ + title@, color),
{
    bold_cyan(text::cat2("Done: ", title).as_str(), color)
}

// --- laws -------------------------------------------------------------------

/// Color changes nothing but what stands around a line: the line itself is shown
/// either way, and without color nothing else is.
pub proof fn color_only_surrounds_a_line(s: Seq<char>)
    ensures
        in_bold_cyan(s, false) == s,
        in_bold_cyan(s, true) == "\x1b[1;36m"@ + in_bold_cyan(s, false) + "\x1b[0m"@,
{
}

/// A step's banner counts it among all of them and ends with its title.
pub proof fn a_banner_counts_the_steps(n: u8, total: u8, title: Seq<char>)
    ensures
        step_title(n, total, title) == "Step "@ + text::decimal(n as nat) + "/"@ + text::decimal(
            total as nat,
        ) + ": "@ + title,
{
    assert(step_title(n, total, title) =~= "Step "@ + text::decimal(n as nat) + "/"@
        + text::decimal(total as nat) + ": "@ + title);
}

} // verus!
