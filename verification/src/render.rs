//! Decoration of a fragment for its slot: alternating colours along the
//! line, and a separator glyph in front of every slot but the first.

use crate::WidgetOutput;
use vstd::prelude::*;

verus! {

/// The dark colour of the line.
pub open spec fn dark() -> Seq<char> {
    "#0F1419"@
}

/// The light colour of the line.
pub open spec fn light() -> Seq<char> {
    "white"@
}

/// The glyph that parts two slots.
pub open spec fn separator() -> Seq<char> {
    "\u{e0b0}"@
}

/// The foreground colour of a slot: dark on even slots, light on odd ones.
pub open spec fn foreground_of(slot: nat) -> Seq<char> {
    if slot % 2 == 0 {
        dark()
    } else {
        light()
    }
}

/// The background colour of a slot: light on even slots, dark on odd ones.
pub open spec fn background_of(slot: nat) -> Seq<char> {
    if slot % 2 == 0 {
        light()
    } else {
        dark()
    }
}

/// `body` inside a span that sets both colours.
pub open spec fn span_both(background: Seq<char>, foreground: Seq<char>, body: Seq<char>) -> Seq<
    char,
> {
    "<span background='"@ + background + "' foreground='"@ + foreground + "'>"@ + body
        + "</span>"@
}

/// `body` inside a span that sets the foreground colour.
pub open spec fn span_foreground(foreground: Seq<char>, body: Seq<char>) -> Seq<char> {
    "<span foreground='"@ + foreground + "'>"@ + body + "</span>"@
}

/// `body` inside a span that sets the background colour.
pub open spec fn span_background(background: Seq<char>, body: Seq<char>) -> Seq<char> {
    "<span background='"@ + background + "'>"@ + body + "</span>"@
}

/// `body` with a space on either side.
pub open spec fn spaced(body: Seq<char>) -> Seq<char> {
    " "@ + body + " "@
}

/// The text of a fragment in the colours that it left to the line.
pub open spec fn coloured(text: Seq<char>, foreground: bool, background: bool, slot: nat) -> Seq<
    char,
> {
    if foreground && background {
        span_both(background_of(slot), foreground_of(slot), spaced(text))
    } else if foreground {
        span_foreground(foreground_of(slot), spaced(text))
    } else if background {
        span_background(background_of(slot), spaced(text))
    } else {
        text
    }
}

/// What is shown for a fragment in `slot`: its coloured text, and in front
/// of it, in every slot but the first, the separator in the slot's colours.
pub open spec fn rendered(text: Seq<char>, foreground: bool, background: bool, slot: nat) -> Seq<
    char,
> {
    if slot == 0 {
        coloured(text, foreground, background, slot)
    } else {
        span_both(background_of(slot), foreground_of(slot), separator()) + coloured(
            text,
            foreground,
            background,
            slot,
        )
    }
}

/// The text of [`span_both`].
pub fn span_both_text(background: &str, foreground: &str, body: &str) -> (out: String)
    ensures
        out@ == span_both(background@, foreground@, body@),
{
    let mut out = String::from_str("<span background='");
    out.append(background);
    out.append("' foreground='");
    out.append(foreground);
    out.append("'>");
    out.append(body);
    out.append("</span>");
    out
}

/// The text of [`span_foreground`].
pub fn span_foreground_text(foreground: &str, body: &str) -> (out: String)
    ensures
        out@ == span_foreground(foreground@, body@),
{
    let mut out = String::from_str("<span foreground='");
    out.append(foreground);
    out.append("'>");
    out.append(body);
    out.append("</span>");
    out
}

/// The text of [`span_background`].
pub fn span_background_text(background: &str, body: &str) -> (out: String)
    ensures
        out@ == span_background(background@, body@),
{
    let mut out = String::from_str("<span background='");
    out.append(background);
    out.append("'>");
    out.append(body);
    out.append("</span>");
    out
}

fn spaced_text(body: &str) -> (out: String)
    ensures
        out@ == spaced(body@),
{
    let mut out = String::from_str(" ");
    out.append(body);
    out.append(" ");
    out
}

fn coloured_text(fragment: &WidgetOutput, slot: usize) -> (out: String)
    ensures
        out@ == coloured(
            fragment.text@,
            fragment.use_default_foreground,
            fragment.use_default_background,
            slot as nat,
        ),
{
    let even = slot % 2 == 0;
    let foreground = if even {
        "#0F1419"
    } else {
        "white"
    };
    let background = if even {
        "white"
    } else {
        "#0F1419"
    };
    if fragment.use_default_foreground && fragment.use_default_background {
        let body = spaced_text(fragment.text.as_str());
        span_both_text(background, foreground, body.as_str())
    } else if fragment.use_default_foreground {
        let body = spaced_text(fragment.text.as_str());
        span_foreground_text(foreground, body.as_str())
    } else if fragment.use_default_background {
        let body = spaced_text(fragment.text.as_str());
        span_background_text(background, body.as_str())
    } else {
        fragment.text.clone()
    }
}

/// The display text of `fragment` in `slot`.
pub fn render(fragment: &WidgetOutput, slot: usize) -> (shown: String)
    ensures
        shown@ == rendered(
            fragment.text@,
            fragment.use_default_foreground,
            fragment.use_default_background,
            slot as nat,
        ),
{
    let body = coloured_text(fragment, slot);
    if slot == 0 {
        body
    } else if slot % 2 == 0 {
        let mut shown = span_both_text("white", "#0F1419", "\u{e0b0}");
        shown.append(body.as_str());
        shown
    } else {
        let mut shown = span_both_text("#0F1419", "white", "\u{e0b0}");
        shown.append(body.as_str());
        shown
    }
}

/// Behind the first slot, what is shown depends on the slot only through
/// its parity: colours alternate along the line.
pub proof fn lemma_rendered_by_parity(
    text: Seq<char>,
    foreground: bool,
    background: bool,
    slot: nat,
    other: nat,
)
    requires
        slot > 0,
        other > 0,
        slot % 2 == other % 2,
    ensures
        rendered(text, foreground, background, slot) == rendered(
            text,
            foreground,
            background,
            other,
        ),
{
}

/// A fragment that left both colours to the line is shown in one span
/// that sets both; one that left neither is shown as it is. The first
/// slot has no separator in front.
pub proof fn lemma_rendered_in_the_first_two_slots(text: Seq<char>)
    ensures
        rendered(text, true, true, 0) == span_both(light(), dark(), spaced(text)),
        rendered(text, true, true, 1) == span_both(dark(), light(), separator()) + span_both(
            dark(),
            light(),
            spaced(text),
        ),
        rendered(text, false, false, 0) == text,
{
}

} // verus!
