//! Terminal styling of the pieces of a status line.

use colored::Colorize;
use vstd::prelude::*;
use vstd::string::*;

verus! {

/// How a piece of the status line is set off.
#[derive(Debug, Clone, Copy, PartialEq, Eq, Structural)]
pub enum Tone {
    Plain,
    Bold,
    Dimmed,
    Red,
    Yellow,
    Green,
    Blue,
    Cyan,
}

/// The character that begins every terminal control sequence.
pub open spec fn escape_char() -> char {
    '\u{1b}'
}

/// `painted` is `text` with something, possibly nothing, before and after it.
pub open spec fn wraps(painted: Seq<char>, text: Seq<char>) -> bool {
    exists|before: Seq<char>, after: Seq<char>| painted == before + text + after
}

/// What styling may do to a text: a text that holds no control sequence of its own
/// comes out whole, with control sequences around it or with nothing added.
pub open spec fn styled(painted: Seq<char>, text: Seq<char>) -> bool {
    !text.contains(escape_char()) ==> wraps(painted, text)
}

/// Calls `colored::Colorize::bold` on the text and renders the result with its
/// `Display`. Whether control sequences are written depends on the environment, so
/// only what [`styled`] says is claimed: `Display` writes the input unchanged, or the
/// style's sequence, the input and the reset sequence, and it alters the input only
/// where the input holds a reset sequence itself.
#[verifier::external_body]
fn paint_bold(text: &str) -> (painted: String)
    ensures
        styled(painted@, text@),
{
    text.bold().to_string()
}

/// Calls `colored::Colorize::dimmed`; the claim is that of [`paint_bold`].
#[verifier::external_body]
fn paint_dimmed(text: &str) -> (painted: String)
    ensures
        styled(painted@, text@),
{
    text.dimmed().to_string()
}

/// Calls `colored::Colorize::red`; the claim is that of [`paint_bold`].
#[verifier::external_body]
fn paint_red(text: &str) -> (painted: String)
    ensures
        styled(painted@, text@),
{
    text.red().to_string()
}

/// Calls `colored::Colorize::yellow`; the claim is that of [`paint_bold`].
#[verifier::external_body]
fn paint_yellow(text: &str) -> (painted: String)
    ensures
        styled(painted@, text@),
{
    text.yellow().to_string()
}

/// Calls `colored::Colorize::green`; the claim is that of [`paint_bold`].
#[verifier::external_body]
fn paint_green(text: &str) -> (painted: String)
    ensures
        styled(painted@, text@),
{
    text.green().to_string()
}

/// Calls `colored::Colorize::blue`; the claim is that of [`paint_bold`].
#[verifier::external_body]
fn paint_blue(text: &str) -> (painted: String)
    ensures
        styled(painted@, text@),
{
    text.blue().to_string()
}

/// Calls `colored::Colorize::cyan`; the claim is that of [`paint_bold`].
#[verifier::external_body]
fn paint_cyan(text: &str) -> (painted: String)
    ensures
        styled(painted@, text@),
{
    text.cyan().to_string()
}

/// Styles a text. A plain text is handed back as it is.
pub fn paint(tone: Tone, text: &str) -> (painted: String)
    ensures
        tone == Tone::Plain ==> painted@ == text@,
        styled(painted@, text@),
{
    match tone {
        Tone::Plain => {
            let painted = String::from_str(text);
            assert(painted@ =~= Seq::<char>::empty() + text@ + Seq::<char>::empty());
            painted
        },
        Tone::Bold => paint_bold(text),
        Tone::Dimmed => paint_dimmed(text),
        Tone::Red => paint_red(text),
        Tone::Yellow => paint_yellow(text),
        Tone::Green => paint_green(text),
        Tone::Blue => paint_blue(text),
        Tone::Cyan => paint_cyan(text),
    }
}

} // verus!
