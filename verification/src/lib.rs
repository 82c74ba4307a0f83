//! Orchestration core of a batch transcoder: the per-job lifecycle, the reducer that
//! folds lifecycle events into a table of job states, and the renderings of that table.
//!
//! Everything here is synchronous and works on plain values. Waiting, channels,
//! subprocesses and terminal output belong to the program built around this library;
//! it feeds events in and carries out the actions that come back.

pub mod clock;
pub mod human;
pub mod orchestrator;
pub mod order;
pub mod paint;
pub mod progress;
pub mod snapshot;
pub mod tasks;
pub mod text;
pub mod ui;

use vstd::prelude::*;
use vstd::string::*;

verus! {

/// How the state of all jobs is written out.
#[derive(Debug, Clone, Copy, PartialEq, Eq, Structural)]
pub enum OutputFormat {
    /// One trace record for every rendering.
    Verbose,
    /// One status line for people, redrawn in place.
    Human,
    /// The whole snapshot as compact JSON.
    Json,
    /// The whole snapshot as indented JSON.
    JsonPretty,
}

/// The view of a list of texts.
pub open spec fn texts(list: Seq<String>) -> Seq<Seq<char>> {
    Seq::new(list.len(), |i: int| list[i]@)
}

/// What the user asked for on the command line.
#[derive(Debug, Clone)]
pub struct Args {
    /// The input path, or `-` for a list of paths, one on each line of standard input.
    pub input: String,
    /// The name of each output; `{SLUG}` in it stands for the input's file stem.
    pub output: String,
    pub no_audio: bool,
    pub no_video: bool,
    pub overwrite_output: bool,
    pub format: OutputFormat,
    /// Arguments handed on to every transcoder run, as they are.
    pub ffmpeg_args: Vec<String>,
}

/// The text with every occurrence of `mark` replaced by `with`, found from left to
/// right, none overlapping another. An empty `mark` occurs nowhere.
pub open spec fn substituted(text: Seq<char>, mark: Seq<char>, with: Seq<char>) -> Seq<char>
    decreases text.len(),
{
    if mark.len() == 0 || text.len() < mark.len() {
        text
    } else if text.take(mark.len() as int) == mark {
        with + substituted(text.skip(mark.len() as int), mark, with)
    } else {
        seq![text[0]] + substituted(text.skip(1), mark, with)
    }
}

/// Whether `mark` stands in `text` at the position `at`.
fn stands_at(text: &str, at: usize, mark: &str) -> (found: bool)
    requires
        at + mark@.len() <= text@.len() <= usize::MAX,
    ensures
        found == (text@.subrange(at as int, at + mark@.len()) == mark@),
{
    let length = mark.unicode_len();
    let mut k: usize = 0;
    while k < length
        invariant
            k <= length,
            length == mark@.len(),
            at + length <= text@.len() <= usize::MAX,
            forall|j: int| 0 <= j < k ==> text@[at + j] == mark@[j],
        decreases length - k,
    {
        if text.get_char(at + k) != mark.get_char(k) {
            assert(text@.subrange(at as int, at + mark@.len())[k as int] != mark@[k as int]);
            return false;
        }
        k += 1;
    }
    assert(text@.subrange(at as int, at + mark@.len()) =~= mark@);
    true
}

/// Replaces every occurrence of a mark in a text.
pub fn substitute(text: &str, mark: &str, with: &str) -> (result: String)
    ensures
        result@ == substituted(text@, mark@, with@),
{
    let length = text.unicode_len();
    let width = mark.unicode_len();
    if width == 0 || length < width {
        return String::from_str(text);
    }
    let mut result = String::new();
    let mut start: usize = 0;
    let mut i: usize = 0;
    assert(text@.subrange(0, 0) =~= Seq::<char>::empty());
    assert(text@.skip(0) =~= text@);
    while length - i >= width
        invariant
            start <= i <= length,
            length == text@.len(),
            width == mark@.len(),
            width > 0,
            result@ + text@.subrange(start as int, i as int) + substituted(
                text@.skip(i as int),
                mark@,
                with@,
            ) == substituted(text@, mark@, with@),
        decreases length - i,
    {
        let ghost rest = text@.skip(i as int);
        assert(rest.take(width as int) =~= text@.subrange(i as int, i + width));
        if stands_at(text, i, mark) {
            result.append(text.substring_char(start, i));
            result.append(with);
            assert(rest.skip(width as int) =~= text@.skip(i + width));
            assert(text@.subrange(i + width, i + width) =~= Seq::<char>::empty());
            i += width;
            start = i;
        } else {
            assert(rest.skip(1) =~= text@.skip(i + 1));
            assert(text@.subrange(start as int, i as int) + seq![rest[0]] =~= text@.subrange(
                start as int,
                i + 1,
            ));
            i += 1;
        }
    }
    result.append(text.substring_char(start, length));
    assert(text@.subrange(start as int, i as int) + text@.skip(i as int) =~= text@.subrange(
        start as int,
        length as int,
    ));
    result
}

impl Args {
    /// Whether the inputs are a list to be read from standard input: the input is `-`.
    pub fn reads_list(&self) -> (list: bool)
        ensures
            list == (self.input@ == "-"@),
    {
        proof {
            reveal_strlit("-");
        }
        let input = self.input.as_str();
        let list = input.unicode_len() == 1 && input.get_char(0) == '-';
        assert(list ==> self.input@ =~= "-"@);
        list
    }

    /// The name of the output for an input with the given file stem: the output
    /// template with every `{SLUG}` replaced by the stem.
    pub fn output_name(&self, slug: &str) -> (name: String)
        ensures
            name@ == substituted(self.output@, "{SLUG}"@, slug@),
    {
        substitute(self.output.as_str(), "{SLUG}", slug)
    }
}

} // verus!
