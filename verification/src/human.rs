//! The one-line status for people: the counts of all jobs, then the first few active
//! jobs with their progress, then how many more are active.

use crate::paint::{paint, styled, wraps, Tone};
use crate::text::{decimal, decimal_text};
use crate::snapshot::{info_models, InfoModel, Row, RowModel, TaskInfo};
use crate::texts;
use crate::ui::text_of;
use vstd::prelude::*;
use vstd::string::*;

verus! {

/// How many active jobs the status line shows one by one.
pub const ACTIVE_LIMIT: usize = 3;

/// A piece of the status line: a text and how it is set off.
#[derive(Debug)]
pub struct Segment {
    pub tone: Tone,
    pub text: String,
}

/// The mathematical content of a [`Segment`].
pub struct SegmentModel {
    pub tone: Tone,
    pub text: Seq<char>,
}

impl View for Segment {
    type V = SegmentModel;

    open spec fn view(&self) -> SegmentModel {
        SegmentModel { tone: self.tone, text: self.text@ }
    }
}

/// The views of a list of segments.
pub open spec fn segment_models(segments: Seq<Segment>) -> Seq<SegmentModel> {
    Seq::new(segments.len(), |i: int| segments[i]@)
}

/// A text that is not set off.
pub open spec fn plain(text: Seq<char>) -> SegmentModel {
    SegmentModel { tone: Tone::Plain, text }
}

/// What stands between two parts of the line.
pub open spec fn separator() -> SegmentModel {
    plain(" | "@)
}

/// One space.
pub open spec fn space() -> SegmentModel {
    plain(" "@)
}

/// A count behind its name, such as `T: 4`.
pub open spec fn tally(tone: Tone, name: Seq<char>, count: nat) -> SegmentModel {
    SegmentModel { tone, text: name + decimal_text(count) }
}

/// The counts that begin the line, after a carriage return.
pub open spec fn header_of(row: RowModel) -> Seq<SegmentModel> {
    seq![
        plain("\r"@),
        tally(Tone::Bold, "T: "@, row.total_tasks),
        separator(),
        tally(Tone::Yellow, "A: "@, row.active_tasks),
        separator(),
        tally(Tone::Green, "S: "@, row.successful_tasks),
        separator(),
        tally(Tone::Red, "F: "@, row.failed_tasks),
        separator(),
        tally(Tone::Blue, "C: "@, row.completed_tasks),
    ]
}

/// The colour of a share: red below 33 percent, yellow below 66, green from there.
pub open spec fn band_of(tenths: u64) -> Tone {
    if tenths < 330 {
        Tone::Red
    } else if tenths < 660 {
        Tone::Yellow
    } else {
        Tone::Green
    }
}

/// A dimmed note: a name, a colon, a space and a value, such as `eta: 1m 5s`.
pub open spec fn note(name: Seq<char>, value: Seq<char>) -> SegmentModel {
    SegmentModel { tone: Tone::Dimmed, text: name + ": "@ + value }
}

/// A dimmed note after a space, where there is a value.
pub open spec fn note_if(name: Seq<char>, value: Option<Seq<char>>) -> Seq<SegmentModel> {
    match value {
        Some(value) => seq![space(), note(name, value)],
        None => Seq::empty(),
    }
}

/// One active job: its label, then in square brackets its share and, where known, the
/// estimate and the time since it started.
pub open spec fn job_of(label: Seq<char>, info: InfoModel) -> Seq<SegmentModel> {
    seq![
        SegmentModel { tone: Tone::Cyan, text: label },
        plain("["@),
        SegmentModel { tone: band_of(info.percent_tenths), text: info.percent },
    ] + note_if("eta"@, info.eta) + note_if("elapsed"@, info.elapsed) + seq![plain("]"@)]
}

/// The active ones among the jobs, in their order.
pub open spec fn active_of(infos: Seq<InfoModel>) -> Seq<InfoModel>
    decreases infos.len(),
{
    if infos.len() == 0 {
        Seq::empty()
    } else if infos.last().active {
        active_of(infos.drop_last()).push(infos.last())
    } else {
        active_of(infos.drop_last())
    }
}

/// The label of the job at a position; a question mark where none was given.
pub open spec fn label_at(labels: Seq<Seq<char>>, position: int) -> Seq<char> {
    if 0 <= position < labels.len() {
        labels[position]
    } else {
        "?"@
    }
}

/// The first `count` of the jobs with their labels, a separator between each two.
pub open spec fn jobs_of(jobs: Seq<InfoModel>, labels: Seq<Seq<char>>, count: nat) -> Seq<
    SegmentModel,
>
    decreases count,
{
    if count == 0 {
        Seq::empty()
    } else {
        let last = count - 1;
        jobs_of(jobs, labels, last as nat) + (if last > 0 {
            seq![separator()]
        } else {
            Seq::empty()
        }) + job_of(label_at(labels, last), jobs[last])
    }
}

/// How many jobs are shown one by one when `active` are active.
pub open spec fn shown_count(active: nat) -> nat {
    if active > ACTIVE_LIMIT {
        ACTIVE_LIMIT as nat
    } else {
        active
    }
}

/// The end of the line where more jobs are active than are shown: `+2 more`, dimmed.
pub open spec fn overflow_of(active: nat) -> Seq<SegmentModel> {
    if active > ACTIVE_LIMIT {
        seq![
            space(),
            SegmentModel {
                tone: Tone::Dimmed,
                text: "+"@ + decimal_text((active - ACTIVE_LIMIT) as nat) + " more"@,
            },
        ]
    } else {
        Seq::empty()
    }
}

/// The whole status line of a row, piece by piece. `labels` names the jobs shown, in
/// their order.
pub open spec fn line_of(row: RowModel, labels: Seq<Seq<char>>) -> Seq<SegmentModel> {
    let active = active_of(row.tasks);
    header_of(row) + (if active.len() > 0 {
        seq![separator()]
    } else {
        Seq::empty()
    }) + jobs_of(active, labels, shown_count(active.len())) + overflow_of(active.len())
}

/// The texts one after another.
pub open spec fn joined(parts: Seq<Seq<char>>) -> Seq<char>
    decreases parts.len(),
{
    if parts.len() == 0 {
        Seq::empty()
    } else {
        joined(parts.drop_last()) + parts.last()
    }
}

/// `part` may stand for `segment` in a rendered line: a plain segment is its text, and
/// any other is its text as styling leaves it.
pub open spec fn renders(part: Seq<char>, segment: SegmentModel) -> bool {
    &&& segment.tone == Tone::Plain ==> part == segment.text
    &&& styled(part, segment.text)
}

/// `line` is a rendering of the segments: one part for each, in their order.
pub open spec fn rendering_of(line: Seq<char>, segments: Seq<SegmentModel>) -> bool {
    exists|parts: Seq<Seq<char>>|
        {
            &&& parts.len() == segments.len()
            &&& forall|k: int| 0 <= k < parts.len() ==> renders(#[trigger] parts[k], segments[k])
            &&& line == joined(parts)
        }
}

fn push_segment(segments: &mut Vec<Segment>, tone: Tone, text: String)
    ensures
        segment_models(final(segments)@) == segment_models(old(segments)@).push(
            SegmentModel { tone, text: text@ },
        ),
{
    segments.push(Segment { tone, text });
    assert(segment_models(segments@) =~= segment_models(old(segments)@).push(
        SegmentModel { tone, text: text@ },
    ));
}

fn push_plain(segments: &mut Vec<Segment>, text: &str)
    ensures
        segment_models(final(segments)@) == segment_models(old(segments)@).push(plain(text@)),
{
    push_segment(segments, Tone::Plain, String::from_str(text));
}

fn push_tally(segments: &mut Vec<Segment>, tone: Tone, name: &str, count: usize)
    ensures
        segment_models(final(segments)@) == segment_models(old(segments)@).push(
            tally(tone, name@, count as nat),
        ),
{
    let mut text = String::from_str(name);
    let number = decimal(count as u64);
    text.append(number.as_str());
    push_segment(segments, tone, text);
}

fn push_note(segments: &mut Vec<Segment>, name: &str, value: &Option<String>)
    ensures
        segment_models(final(segments)@) == segment_models(old(segments)@) + note_if(
            name@,
            text_of(*value),
        ),
{
    match value {
        Some(value) => {
            push_plain(segments, " ");
            let mut text = String::from_str(name);
            text.append(": ");
            text.append(value.as_str());
            push_segment(segments, Tone::Dimmed, text);
            assert(segment_models(segments@) =~= segment_models(old(segments)@) + note_if(
                name@,
                Some(value@),
            ));
        },
        None => {
            assert(segment_models(segments@) =~= segment_models(old(segments)@) + Seq::<
                SegmentModel,
            >::empty());
        },
    }
}

fn band(tenths: u64) -> (tone: Tone)
    ensures
        tone == band_of(tenths),
{
    if tenths < 330 {
        Tone::Red
    } else if tenths < 660 {
        Tone::Yellow
    } else {
        Tone::Green
    }
}

fn push_job(segments: &mut Vec<Segment>, label: &str, info: &TaskInfo)
    ensures
        segment_models(final(segments)@) == segment_models(old(segments)@) + job_of(
            label@,
            info@,
        ),
{
    push_segment(segments, Tone::Cyan, String::from_str(label));
    push_plain(segments, "[");
    push_segment(segments, band(info.percent_tenths), info.percent.clone());
    let ghost head = segment_models(segments@);
    assert(head =~= segment_models(old(segments)@) + seq![
        SegmentModel { tone: Tone::Cyan, text: label@ },
        plain("["@),
        SegmentModel { tone: band_of(info@.percent_tenths), text: info@.percent },
    ]);
    push_note(segments, "eta", &info.eta);
    push_note(segments, "elapsed", &info.elapsed);
    push_plain(segments, "]");
    assert(segment_models(segments@) =~= segment_models(old(segments)@) + job_of(label@, info@));
}

impl Row {
    /// The positions, in the list of jobs, of those that are active.
    fn active_positions(&self) -> (positions: Vec<usize>)
        ensures
            positions@.len() == active_of(self@.tasks).len(),
            forall|k: int|
                0 <= k < positions@.len() ==> #[trigger] positions@[k] < self.tasks@.len()
                    && self.tasks@[positions@[k] as int]@ == active_of(self@.tasks)[k],
    {
        let ghost infos = self@.tasks;
        let mut positions: Vec<usize> = Vec::new();
        let mut i: usize = 0;
        while i < self.tasks.len()
            invariant
                i <= self.tasks.len(),
                infos == info_models(self.tasks@),
                positions@.len() == active_of(infos.take(i as int)).len(),
                forall|k: int|
                    0 <= k < positions@.len() ==> #[trigger] positions@[k] < i
                        && infos[positions@[k] as int] == active_of(infos.take(i as int))[k],
            decreases self.tasks.len() - i,
        {
            proof {
                assert(infos.take(i + 1).drop_last() =~= infos.take(i as int));
                assert(infos.take(i + 1).last() == infos[i as int]);
            }
            if self.tasks[i].active {
                positions.push(i);
            }
            i += 1;
        }
        assert(infos.take(i as int) =~= infos);
        positions
    }

    /// The pieces of the status line. `labels` names the active jobs that are shown one
    /// by one, in their order; a job without a label is shown as `?`.
    pub fn human_segments(&self, labels: &Vec<String>) -> (segments: Vec<Segment>)
        ensures
            segment_models(segments@) == line_of(self@, texts(labels@)),
    {
        let mut segments: Vec<Segment> = Vec::new();
        assert(segment_models(segments@) =~= Seq::<SegmentModel>::empty());
        push_plain(&mut segments, "\r");
        push_tally(&mut segments, Tone::Bold, "T: ", self.total_tasks);
        push_plain(&mut segments, " | ");
        push_tally(&mut segments, Tone::Yellow, "A: ", self.active_tasks);
        push_plain(&mut segments, " | ");
        push_tally(&mut segments, Tone::Green, "S: ", self.successful_tasks);
        push_plain(&mut segments, " | ");
        push_tally(&mut segments, Tone::Red, "F: ", self.failed_tasks);
        push_plain(&mut segments, " | ");
        push_tally(&mut segments, Tone::Blue, "C: ", self.completed_tasks);
        assert(segment_models(segments@) =~= header_of(self@));

        let positions = self.active_positions();
        let ghost active = active_of(self@.tasks);
        if positions.len() > 0 {
            push_plain(&mut segments, " | ");
        }
        let ghost base = segment_models(segments@);
        let shown: usize = if positions.len() > ACTIVE_LIMIT {
            ACTIVE_LIMIT
        } else {
            positions.len()
        };
        let mut k: usize = 0;
        assert(segment_models(segments@) =~= base + jobs_of(active, texts(labels@), 0));
        while k < shown
            invariant
                k <= shown <= positions@.len(),
                positions@.len() == active.len(),
                active == active_of(self@.tasks),
                forall|j: int|
                    0 <= j < positions@.len() ==> #[trigger] positions@[j] < self.tasks@.len()
                        && self.tasks@[positions@[j] as int]@ == active[j],
                segment_models(segments@) == base + jobs_of(active, texts(labels@), k as nat),
            decreases shown - k,
        {
            if k > 0 {
                push_plain(&mut segments, " | ");
            }
            let info = &self.tasks[positions[k]];
            assert(info@ == active[k as int]);
            if k < labels.len() {
                push_job(&mut segments, labels[k].as_str(), info);
            } else {
                push_job(&mut segments, "?", info);
            }
            assert(segment_models(segments@) =~= base + jobs_of(
                active,
                texts(labels@),
                (k + 1) as nat,
            ));
            k += 1;
        }
        if positions.len() > ACTIVE_LIMIT {
            push_plain(&mut segments, " ");
            let mut text = String::from_str("+");
            let number = decimal((positions.len() - ACTIVE_LIMIT) as u64);
            text.append(number.as_str());
            text.append(" more");
            push_segment(&mut segments, Tone::Dimmed, text);
        }
        assert(segment_models(segments@) =~= line_of(self@, texts(labels@)));
        segments
    }
}

/// Styles every segment and puts the results one after another.
pub fn render(segments: &Vec<Segment>) -> (line: String)
    ensures
        rendering_of(line@, segment_models(segments@)),
{
    let mut line = String::new();
    let ghost mut parts: Seq<Seq<char>> = Seq::empty();
    let mut i: usize = 0;
    while i < segments.len()
        invariant
            i <= segments.len(),
            parts.len() == i,
            forall|k: int|
                0 <= k < i ==> renders(#[trigger] parts[k], segment_models(segments@)[k]),
            line@ == joined(parts),
        decreases segments.len() - i,
    {
        let painted = paint(segments[i].tone, segments[i].text.as_str());
        line.append(painted.as_str());
        proof {
            let longer = parts.push(painted@);
            assert(longer.drop_last() =~= parts);
            parts = longer;
        }
        i += 1;
    }
    line
}

/// What the label of a job may be: a question mark, or a name that is a part of the
/// path of the job's input. The name is the last component of the path; which part
/// of a path that is depends on the platform, so no more is said of it than that it
/// stands in the path, unbroken.
pub open spec fn is_label(label: Seq<char>, path: Seq<char>) -> bool {
    label == "?"@ || wraps(path, label)
}

/// The label under which a job is shown: the file name of its input, or `?`.
fn label_of(path: &str) -> (label: String)
    ensures
        is_label(label@, path@),
{
    file_name_of(path).unwrap_or(String::from_str("?"))
}

impl Row {
    /// The labels of the active jobs that the status line shows one by one.
    fn labels(&self) -> (labels: Vec<String>)
        ensures
            labels@.len() == shown_count(active_of(self@.tasks).len()),
            forall|k: int|
                0 <= k < labels@.len() ==> is_label(
                    (#[trigger] labels@[k])@,
                    active_of(self@.tasks)[k].input,
                ),
    {
        let positions = self.active_positions();
        let ghost active = active_of(self@.tasks);
        let mut labels: Vec<String> = Vec::new();
        let mut k: usize = 0;
        while k < positions.len() && k < ACTIVE_LIMIT
            invariant
                k <= positions@.len(),
                k <= ACTIVE_LIMIT,
                labels@.len() == k,
                positions@.len() == active.len(),
                forall|j: int|
                    0 <= j < positions@.len() ==> #[trigger] positions@[j] < self.tasks@.len()
                        && self.tasks@[positions@[j] as int]@ == active[j],
                forall|j: int| 0 <= j < k ==> is_label((#[trigger] labels@[j])@, active[j].input),
            decreases positions.len() - k,
        {
            let label = label_of(self.tasks[positions[k]].input.as_str());
            labels.push(label);
            k += 1;
        }
        labels
    }

    /// The status line, styled for a terminal.
    ///
    /// Each job is shown under the file name of its input. The line is the pieces of
    /// [`line_of`] in their order; what styling adds to a piece depends on the
    /// environment.
    pub fn to_string_human(&self) -> (line: String)
        ensures
            exists|labels: Seq<Seq<char>>| rendering_of(line@, #[trigger] line_of(self@, labels)),
    {
        let labels = self.labels();
        let segments = self.human_segments(&labels);
        render(&segments)
    }
}

/// Calls `std::path::Path::file_name` on the path and hands on the name as a `String`.
/// The name is the last component of the path. Which component that is depends on the
/// platform, so all that is claimed is that a name, where there is one, is a part of
/// the path.
#[verifier::external_body]
fn file_name_of(path: &str) -> (name: Option<String>)
    ensures
        name matches Some(given) ==> wraps(path@, given@),
{
    std::path::Path::new(path).file_name().and_then(|name| name.to_str()).map(|name| name.to_owned())
}

} // verus!
