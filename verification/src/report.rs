//! What the pipelines write: the persisted file, the lines that close a run,
//! and what the reader prints.

use vstd::prelude::*;
use vstd::string::*;
use crate::text::texts_of;

verus! {

/// The path of the file that the sampling run writes and the reader prints.
pub const CACHE_FILE: &'static str = "cache_results.txt";

/// The parts of a list, with the separator between each two neighbours.
pub open spec fn joined(parts: Seq<Seq<char>>, separator: Seq<char>) -> Seq<char>
    decreases parts.len(),
{
    if parts.len() == 0 {
        Seq::empty()
    } else if parts.len() == 1 {
        parts[0]
    } else {
        joined(parts.drop_last(), separator) + separator + parts.last()
    }
}

/// The persisted file: the mean on the first line, the data points on the
/// second, and no line end after it.
pub open spec fn summary_text(mean: Seq<char>, points: Seq<Seq<char>>) -> Seq<char> {
    "Average Price: "@ + mean + "\nData Points: ["@ + joined(points, ", "@) + "]"@
}

/// The line that closes a sampling run.
pub open spec fn cache_complete_text(mean: Seq<char>) -> Seq<char> {
    "Cache complete. The average USD price of BTC is: "@ + mean
}

/// The line that closes an aggregation.
pub open spec fn distributed_complete_text(mean: Seq<char>) -> Seq<char> {
    "Distributed mode complete. The final average USD price of BTC is: "@ + mean
}

/// Renders the persisted file from the mean and the data points, each
/// already written out as a decimal number.
pub fn render_summary(mean: &str, points: &Vec<String>) -> (text: String)
    ensures
        text@ == summary_text(mean@, texts_of(points@)),
{
    let mut text = String::from_str("Average Price: ");
    text.append(mean);
    text.append("\nData Points: [");
    let ghost head = text@;
    let ghost parts = texts_of(points@);
    let mut i: usize = 0;
    assert(joined(parts.take(0), ", "@) == Seq::<char>::empty());
    while i < points.len()
        invariant
            i <= points.len(),
            parts == texts_of(points@),
            text@ == head + joined(parts.take(i as int), ", "@),
        decreases points.len() - i,
    {
        let ghost before = text@;
        if i > 0 {
            text.append(", ");
        }
        text.append(points[i].as_str());
        proof {
            let longer = parts.take(i + 1);
            assert(longer.drop_last() == parts.take(i as int));
            assert(longer.last() == points@[i as int]@);
            if i == 0 {
                assert(longer[0] == points@[i as int]@);
                assert(text@ == head + joined(longer, ", "@));
            } else {
                assert(text@ == head + joined(longer, ", "@));
            }
        }
        i = i + 1;
    }
    assert(parts.take(points.len() as int) == parts);
    text.append("]");
    text
}

/// The line that closes a sampling run, from the mean written out as a
/// decimal number.
pub fn cache_complete_line(mean: &str) -> (line: String)
    ensures
        line@ == cache_complete_text(mean@),
{
    let mut line = String::from_str("Cache complete. The average USD price of BTC is: ");
    line.append(mean);
    line
}

/// The line that closes an aggregation, from the final mean written out as a
/// decimal number.
pub fn distributed_complete_line(mean: &str) -> (line: String)
    ensures
        line@ == distributed_complete_text(mean@),
{
    let mut line = String::from_str(
        "Distributed mode complete. The final average USD price of BTC is: ",
    );
    line.append(mean);
    line
}

/// What the reader does with the file.
#[derive(Debug, PartialEq, Eq)]
pub enum ReadReport {
    /// The file was read: print `heading` on a line of its own, then
    /// `contents`, and exit with zero.
    Printed { heading: String, contents: String },
    /// The file is missing or unreadable: print `diagnostic` on the error
    /// channel and exit with `exit_code`, which is not zero.
    Failed { diagnostic: String, exit_code: i32 },
}

/// The mathematical value of a [`ReadReport`].
pub enum ReadReportView {
    Printed { heading: Seq<char>, contents: Seq<char> },
    Failed { diagnostic: Seq<char>, exit_code: int },
}

impl View for ReadReport {
    type V = ReadReportView;

    open spec fn view(&self) -> ReadReportView {
        match *self {
            ReadReport::Printed { heading, contents } => ReadReportView::Printed {
                heading: heading@,
                contents: contents@,
            },
            ReadReport::Failed { diagnostic, exit_code } => ReadReportView::Failed {
                diagnostic: diagnostic@,
                exit_code: exit_code as int,
            },
        }
    }
}

/// What the reader does: it prints the contents as they are, under a
/// heading; without contents it fails.
pub open spec fn read_report_of(contents: Option<Seq<char>>) -> ReadReportView {
    match contents {
        Some(contents) => ReadReportView::Printed {
            heading: "Read complete. Contents of cache_results.txt:"@,
            contents,
        },
        None => ReadReportView::Failed {
            diagnostic: "Failed to read from file or file not found."@,
            exit_code: 1,
        },
    }
}

/// The characters of contents that may be absent.
pub open spec fn contents_view(contents: Option<&str>) -> Option<Seq<char>> {
    match contents {
        Some(contents) => Some(contents@),
        None => None,
    }
}

/// Decides what the reader does, from the contents of the file, or `None`
/// where the file is missing or cannot be read.
pub fn read_report(contents: Option<&str>) -> (report: ReadReport)
    ensures
        report@ == read_report_of(contents_view(contents)),
{
    match contents {
        Some(contents) => ReadReport::Printed {
            heading: String::from_str("Read complete. Contents of cache_results.txt:"),
            contents: String::from_str(contents),
        },
        None => ReadReport::Failed {
            diagnostic: String::from_str("Failed to read from file or file not found."),
            exit_code: 1,
        },
    }
}

} // verus!
