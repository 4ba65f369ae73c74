//! The sink that takes what is reported.
//!
//! A [`DefaultPrinter`] collects the lines in the order in which they are
//! reported and counts successes and failures. The caller writes the lines
//! out.

use crate::date_utils::convert_date_time;
use crate::date_utils::converted;
use crate::object_record::ObjectRecord;
use crate::text::signed_decimal;
use crate::text::signed_decimal_text;
use vstd::prelude::*;

verus! {

/// Where a line is written.
#[derive(Clone, Copy, Debug, PartialEq, Eq, Structural)]
pub enum OutputChannel {
    /// The standard output.
    Standard,
    /// The error output.
    Error,
}

/// One reported line.
#[derive(Debug)]
pub struct OutputLine {
    pub channel: OutputChannel,
    pub text: String,
}

/// What an [`OutputLine`] holds.
pub struct LineModel {
    pub channel: OutputChannel,
    pub text: Seq<char>,
}

impl View for OutputLine {
    type V = LineModel;

    open spec fn view(&self) -> LineModel {
        LineModel { channel: self.channel, text: self.text@ }
    }
}

/// What the lines of a list hold, in the list's order.
pub open spec fn lines_view(lines: Seq<OutputLine>) -> Seq<LineModel> {
    lines.map_values(|l: OutputLine| l@)
}

/// What a [`DefaultPrinter`] holds.
pub struct PrinterModel {
    pub sep: Seq<char>,
    pub success: int,
    pub error: int,
    pub lines: Seq<LineModel>,
}

impl PrinterModel {
    /// The sink after `msg` was reported as a success: one more line on the
    /// standard output and one more success.
    pub open spec fn ok(self, msg: Seq<char>) -> PrinterModel {
        PrinterModel {
            success: self.success + 1,
            lines: self.lines.push(LineModel { channel: OutputChannel::Standard, text: msg }),
            ..self
        }
    }

    /// The sink after `msg` was reported as a failure: one more line on the
    /// error output and one more failure.
    pub open spec fn err(self, msg: Seq<char>) -> PrinterModel {
        PrinterModel {
            error: self.error + 1,
            lines: self.lines.push(LineModel { channel: OutputChannel::Error, text: msg }),
            ..self
        }
    }

    /// The sink after `msg` was written without being counted: one more line
    /// on the standard output.
    pub open spec fn plain(self, msg: Seq<char>) -> PrinterModel {
        PrinterModel {
            lines: self.lines.push(LineModel { channel: OutputChannel::Standard, text: msg }),
            ..self
        }
    }
}

/// The size in bytes as whole kilobytes, rounded towards zero.
pub open spec fn kilobytes(size: int) -> int {
    if size >= 0 {
        size / 1024
    } else {
        -((-size) / 1024)
    }
}

/// An object's line: its key, the time of its last modification and its size
/// in kilobytes, with the separator between them.
pub open spec fn stats_text(
    key: Seq<char>,
    sep: Seq<char>,
    date: Seq<char>,
    size: int,
) -> Seq<char> {
    key + sep + date + sep + signed_decimal_text(kilobytes(size)) + " Kb"@
}

/// Collects what is reported and counts successes and failures.
#[derive(Debug)]
pub struct DefaultPrinter {
    /// What stands between the fields of an object's line.
    pub sep: String,
    /// How many successes were reported.
    pub success: u32,
    /// How many failures were reported.
    pub error: u32,
    /// The lines that were reported and not yet taken.
    pub lines: Vec<OutputLine>,
}

impl View for DefaultPrinter {
    type V = PrinterModel;

    open spec fn view(&self) -> PrinterModel {
        PrinterModel {
            sep: self.sep@,
            success: self.success as int,
            error: self.error as int,
            lines: lines_view(self.lines@),
        }
    }
}

/// The separator that is used where none is given: a comma.
pub open spec fn default_separator() -> Seq<char> {
    ","@
}

impl DefaultPrinter {
    /// A sink with the separator `sep`, or a comma where none is given, that
    /// has taken nothing yet.
    pub fn new(sep: Option<&str>) -> (printer: DefaultPrinter)
        ensures
            printer@ == (PrinterModel {
                sep: match sep {
                    Some(s) => s@,
                    None => default_separator(),
                },
                success: 0,
                error: 0,
                lines: Seq::<LineModel>::empty(),
            }),
    {
        let sep = match sep {
            Some(s) => String::from_str(s),
            None => String::from_str(","),
        };
        let printer = DefaultPrinter { sep, success: 0, error: 0, lines: Vec::new() };
        assert(lines_view(printer.lines@) =~= Seq::<LineModel>::empty());
        printer
    }

    /// Adds a line.
    fn put(&mut self, channel: OutputChannel, text: String)
        ensures
            final(self).sep == old(self).sep,
            final(self).success == old(self).success,
            final(self).error == old(self).error,
            lines_view(final(self).lines@) == lines_view(old(self).lines@).push(
                LineModel { channel, text: text@ },
            ),
    {
        let line = OutputLine { channel, text };
        self.lines.push(line);
        assert(lines_view(self.lines@) =~= lines_view(old(self).lines@).push(line@));
    }

    /// Writes an object's line, given the text of its time of modification.
    /// The line is not counted.
    pub fn output_with_stats_dated(&mut self, obj: &ObjectRecord, date: &str)
        ensures
            final(self)@ == old(self)@.plain(
                stats_text(obj@.key, old(self)@.sep, date@, obj@.size),
            ),
    {
        let mut line = obj.key.clone();
        line.append(self.sep.as_str());
        line.append(date);
        line.append(self.sep.as_str());
        let size = signed_decimal(obj.size / 1024);
        line.append(size.as_str());
        line.append(" Kb");
        self.put(OutputChannel::Standard, line);
    }

    /// Writes an object's line: its key, the time of its last modification
    /// and its size in kilobytes. The line is not counted.
    ///
    /// An object has a line only if it has a time of modification that the
    /// calendar holds. Where it has none, nothing is written and `false` is
    /// returned.
    pub fn output_with_stats(&mut self, obj: &ObjectRecord) -> (written: bool)
        ensures
            written == converted(obj.last_modified) is Some,
            match converted(obj.last_modified) {
                Some(date) => final(self)@ == old(self)@.plain(
                    stats_text(obj@.key, old(self)@.sep, date, obj@.size),
                ),
                None => final(self)@ == old(self)@,
            },
    {
        match convert_date_time(obj.last_modified) {
            Some(date) => {
                self.output_with_stats_dated(obj, date.as_str());
                true
            },
            None => false,
        }
    }

    /// Reports a failure: the message goes to the error output and is
    /// counted.
    pub fn err_output(&mut self, msg: &str)
        requires
            old(self).error < u32::MAX,
        ensures
            final(self)@ == old(self)@.err(msg@),
    {
        self.put(OutputChannel::Error, String::from_str(msg));
        self.error = self.error + 1;
    }

    /// Reports a success: the message goes to the standard output and is
    /// counted.
    pub fn ok_output(&mut self, msg: &str)
        requires
            old(self).success < u32::MAX,
        ensures
            final(self)@ == old(self)@.ok(msg@),
    {
        self.put(OutputChannel::Standard, String::from_str(msg));
        self.success = self.success + 1;
    }

    /// Hands over the lines that were reported since they were last taken,
    /// in the order in which they were reported. The counts stay.
    pub fn take_lines(&mut self) -> (lines: Vec<OutputLine>)
        ensures
            lines_view(lines@) == old(self)@.lines,
            final(self)@ == (PrinterModel { lines: Seq::<LineModel>::empty(), ..old(self)@ }),
    {
        let mut lines: Vec<OutputLine> = Vec::new();
        core::mem::swap(&mut self.lines, &mut lines);
        assert(lines_view(self.lines@) =~= Seq::<LineModel>::empty());
        lines
    }
}

} // verus!
