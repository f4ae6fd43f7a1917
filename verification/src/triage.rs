//! Log triage: from the structured logs of a failing trial to the report of
//! its failure records.
//!
//! A log file holds one JSON record on each line. The caller walks the log
//! directory, reads the files that `is_structured_log` accepts, splits them
//! with `crate::text::split_lines`, and puts each line through the filter
//! `failure_filter`. What the filter gives for each line goes to `LogTriage`,
//! which pretty-prints what was kept and gathers the report.

use crate::text::{to_chars, views};
use vstd::prelude::*;
use vstd::string::StringExecFns;

verus! {

broadcast use vstd::string::group_string_axioms;

/// The filter that keeps the failure records, as a `jq` program: a record
/// is kept if and only if its field `Layer` is the string `Rust` and its
/// field `Severity` is the string `40`.
pub fn failure_filter() -> (program: &'static str)
    ensures
        program@ == "select(.Layer==\"Rust\") | select(.Severity==\"40\")"@,
{
    "select(.Layer==\"Rust\") | select(.Severity==\"40\")"
}

/// Whether a file of this name is a structured log: its extension is
/// `json`, that is, the name ends in `.json` and has something before that.
pub open spec fn has_json_extension(file_name: Seq<char>) -> bool {
    &&& file_name.len() > 5
    &&& file_name.subrange(file_name.len() - 5, file_name.len() as int) == seq![
        '.',
        'j',
        's',
        'o',
        'n',
    ]
}

/// Whether the file named `file_name` is a structured log. The name is the
/// last component of the file's path.
pub fn is_structured_log(file_name: &str) -> (structured: bool)
    ensures
        structured == has_json_extension(file_name@),
{
    let name = to_chars(file_name);
    let n = name.len();
    if n <= 5 {
        return false;
    }
    let structured = name[n - 5] == '.' && name[n - 4] == 'j' && name[n - 3] == 's' && name[n - 2]
        == 'o' && name[n - 1] == 'n';
    proof {
        let tail = file_name@.subrange(n - 5, n as int);
        let wanted = seq!['.', 'j', 's', 'o', 'n'];
        if structured {
            assert(tail =~= wanted);
        } else {
            assert(tail[0] == name@[n - 5] && tail[1] == name@[n - 4] && tail[2] == name@[n - 3]
                && tail[3] == name@[n - 2] && tail[4] == name@[n - 1]);
            assert(wanted[0] == '.' && wanted[1] == 'j' && wanted[2] == 's' && wanted[3] == 'o'
                && wanted[4] == 'n');
        }
    }
    structured
}

// ---------------------------------------------------------------------------
// Pretty-printing
// ---------------------------------------------------------------------------

/// What `jsonxf::pretty_print` returns for the text `json`: the text laid
/// out with two spaces of indentation and line feeds, or a message.
pub uninterp spec fn pretty_printed(json: Seq<char>) -> Result<Seq<char>, Seq<char>>;

/// The view of the result of a pretty-printer.
pub open spec fn printed_view(printed: Result<String, String>) -> Result<Seq<char>, Seq<char>> {
    match printed {
        Ok(text) => Ok(text@),
        Err(message) => Err(message@),
    }
}

/// Lays out JSON text for reading.
///
/// Trusted: calls `jsonxf::pretty_print`, which formats the text in one
/// pass over its bytes, without state of its own and without looking at
/// anything but the text. The contract only gives its result a name.
#[verifier::external_body]
fn pretty_print(json: &str) -> (printed: Result<String, String>)
    ensures
        printed_view(printed) == pretty_printed(json@),
{
    jsonxf::pretty_print(json)
}

// ---------------------------------------------------------------------------
// The report
// ---------------------------------------------------------------------------

/// A log record that could not be laid out.
#[derive(Debug)]
pub enum TriageError {
    /// The pretty-printer refused the record, with this message.
    MalformedRecord(String),
}

impl View for TriageError {
    type V = Seq<char>;

    open spec fn view(&self) -> Seq<char> {
        match self {
            TriageError::MalformedRecord(message) => message@,
        }
    }
}

/// What the output of the filter for one line adds to the report, given
/// what the pretty-printer made of it: nothing where the filter kept
/// nothing, else the record laid out and a line feed.
pub open spec fn entry_of(
    filtered: Seq<char>,
    printed: Result<Seq<char>, Seq<char>>,
) -> Result<Seq<char>, Seq<char>> {
    if filtered.len() == 0 {
        Ok(Seq::empty())
    } else {
        match printed {
            Ok(text) => Ok(text.push('\n')),
            Err(message) => Err(message),
        }
    }
}

/// What the output of the filter for one line adds to the report.
pub open spec fn report_entry(filtered: Seq<char>) -> Result<Seq<char>, Seq<char>> {
    entry_of(filtered, pretty_printed(filtered))
}

/// The report of the failure records of a trial, from what the filter gave
/// for each line of its structured logs, in the order of the lines: the
/// entries one after the other, or the message for the first record that
/// could not be laid out.
pub open spec fn report_of(filtered: Seq<Seq<char>>) -> Result<Seq<char>, Seq<char>>
    decreases filtered.len(),
{
    if filtered.len() == 0 {
        Ok(Seq::empty())
    } else {
        match report_of(filtered.drop_last()) {
            Err(message) => Err(message),
            Ok(report) => match report_entry(filtered.last()) {
                Ok(entry) => Ok(report + entry),
                Err(message) => Err(message),
            },
        }
    }
}

/// The report of a trial's failure records, as it grows.
#[derive(Debug)]
pub struct LogTriage {
    report: String,
}

impl View for LogTriage {
    type V = Seq<char>;

    closed spec fn view(&self) -> Seq<char> {
        self.report@
    }
}

impl LogTriage {
    /// An empty report.
    pub fn new() -> (triage: LogTriage)
        ensures
            triage@ == Seq::<char>::empty(),
    {
        LogTriage { report: String::new() }
    }

    /// Adds to the report what the filter gave for one line, `filtered`,
    /// and what the pretty-printer made of that, `printed`.
    ///
    /// Where the filter kept nothing the report stays as it is, whatever
    /// `printed` holds. Where the pretty-printer failed the report stays as
    /// it is too, and the message comes back.
    pub fn add_printed(&mut self, filtered: &str, printed: Result<String, String>) -> (added:
        Result<(), TriageError>)
        ensures
            match entry_of(filtered@, printed_view(printed)) {
                Ok(entry) => added is Ok && final(self)@ == old(self)@ + entry,
                Err(message) => added matches Err(e) && e@ == message && final(self)@ == old(
                    self,
                )@,
            },
    {
        if filtered.is_empty() {
            assert(self@ + Seq::<char>::empty() =~= self@);
            return Ok(());
        }
        match printed {
            Ok(text) => {
                self.report.append(text.as_str());
                self.report.append("\n");
                proof {
                    reveal_strlit("\n");
                    assert("\n"@ =~= seq!['\n']);
                    assert(self@ =~= old(self)@ + text@.push('\n'));
                }
                Ok(())
            },
            Err(message) => Err(TriageError::MalformedRecord(message)),
        }
    }

    /// Adds to the report what the filter gave for one line: nothing where
    /// the filter kept nothing, else the kept records, pretty-printed, and a
    /// line feed.
    pub fn record(&mut self, filtered: &str) -> (added: Result<(), TriageError>)
        ensures
            match report_entry(filtered@) {
                Ok(entry) => added is Ok && final(self)@ == old(self)@ + entry,
                Err(message) => added matches Err(e) && e@ == message && final(self)@ == old(
                    self,
                )@,
            },
    {
        if filtered.is_empty() {
            assert(self@ + Seq::<char>::empty() =~= self@);
            return Ok(());
        }
        let printed = pretty_print(filtered);
        self.add_printed(filtered, printed)
    }

    /// The report as it stands.
    pub fn as_str(&self) -> (report: &str)
        ensures
            report@ == self@,
    {
        self.report.as_str()
    }

    /// The finished report.
    pub fn into_report(self) -> (report: String)
        ensures
            report@ == self@,
    {
        self.report
    }
}

/// The report of a trial's failure records, from what the filter gave for
/// each line of its structured logs.
pub fn compile_report(filtered: &Vec<String>) -> (report: Result<String, TriageError>)
    ensures
        match report_of(views(filtered@)) {
            Ok(text) => report matches Ok(r) && r@ == text,
            Err(message) => report matches Err(e) && e@ == message,
        },
{
    let ghost all = views(filtered@);
    let mut triage = LogTriage::new();
    let mut i: usize = 0;
    while i < filtered.len()
        invariant
            i <= filtered.len(),
            all == views(filtered@),
            report_of(all.take(i as int)) == Ok::<Seq<char>, Seq<char>>(triage@),
        decreases filtered.len() - i,
    {
        proof {
            assert(all.take(i + 1).drop_last() =~= all.take(i as int));
            assert(all.take(i + 1).last() == filtered@[i as int]@);
            lemma_report_stops_at_first_fault(all, i + 1);
        }
        match triage.record(filtered[i].as_str()) {
            Ok(()) => {},
            Err(e) => {
                return Err(e);
            },
        }
        i += 1;
    }
    assert(all.take(i as int) =~= all);
    Ok(triage.into_report())
}

/// Once the records up to some line have failed, so has the whole, with the
/// same message.
proof fn lemma_report_stops_at_first_fault(filtered: Seq<Seq<char>>, n: int)
    requires
        0 <= n <= filtered.len(),
    ensures
        report_of(filtered.take(n)) is Err ==> report_of(filtered) == report_of(filtered.take(n)),
    decreases filtered.len(),
{
    if n == filtered.len() {
        assert(filtered.take(n) =~= filtered);
    } else {
        assert(filtered.drop_last().take(n) =~= filtered.take(n));
        lemma_report_stops_at_first_fault(filtered.drop_last(), n);
    }
}

/// Logs in which the filter keeps no record give an empty report, and no
/// error.
pub proof fn lemma_no_match_no_report(filtered: Seq<Seq<char>>)
    requires
        forall|i: int| 0 <= i < filtered.len() ==> (#[trigger] filtered[i]).len() == 0,
    ensures
        report_of(filtered) == Ok::<Seq<char>, Seq<char>>(Seq::empty()),
    decreases filtered.len(),
{
    if filtered.len() > 0 {
        lemma_no_match_no_report(filtered.drop_last());
        assert(Seq::<char>::empty() + Seq::<char>::empty() =~= Seq::<char>::empty());
    }
}

/// The report depends on nothing but what the filter gave: examining the
/// same logs again gives the same report, character for character, or the
/// same message.
pub proof fn lemma_report_is_repeatable(first: Seq<Seq<char>>, second: Seq<Seq<char>>)
    requires
        first =~= second,
    ensures
        report_of(first) == report_of(second),
{
}

} // verus!
