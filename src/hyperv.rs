use vstd::prelude::*;

use crate::error::{ErrorKind, HypervError};
use crate::incompatibility::{classified, VmIncompatibility};
use crate::process::{check_output, failure_message, ProcessOutput};
use crate::text::{decimal_i64, parse_i64, space_index, trim, trimmed};

verus! {

/// The operations on the virtualization host. Each one is planned here from
/// plain values; whoever drives the shell process runs the command that a plan
/// returns and hands what came back to the matching step.
pub struct Hyperv;

/// What one line of a comparison report reads as: `None` when it is
/// malformed, `Some(None)` when it is blank, else its code and message.
pub open spec fn line_reason(line: Seq<char>) -> Option<Option<(i64, Seq<char>)>> {
    let t = trimmed(line);
    if t.len() == 0 {
        Some(None)
    } else if space_index(t) == t.len() {
        None
    } else {
        match decimal_i64(t.take(space_index(t))) {
            Some(code) => Some(Some((code, t.skip(space_index(t) + 1)))),
            None => None,
        }
    }
}

/// The codes and messages of a whole report, in the order of its lines;
/// `None` as soon as one line is malformed.
pub open spec fn report_reasons(lines: Seq<Seq<char>>) -> Option<Seq<(i64, Seq<char>)>>
    decreases lines.len(),
{
    if lines.len() == 0 {
        Some(Seq::empty())
    } else {
        match (report_reasons(lines.drop_last()), line_reason(lines.last())) {
            (Some(acc), Some(None)) => Some(acc),
            (Some(acc), Some(Some(p))) => Some(acc.push(p)),
            _ => None,
        }
    }
}

pub open spec fn line_views(lines: Seq<String>) -> Seq<Seq<char>> {
    lines.map_values(|s: String| s@)
}

pub open spec fn reason_pairs(v: Seq<VmIncompatibility>) -> Seq<(i64, Seq<char>)> {
    v.map_values(|r: VmIncompatibility| (r.code(), r.text()@))
}

/// Every reason is the one that its code and text classify to.
pub open spec fn well_classified(v: Seq<VmIncompatibility>) -> bool {
    forall|k: int| 0 <= k < v.len() ==> v[k] == classified(#[trigger] v[k].code(), v[k].text())
}

pub open spec fn import_command_text(path: Seq<char>) -> Seq<char> {
    "import-vm -Path \""@ + path + "\""@
}

pub open spec fn compare_command_text(path: Seq<char>) -> Seq<char> {
    "$report = compare-vm -Path \""@ + path
        + "\";\n            $report.Incompatibilities | Format-Table -Property MessageId, Message -HideTableHeaders"@
}

/// The command that lists the virtual machines as a JSON array of records
/// with the fields `Id` and `Name`.
pub open spec fn list_command_text() -> Seq<char> {
    "get-vm|select-object -property Id,Name |convertto-json"@
}

/// Reading one more line of a report keeps what came before, in order: a
/// blank line adds nothing, a well-formed line adds its reason at the end, and
/// a malformed line fails the whole report.
pub proof fn lemma_report_grows_in_order(lines: Seq<Seq<char>>, line: Seq<char>)
    ensures
        trimmed(line).len() == 0 ==> report_reasons(lines.push(line)) == report_reasons(lines),
        match line_reason(line) {
            Some(Some(p)) => report_reasons(lines) is Some ==> report_reasons(lines.push(line))
                == Some(report_reasons(lines)->Some_0.push(p)),
            Some(None) => report_reasons(lines.push(line)) == report_reasons(lines),
            None => report_reasons(lines.push(line)) is None,
        },
{
    assert(lines.push(line).drop_last() =~= lines);
}

proof fn lemma_failure_stays(lines: Seq<Seq<char>>, i: int)
    requires
        0 <= i <= lines.len(),
        report_reasons(lines.take(i)) is None,
    ensures
        report_reasons(lines) is None,
    decreases lines.len(),
{
    if i < lines.len() {
        assert(lines.drop_last().take(i) =~= lines.take(i));
        lemma_failure_stays(lines.drop_last(), i);
    } else {
        assert(lines.take(i) =~= lines);
    }
}

impl Hyperv {
    /// The command that lists the virtual machines.
    pub fn list_command() -> (r: String)
        ensures
            r@ == list_command_text(),
    {
        String::from_str("get-vm|select-object -property Id,Name |convertto-json")
    }

    /// Checks a path before any process starts: it must name an existing
    /// regular file (`is_file`) and be representable as text (`path`).
    pub fn validate_file_path<'a>(is_file: bool, path: Option<&'a str>) -> (r: Result<
        &'a str,
        HypervError,
    >)
        ensures
            is_file && path is Some ==> r is Ok && r->Ok_0@ == path->Some_0@,
            !(is_file && path is Some) ==> r is Err && r->Err_0.kind == ErrorKind::InvalidPath,
    {
        if !is_file {
            return Err(HypervError::new(ErrorKind::InvalidPath, "Path does not point to a valid file"));
        }
        match path {
            Some(p) => Ok(p),
            None => Err(HypervError::new(ErrorKind::InvalidPath, "Bad path")),
        }
    }

    /// Plans an import: the command to run, once the path has passed
    /// `validate_file_path`. No command comes out of a path that fails.
    pub fn import_vm(is_file: bool, path: Option<&str>) -> (r: Result<String, HypervError>)
        ensures
            is_file && path is Some ==> r is Ok && r->Ok_0@ == import_command_text(path->Some_0@),
            !(is_file && path is Some) ==> r is Err && r->Err_0.kind == ErrorKind::InvalidPath,
    {
        let p = Self::validate_file_path(is_file, path)?;
        let mut command = String::from_str("import-vm -Path \"");
        command.append(p);
        command.append("\"");
        Ok(command)
    }

    /// Ends an import: it succeeded exactly when the process exited
    /// successfully.
    pub fn finish_import(output: ProcessOutput) -> (r: Result<(), HypervError>)
        ensures
            output.success <==> r is Ok,
            !output.success ==> r->Err_0.kind == ErrorKind::NonZeroExit
                && r->Err_0.msg@ == failure_message(output.code, output.stdout@, output.stderr@),
    {
        match check_output(output) {
            Ok(_) => Ok(()),
            Err(e) => Err(e),
        }
    }

    /// Plans a comparison: the command to run, once the path has passed
    /// `validate_file_path`. Its output has one line per reason.
    pub fn compare_vm(is_file: bool, path: Option<&str>) -> (r: Result<String, HypervError>)
        ensures
            is_file && path is Some ==> r is Ok && r->Ok_0@ == compare_command_text(path->Some_0@),
            !(is_file && path is Some) ==> r is Err && r->Err_0.kind == ErrorKind::InvalidPath,
    {
        let p = Self::validate_file_path(is_file, path)?;
        let mut command = String::from_str("$report = compare-vm -Path \"");
        command.append(p);
        command.append(
            "\";\n            $report.Incompatibilities | Format-Table -Property MessageId, Message -HideTableHeaders",
        );
        Ok(command)
    }

    /// Reads one line of a comparison report: blank lines give nothing,
    /// other lines must be a code, a space and a message.
    pub fn parse_line(line: &str) -> (r: Result<Option<VmIncompatibility>, HypervError>)
        ensures
            match r {
                Ok(None) => line_reason(line@) == Some(None::<(i64, Seq<char>)>),
                Ok(Some(v)) => line_reason(line@) == Some(Some((v.code(), v.text()@)))
                    && v == classified(v.code(), v.text()),
                Err(e) => line_reason(line@) is None && e.kind == ErrorKind::LineParseFailed,
            },
    {
        let t = trim(line);
        let n = t.unicode_len();
        if n == 0 {
            return Ok(None);
        }
        let mut k: usize = 0;
        while k < n && t.get_char(k) != ' '
            invariant
                n == t@.len(),
                k <= n,
                forall|j: int| 0 <= j < k ==> t@[j] != ' ',
            decreases n - k,
        {
            k = k + 1;
        }
        proof {
            crate::hyperv::lemma_space_index_at(t@, k as int);
        }
        if k == n {
            return Err(
                HypervError::new(
                    ErrorKind::LineParseFailed,
                    "Failed to parse to VmIncompatibility. No Message in string",
                ),
            );
        }
        match parse_i64(t, k) {
            Some(code) => {
                let msg = String::from_str(t.substring_char(k + 1, n));
                assert(t@.skip(k + 1) =~= t@.subrange(k + 1, n as int));
                Ok(Some(VmIncompatibility::from(code, msg)))
            },
            None => {
                let mut msg = String::from_str(
                    "Failed to parse to VmIncompatibility. Cannot parse MessageId to i64: ",
                );
                msg.append(t.substring_char(0, k));
                Err(HypervError { kind: ErrorKind::LineParseFailed, msg })
            },
        }
    }

    /// Reads a whole comparison report, line by line in order. Blank lines
    /// are skipped; the first malformed line fails the whole report.
    pub fn map_lines(lines: &Vec<String>) -> (r: Result<Vec<VmIncompatibility>, HypervError>)
        ensures
            match r {
                Ok(v) => report_reasons(line_views(lines@)) == Some(reason_pairs(v@))
                    && well_classified(v@),
                Err(e) => report_reasons(line_views(lines@)) is None && e.kind
                    == ErrorKind::LineParseFailed,
            },
    {
        let ghost views = line_views(lines@);
        let mut out: Vec<VmIncompatibility> = Vec::new();
        let mut i: usize = 0;
        while i < lines.len()
            invariant
                i <= lines@.len(),
                views == line_views(lines@),
                report_reasons(views.take(i as int)) == Some(reason_pairs(out@)),
                well_classified(out@),
            decreases lines@.len() - i,
        {
            let ghost before = out@;
            assert(views.take(i + 1).drop_last() =~= views.take(i as int));
            assert(views.take(i + 1).last() == lines@[i as int]@);
            match Self::parse_line(lines[i].as_str()) {
                Ok(None) => {},
                Ok(Some(v)) => {
                    out.push(v);
                    assert(reason_pairs(out@) =~= reason_pairs(before).push(
                        (out@.last().code(), out@.last().text()@),
                    ));
                },
                Err(e) => {
                    proof {
                        lemma_failure_stays(views, i + 1);
                    }
                    return Err(e);
                },
            }
            i = i + 1;
        }
        assert(views.take(i as int) =~= views);
        Ok(out)
    }
}

proof fn lemma_space_index_at(s: Seq<char>, i: int)
    requires
        0 <= i <= s.len(),
        forall|k: int| 0 <= k < i ==> s[k] != ' ',
        i == s.len() || s[i] == ' ',
    ensures
        space_index(s) == i,
    decreases i,
{
    if i > 0 {
        lemma_space_index_at(s.drop_first(), i - 1);
    }
}

} // verus!
