use vstd::prelude::*;
use vstd::utf8::{decode_utf8, valid_utf8};

use crate::error::{ErrorKind, HypervError};

verus! {

/// How many bytes of each output stream a failure message keeps.
pub const DIAGNOSTIC_LIMIT: usize = 1000;

/// What a finished process left behind: its exit status and everything it
/// wrote to its two output streams.
#[derive(Debug)]
pub struct ProcessOutput {
    /// The exit code, absent when the process was ended by a signal.
    pub code: Option<i32>,
    pub success: bool,
    pub stdout: Vec<u8>,
    pub stderr: Vec<u8>,
}

/// The text that a byte sequence reads as, with each invalid sequence
/// replaced by the replacement character.
pub uninterp spec fn lossy_of(b: Seq<u8>) -> Seq<char>;

/// Relies on `String::from_utf8_lossy`: the text depends on the bytes alone,
/// and bytes that are valid UTF-8 are read as they are.
#[verifier::external_body]
fn lossy_text(b: &[u8]) -> (r: String)
    ensures
        r@ == lossy_of(b@),
        valid_utf8(b@) ==> r@ == decode_utf8(b@),
{
    String::from_utf8_lossy(b).into_owned()
}

pub open spec fn digit_char(d: int) -> char {
    ('0' as int + d) as char
}

/// The decimal digits of a natural number.
pub open spec fn natural_text(n: nat) -> Seq<char>
    decreases n,
{
    if n < 10 {
        seq![digit_char(n as int)]
    } else {
        natural_text(n / 10) + seq![digit_char((n % 10) as int)]
    }
}

/// An integer written in decimal, with a leading minus sign when negative.
pub open spec fn decimal_text(i: int) -> Seq<char> {
    if i < 0 {
        seq!['-'] + natural_text((-i) as nat)
    } else {
        natural_text(i as nat)
    }
}

/// Relies on `i32`'s `to_string`: plain decimal notation.
#[verifier::external_body]
fn i32_text(i: i32) -> (r: String)
    ensures
        r@ == decimal_text(i as int),
{
    i.to_string()
}

/// The part of an output stream that a failure message keeps.
pub open spec fn diagnostic_prefix(b: Seq<u8>) -> Seq<u8> {
    if b.len() <= DIAGNOSTIC_LIMIT {
        b
    } else {
        b.take(DIAGNOSTIC_LIMIT as int)
    }
}

/// A stream's text in a failure message: a marker stands for no text.
pub open spec fn shown(s: Seq<char>) -> Seq<char> {
    if s.len() == 0 {
        "<empty>"@
    } else {
        s
    }
}

pub open spec fn exit_code_text(code: Option<i32>) -> Seq<char> {
    match code {
        Some(c) => decimal_text(c as int),
        None => "<none>"@,
    }
}

/// The message of a failed exit.
pub open spec fn failure_message(code: Option<i32>, stdout: Seq<u8>, stderr: Seq<u8>) -> Seq<char> {
    "Powershell returned failure exit code: "@ + exit_code_text(code) + ".\nStdout: "@
        + shown(lossy_of(diagnostic_prefix(stdout))) + " \nStderr: "@
        + shown(lossy_of(diagnostic_prefix(stderr)))
}

/// The text of the first `take` bytes of `bytes` (all of them if there are
/// fewer), with invalid sequences replaced.
pub fn to_string_truncated(bytes: &[u8], take: usize) -> (r: String)
    ensures
        r@ == lossy_of(
            if bytes@.len() <= take {
                bytes@
            } else {
                bytes@.take(take as int)
            },
        ),
{
    let len: usize = if bytes.len() < take {
        bytes.len()
    } else {
        take
    };
    let mut prefix: Vec<u8> = Vec::with_capacity(len);
    let mut i: usize = 0;
    while i < len
        invariant
            len <= bytes@.len(),
            i <= len,
            prefix@ == bytes@.take(i as int),
        decreases len - i,
    {
        prefix.push(bytes[i]);
        i = i + 1;
        assert(prefix@ =~= bytes@.take(i as int));
    }
    assert(prefix@ =~= if bytes@.len() <= take {
        bytes@
    } else {
        bytes@.take(take as int)
    });
    lossy_text(prefix.as_slice())
}

fn show(s: String) -> (r: String)
    ensures
        r@ == shown(s@),
{
    if s.as_str().is_empty() {
        String::from_str("<empty>")
    } else {
        s
    }
}

/// Judges a finished process by its exit status alone. A successful one is
/// handed back whole; any other fails with its exit code and the first bytes
/// of both streams in the message.
pub fn check_output(output: ProcessOutput) -> (r: Result<ProcessOutput, HypervError>)
    ensures
        output.success ==> r == Ok::<ProcessOutput, HypervError>(output),
        !output.success ==> r is Err && r->Err_0.kind == ErrorKind::NonZeroExit
            && r->Err_0.msg@ == failure_message(output.code, output.stdout@, output.stderr@),
{
    if output.success {
        return Ok(output);
    }
    let code = match output.code {
        Some(c) => i32_text(c),
        None => String::from_str("<none>"),
    };
    let stdout = show(to_string_truncated(output.stdout.as_slice(), DIAGNOSTIC_LIMIT));
    let stderr = show(to_string_truncated(output.stderr.as_slice(), DIAGNOSTIC_LIMIT));
    let mut msg = String::from_str("Powershell returned failure exit code: ");
    msg.append(code.as_str());
    msg.append(".\nStdout: ");
    msg.append(stdout.as_str());
    msg.append(" \nStderr: ");
    msg.append(stderr.as_str());
    Err(HypervError { kind: ErrorKind::NonZeroExit, msg })
}

/// A failure message keeps exactly the first `DIAGNOSTIC_LIMIT` bytes of a
/// longer stream, and the whole of a shorter one.
pub proof fn lemma_diagnostic_prefix(b: Seq<u8>)
    ensures
        b.len() > DIAGNOSTIC_LIMIT ==> diagnostic_prefix(b).len() == DIAGNOSTIC_LIMIT
            && forall|i: int| 0 <= i < DIAGNOSTIC_LIMIT ==> diagnostic_prefix(b)[i] == b[i],
        b.len() <= DIAGNOSTIC_LIMIT ==> diagnostic_prefix(b) == b,
{
}

} // verus!
