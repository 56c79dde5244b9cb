//! The result materializer: given the response's status code and body, it
//! decides what leaves the process. Without an output path the result is a
//! console line holding the status and the body; with one it is the body,
//! verbatim, destined for that file. The printing and the file write happen
//! outside the library.

use vstd::prelude::*;
use vstd::string::StringExecFns;

verus! {

/// The decimal digit `d` as a character.
pub open spec fn digit_seq(d: nat) -> Seq<char> {
    if d == 0 {
        "0"@
    } else if d == 1 {
        "1"@
    } else if d == 2 {
        "2"@
    } else if d == 3 {
        "3"@
    } else if d == 4 {
        "4"@
    } else if d == 5 {
        "5"@
    } else if d == 6 {
        "6"@
    } else if d == 7 {
        "7"@
    } else if d == 8 {
        "8"@
    } else {
        "9"@
    }
}

/// The decimal numeral of `n`, most significant digit first, with no
/// leading zeros (a single `0` for zero itself).
pub open spec fn decimal_seq(n: nat) -> Seq<char>
    decreases n,
{
    if n < 10 {
        digit_seq(n)
    } else {
        decimal_seq(n / 10) + digit_seq(n % 10)
    }
}

fn digit_str(d: u16) -> (s: &'static str)
    requires
        d < 10,
    ensures
        s@ == digit_seq(d as nat),
{
    match d {
        0 => "0",
        1 => "1",
        2 => "2",
        3 => "3",
        4 => "4",
        5 => "5",
        6 => "6",
        7 => "7",
        8 => "8",
        _ => "9",
    }
}

/// Renders `n` as its decimal numeral.
pub fn decimal_string(n: u16) -> (s: String)
    ensures
        s@ == decimal_seq(n as nat),
    decreases n,
{
    if n < 10 {
        digit_str(n).to_owned()
    } else {
        proof {
            assert(n as nat / 10 < n as nat) by (nonlinear_arith)
                requires
                    n >= 10,
            ;
        }
        let mut s = decimal_string(n / 10);
        s.append(digit_str(n % 10));
        s
    }
}

/// The console line for a response: the status code in decimal and the
/// body, joined by the fixed framing text and nothing else.
pub open spec fn console_text(status: nat, body: Seq<char>) -> Seq<char> {
    "result: "@ + decimal_seq(status) + ", body\n"@ + body
}

/// Renders the console line for a response.
pub fn render_console(status: u16, body: &str) -> (s: String)
    ensures
        s@ == console_text(status as nat, body@),
{
    let mut s = "result: ".to_owned();
    let digits = decimal_string(status);
    s.append(digits.as_str());
    s.append(", body\n");
    s.append(body);
    s
}

/// What one run puts out: a line for standard output, or the contents for
/// the output file.
pub enum Materialized {
    /// Print this text on standard output.
    Console { text: String },
    /// Create or truncate the file at `path` and write `contents` to it.
    ToFile { path: String, contents: String },
}

/// Decides what leaves the process for a response. Without an output path,
/// a console line holding the status and the body; with one, the body
/// itself, verbatim and untransformed, for the file at that path.
pub fn materialize(status: u16, body: String, output: Option<String>) -> (m: Materialized)
    ensures
        output is None ==> (m matches Materialized::Console { text } && text@ == console_text(
            status as nat,
            body@,
        )),
        output matches Some(path) ==> (m matches Materialized::ToFile {
            path: p,
            contents,
        } && p == path && contents == body),
{
    match output {
        None => Materialized::Console { text: render_console(status, body.as_str()) },
        Some(path) => Materialized::ToFile { path, contents: body },
    }
}

/// The console line loses nothing: it ends with the body, verbatim.
pub proof fn lemma_console_text_ends_with_body(status: nat, body: Seq<char>)
    ensures
        console_text(status, body).len() >= body.len(),
        console_text(status, body).subrange(
            console_text(status, body).len() - body.len(),
            console_text(status, body).len() as int,
        ) == body,
{
    let t = console_text(status, body);
    assert(t.subrange(t.len() - body.len(), t.len() as int) =~= body);
}

} // verus!
