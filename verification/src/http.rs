//! How the command line addresses the daemon and reports its failures.
use vstd::prelude::*;
use crate::text::{chars_of, trim_chars, spec_trim, push_chars, push_nat_decimal, nat_decimal};

verus! {

/// The base URL of the daemon listening on the port its port file names.
pub open spec fn spec_base_url(port_text: Seq<char>) -> Seq<char> {
    "http://127.0.0.1:"@ + spec_trim(port_text)
}

/// The daemon's address, from the text of its port file.
pub fn base_url(port_text: &str) -> (r: String)
    ensures
        r@ == spec_base_url(port_text@),
{
    let v = chars_of(port_text);
    let t = trim_chars(&v);
    let mut out = String::from_str("http://127.0.0.1:");
    push_chars(&mut out, &t, 0, t.len());
    assert(t@.subrange(0, t@.len() as int) =~= t@);
    out
}

/// The structured error a daemon reply may carry, `{"error": {"code",
/// "message"}}`; a field is absent where it is missing or no string.
#[derive(Debug, Clone)]
pub struct ErrorBody {
    pub code: Option<String>,
    pub message: Option<String>,
}

/// The view of an optional string, with a default for the absent case.
pub open spec fn or_text(o: Option<String>, d: Seq<char>) -> Seq<char> {
    match o {
        Some(s) => s@,
        None => d,
    }
}

/// `HTTP <status> <code>: <message>` for a structured error (code `ERROR`
/// and an empty message where missing), else `HTTP <status>: <body>`.
pub open spec fn spec_error_message(status: u16, structured: Option<ErrorBody>, body: Seq<char>) -> Seq<char> {
    match structured {
        Some(e) => "HTTP "@ + nat_decimal(status as nat) + " "@ + or_text(e.code, "ERROR"@) + ": "@ + or_text(
            e.message,
            Seq::empty(),
        ),
        None => "HTTP "@ + nat_decimal(status as nat) + ": "@ + body,
    }
}

/// The message of a request the daemon refused with `status`; `body` is the
/// reply's text.
pub fn error_message(status: u16, structured: &Option<ErrorBody>, body: &str) -> (r: String)
    ensures
        r@ == spec_error_message(status, *structured, body@),
{
    let mut out = String::from_str("HTTP ");
    push_nat_decimal(&mut out, status as u64);
    match structured {
        Some(e) => {
            out.append(" ");
            match &e.code {
                Some(c) => out.append(c.as_str()),
                None => out.append("ERROR"),
            }
            out.append(": ");
            match &e.message {
                Some(m) => out.append(m.as_str()),
                None => {},
            }
        },
        None => {
            out.append(": ");
            out.append(body);
        },
    }
    assert(out@ =~= spec_error_message(status, *structured, body@));
    out
}

} // verus!
