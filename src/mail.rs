use vstd::prelude::*;

use mailparse::MailHeaderMap;

verus! {

/// The header block of the message `raw` as mailparse reads it (`None` when it
/// cannot), and in it the decoded value of the first header named `key`,
/// whatever its ASCII case (`Some(None)` when there is none).
pub uninterp spec fn first_header_value(raw: Seq<u8>, key: Seq<char>) -> Option<Option<Seq<char>>>;

/// Relies on `mailparse::parse_headers` to read the header block of `raw`, and
/// on `MailHeaderMap::get_first_value` to find and decode the first header
/// named `key`.
#[verifier::external_body]
fn header_value(raw: &[u8], key: &str) -> (r: Option<Option<String>>)
    ensures
        match (r, first_header_value(raw@, key@)) {
            (None, None) => true,
            (Some(None), Some(None)) => true,
            (Some(Some(v)), Some(Some(w))) => v@ == w,
            _ => false,
        },
{
    mailparse::parse_headers(raw).ok().map(|(headers, _)| headers.get_first_value(key))
}

/// The message's header block could not be read.
#[derive(Debug, Clone, Copy, PartialEq, Eq, Structural)]
pub enum MailError {
    Unparsable,
}

/// Sender and subject of a message, for the desktop notification.
pub struct MailMetadata {
    pub from: String,
    pub subject: String,
}

/// A header's value, or `fallback` when the message has no such header.
pub open spec fn value_or(v: Option<Seq<char>>, fallback: Seq<char>) -> Seq<char> {
    match v {
        Some(s) => s,
        None => fallback,
    }
}

fn value_or_fallback(v: Option<String>, fallback: &str) -> (r: String)
    ensures
        r@ == value_or(
            match v {
                Some(s) => Some(s@),
                None => None,
            },
            fallback@,
        ),
{
    match v {
        Some(s) => s,
        None => fallback.to_owned(),
    }
}

impl MailMetadata {
    /// Reads sender and subject from the raw message `contents`; a missing
    /// header gets a placeholder, an unreadable header block is an error.
    pub fn new(contents: &Vec<u8>) -> (r: Result<MailMetadata, MailError>)
        ensures
            r is Err <==> (first_header_value(contents@, "From"@) is None || first_header_value(
                contents@,
                "Subject"@,
            ) is None),
            r matches Ok(m) ==> m.from@ == value_or(
                first_header_value(contents@, "From"@)->0,
                "Unknown Sender (parse error)"@,
            ),
            r matches Ok(m) ==> m.subject@ == value_or(
                first_header_value(contents@, "Subject"@)->0,
                "Unknown Subject (parse error)"@,
            ),
    {
        let raw = contents.as_slice();
        let from = match header_value(raw, "From") {
            Some(v) => value_or_fallback(v, "Unknown Sender (parse error)"),
            None => return Err(MailError::Unparsable),
        };
        let subject = match header_value(raw, "Subject") {
            Some(v) => value_or_fallback(v, "Unknown Subject (parse error)"),
            None => return Err(MailError::Unparsable),
        };
        Ok(MailMetadata { from, subject })
    }
}

} // verus!
