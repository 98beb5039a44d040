//! Feed records and their encoded form, the text that the cache stores.
use vstd::prelude::*;
use vstd::string::StringExecFns;

use crate::cache::{pushed, BoundedCache};

verus! {

#[verifier::external_type_specification]
#[verifier::external_body]
pub struct ExJsonError(serde_json::Error);

/// One feed item: its identifier and its text.
pub struct Record {
    pub id: u64,
    pub text: String,
}

/// The character of a lowercase hexadecimal digit `d < 16`.
pub open spec fn hex_char(d: nat) -> char {
    seq!['0', '1', '2', '3', '4', '5', '6', '7', '8', '9', 'a', 'b', 'c', 'd', 'e', 'f'][d as int]
}

/// How one character of a text is written inside a JSON string literal:
/// a backslash escape for `"`, `\` and the control characters below
/// U+0020 (`\u00XX` for those without a short form), the character itself
/// otherwise.
pub open spec fn escaped_char(c: char) -> Seq<char> {
    if c == '"' {
        seq!['\\', '"']
    } else if c == '\\' {
        seq!['\\', '\\']
    } else if c == '\u{8}' {
        seq!['\\', 'b']
    } else if c == '\t' {
        seq!['\\', 't']
    } else if c == '\n' {
        seq!['\\', 'n']
    } else if c == '\u{c}' {
        seq!['\\', 'f']
    } else if c == '\r' {
        seq!['\\', 'r']
    } else if (c as u32) < 0x20 {
        seq!['\\', 'u', '0', '0', hex_char((c as u32 / 16) as nat), hex_char((c as u32 % 16) as nat)]
    } else {
        seq![c]
    }
}

/// The escaped characters of `s`, in order.
pub open spec fn escaped_text(s: Seq<char>) -> Seq<char>
    decreases s.len(),
{
    if s.len() == 0 {
        Seq::empty()
    } else {
        escaped_text(s.drop_last()) + escaped_char(s.last())
    }
}

/// The JSON string literal of `s`: its escaped text between double quotes.
pub open spec fn json_string_literal(s: Seq<char>) -> Seq<char> {
    seq!['"'] + escaped_text(s) + seq!['"']
}

/// The character of a decimal digit `d < 10`.
pub open spec fn digit_char(d: nat) -> char {
    seq!['0', '1', '2', '3', '4', '5', '6', '7', '8', '9'][d as int]
}

/// The decimal numeral of `n`, with no leading zeros.
pub open spec fn decimal(n: nat) -> Seq<char>
    decreases n,
{
    if n < 10 {
        seq![digit_char(n)]
    } else {
        decimal(n / 10).push(digit_char(n % 10))
    }
}

/// The encoded record: `{"id":<id>,"text":<quoted>}` where `quoted` is the
/// text already written as a JSON string literal.
pub open spec fn record_payload(id: nat, quoted: Seq<char>) -> Seq<char> {
    seq!['{', '"', 'i', 'd', '"', ':'] + decimal(id) + seq![',', '"', 't', 'e', 'x', 't', '"', ':']
        + quoted + seq!['}']
}

/// Relies on serde_json::to_string on a `str`: it writes the escaped text
/// between quotes into a `Vec<u8>`, which cannot fail, so it returns `Ok`
/// with the JSON string literal of the text.
#[verifier::external_body]
fn quote_text(s: &str) -> (r: Result<String, serde_json::Error>)
    ensures
        r is Ok,
        r matches Ok(q) ==> q@ == json_string_literal(s@),
{
    serde_json::to_string(s)
}

/// The one-character text of the decimal digit `d`.
fn digit_str(d: u64) -> (r: &'static str)
    requires
        d < 10,
    ensures
        r@ == seq![digit_char(d as nat)],
{
    proof {
        reveal_strlit("0");
        reveal_strlit("1");
        reveal_strlit("2");
        reveal_strlit("3");
        reveal_strlit("4");
        reveal_strlit("5");
        reveal_strlit("6");
        reveal_strlit("7");
        reveal_strlit("8");
        reveal_strlit("9");
    }
    match d {
        0 => "0",
        1 => "1",
        2 => "2",
        3 => "3",
        4 => "4",
        5 => "5",
        6 => "6",
        7 => "7",
        8 => "8",
        _ => "9",
    }
}

/// Appends the decimal numeral of `n` to `out`.
fn append_decimal(out: &mut String, n: u64)
    ensures
        final(out)@ == old(out)@ + decimal(n as nat),
    decreases n,
{
    if n >= 10 {
        append_decimal(out, n / 10);
    }
    let digit = digit_str(n % 10);
    out.append(digit);
    assert(final(out)@ =~= old(out)@ + decimal(n as nat));
}

/// Frames an identifier and an already quoted text as an encoded record.
pub fn frame_record(id: u64, quoted: &str) -> (r: String)
    ensures
        r@ == record_payload(id as nat, quoted@),
{
    let mut out = String::new();
    proof {
        reveal_strlit("{\"id\":");
        reveal_strlit(",\"text\":");
        reveal_strlit("}");
    }
    out.append("{\"id\":");
    append_decimal(&mut out, id);
    out.append(",\"text\":");
    out.append(quoted);
    out.append("}");
    assert(out@ =~= record_payload(id as nat, quoted@));
    out
}

/// Encodes `record` as the text that the cache stores.
pub fn encode_record(record: &Record) -> (r: String)
    ensures
        r@ == record_payload(record.id as nat, json_string_literal(record.text@)),
{
    let quoted = match quote_text(record.text.as_str()) {
        Ok(quoted) => quoted,
        Err(_) => {
            proof {
                assert(false);
            }
            String::new()
        },
    };
    frame_record(record.id, quoted.as_str())
}

/// Encodes `record` and pushes it into `cache`.
pub fn ingest(cache: &mut BoundedCache, record: &Record)
    requires
        old(cache).wf(),
    ensures
        final(cache).wf(),
        final(cache)@ == pushed(old(cache)@, final(cache)@.last()),
        final(cache)@.last()@ == record_payload(
            record.id as nat,
            json_string_literal(record.text@),
        ),
{
    let encoded = encode_record(record);
    cache.push(encoded);
}

} // verus!
