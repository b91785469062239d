//! The purge request's JSON body.
//!
//! A full purge sends `{"purge_everything":true}`; a targeted purge
//! sends `{"files":[...]}` with one JSON string per target, in
//! classification order, duplicates kept. The encoding is defined here
//! character by character: `"` and `\` are backslash-escaped and control
//! characters are written as `\u00` plus two hex digits, so the body is
//! well-formed JSON for every target string.

use crate::classify::{DecisionSpec, PurgeDecision};
use crate::strutil::push_char;
use vstd::prelude::*;

verus! {

/// The lower-case hex digit of a value below 16.
pub open spec fn hex_digit(n: u32) -> char {
    if n == 0 {
        '0'
    } else if n == 1 {
        '1'
    } else if n == 2 {
        '2'
    } else if n == 3 {
        '3'
    } else if n == 4 {
        '4'
    } else if n == 5 {
        '5'
    } else if n == 6 {
        '6'
    } else if n == 7 {
        '7'
    } else if n == 8 {
        '8'
    } else if n == 9 {
        '9'
    } else if n == 10 {
        'a'
    } else if n == 11 {
        'b'
    } else if n == 12 {
        'c'
    } else if n == 13 {
        'd'
    } else if n == 14 {
        'e'
    } else {
        'f'
    }
}

/// How one character is written inside a JSON string.
pub open spec fn esc_char(c: char) -> Seq<char> {
    if c == '"' {
        seq!['\\', '"']
    } else if c == '\\' {
        seq!['\\', '\\']
    } else if (c as u32) < 0x20 {
        seq!['\\', 'u', '0', '0', hex_digit((c as u32) / 16), hex_digit((c as u32) % 16)]
    } else {
        seq![c]
    }
}

/// A string's characters escaped for JSON, back to front.
pub open spec fn escape_json(s: Seq<char>) -> Seq<char>
    decreases s.len(),
{
    if s.len() == 0 {
        Seq::empty()
    } else {
        escape_json(s.drop_last()) + esc_char(s.last())
    }
}

/// A JSON string literal: the escaped characters between quotes.
pub open spec fn json_string(s: Seq<char>) -> Seq<char> {
    seq!['"'] + escape_json(s) + seq!['"']
}

/// The comma-separated JSON strings of the `files` array.
pub open spec fn join_files(ts: Seq<Seq<char>>) -> Seq<char>
    decreases ts.len(),
{
    if ts.len() == 0 {
        Seq::empty()
    } else if ts.len() == 1 {
        json_string(ts[0])
    } else {
        join_files(ts.drop_last()) + seq![','] + json_string(ts.last())
    }
}

/// The body of a targeted purge request.
pub open spec fn files_body(ts: Seq<Seq<char>>) -> Seq<char> {
    "{\"files\":["@ + join_files(ts) + "]}"@
}

/// The body of the purge request for a decision.
pub open spec fn payload_body(d: DecisionSpec) -> Seq<char> {
    match d {
        DecisionSpec::Full => "{\"purge_everything\":true}"@,
        DecisionSpec::Targeted(ts) => files_body(ts),
    }
}

/// Escaping leaves a string without quotes, backslashes or control
/// characters unchanged, so an ordinary target appears in the body
/// literally, between quotes.
pub proof fn lemma_escape_plain(s: Seq<char>)
    requires
        forall|i: int|
            0 <= i < s.len() ==> !(s[i] == '"' || s[i] == '\\' || (s[i] as u32) < 0x20),
    ensures
        escape_json(s) == s,
    decreases s.len(),
{
    if s.len() > 0 {
        lemma_escape_plain(s.drop_last());
        assert(s.drop_last() + esc_char(s.last()) =~= s);
    }
}

/// Appends `json_string(s@)` to `out`.
fn append_json_string(out: &mut String, s: &str)
    ensures
        final(out)@ == old(out)@ + json_string(s@),
{
    let ghost base = out@;
    push_char(out, '"');
    let n = s.unicode_len();
    let mut i: usize = 0;
    while i < n
        invariant
            0 <= i <= n,
            n == s@.len(),
            out@ == base.push('"') + escape_json(s@.take(i as int)),
        decreases n - i,
    {
        let c = s.get_char(i);
        proof {
            assert(s@.take(i + 1).drop_last() =~= s@.take(i as int));
            assert(s@.take(i + 1).last() == s@[i as int]);
        }
        if c == '"' {
            push_char(out, '\\');
            push_char(out, '"');
        } else if c == '\\' {
            push_char(out, '\\');
            push_char(out, '\\');
        } else if (c as u32) < 0x20 {
            push_char(out, '\\');
            push_char(out, 'u');
            push_char(out, '0');
            push_char(out, '0');
            push_char(out, hex_digit_exec((c as u32) / 16));
            push_char(out, hex_digit_exec((c as u32) % 16));
        } else {
            push_char(out, c);
        }
        proof {
            assert(out@ =~= base.push('"') + escape_json(s@.take(i + 1)));
        }
        i += 1;
    }
    push_char(out, '"');
    proof {
        assert(s@.take(n as int) =~= s@);
        assert(out@ =~= base + json_string(s@));
    }
}

/// The lower-case hex digit of a value below 16.
fn hex_digit_exec(n: u32) -> (c: char)
    requires
        n < 16,
    ensures
        c == hex_digit(n),
{
    if n == 0 {
        '0'
    } else if n == 1 {
        '1'
    } else if n == 2 {
        '2'
    } else if n == 3 {
        '3'
    } else if n == 4 {
        '4'
    } else if n == 5 {
        '5'
    } else if n == 6 {
        '6'
    } else if n == 7 {
        '7'
    } else if n == 8 {
        '8'
    } else if n == 9 {
        '9'
    } else if n == 10 {
        'a'
    } else if n == 11 {
        'b'
    } else if n == 12 {
        'c'
    } else if n == 13 {
        'd'
    } else if n == 14 {
        'e'
    } else {
        'f'
    }
}

/// Builds the JSON request body for a purge decision.
pub fn build_payload(d: &PurgeDecision) -> (body: String)
    ensures
        body@ == payload_body(d@),
{
    match d {
        PurgeDecision::Full => build_full_body(),
        PurgeDecision::Targeted(ts) => build_files_body(ts),
    }
}

/// Builds the body of a full purge request.
pub fn build_full_body() -> (body: String)
    ensures
        body@ == "{\"purge_everything\":true}"@,
{
    String::from_str("{\"purge_everything\":true}")
}

/// Builds the body of a targeted purge request from its target list.
pub fn build_files_body(ts: &Vec<String>) -> (body: String)
    ensures
        body@ == files_body(ts.deep_view()),
{
    let mut out = String::from_str("{\"files\":[");
    let mut k: usize = 0;
    while k < ts.len()
        invariant
            0 <= k <= ts.len(),
            out@ == "{\"files\":["@ + join_files(ts.deep_view().take(k as int)),
        decreases ts.len() - k,
    {
        proof {
            assert(ts.deep_view().take(k + 1).drop_last() =~= ts.deep_view().take(
                k as int,
            ));
            assert(ts.deep_view().take(k + 1).last() == ts[k as int]@);
        }
        if k > 0 {
            proof {
                reveal_strlit(",");
                assert(","@ =~= seq![',']);
            }
            out.append(",");
        }
        append_json_string(&mut out, ts[k].as_str());
        proof {
            assert(out@ =~= "{\"files\":["@ + join_files(ts.deep_view().take(k + 1)));
        }
        k += 1;
    }
    proof {
        assert(ts.deep_view().take(ts.len() as int) =~= ts.deep_view());
    }
    out.append("]}");
    proof {
        assert(out@ =~= files_body(ts.deep_view()));
    }
    out
}

} // verus!
