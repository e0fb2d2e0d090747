//! The JSON body of a record update. The wire contract is exact: an object
//! with the five members `name`, `ttl`, `type`, `value`, `zone_id`, in that
//! order, no spaces, strings escaped as JSON requires, and a missing TTL
//! sent as `null`.

use vstd::prelude::*;
use crate::config::RecordConfigV;
use crate::config::RecordConfig;
use crate::text::{dec_digits, digit_char, u64_to_dec, push_char};

verus! {

/// The lowercase hexadecimal digit character for a value below sixteen.
pub open spec fn hex_char(d: nat) -> char
    recommends
        d < 16,
{
    if d < 10 {
        digit_char(d)
    } else if d == 10 {
        'a'
    } else if d == 11 {
        'b'
    } else if d == 12 {
        'c'
    } else if d == 13 {
        'd'
    } else if d == 14 {
        'e'
    } else {
        'f'
    }
}

/// How one character appears inside a JSON string: quote and backslash get
/// a backslash, the named control characters their short escapes, other
/// control characters a `\u00..` escape, and everything else stands as is.
pub open spec fn esc_char(c: char) -> Seq<char> {
    if c == '"' {
        seq!['\\', '"']
    } else if c == '\\' {
        seq!['\\', '\\']
    } else if c as int == 8 {
        seq!['\\', 'b']
    } else if c as int == 12 {
        seq!['\\', 'f']
    } else if c == '\n' {
        seq!['\\', 'n']
    } else if c == '\r' {
        seq!['\\', 'r']
    } else if c == '\t' {
        seq!['\\', 't']
    } else if (c as int) < 32 {
        let hi = hex_char((c as int / 16) as nat);
        let lo = hex_char((c as int % 16) as nat);
        seq!['\\', 'u', '0', '0', hi, lo]
    } else {
        seq![c]
    }
}

/// A whole character sequence as it appears inside a JSON string.
pub open spec fn json_escape(s: Seq<char>) -> Seq<char>
    decreases s.len(),
{
    if s.len() == 0 {
        Seq::empty()
    } else {
        json_escape(s.drop_last()) + esc_char(s.last())
    }
}

/// A JSON string: the escaped contents between quotes.
pub open spec fn json_string(s: Seq<char>) -> Seq<char> {
    seq!['"'] + json_escape(s) + seq!['"']
}

/// An optional number: its decimal digits, or `null`.
pub open spec fn json_opt_u64(o: Option<u64>) -> Seq<char> {
    match o {
        Option::Some(n) => dec_digits(n as nat),
        Option::None => seq!['n', 'u', 'l', 'l'],
    }
}

/// One object member: the quoted key, a colon, and the value's text.
pub open spec fn json_member(key: Seq<char>, value: Seq<char>) -> Seq<char> {
    json_string(key) + seq![':'] + value
}

/// The update body: exactly the five members below, populated from the
/// record and the newly probed IP.
pub open spec fn update_body_spec(r: RecordConfigV, ip: Seq<char>) -> Seq<char> {
    seq!['{'] + json_member("name"@, json_string(r.name)) + seq![','] + json_member(
        "ttl"@,
        json_opt_u64(r.ttl),
    ) + seq![','] + json_member("type"@, json_string(r.record_type)) + seq![','] + json_member(
        "value"@,
        json_string(ip),
    ) + seq![','] + json_member("zone_id"@, json_string(r.zone_id)) + seq!['}']
}

fn hex_of(d: u32) -> (c: char)
    requires
        d < 16,
    ensures
        c == hex_char(d as nat),
{
    match d {
        0 => '0',
        1 => '1',
        2 => '2',
        3 => '3',
        4 => '4',
        5 => '5',
        6 => '6',
        7 => '7',
        8 => '8',
        9 => '9',
        10 => 'a',
        11 => 'b',
        12 => 'c',
        13 => 'd',
        14 => 'e',
        _ => 'f',
    }
}

/// Appends the JSON appearance of one character.
fn push_escaped(r: &mut String, c: char)
    ensures
        final(r)@ == old(r)@ + esc_char(c),
{
    let u = c as u32;
    if c == '"' {
        push_char(r, '\\');
        push_char(r, '"');
    } else if c == '\\' {
        push_char(r, '\\');
        push_char(r, '\\');
    } else if u == 8 {
        push_char(r, '\\');
        push_char(r, 'b');
    } else if u == 12 {
        push_char(r, '\\');
        push_char(r, 'f');
    } else if c == '\n' {
        push_char(r, '\\');
        push_char(r, 'n');
    } else if c == '\r' {
        push_char(r, '\\');
        push_char(r, 'r');
    } else if c == '\t' {
        push_char(r, '\\');
        push_char(r, 't');
    } else if u < 32 {
        push_char(r, '\\');
        push_char(r, 'u');
        push_char(r, '0');
        push_char(r, '0');
        push_char(r, hex_of(u / 16));
        push_char(r, hex_of(u % 16));
    } else {
        push_char(r, c);
    }
    proof {
        assert(r@ =~= old(r)@ + esc_char(c));
    }
}

/// Appends the contents of `s` as they appear inside a JSON string.
fn append_escaped(r: &mut String, s: &str)
    ensures
        final(r)@ == old(r)@ + json_escape(s@),
{
    let n = s.unicode_len();
    let mut i: usize = 0;
    proof {
        assert(s@.subrange(0, 0) =~= Seq::<char>::empty());
        assert(r@ =~= old(r)@ + json_escape(s@.subrange(0, 0)));
    }
    while i < n
        invariant
            i <= n,
            n == s@.len(),
            r@ == old(r)@ + json_escape(s@.subrange(0, i as int)),
        decreases n - i,
    {
        let c = s.get_char(i);
        push_escaped(r, c);
        proof {
            assert(s@.subrange(0, i + 1 as int).drop_last() =~= s@.subrange(0, i as int));
            assert(r@ =~= old(r)@ + json_escape(s@.subrange(0, i + 1 as int)));
        }
        i = i + 1;
    }
    proof {
        assert(s@.subrange(0, n as int) =~= s@);
    }
}

/// Appends a JSON string: quote, escaped contents, quote.
fn append_json_string(r: &mut String, s: &str)
    ensures
        final(r)@ == old(r)@ + json_string(s@),
{
    push_char(r, '"');
    append_escaped(r, s);
    push_char(r, '"');
    proof {
        assert(r@ =~= old(r)@ + json_string(s@));
    }
}

/// Appends the head of one member: the quoted key and the colon. The
/// caller appends the value's text right after.
fn append_member_head(r: &mut String, key: &str)
    ensures
        final(r)@ == old(r)@ + json_string(key@) + seq![':'],
{
    append_json_string(r, key);
    push_char(r, ':');
    proof {
        assert(r@ =~= old(r)@ + json_string(key@) + seq![':']);
    }
}

/// Appends an optional number: its decimal digits, or `null`.
fn append_opt_u64(r: &mut String, o: &Option<u64>)
    ensures
        final(r)@ == old(r)@ + json_opt_u64(*o),
{
    match o {
        Some(n) => {
            let d = u64_to_dec(*n);
            r.append(d.as_str());
        },
        None => {
            push_char(r, 'n');
            push_char(r, 'u');
            push_char(r, 'l');
            push_char(r, 'l');
            proof {
                assert(r@ =~= old(r)@ + json_opt_u64(*o));
            }
        },
    }
}

/// Builds the update body for `record` and the new IP.
pub fn build_update_body(record: &RecordConfig, ip: &str) -> (r: String)
    ensures
        r@ == update_body_spec(record@, ip@),
{
    let mut r = String::new();
    push_char(&mut r, '{');
    append_member_head(&mut r, "name");
    append_json_string(&mut r, record.name.as_str());
    push_char(&mut r, ',');
    append_member_head(&mut r, "ttl");
    append_opt_u64(&mut r, &record.ttl);
    push_char(&mut r, ',');
    append_member_head(&mut r, "type");
    append_json_string(&mut r, record.record_type.as_str());
    push_char(&mut r, ',');
    append_member_head(&mut r, "value");
    append_json_string(&mut r, ip);
    push_char(&mut r, ',');
    append_member_head(&mut r, "zone_id");
    append_json_string(&mut r, record.zone_id.as_str());
    push_char(&mut r, '}');
    proof {
        assert(r@ =~= update_body_spec(record@, ip@));
    }
    r
}

/// The update body holds exactly the five members `name`, `ttl`, `type`,
/// `value` and `zone_id`, in that order: the record's name, TTL (or
/// `null`), type and zone id, and the probed IP as the value — no other
/// member.
pub proof fn lemma_update_body_exact_fields(r: RecordConfigV, ip: Seq<char>)
    ensures
        update_body_spec(r, ip) == seq!['{'] + json_member("name"@, json_string(r.name)) + seq![
            ',',
        ] + json_member("ttl"@, json_opt_u64(r.ttl)) + seq![','] + json_member(
            "type"@,
            json_string(r.record_type),
        ) + seq![','] + json_member("value"@, json_string(ip)) + seq![','] + json_member(
            "zone_id"@,
            json_string(r.zone_id),
        ) + seq!['}'],
{
}

} // verus!
