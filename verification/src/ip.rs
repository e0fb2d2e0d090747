//! Textual IP literals. The probe body must be a well-formed IPv4 or IPv6
//! address in the usual textual forms: four dot-separated decimal octets
//! (0..=255, no leading zeros), or up to eight colon-separated groups of
//! one to four hex digits, with at most one `::` compression standing for
//! at least one zero group, optionally ending in an embedded IPv4 address
//! in place of the last two groups.
//!
//! Each grammar is stated as a deterministic automaton read left to right;
//! the executable validators run the same automaton and are proved to
//! accept exactly the specified language.

use vstd::prelude::*;
use vstd::string::StrSliceExecFns;

verus! {

/// A decimal digit.
pub open spec fn is_dec(c: char) -> bool {
    '0' as int <= c as int && c as int <= '9' as int
}

/// Value of a decimal digit.
pub open spec fn dec_of(c: char) -> u16
    recommends
        is_dec(c),
{
    (c as int - '0' as int) as u16
}

/// A hexadecimal digit, either case.
pub open spec fn is_hex(c: char) -> bool {
    is_dec(c) || ('a' as int <= c as int && c as int <= 'f' as int) || ('A' as int <= c as int
        && c as int <= 'F' as int)
}

/// States of the IPv4 automaton.
#[derive(Clone, Copy, PartialEq, Eq, Structural)]
pub enum V4State {
    /// Expecting the first digit of the next octet; `parts` octets are done.
    Expect { parts: u8 },
    /// Reading an octet: `len` digits so far with value `val`; `parts`
    /// octets were completed before it.
    InOctet { parts: u8, val: u16, len: u8 },
    /// No continuation can be a valid IPv4 literal.
    Dead,
}

/// One step of the IPv4 automaton. An octet is one to three decimal digits,
/// value at most 255, with no leading zero; exactly four octets joined by
/// single dots.
pub open spec fn v4_step(st: V4State, c: char) -> V4State {
    match st {
        V4State::Expect { parts } => {
            if is_dec(c) {
                V4State::InOctet { parts, val: dec_of(c), len: 1 }
            } else {
                V4State::Dead
            }
        },
        V4State::InOctet { parts, val, len } => {
            if is_dec(c) {
                if len >= 3 || val == 0 {
                    V4State::Dead
                } else if val * 10 + dec_of(c) <= 255 {
                    V4State::InOctet {
                        parts,
                        val: (val * 10 + dec_of(c)) as u16,
                        len: (len + 1) as u8,
                    }
                } else {
                    V4State::Dead
                }
            } else if c == '.' {
                if parts < 3 {
                    V4State::Expect { parts: (parts + 1) as u8 }
                } else {
                    V4State::Dead
                }
            } else {
                V4State::Dead
            }
        },
        V4State::Dead => V4State::Dead,
    }
}

/// The IPv4 automaton state after reading all of `s`.
pub open spec fn v4_run(s: Seq<char>) -> V4State
    decreases s.len(),
{
    if s.len() == 0 {
        V4State::Expect { parts: 0 }
    } else {
        v4_step(v4_run(s.drop_last()), s.last())
    }
}

/// Accepting states: a fourth octet is in progress and the input ends.
pub open spec fn v4_accepts(st: V4State) -> bool {
    st matches V4State::InOctet { parts: 3u8, .. }
}

/// `s` is an IPv4 literal.
pub open spec fn is_ipv4_literal(s: Seq<char>) -> bool {
    v4_accepts(v4_run(s))
}

/// States of the IPv6 automaton. `groups` counts completed hex groups,
/// `dc` records whether `::` has been seen.
#[derive(Clone, Copy, PartialEq, Eq, Structural)]
pub enum V6State {
    /// Beginning of the input.
    Start,
    /// The very first character was `:`; only another `:` may follow.
    LeadColon,
    /// Just after `::`: expecting a hex digit, or the end of the input.
    GroupStart { groups: u8 },
    /// Just after a single `:` that follows a group.
    AfterColon { groups: u8, dc: bool },
    /// Reading a hex group: `digits` so far. `dec_ok` holds when the digits
    /// read so far also form a valid decimal octet (so a `.` may turn this
    /// group into the start of an embedded IPv4 address), with value
    /// `dec_val`.
    InGroup { groups: u8, dc: bool, digits: u8, dec_ok: bool, dec_val: u16 },
    /// In the embedded IPv4 tail, just after a `.`; `parts` octets done.
    V4Gap { groups: u8, dc: bool, parts: u8 },
    /// In the embedded IPv4 tail, reading an octet.
    V4Part { groups: u8, dc: bool, parts: u8, val: u16, len: u8 },
    /// No continuation can be a valid IPv6 literal.
    Dead,
}

/// One step of the IPv6 automaton.
pub open spec fn v6_step(st: V6State, c: char) -> V6State {
    match st {
        V6State::Start => {
            if is_hex(c) {
                V6State::InGroup {
                    groups: 0,
                    dc: false,
                    digits: 1,
                    dec_ok: is_dec(c),
                    dec_val: if is_dec(c) { dec_of(c) } else { 0 },
                }
            } else if c == ':' {
                V6State::LeadColon
            } else {
                V6State::Dead
            }
        },
        V6State::LeadColon => {
            if c == ':' {
                V6State::GroupStart { groups: 0 }
            } else {
                V6State::Dead
            }
        },
        V6State::GroupStart { groups } => {
            if is_hex(c) {
                V6State::InGroup {
                    groups,
                    dc: true,
                    digits: 1,
                    dec_ok: is_dec(c),
                    dec_val: if is_dec(c) { dec_of(c) } else { 0 },
                }
            } else {
                V6State::Dead
            }
        },
        V6State::AfterColon { groups, dc } => {
            if is_hex(c) {
                V6State::InGroup {
                    groups,
                    dc,
                    digits: 1,
                    dec_ok: is_dec(c),
                    dec_val: if is_dec(c) { dec_of(c) } else { 0 },
                }
            } else if c == ':' {
                if dc {
                    V6State::Dead
                } else {
                    V6State::GroupStart { groups }
                }
            } else {
                V6State::Dead
            }
        },
        V6State::InGroup { groups, dc, digits, dec_ok, dec_val } => {
            if is_hex(c) {
                if digits >= 4 {
                    V6State::Dead
                } else {
                    let still_dec = dec_ok && is_dec(c) && dec_val != 0 && dec_val * 10 + dec_of(c)
                        <= 255;
                    V6State::InGroup {
                        groups,
                        dc,
                        digits: (digits + 1) as u8,
                        dec_ok: still_dec,
                        dec_val: if still_dec {
                            (dec_val * 10 + dec_of(c)) as u16
                        } else {
                            0
                        },
                    }
                }
            } else if c == ':' {
                if groups < 7 {
                    V6State::AfterColon { groups: (groups + 1) as u8, dc }
                } else {
                    V6State::Dead
                }
            } else if c == '.' {
                if dec_ok {
                    V6State::V4Gap { groups, dc, parts: 1 }
                } else {
                    V6State::Dead
                }
            } else {
                V6State::Dead
            }
        },
        V6State::V4Gap { groups, dc, parts } => {
            if is_dec(c) {
                V6State::V4Part { groups, dc, parts, val: dec_of(c), len: 1 }
            } else {
                V6State::Dead
            }
        },
        V6State::V4Part { groups, dc, parts, val, len } => {
            if is_dec(c) {
                if len >= 3 || val == 0 {
                    V6State::Dead
                } else if val * 10 + dec_of(c) <= 255 {
                    V6State::V4Part {
                        groups,
                        dc,
                        parts,
                        val: (val * 10 + dec_of(c)) as u16,
                        len: (len + 1) as u8,
                    }
                } else {
                    V6State::Dead
                }
            } else if c == '.' {
                if parts < 3 {
                    V6State::V4Gap { groups, dc, parts: (parts + 1) as u8 }
                } else {
                    V6State::Dead
                }
            } else {
                V6State::Dead
            }
        },
        V6State::Dead => V6State::Dead,
    }
}

/// The IPv6 automaton state after reading all of `s`.
pub open spec fn v6_run(s: Seq<char>) -> V6State
    decreases s.len(),
{
    if s.len() == 0 {
        V6State::Start
    } else {
        v6_step(v6_run(s.drop_last()), s.last())
    }
}

/// Accepting states. Without `::` exactly eight groups are required (an
/// embedded IPv4 tail counts as two); with `::` at most seven, since the
/// compression stands for at least one group.
pub open spec fn v6_accepts(st: V6State) -> bool {
    match st {
        V6State::InGroup { groups, dc, .. } => if dc {
            groups + 1 <= 7
        } else {
            groups + 1 == 8
        },
        V6State::GroupStart { groups } => groups <= 7,
        V6State::V4Part { groups, dc, parts, .. } => parts == 3 && (if dc {
            groups + 2 <= 7
        } else {
            groups + 2 == 8
        }),
        _ => false,
    }
}

/// `s` is an IPv6 literal.
pub open spec fn is_ipv6_literal(s: Seq<char>) -> bool {
    v6_accepts(v6_run(s))
}

/// `s` is an IP literal of either family.
pub open spec fn is_ip_literal(s: Seq<char>) -> bool {
    is_ipv4_literal(s) || is_ipv6_literal(s)
}

/// An IP literal is never the empty string.
pub proof fn lemma_ip_literal_nonempty(s: Seq<char>)
    requires
        is_ip_literal(s),
    ensures
        s.len() > 0,
{
    if s.len() == 0 {
        assert(v4_run(s) == V4State::Expect { parts: 0u8 });
        assert(v6_run(s) == V6State::Start);
    }
}

fn is_dec_x(c: char) -> (r: bool)
    ensures
        r == is_dec(c),
{
    let u = c as u32;
    48 <= u && u <= 57
}

fn is_hex_x(c: char) -> (r: bool)
    ensures
        r == is_hex(c),
{
    let u = c as u32;
    (48 <= u && u <= 57) || (97 <= u && u <= 102) || (65 <= u && u <= 70)
}

fn dec_of_x(c: char) -> (r: u16)
    requires
        is_dec(c),
    ensures
        r == dec_of(c),
{
    (c as u32 - 48) as u16
}

fn v4_step_x(st: V4State, c: char) -> (r: V4State)
    ensures
        r == v4_step(st, c),
{
    match st {
        V4State::Expect { parts } => {
            if is_dec_x(c) {
                V4State::InOctet { parts, val: dec_of_x(c), len: 1 }
            } else {
                V4State::Dead
            }
        },
        V4State::InOctet { parts, val, len } => {
            if is_dec_x(c) {
                if len >= 3 || val == 0 {
                    V4State::Dead
                } else {
                    let nv = val as u32 * 10 + dec_of_x(c) as u32;
                    if nv <= 255 {
                        V4State::InOctet { parts, val: nv as u16, len: len + 1 }
                    } else {
                        V4State::Dead
                    }
                }
            } else if c == '.' {
                if parts < 3 {
                    V4State::Expect { parts: parts + 1 }
                } else {
                    V4State::Dead
                }
            } else {
                V4State::Dead
            }
        },
        V4State::Dead => V4State::Dead,
    }
}

fn v6_step_x(st: V6State, c: char) -> (r: V6State)
    ensures
        r == v6_step(st, c),
{
    match st {
        V6State::Start => {
            if is_hex_x(c) {
                let d = is_dec_x(c);
                V6State::InGroup {
                    groups: 0,
                    dc: false,
                    digits: 1,
                    dec_ok: d,
                    dec_val: if d { dec_of_x(c) } else { 0 },
                }
            } else if c == ':' {
                V6State::LeadColon
            } else {
                V6State::Dead
            }
        },
        V6State::LeadColon => {
            if c == ':' {
                V6State::GroupStart { groups: 0 }
            } else {
                V6State::Dead
            }
        },
        V6State::GroupStart { groups } => {
            if is_hex_x(c) {
                let d = is_dec_x(c);
                V6State::InGroup {
                    groups,
                    dc: true,
                    digits: 1,
                    dec_ok: d,
                    dec_val: if d { dec_of_x(c) } else { 0 },
                }
            } else {
                V6State::Dead
            }
        },
        V6State::AfterColon { groups, dc } => {
            if is_hex_x(c) {
                let d = is_dec_x(c);
                V6State::InGroup {
                    groups,
                    dc,
                    digits: 1,
                    dec_ok: d,
                    dec_val: if d { dec_of_x(c) } else { 0 },
                }
            } else if c == ':' {
                if dc {
                    V6State::Dead
                } else {
                    V6State::GroupStart { groups }
                }
            } else {
                V6State::Dead
            }
        },
        V6State::InGroup { groups, dc, digits, dec_ok, dec_val } => {
            if is_hex_x(c) {
                if digits >= 4 {
                    V6State::Dead
                } else {
                    let still_dec = dec_ok && is_dec_x(c) && dec_val != 0 && dec_val as u32 * 10
                        + dec_of_x(c) as u32 <= 255;
                    V6State::InGroup {
                        groups,
                        dc,
                        digits: digits + 1,
                        dec_ok: still_dec,
                        dec_val: if still_dec {
                            (dec_val as u32 * 10 + dec_of_x(c) as u32) as u16
                        } else {
                            0
                        },
                    }
                }
            } else if c == ':' {
                if groups < 7 {
                    V6State::AfterColon { groups: groups + 1, dc }
                } else {
                    V6State::Dead
                }
            } else if c == '.' {
                if dec_ok {
                    V6State::V4Gap { groups, dc, parts: 1 }
                } else {
                    V6State::Dead
                }
            } else {
                V6State::Dead
            }
        },
        V6State::V4Gap { groups, dc, parts } => {
            if is_dec_x(c) {
                V6State::V4Part { groups, dc, parts, val: dec_of_x(c), len: 1 }
            } else {
                V6State::Dead
            }
        },
        V6State::V4Part { groups, dc, parts, val, len } => {
            if is_dec_x(c) {
                if len >= 3 || val == 0 {
                    V6State::Dead
                } else {
                    let nv = val as u32 * 10 + dec_of_x(c) as u32;
                    if nv <= 255 {
                        V6State::V4Part { groups, dc, parts, val: nv as u16, len: len + 1 }
                    } else {
                        V6State::Dead
                    }
                }
            } else if c == '.' {
                if parts < 3 {
                    V6State::V4Gap { groups, dc, parts: parts + 1 }
                } else {
                    V6State::Dead
                }
            } else {
                V6State::Dead
            }
        },
        V6State::Dead => V6State::Dead,
    }
}

/// Validates `s` against the IPv4 grammar.
pub fn is_ipv4(s: &str) -> (r: bool)
    ensures
        r == is_ipv4_literal(s@),
{
    let n = s.unicode_len();
    let mut st = V4State::Expect { parts: 0 };
    let mut i: usize = 0;
    proof {
        assert(s@.subrange(0, 0) =~= Seq::<char>::empty());
    }
    while i < n
        invariant
            i <= n,
            n == s@.len(),
            st == v4_run(s@.subrange(0, i as int)),
        decreases n - i,
    {
        let c = s.get_char(i);
        st = v4_step_x(st, c);
        proof {
            assert(s@.subrange(0, i + 1 as int).drop_last() =~= s@.subrange(0, i as int));
        }
        i = i + 1;
    }
    proof {
        assert(s@.subrange(0, n as int) =~= s@);
    }
    match st {
        V4State::InOctet { parts: 3u8, .. } => true,
        _ => false,
    }
}

/// Validates `s` against the IPv6 grammar.
pub fn is_ipv6(s: &str) -> (r: bool)
    ensures
        r == is_ipv6_literal(s@),
{
    let n = s.unicode_len();
    let mut st = V6State::Start;
    let mut i: usize = 0;
    proof {
        assert(s@.subrange(0, 0) =~= Seq::<char>::empty());
    }
    while i < n
        invariant
            i <= n,
            n == s@.len(),
            st == v6_run(s@.subrange(0, i as int)),
        decreases n - i,
    {
        let c = s.get_char(i);
        st = v6_step_x(st, c);
        proof {
            assert(s@.subrange(0, i + 1 as int).drop_last() =~= s@.subrange(0, i as int));
        }
        i = i + 1;
    }
    proof {
        assert(s@.subrange(0, n as int) =~= s@);
    }
    match st {
        V6State::InGroup { groups, dc, .. } => if dc {
            groups <= 6
        } else {
            groups == 7
        },
        V6State::GroupStart { groups } => groups <= 7,
        V6State::V4Part { groups, dc, parts, .. } => parts == 3 && (if dc {
            groups <= 5
        } else {
            groups == 6
        }),
        _ => false,
    }
}

/// Validates `s` against either IP grammar.
pub fn is_ip(s: &str) -> (r: bool)
    ensures
        r == is_ip_literal(s@),
{
    if is_ipv4(s) {
        true
    } else {
        is_ipv6(s)
    }
}

} // verus!
