//! Reading the terminal's background color from an OSC 11 reply.
use vstd::prelude::*;

use crate::text::{chars_of, occurs_at, occurs_at_exec, slice_chars, split, split_chars};

verus! {

/// An RGB color with 8-bit channels.
#[derive(Debug, Clone, Copy, PartialEq, Eq, Structural)]
pub struct TerminalColor {
    pub r: u8,
    pub g: u8,
    pub b: u8,
}

/// The first position at or after `i` where `t` occurs in `s`.
pub open spec fn first_occurrence_from(s: Seq<char>, t: Seq<char>, i: int) -> Option<int>
    decreases s.len() + 1 - i,
{
    if i < 0 || i > s.len() {
        None
    } else if occurs_at(s, t, i) {
        Some(i)
    } else {
        first_occurrence_from(s, t, i + 1)
    }
}

/// The first position where `t` occurs in `s` (`str::find`).
pub open spec fn first_occurrence(s: Seq<char>, t: Seq<char>) -> Option<int> {
    first_occurrence_from(s, t, 0)
}

/// `s` without all the copies of `c` at its end.
pub open spec fn trim_end_char(s: Seq<char>, c: char) -> Seq<char>
    decreases s.len(),
{
    if s.len() > 0 && s.last() == c {
        trim_end_char(s.drop_last(), c)
    } else {
        s
    }
}

/// `s` without all the copies of the two-character suffix `ESC \` at its end.
pub open spec fn trim_end_st(s: Seq<char>) -> Seq<char>
    decreases s.len(),
{
    if s.len() >= 2 && s[s.len() - 2] == '\u{1b}' && s.last() == '\\' {
        trim_end_st(s.take(s.len() - 2))
    } else {
        s
    }
}

/// Whether `c` is an ASCII hexadecimal digit.
pub open spec fn is_hex(c: char) -> bool {
    ('0' <= c && c <= '9') || ('a' <= c && c <= 'f') || ('A' <= c && c <= 'F')
}

/// The value of a hexadecimal digit.
pub open spec fn hex_digit(c: char) -> nat {
    if '0' <= c && c <= '9' {
        (c as u32 - '0' as u32) as nat
    } else if 'a' <= c && c <= 'f' {
        (c as u32 - 'a' as u32 + 10) as nat
    } else {
        (c as u32 - 'A' as u32 + 10) as nat
    }
}

/// The number of hexadecimal digits at the start of `s`.
pub open spec fn hex_prefix_len(s: Seq<char>) -> nat
    decreases s.len(),
{
    if s.len() > 0 && is_hex(s[0]) {
        1 + hex_prefix_len(s.drop_first())
    } else {
        0
    }
}

/// The value of a string of hexadecimal digits.
pub open spec fn hex_value(s: Seq<char>) -> nat
    decreases s.len(),
{
    if s.len() == 0 {
        0
    } else {
        hex_value(s.drop_last()) * 16 + hex_digit(s.last())
    }
}

/// `2^(4 len) - 1`, the largest value of `len` hexadecimal digits.
pub open spec fn hex_max(len: nat) -> nat
    decreases len,
{
    if len == 0 {
        0
    } else {
        hex_max((len - 1) as nat) * 16 + 15
    }
}

/// Whether scaling the component overflows 32-bit arithmetic (which panics):
/// its leading digits fit in 32 bits but there are eight or more of them, or
/// 255 times their value exceeds 32 bits.
pub open spec fn scale_overflows(component: Seq<char>) -> bool {
    let len = hex_prefix_len(component);
    let value = hex_value(component.take(len as int));
    len > 0 && value <= u32::MAX && (len >= 8 || value * 255 > u32::MAX)
}

/// An xterm color component scaled to 8 bits: its leading hexadecimal digits
/// read as a fraction of the largest value with as many digits; none when it
/// has no leading digits or their value exceeds 32 bits.
pub open spec fn scaled_component(component: Seq<char>) -> Option<u8> {
    let len = hex_prefix_len(component);
    let value = hex_value(component.take(len as int));
    if len == 0 || value > u32::MAX {
        None
    } else {
        Some(((value * 255) / hex_max(len)) as u8)
    }
}

/// The `/`-separated components after the first `rgb:` of a reply, with
/// closing BEL and `ESC \` terminators dropped; none without `rgb:`.
pub open spec fn osc_components(response: Seq<char>) -> Option<Seq<Seq<char>>> {
    match first_occurrence(response, "rgb:"@) {
        Some(i) => Some(split(trim_end_st(trim_end_char(response.skip(i + 4), '\u{7}')), '/')),
        None => None,
    }
}

/// Whether reading the reply reaches a component whose scaling overflows.
pub open spec fn osc_overflows(response: Seq<char>) -> bool {
    match osc_components(response) {
        Some(p) => {
            ||| scale_overflows(p[0])
            ||| (scaled_component(p[0]) is Some && p.len() > 1 && scale_overflows(p[1]))
            ||| (scaled_component(p[0]) is Some && p.len() > 1 && scaled_component(p[1]) is Some
                && p.len() > 2 && scale_overflows(p[2]))
        },
        None => false,
    }
}

/// The color an OSC 11 reply reports: the first three components scaled;
/// none when a component is missing or unreadable.
pub open spec fn osc_color(response: Seq<char>) -> Option<TerminalColor> {
    match osc_components(response) {
        Some(p) => if p.len() >= 3 && scaled_component(p[0]) is Some && scaled_component(p[1]) is Some
            && scaled_component(p[2]) is Some {
            Some(
                TerminalColor {
                    r: scaled_component(p[0])->0,
                    g: scaled_component(p[1])->0,
                    b: scaled_component(p[2])->0,
                },
            )
        } else {
            None
        },
        None => None,
    }
}

/// `hex_prefix_len` counts the leading run of hexadecimal digits.
pub(crate) proof fn lemma_hex_prefix(s: Seq<char>, n: int)
    requires
        0 <= n <= s.len(),
        forall|k: int| 0 <= k < n ==> is_hex(#[trigger] s[k]),
        n == s.len() || !is_hex(s[n]),
    ensures
        hex_prefix_len(s) == n,
    decreases n,
{
    if n > 0 {
        assert forall|k: int| 0 <= k < n - 1 implies is_hex(#[trigger] s.drop_first()[k]) by {
            assert(s.drop_first()[k] == s[k + 1]);
        }
        if n < s.len() {
            assert(s.drop_first()[n - 1] == s[n]);
        }
        lemma_hex_prefix(s.drop_first(), n - 1);
    }
}

/// `hex_max(len) == 16^len - 1` grows: it is at least 15 for one digit.
proof fn lemma_hex_max_pos(len: nat)
    requires
        len >= 1,
    ensures
        hex_max(len) >= 15,
    decreases len,
{
    if len > 1 {
        lemma_hex_max_pos((len - 1) as nat);
    }
}

/// A value of `len` digits is at most `hex_max(len)`.
proof fn lemma_hex_value_le_max(s: Seq<char>)
    requires
        forall|k: int| 0 <= k < s.len() ==> is_hex(#[trigger] s[k]),
    ensures
        hex_value(s) <= hex_max(s.len()),
    decreases s.len(),
{
    if s.len() > 0 {
        assert forall|k: int| 0 <= k < s.len() - 1 implies is_hex(#[trigger] s.drop_last()[k]) by {
            assert(s.drop_last()[k] == s[k]);
        }
        lemma_hex_value_le_max(s.drop_last());
        assert(is_hex(s.last()));
        assert(hex_digit(s.last()) <= 15);
    }
}

/// The value of a hexadecimal digit.
fn hex_digit_exec(c: char) -> (res: u64)
    requires
        is_hex(c),
    ensures
        res == hex_digit(c),
        res <= 15,
{
    if '0' <= c && c <= '9' {
        (c as u32 - '0' as u32) as u64
    } else if 'a' <= c && c <= 'f' {
        (c as u32 - 'a' as u32 + 10) as u64
    } else {
        (c as u32 - 'A' as u32 + 10) as u64
    }
}

/// Whether `c` is an ASCII hexadecimal digit.
fn is_hex_exec(c: char) -> (res: bool)
    ensures
        res == is_hex(c),
{
    ('0' <= c && c <= '9') || ('a' <= c && c <= 'f') || ('A' <= c && c <= 'F')
}

/// Scales an xterm color component to 8 bits (see `scaled_component`).
pub fn scale_xterm_component(component: &str) -> (res: Option<u8>)
    requires
        !scale_overflows(component@),
    ensures
        res == scaled_component(component@),
{
    let chars = chars_of(component);
    let mut n: usize = 0;
    while n < chars.len() && is_hex_exec(chars[n])
        invariant
            n <= chars.len(),
            forall|k: int| 0 <= k < n ==> is_hex(#[trigger] chars@[k]),
        decreases chars.len() - n,
    {
        n += 1;
    }
    proof {
        lemma_hex_prefix(chars@, n as int);
    }
    let ghost digits = chars@.take(n as int);
    if n == 0 {
        return None;
    }
    let mut value: u64 = 0;
    let mut i: usize = 0;
    while i < n
        invariant
            i <= n <= chars.len(),
            chars@ == component@,
            hex_prefix_len(chars@) == n,
            digits == chars@.take(n as int),
            forall|k: int| 0 <= k < n ==> is_hex(#[trigger] chars@[k]),
            value == hex_value(digits.take(i as int)),
            value <= u32::MAX,
        decreases n - i,
    {
        assert(digits.take(i + 1).drop_last() =~= digits.take(i as int));
        assert(digits.take(i + 1).last() == chars@[i as int]);
        let d = hex_digit_exec(chars[i]);
        let next = value * 16 + d;
        assert(next == hex_value(digits.take(i + 1)));
        if next > 0xffff_ffff {
            proof {
                lemma_hex_value_grows(digits, i as int + 1);
                assert(digits.take(n as int) =~= digits);
                assert(hex_value(digits) > u32::MAX);
                assert(component@ == chars@);
                assert(hex_prefix_len(component@) == n);
                assert(component@.take(n as int) == digits);
            }
            return None;
        }
        value = next;
        i += 1;
    }
    assert(digits.take(n as int) =~= digits);
    proof {
        assert forall|k: int| 0 <= k < digits.len() implies is_hex(#[trigger] digits[k]) by {
            assert(digits[k] == chars@[k]);
        }
        lemma_hex_value_le_max(digits);
        lemma_hex_max_pos(n as nat);
    }
    let max = hex_max_exec(n);
    let product: u64 = value * 255;
    assert(product / max <= 255) by (nonlinear_arith)
        requires
            value <= max,
            max >= 15,
            product == value * 255,
    ;
    let scaled = product / max;
    Some(scaled as u8)
}

/// `hex_max(len)`, for up to seven digits.
fn hex_max_exec(len: usize) -> (res: u64)
    requires
        1 <= len <= 7,
    ensures
        res == hex_max(len as nat),
        res >= 15,
{
    let mut m: u64 = 0;
    let mut i: usize = 0;
    while i < len
        invariant
            i <= len <= 7,
            m == hex_max(i as nat),
            m < 0x1000_0000,
            i > 0 ==> m >= 15,
        decreases len - i,
    {
        assert(m <= 0xff_ffff) by {
            lemma_hex_max_bound(i as nat);
        }
        m = m * 16 + 15;
        i += 1;
    }
    m
}

/// `hex_max(len) < 16^len`; for up to six digits it stays below `0x100_0000`.
proof fn lemma_hex_max_bound(len: nat)
    requires
        len <= 6,
    ensures
        hex_max(len) <= 0xff_ffff,
    decreases len,
{
    if len > 0 {
        lemma_hex_max_small((len - 1) as nat);
    }
}

/// The exact small values of `hex_max`.
proof fn lemma_hex_max_small(len: nat)
    requires
        len <= 5,
    ensures
        hex_max(len) <= 0xf_ffff,
    decreases len,
{
    reveal_with_fuel(hex_max, 7);
    if len > 0 {
        lemma_hex_max_small((len - 1) as nat);
    }
}

/// Adding digits never lowers the value.
proof fn lemma_hex_value_grows(s: Seq<char>, i: int)
    requires
        0 <= i <= s.len(),
    ensures
        hex_value(s) >= hex_value(s.take(i)),
    decreases s.len() - i,
{
    if i < s.len() {
        lemma_hex_value_grows(s, i + 1);
        assert(s.take(i + 1).drop_last() =~= s.take(i));
    } else {
        assert(s.take(i) =~= s);
    }
}


/// The first position where `t` occurs in `s`, if any.
fn find_exec(s: &Vec<char>, t: &Vec<char>) -> (res: Option<usize>)
    ensures
        match res {
            Some(i) => first_occurrence(s@, t@) == Some(i as int),
            None => first_occurrence(s@, t@) is None,
        },
{
    let mut i: usize = 0;
    while i <= s.len()
        invariant
            i <= s.len() + 1,
            first_occurrence(s@, t@) == first_occurrence_from(s@, t@, i as int),
        decreases s.len() + 1 - i,
    {
        if occurs_at_exec(s, t, i) {
            return Some(i);
        }
        if i == s.len() {
            assert(first_occurrence_from(s@, t@, i + 1) is None);
            return None;
        }
        i += 1;
    }
    None
}

/// The characters without all copies of `c` at their end.
fn trim_end_char_exec(v: &Vec<char>, c: char) -> (res: Vec<char>)
    ensures
        res@ == trim_end_char(v@, c),
{
    let mut j = v.len();
    assert(v@.take(j as int) =~= v@);
    while j > 0 && v[j - 1] == c
        invariant
            j <= v.len(),
            trim_end_char(v@, c) == trim_end_char(v@.take(j as int), c),
        decreases j,
    {
        assert(v@.take(j as int).drop_last() =~= v@.take(j - 1));
        j -= 1;
    }
    slice_chars(v, 0, j)
}

/// The characters without all copies of `ESC \` at their end.
fn trim_end_st_exec(v: &Vec<char>) -> (res: Vec<char>)
    ensures
        res@ == trim_end_st(v@),
{
    let mut j = v.len();
    assert(v@.take(j as int) =~= v@);
    while j >= 2 && v[j - 2] == '\u{1b}' && v[j - 1] == '\\'
        invariant
            j <= v.len(),
            trim_end_st(v@) == trim_end_st(v@.take(j as int)),
        decreases j,
    {
        assert(v@.take(j as int).take(j - 2) =~= v@.take(j - 2));
        j -= 2;
    }
    slice_chars(v, 0, j)
}

/// The components of a reply (see `osc_components`).
fn osc_parts(response: &str) -> (res: Option<Vec<Vec<char>>>)
    ensures
        match osc_components(response@) {
            Some(p) => res matches Some(v) && v@.map_values(|x: Vec<char>| x@) == p && p.len()
                >= 1,
            None => res is None,
        },
{
    let chars = chars_of(response);
    let pat = chars_of("rgb:");
    proof {
        reveal_strlit("rgb:");
    }
    let start = match find_exec(&chars, &pat) {
        Some(i) => i,
        None => return None,
    };
    assert(occurs_at(chars@, pat@, start as int)) by {
        lemma_first_occurrence_from(chars@, pat@, 0);
    }
    assert(pat@.len() == 4);
    assert(start + 4 <= chars.len());
    let rest = slice_chars(&chars, start + 4, chars.len());
    assert(rest@ =~= response@.skip(start + 4));
    let t1 = trim_end_char_exec(&rest, '\u{7}');
    let t2 = trim_end_st_exec(&t1);
    let parts = split_chars(&t2, '/');
    proof {
        crate::text::lemma_split_nonempty(t2@, '/');
    }
    Some(parts)
}

/// Reads the background color from an OSC 11 reply such as
/// `ESC ]11;rgb:1a1a/2020/2f2f BEL` (see `osc_color`).
pub fn parse_osc_11_response(response: &str) -> (res: Option<TerminalColor>)
    requires
        !osc_overflows(response@),
    ensures
        res == osc_color(response@),
{
    let parts = match osc_parts(response) {
        Some(p) => p,
        None => return None,
    };
    let ghost pv = parts@.map_values(|p: Vec<char>| p@);
    assert(pv[0] == parts@[0]@);
    let r = match scale_xterm_component(crate::text::string_of(&parts[0]).as_str()) {
        Some(v) => v,
        None => return None,
    };
    if parts.len() < 2 {
        return None;
    }
    assert(pv[1] == parts@[1]@);
    let g = match scale_xterm_component(crate::text::string_of(&parts[1]).as_str()) {
        Some(v) => v,
        None => return None,
    };
    if parts.len() < 3 {
        return None;
    }
    assert(pv[2] == parts@[2]@);
    let b = match scale_xterm_component(crate::text::string_of(&parts[2]).as_str()) {
        Some(v) => v,
        None => return None,
    };
    Some(TerminalColor { r, g, b })
}

/// Whether scaling the component overflows (see `scale_overflows`).
fn component_overflows(chars: &Vec<char>) -> (res: bool)
    ensures
        res == scale_overflows(chars@),
{
    let mut n: usize = 0;
    while n < chars.len() && is_hex_exec(chars[n])
        invariant
            n <= chars.len(),
            forall|k: int| 0 <= k < n ==> is_hex(#[trigger] chars@[k]),
        decreases chars.len() - n,
    {
        n += 1;
    }
    proof {
        lemma_hex_prefix(chars@, n as int);
    }
    let ghost digits = chars@.take(n as int);
    if n == 0 {
        return false;
    }
    let mut value: u64 = 0;
    let mut i: usize = 0;
    while i < n
        invariant
            i <= n <= chars.len(),
            hex_prefix_len(chars@) == n,
            digits == chars@.take(n as int),
            forall|k: int| 0 <= k < n ==> is_hex(#[trigger] chars@[k]),
            value == hex_value(digits.take(i as int)),
            value <= u32::MAX,
        decreases n - i,
    {
        assert(digits.take(i + 1).drop_last() =~= digits.take(i as int));
        assert(digits.take(i + 1).last() == chars@[i as int]);
        let d = hex_digit_exec(chars[i]);
        let next = value * 16 + d;
        assert(next == hex_value(digits.take(i + 1)));
        if next > 0xffff_ffff {
            proof {
                lemma_hex_value_grows(digits, i as int + 1);
                assert(digits.take(n as int) =~= digits);
            }
            return false;
        }
        value = next;
        i += 1;
    }
    assert(digits.take(n as int) =~= digits);
    n >= 8 || value * 255 > 0xffff_ffff
}

/// Whether reading the reply would overflow (see `osc_overflows`); a reply
/// for which this is false can be read with `parse_osc_11_response`.
pub fn osc_reply_overflows(response: &str) -> (res: bool)
    ensures
        res == osc_overflows(response@),
{
    let parts = match osc_parts(response) {
        Some(p) => p,
        None => return false,
    };
    let ghost pv = parts@.map_values(|p: Vec<char>| p@);
    assert(pv[0] == parts@[0]@);
    if component_overflows(&parts[0]) {
        return true;
    }
    let first_ok = !scale_xterm_component(crate::text::string_of(&parts[0]).as_str()).is_none();
    if !first_ok || parts.len() < 2 {
        return false;
    }
    assert(pv[1] == parts@[1]@);
    if component_overflows(&parts[1]) {
        return true;
    }
    let second_ok = !scale_xterm_component(crate::text::string_of(&parts[1]).as_str()).is_none();
    if !second_ok || parts.len() < 3 {
        return false;
    }
    assert(pv[2] == parts@[2]@);
    component_overflows(&parts[2])
}

/// An occurrence found by `first_occurrence_from` is an occurrence.
proof fn lemma_first_occurrence_from(s: Seq<char>, t: Seq<char>, i: int)
    ensures
        first_occurrence_from(s, t, i) matches Some(k) ==> occurs_at(s, t, k),
    decreases s.len() + 1 - i,
{
    if 0 <= i <= s.len() && !occurs_at(s, t, i) {
        lemma_first_occurrence_from(s, t, i + 1);
    }
}

} // verus!
