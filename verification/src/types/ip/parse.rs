//! The reading of addresses, on the characters of a text.
use crate::text::{decimal_value, is_digit, pieces, split_on, split_ranges};
use crate::types::ip::{
    all_hex_groups, double_colon_index, hex_digit_value, hex_groups, hex_value, is_hex_digit,
    parse_group_list, parse_hex_group, parse_ipv4, parse_octet, zero_groups,
};
use vstd::prelude::*;

verus! {

/// The octet written by `chars[from..to]`.
pub(crate) fn parse_octet_at(chars: &Vec<char>, from: usize, to: usize) -> (r: Option<u8>)
    requires
        from <= to <= chars.len(),
    ensures
        r == parse_octet(chars@.subrange(from as int, to as int)),
{
    let ghost s = chars@.subrange(from as int, to as int);
    let len = to - from;
    if len < 1 || len > 3 {
        return None;
    }
    let mut acc: u16 = 0;
    let mut i: usize = from;
    while i < to
        invariant
            from <= i <= to <= chars.len(),
            to - from <= 3,
            s == chars@.subrange(from as int, to as int),
            acc == decimal_value(s.take(i - from)),
            acc <= 999,
            i - from <= 2 ==> acc <= 99,
            i - from <= 1 ==> acc <= 9,
            i == from ==> acc == 0,
            forall|j: int| 0 <= j < i - from ==> is_digit(#[trigger] s[j]),
        decreases to - i,
    {
        let c = chars[i];
        if !('0' <= c && c <= '9') {
            assert(!is_digit(s[i - from]));
            return None;
        }
        let x: u16 = (c as u8 - '0' as u8) as u16;
        proof {
            assert(s.take(i - from + 1).drop_last() == s.take(i - from));
            assert(s.take(i - from + 1).last() == c);
        }
        acc = acc * 10 + x;
        i += 1;
    }
    assert(s.take(to - from) == s);
    if len > 1 && chars[from] == '0' {
        return None;
    }
    if acc > 255 {
        return None;
    }
    Some(acc as u8)
}

/// The four octets written by the dotted quad `chars[from..to]`.
pub(crate) fn parse_ipv4_at(chars: &Vec<char>, from: usize, to: usize) -> (r: Option<[u8; 4]>)
    requires
        from <= to <= chars.len(),
    ensures
        match parse_ipv4(chars@.subrange(from as int, to as int)) {
            Some(o) => r matches Some(a) && a@ == o,
            None => r is None,
        },
{
    let ranges = split_ranges(chars, from, to, '.');
    if ranges.len() != 4 {
        return None;
    }
    let ghost p = split_on(chars@.subrange(from as int, to as int), '.');
    assert(p[0] == pieces(chars@, ranges@)[0]);
    assert(p[1] == pieces(chars@, ranges@)[1]);
    assert(p[2] == pieces(chars@, ranges@)[2]);
    assert(p[3] == pieces(chars@, ranges@)[3]);
    let a = match parse_octet_at(chars, ranges[0].0, ranges[0].1) {
        Some(v) => v,
        None => {
            return None;
        },
    };
    let b = match parse_octet_at(chars, ranges[1].0, ranges[1].1) {
        Some(v) => v,
        None => {
            return None;
        },
    };
    let c = match parse_octet_at(chars, ranges[2].0, ranges[2].1) {
        Some(v) => v,
        None => {
            return None;
        },
    };
    let d = match parse_octet_at(chars, ranges[3].0, ranges[3].1) {
        Some(v) => v,
        None => {
            return None;
        },
    };
    let out = [a, b, c, d];
    assert(out@ =~= seq![a, b, c, d]);
    Some(out)
}

/// The value of the hexadecimal digit `c`.
pub(crate) fn hex_digit_of(c: char) -> (r: Option<u8>)
    ensures
        r is Some <==> is_hex_digit(c),
        r matches Some(v) ==> v == hex_digit_value(c) && v < 16,
{
    if '0' <= c && c <= '9' {
        Some(c as u8 - '0' as u8)
    } else if 'a' <= c && c <= 'f' {
        Some(c as u8 - 'a' as u8 + 10)
    } else if 'A' <= c && c <= 'F' {
        Some(c as u8 - 'A' as u8 + 10)
    } else {
        None
    }
}

/// The group written by `chars[from..to]`.
pub(crate) fn parse_hex_group_at(chars: &Vec<char>, from: usize, to: usize) -> (r: Option<u16>)
    requires
        from <= to <= chars.len(),
    ensures
        r == parse_hex_group(chars@.subrange(from as int, to as int)),
{
    let ghost s = chars@.subrange(from as int, to as int);
    let len = to - from;
    if len < 1 || len > 4 {
        return None;
    }
    let mut acc: u32 = 0;
    let mut i: usize = from;
    while i < to
        invariant
            from <= i <= to <= chars.len(),
            to - from <= 4,
            s == chars@.subrange(from as int, to as int),
            acc == hex_value(s.take(i - from)),
            acc < 0x10000,
            i - from <= 3 ==> acc < 0x1000,
            i - from <= 2 ==> acc < 0x100,
            i - from <= 1 ==> acc < 0x10,
            i == from ==> acc == 0,
            forall|j: int| 0 <= j < i - from ==> is_hex_digit(#[trigger] s[j]),
        decreases to - i,
    {
        let x: u32 = match hex_digit_of(chars[i]) {
            Some(v) => v as u32,
            None => {
                assert(!is_hex_digit(s[i - from]));
                return None;
            },
        };
        proof {
            assert(s.take(i - from + 1).drop_last() == s.take(i - from));
            assert(s.take(i - from + 1).last() == chars@[i as int]);
        }
        acc = acc * 16 + x;
        i += 1;
    }
    assert(s.take(to - from) == s);
    Some(acc as u16)
}

/// The groups written by the colon-separated list `chars[from..to]`.
pub(crate) fn parse_group_list_at(chars: &Vec<char>, from: usize, to: usize, quad_allowed: bool) -> (r:
    Option<Vec<u16>>)
    requires
        from <= to <= chars.len(),
    ensures
        match parse_group_list(chars@.subrange(from as int, to as int), quad_allowed) {
            Some(g) => r matches Some(v) && v@ == g,
            None => r is None,
        },
{
    let ranges = split_ranges(chars, from, to, ':');
    let ghost fields = split_on(chars@.subrange(from as int, to as int), ':');
    let ghost init = fields.drop_last();
    let m = ranges.len();
    let mut out: Vec<u16> = Vec::new();
    let mut k: usize = 0;
    while k < m - 1
        invariant
            m == ranges.len(),
            m >= 1,
            k <= m - 1,
            fields == pieces(chars@, ranges@),
            fields == split_on(chars@.subrange(from as int, to as int), ':'),
            init == fields.drop_last(),
            forall|j: int|
                0 <= j < ranges@.len() ==> from <= (#[trigger] ranges@[j]).0 <= ranges@[j].1 <= to,
            to <= chars.len(),
            out@ == hex_groups(init.take(k as int)),
            all_hex_groups(init.take(k as int)),
        decreases m - k,
    {
        let (a, b) = ranges[k];
        assert(init[k as int] == fields[k as int]);
        match parse_hex_group_at(chars, a, b) {
            Some(g) => {
                proof {
                    let next = init.take(k + 1);
                    assert forall|j: int| 0 <= j < next.len() implies parse_hex_group(
                        #[trigger] next[j],
                    ) is Some by {
                        if j < k {
                            assert(next[j] == init.take(k as int)[j]);
                        }
                    }
                    assert(out@.push(g) =~= hex_groups(next));
                }
                out.push(g);
            },
            None => {
                assert(!all_hex_groups(init));
                return None;
            },
        }
        k += 1;
    }
    assert(init.take(m - 1) == init);
    let (a, b) = ranges[m - 1];
    assert(fields.last() == fields[m - 1]);
    match parse_hex_group_at(chars, a, b) {
        Some(g) => {
            out.push(g);
            Some(out)
        },
        None => {
            if !quad_allowed {
                return None;
            }
            match parse_ipv4_at(chars, a, b) {
                Some(o) => {
                    out.push((o[0] as u16) * 256 + (o[1] as u16));
                    out.push((o[2] as u16) * 256 + (o[3] as u16));
                    Some(out)
                },
                None => None,
            }
        },
    }
}

/// The index of the first `::` in `chars`, or their number where there is none.
pub(crate) fn find_double_colon(chars: &Vec<char>) -> (i: usize)
    ensures
        i == double_colon_index(chars@),
        i == chars.len() || i + 2 <= chars.len(),
{
    let n = chars.len();
    let mut i: usize = 0;
    assert(chars@.skip(0) == chars@);
    while n - i >= 2
        invariant
            n == chars.len(),
            i <= n,
            double_colon_index(chars@) == i + double_colon_index(chars@.skip(i as int)),
        decreases n - i,
    {
        if chars[i] == ':' && chars[i + 1] == ':' {
            return i;
        }
        assert(chars@.skip(i as int).skip(1) == chars@.skip(i + 1));
        i += 1;
    }
    n
}

/// The groups `head`, then as many zero groups as eight groups need, then
/// the groups `tail`.
pub(crate) fn fill_gap(head: &Vec<u16>, tail: &Vec<u16>) -> (all: Vec<u16>)
    requires
        head.len() + tail.len() <= 7,
    ensures
        all@ == head@ + zero_groups(8 - head.len() - tail.len()) + tail@,
        all@.len() == 8,
{
    let gap: usize = 8 - head.len() - tail.len();
    let mut all: Vec<u16> = Vec::new();
    let mut k: usize = 0;
    while k < head.len()
        invariant
            k <= head.len(),
            all@ == head@.take(k as int),
        decreases head.len() - k,
    {
        all.push(head[k]);
        assert(head@.take(k + 1) == head@.take(k as int).push(head@[k as int]));
        k += 1;
    }
    assert(head@.take(head.len() as int) == head@);
    k = 0;
    assert(all@ == head@ + zero_groups(0));
    while k < gap
        invariant
            k <= gap,
            all@ == head@ + zero_groups(k as int),
        decreases gap - k,
    {
        all.push(0);
        assert(zero_groups(k + 1) == zero_groups(k as int).push(0u16));
        assert(all@ == head@ + zero_groups(k + 1));
        k += 1;
    }
    k = 0;
    assert(all@ == head@ + zero_groups(gap as int) + tail@.take(0));
    while k < tail.len()
        invariant
            k <= tail.len(),
            all@ == head@ + zero_groups(gap as int) + tail@.take(k as int),
        decreases tail.len() - k,
    {
        all.push(tail[k]);
        assert(tail@.take(k + 1) == tail@.take(k as int).push(tail@[k as int]));
        assert(all@ == head@ + zero_groups(gap as int) + tail@.take(k + 1));
        k += 1;
    }
    assert(tail@.take(tail.len() as int) == tail@);
    all
}

/// The eight groups of `v` as an array.
pub(crate) fn eight_groups(v: &Vec<u16>) -> (a: [u16; 8])
    requires
        v.len() == 8,
    ensures
        a@ == v@,
{
    let a = [v[0], v[1], v[2], v[3], v[4], v[5], v[6], v[7]];
    assert(a@ =~= v@);
    a
}

} // verus!
