//! What holds of the texts of addresses: reading the text of an address
//! gives the address back, and an IPv4 address has one text only.
use crate::text::{
    decimal_value, digit_value, is_digit, join, lemma_decimal_value_grows, lemma_join_split,
    lemma_split_join, split_on,
};
use crate::types::ip::{
    all_digits, all_hex_digits, all_hex_groups, best_run_start, decimal_text, digit_char,
    double_colon_index, embedded_octets, group_of, group_texts, hex_digit_value, hex_groups,
    hex_text, hex_value, ipv4_text, ipv6_text, is_hex_digit, is_ipv4_mapped, octet_texts,
    parse_group_list, parse_hex_group, parse_ipv4, parse_ipv6, parse_octet, zero_groups,
    zero_run_len,
};
use vstd::prelude::*;

verus! {

/// What holds of the digit for `d`.
pub proof fn lemma_digit_char(d: nat)
    requires
        d < 16,
    ensures
        is_hex_digit(digit_char(d)),
        hex_digit_value(digit_char(d)) == d,
        d < 10 ==> is_digit(digit_char(d)) && crate::text::digit_value(digit_char(d)) == d,
        d == 0 <==> digit_char(d) == '0',
        digit_char(d) != ':',
        digit_char(d) != '.',
{
}

/// The decimal text of a number holds digits only and writes that number.
pub proof fn lemma_decimal_text(n: nat)
    ensures
        decimal_text(n).len() >= 1,
        all_digits(decimal_text(n)),
        decimal_value(decimal_text(n)) == n,
        decimal_text(n)[0] == '0' ==> n == 0,
        n < 10 ==> decimal_text(n).len() == 1,
    decreases n,
{
    let t = decimal_text(n);
    if n < 10 {
        lemma_digit_char(n);
        assert(t.drop_last() == Seq::<char>::empty());
        assert(decimal_value(t.drop_last()) == 0);
    } else {
        lemma_decimal_text(n / 10);
        lemma_digit_char(n % 10);
        let u = decimal_text(n / 10);
        assert(t == u.push(digit_char(n % 10)));
        assert(t.drop_last() == u);
        assert(t[0] == u[0]);
        assert forall|i: int| 0 <= i < t.len() implies is_digit(#[trigger] t[i]) by {
            if i < u.len() {
                assert(t[i] == u[i]);
            }
        }
    }
}

/// The decimal text of an octet is read back as that octet, and holds no dot.
pub proof fn lemma_octet_round_trip(n: u8)
    ensures
        parse_octet(decimal_text(n as nat)) == Some(n),
        forall|j: int|
            0 <= j < decimal_text(n as nat).len() ==> (#[trigger] decimal_text(n as nat)[j]) != '.'
                && decimal_text(n as nat)[j] != ':',
        1 <= decimal_text(n as nat).len() <= 3,
{
    let t = decimal_text(n as nat);
    lemma_decimal_text(n as nat);
    reveal_with_fuel(decimal_text, 3);
    assert(t.len() <= 3);
    if t.len() > 1 {
        assert(n >= 10);
    }
}

/// A run of digits without a leading zero is the decimal text of the number
/// that it writes.
pub proof fn lemma_decimal_canonical(t: Seq<char>)
    requires
        t.len() >= 1,
        all_digits(t),
        t.len() == 1 || t[0] != '0',
    ensures
        decimal_text(decimal_value(t)) == t,
    decreases t.len(),
{
    let u = t.drop_last();
    let c = t.last();
    let d = digit_value(c);
    assert(is_digit(c));
    assert(digit_char(d) == c);
    if t.len() == 1 {
        assert(u.len() == 0);
        assert(decimal_value(u) == 0);
        assert(decimal_text(decimal_value(t)) == seq![c]);
    } else {
        assert(u[0] == t[0]);
        assert forall|i: int| 0 <= i < u.len() implies is_digit(#[trigger] u[i]) by {
            assert(u[i] == t[i]);
        }
        lemma_decimal_canonical(u);
        lemma_decimal_value_grows(u, 1, u.len() as int);
        assert(u.take(u.len() as int) == u);
        assert(u.take(1).drop_last() == Seq::<char>::empty());
        assert(decimal_value(u.take(1).drop_last()) == 0);
        assert(u.take(1).last() == u[0]);
        assert(is_digit(u[0]));
        assert(decimal_value(u.take(1)) >= 1);
        let n = decimal_value(t);
        assert(n == decimal_value(u) * 10 + d);
        assert(n >= 10);
        assert(n / 10 == decimal_value(u));
        assert(n % 10 == d);
        assert(u.push(c) == t);
    }
}

/// A text that is read as an octet is the decimal text of that octet.
pub proof fn lemma_octet_canonical(t: Seq<char>)
    requires
        parse_octet(t) is Some,
    ensures
        decimal_text(parse_octet(t).unwrap() as nat) == t,
{
    lemma_decimal_canonical(t);
}

/// A text that is read as four octets is the dotted-quad text of these
/// octets: every IPv4 address has one text only.
pub proof fn lemma_ipv4_text_is_unique(s: Seq<char>)
    requires
        parse_ipv4(s) is Some,
    ensures
        ipv4_text(parse_ipv4(s).unwrap()) == s,
{
    let p = split_on(s, '.');
    let o = parse_ipv4(s).unwrap();
    lemma_join_split(s, '.');
    lemma_octet_canonical(p[0]);
    lemma_octet_canonical(p[1]);
    lemma_octet_canonical(p[2]);
    lemma_octet_canonical(p[3]);
    assert(octet_texts(o) =~= p);
}

/// Parsing the dotted-quad text of four octets gives the octets back.
pub proof fn lemma_ipv4_round_trip(o: Seq<u8>)
    requires
        o.len() == 4,
    ensures
        parse_ipv4(ipv4_text(o)) == Some(o),
        ipv4_text(o).len() >= 7,
        forall|j: int| 0 <= j < ipv4_text(o).len() ==> (#[trigger] ipv4_text(o)[j]) != ':',
{
    let t = octet_texts(o);
    assert forall|i: int, j: int| 0 <= i < t.len() && 0 <= j < t[i].len() implies (
    #[trigger] t[i][j]) != '.' by {
        lemma_octet_round_trip(o[i]);
    }
    lemma_split_join(t, '.');
    lemma_octet_round_trip(o[0]);
    lemma_octet_round_trip(o[1]);
    lemma_octet_round_trip(o[2]);
    lemma_octet_round_trip(o[3]);
    let got = parse_ipv4(ipv4_text(o));
    assert(got is Some);
    assert(got.unwrap() =~= o);
    reveal_with_fuel(join, 4);
    assert(t.skip(1).skip(1) == t.skip(2));
    assert(t.skip(2).skip(1) == t.skip(3));
    let s = ipv4_text(o);
    assert(s == t[0] + seq!['.'] + (t[1] + seq!['.'] + (t[2] + seq!['.'] + t[3])));
    assert forall|j: int| 0 <= j < s.len() implies (#[trigger] s[j]) != ':' by {
        let a = t[0].len() as int;
        let b = a + 1 + t[1].len();
        let c = b + 1 + t[2].len();
        if j < a {
            assert(s[j] == t[0][j]);
        } else if j == a {
        } else if j < b {
            assert(s[j] == t[1][j - a - 1]);
        } else if j == b {
        } else if j < c {
            assert(s[j] == t[2][j - b - 1]);
        } else if j == c {
        } else {
            assert(s[j] == t[3][j - c - 1]);
        }
    }
}

/// The hexadecimal text of a number holds hexadecimal digits only and writes
/// that number.
pub proof fn lemma_hex_text(n: nat)
    ensures
        hex_text(n).len() >= 1,
        all_hex_digits(hex_text(n)),
        hex_value(hex_text(n)) == n,
        forall|j: int| 0 <= j < hex_text(n).len() ==> (#[trigger] hex_text(n)[j]) != ':',
    decreases n,
{
    let t = hex_text(n);
    if n < 16 {
        lemma_digit_char(n);
        assert(t.drop_last() == Seq::<char>::empty());
        assert(hex_value(t.drop_last()) == 0);
    } else {
        lemma_hex_text(n / 16);
        lemma_digit_char(n % 16);
        let u = hex_text(n / 16);
        assert(t == u.push(digit_char(n % 16)));
        assert(t.drop_last() == u);
        assert forall|i: int| 0 <= i < t.len() implies is_hex_digit(#[trigger] t[i]) && t[i]
            != ':' by {
            if i < u.len() {
                assert(t[i] == u[i]);
            }
        }
    }
}

/// The hexadecimal text of a group is read back as that group.
pub proof fn lemma_group_round_trip(n: u16)
    ensures
        parse_hex_group(hex_text(n as nat)) == Some(n),
{
    lemma_hex_text(n as nat);
    reveal_with_fuel(hex_text, 4);
    assert(hex_text(n as nat).len() <= 4);
}

/// Whether `s` holds no two colons in a row.
pub open spec fn no_colon_pair(s: Seq<char>) -> bool {
    forall|i: int| 0 <= i < s.len() - 1 ==> !(#[trigger] s[i] == ':' && s[i + 1] == ':')
}

/// Whether `s` neither begins nor ends with a colon.
pub open spec fn no_colon_at_ends(s: Seq<char>) -> bool {
    s.len() > 0 ==> s[0] != ':' && s.last() != ':'
}

/// The joined texts of groups hold no two colons in a row and no colon at
/// either end, and are empty only for no groups.
pub proof fn lemma_joined_groups_shape(g: Seq<u16>)
    ensures
        no_colon_pair(join(group_texts(g), ':')),
        no_colon_at_ends(join(group_texts(g), ':')),
        g.len() > 0 ==> join(group_texts(g), ':').len() > 0,
    decreases g.len(),
{
    let t = group_texts(g);
    let s = join(t, ':');
    if g.len() == 0 {
    } else if g.len() == 1 {
        lemma_hex_text(g[0] as nat);
        assert(s == t[0]);
    } else {
        let rest = g.skip(1);
        assert(t.skip(1) == group_texts(rest));
        lemma_joined_groups_shape(rest);
        lemma_hex_text(g[0] as nat);
        let r = join(group_texts(rest), ':');
        let a = t[0].len() as int;
        assert(s == t[0] + seq![':'] + r);
        assert(s[0] == t[0][0]);
        assert(s.last() == r.last());
        assert forall|i: int| 0 <= i < s.len() - 1 implies !(#[trigger] s[i] == ':' && s[i + 1]
            == ':') by {
            if i < a {
                assert(s[i] == t[0][i]);
            } else if i == a {
                assert(s[i + 1] == r[0]);
            } else {
                assert(s[i] == r[i - a - 1]);
                assert(s[i + 1] == r[i - a]);
            }
        }
    }
}

/// A text without two colons in a row holds no `::`.
pub proof fn lemma_no_double_colon(s: Seq<char>)
    requires
        no_colon_pair(s),
    ensures
        double_colon_index(s) == s.len(),
    decreases s.len(),
{
    if s.len() >= 2 {
        assert(!(s[0int] == ':' && s[0int + 1] == ':'));
        let r = s.skip(1);
        assert forall|i: int| 0 <= i < r.len() - 1 implies !(#[trigger] r[i] == ':' && r[i + 1]
            == ':') by {
            assert(r[i] == s[i + 1]);
            assert(r[i + 1] == s[i + 1 + 1]);
        }
        lemma_no_double_colon(r);
    }
}

/// Where `h` holds no two colons in a row and does not end in a colon, the
/// first `::` of `h`, `::` and `t` in a row is the one written between them.
pub proof fn lemma_double_colon_after(h: Seq<char>, t: Seq<char>)
    requires
        no_colon_pair(h),
        h.len() > 0 ==> h.last() != ':',
    ensures
        double_colon_index(h + seq![':', ':'] + t) == h.len(),
    decreases h.len(),
{
    let s = h + seq![':', ':'] + t;
    if h.len() == 0 {
        assert(s[0] == ':' && s[1] == ':');
    } else {
        let r = h.skip(1);
        assert(s.skip(1) == r + seq![':', ':'] + t);
        assert(s[0] == h[0]);
        if h.len() == 1 {
            assert(h[0] == h.last());
        } else {
            assert(s[1] == h[1]);
            assert(!(h[0int] == ':' && h[0int + 1] == ':'));
            assert(r.last() == h.last());
        }
        assert forall|i: int| 0 <= i < r.len() - 1 implies !(#[trigger] r[i] == ':' && r[i + 1]
            == ':') by {
            assert(r[i] == h[i + 1]);
            assert(r[i + 1] == h[i + 1 + 1]);
        }
        lemma_double_colon_after(r, t);
    }
}

/// Parsing the joined texts of one or more groups gives the groups back.
pub proof fn lemma_group_list_round_trip(g: Seq<u16>, quad_allowed: bool)
    requires
        g.len() >= 1,
    ensures
        parse_group_list(join(group_texts(g), ':'), quad_allowed) == Some(g),
{
    let t = group_texts(g);
    assert forall|i: int, j: int| 0 <= i < t.len() && 0 <= j < t[i].len() implies (
    #[trigger] t[i][j]) != ':' by {
        lemma_hex_text(g[i] as nat);
    }
    lemma_split_join(t, ':');
    let init = t.drop_last();
    assert forall|k: int| 0 <= k < init.len() implies parse_hex_group(#[trigger] init[k])
        == Some(g[k]) by {
        lemma_group_round_trip(g[k]);
    }
    lemma_group_round_trip(g.last());
    assert(t.last() == hex_text(g.last() as nat));
    assert(hex_groups(init).push(g.last()) =~= g);
}

/// The groups of a run of zero groups are zero, and the run ends within `g`.
pub proof fn lemma_zero_run(g: Seq<u16>, i: int)
    requires
        0 <= i <= g.len(),
    ensures
        i + zero_run_len(g, i) <= g.len(),
        forall|j: int| i <= j < i + zero_run_len(g, i) ==> #[trigger] g[j] == 0,
    decreases g.len() - i,
{
    if i < g.len() && g[i] == 0 {
        lemma_zero_run(g, i + 1);
    }
}

/// The best start of a run lies below `n`.
pub proof fn lemma_best_run_start_bound(g: Seq<u16>, n: int)
    requires
        n >= 1,
    ensures
        0 <= best_run_start(g, n) < n,
    decreases n,
{
    if n > 1 {
        lemma_best_run_start_bound(g, n - 1);
    }
}

/// The text `ffff` writes the group of sixteen one-bits.
proof fn lemma_all_ones_group()
    ensures
        parse_hex_group(seq!['f', 'f', 'f', 'f']) == Some(0xffffu16),
{
    let f = seq!['f', 'f', 'f', 'f'];
    reveal_with_fuel(hex_value, 5);
    assert(f.drop_last() == seq!['f', 'f', 'f']);
    assert(f.drop_last().drop_last() == seq!['f', 'f']);
    assert(f.drop_last().drop_last().drop_last() == seq!['f']);
    assert(f.drop_last().drop_last().drop_last().drop_last() == Seq::<char>::empty());
    assert(hex_value(f) == 0xffff);
}

/// The list `ffff`, a colon and the dotted quad of `o` writes three groups.
proof fn lemma_mapped_tail(o: Seq<u8>)
    requires
        o.len() == 4,
    ensures
        parse_group_list(seq!['f', 'f', 'f', 'f'] + seq![':'] + ipv4_text(o), true) == Some(
            seq![0xffffu16, group_of(o[0], o[1]), group_of(o[2], o[3])],
        ),
{
    let q = ipv4_text(o);
    lemma_ipv4_round_trip(o);
    lemma_all_ones_group();
    let f = seq!['f', 'f', 'f', 'f'];
    let tail = f + seq![':'] + q;
    let parts = seq![f, q];
    assert(parts.skip(1) == seq![q]);
    assert(join(parts.skip(1), ':') == q);
    assert(join(parts, ':') == tail);
    assert forall|i: int, j: int| 0 <= i < parts.len() && 0 <= j < parts[i].len() implies (
    #[trigger] parts[i][j]) != ':' by {
        if i == 0 {
        } else {
            assert(parts[i] == q);
        }
    }
    lemma_split_join(parts, ':');
    let init = parts.drop_last();
    assert(init == seq![f]);
    assert(parts.last() == q);
    assert(parse_hex_group(q) is None);
    assert(all_hex_groups(init));
    assert(hex_groups(init) =~= seq![0xffffu16]);
    let t = parse_group_list(tail, true);
    assert(t.unwrap() =~= seq![0xffffu16, group_of(o[0], o[1]), group_of(o[2], o[3])]);
}

/// Parsing the text of an IPv4-mapped address gives its groups back.
proof fn lemma_ipv6_round_trip_mapped(g: Seq<u16>)
    requires
        g.len() == 8,
        is_ipv4_mapped(g),
    ensures
        parse_ipv6(ipv6_text(g)) == Some(g),
{
    let s = ipv6_text(g);
    let o = embedded_octets(g);
    let tail = seq!['f', 'f', 'f', 'f'] + seq![':'] + ipv4_text(o);
    lemma_mapped_tail(o);
    assert(s == seq![':', ':'] + tail);
    assert(s[0] == ':' && s[1] == ':');
    assert(double_colon_index(s) == 0);
    assert(s.skip(2) == tail);
    assert(group_of(o[0], o[1]) == g[6]);
    assert(group_of(o[2], o[3]) == g[7]);
    let t = seq![0xffffu16, g[6], g[7]];
    assert(Seq::<u16>::empty() + zero_groups(5) + t =~= g);
}

/// Parsing a text with `::` for a run of zero groups gives the groups back.
proof fn lemma_ipv6_round_trip_shortened(g: Seq<u16>, start: int, len: int)
    requires
        g.len() == 8,
        0 <= start,
        1 <= len,
        start + len <= 8,
        forall|j: int| start <= j < start + len ==> #[trigger] g[j] == 0,
    ensures
        parse_ipv6(
            join(group_texts(g.take(start)), ':') + seq![':', ':'] + join(
                group_texts(g.skip(start + len)),
                ':',
            ),
        ) == Some(g),
{
    let hg = g.take(start);
    let tg = g.skip(start + len);
    let h = join(group_texts(hg), ':');
    let t = join(group_texts(tg), ':');
    let s = h + seq![':', ':'] + t;
    lemma_joined_groups_shape(hg);
    lemma_joined_groups_shape(tg);
    lemma_double_colon_after(h, t);
    assert(s.take(h.len() as int) == h);
    assert(s.skip(h.len() as int + 2) == t);
    if hg.len() > 0 {
        lemma_group_list_round_trip(hg, false);
    } else {
        assert(hg == Seq::<u16>::empty());
    }
    if tg.len() > 0 {
        lemma_group_list_round_trip(tg, true);
    } else {
        assert(tg == Seq::<u16>::empty());
    }
    assert(hg + zero_groups(8 - hg.len() - tg.len()) + tg =~= g);
}

/// Parsing the canonical text of eight groups gives the groups back.
pub proof fn lemma_ipv6_round_trip(g: Seq<u16>)
    requires
        g.len() == 8,
    ensures
        parse_ipv6(ipv6_text(g)) == Some(g),
{
    if is_ipv4_mapped(g) {
        lemma_ipv6_round_trip_mapped(g);
    } else {
        lemma_best_run_start_bound(g, 8);
        let start = best_run_start(g, 8);
        let len = zero_run_len(g, start) as int;
        lemma_zero_run(g, start);
        if len > 1 {
            lemma_ipv6_round_trip_shortened(g, start, len);
        } else {
            lemma_joined_groups_shape(g);
            lemma_no_double_colon(ipv6_text(g));
            lemma_group_list_round_trip(g, true);
        }
    }
}

} // verus!
