//! IPv4 and IPv6 addresses with their textual forms.
//!
//! Parsing accepts the dotted-quad form for IPv4 and, for IPv6, eight
//! colon-separated hexadecimal groups, with at most one `::` standing for a run
//! of zero groups and an optional dotted quad in the place of the last two
//! groups. Formatting writes the canonical form of each address.
use crate::text::{chars_of, decimal_value, is_digit, join, split_on};
use crate::types::ip::format::{push_decimal, push_groups, zero_runs};
use crate::types::ip::parse::{
    eight_groups, fill_gap, find_double_colon, parse_group_list_at, parse_ipv4_at,
};
use vstd::prelude::*;
use vstd::string::*;

mod format;
pub mod laws;
mod parse;

verus! {

/// An IPv4 address: four octets, most significant first.
#[derive(Clone, Copy, Debug, PartialEq, Eq)]
pub struct Ipv4Addr {
    pub octets: [u8; 4],
}

/// An IPv6 address: eight 16-bit groups, most significant first.
#[derive(Clone, Copy, Debug, PartialEq, Eq)]
pub struct Ipv6Addr {
    pub segments: [u16; 8],
}

/// A text that is no address of the family asked for.
#[derive(Clone, Copy, Debug, PartialEq, Eq, Structural)]
pub enum AddrParseError {
    /// The text is no IPv4 address.
    Ipv4,
    /// The text is no IPv6 address.
    Ipv6,
}

impl View for Ipv4Addr {
    type V = Seq<u8>;

    open spec fn view(&self) -> Seq<u8> {
        self.octets@
    }
}

impl View for Ipv6Addr {
    type V = Seq<u16>;

    open spec fn view(&self) -> Seq<u16> {
        self.segments@
    }
}

/// The digit that stands for `n` in lower-case hexadecimal (and, below ten, in
/// decimal).
pub open spec fn digit_char(n: nat) -> char
    recommends
        n < 16,
{
    if n < 10 {
        ('0' as nat + n) as char
    } else {
        ('a' as nat + n - 10) as char
    }
}

/// `n` in decimal, without leading zeros.
pub open spec fn decimal_text(n: nat) -> Seq<char>
    decreases n,
{
    if n < 10 {
        seq![digit_char(n)]
    } else {
        decimal_text(n / 10).push(digit_char(n % 10))
    }
}

/// The decimal texts of the octets `o`, in order.
pub open spec fn octet_texts(o: Seq<u8>) -> Seq<Seq<char>> {
    Seq::new(o.len(), |i: int| decimal_text(o[i] as nat))
}

/// The dotted-quad text of the four octets `o`.
pub open spec fn ipv4_text(o: Seq<u8>) -> Seq<char> {
    join(octet_texts(o), '.')
}

/// Whether every character of `s` is a decimal digit.
pub open spec fn all_digits(s: Seq<char>) -> bool {
    forall|i: int| 0 <= i < s.len() ==> is_digit(#[trigger] s[i])
}

/// The octet that `s` writes: one to three digits, no leading zero before
/// another digit, and a value of at most 255.
pub open spec fn parse_octet(s: Seq<char>) -> Option<u8> {
    if 1 <= s.len() <= 3 && all_digits(s) && (s.len() == 1 || s[0] != '0') && decimal_value(s)
        <= 255 {
        Some(decimal_value(s) as u8)
    } else {
        None
    }
}

/// The four octets that the dotted quad `s` writes.
pub open spec fn parse_ipv4(s: Seq<char>) -> Option<Seq<u8>> {
    let p = split_on(s, '.');
    if p.len() == 4 && parse_octet(p[0]) is Some && parse_octet(p[1]) is Some && parse_octet(
        p[2],
    ) is Some && parse_octet(p[3]) is Some {
        Some(
            seq![
                parse_octet(p[0]).unwrap(),
                parse_octet(p[1]).unwrap(),
                parse_octet(p[2]).unwrap(),
                parse_octet(p[3]).unwrap(),
            ],
        )
    } else {
        None
    }
}

/// Whether `c` is a hexadecimal digit, in either case.
pub open spec fn is_hex_digit(c: char) -> bool {
    ('0' <= c <= '9') || ('a' <= c <= 'f') || ('A' <= c <= 'F')
}

/// The number that the hexadecimal digit `c` stands for.
pub open spec fn hex_digit_value(c: char) -> nat
    recommends
        is_hex_digit(c),
{
    if '0' <= c <= '9' {
        (c as int - '0' as int) as nat
    } else if 'a' <= c <= 'f' {
        (c as int - 'a' as int + 10) as nat
    } else {
        (c as int - 'A' as int + 10) as nat
    }
}

/// The number written by the hexadecimal digits `s`, most significant first.
pub open spec fn hex_value(s: Seq<char>) -> nat
    decreases s.len(),
{
    if s.len() == 0 {
        0
    } else {
        hex_value(s.drop_last()) * 16 + hex_digit_value(s.last())
    }
}

/// Whether every character of `s` is a hexadecimal digit.
pub open spec fn all_hex_digits(s: Seq<char>) -> bool {
    forall|i: int| 0 <= i < s.len() ==> is_hex_digit(#[trigger] s[i])
}

/// The group that `s` writes: one to four hexadecimal digits.
pub open spec fn parse_hex_group(s: Seq<char>) -> Option<u16> {
    if 1 <= s.len() <= 4 && all_hex_digits(s) {
        Some(hex_value(s) as u16)
    } else {
        None
    }
}

/// Whether every one of `fields` writes a group.
pub open spec fn all_hex_groups(fields: Seq<Seq<char>>) -> bool {
    forall|k: int| 0 <= k < fields.len() ==> parse_hex_group(#[trigger] fields[k]) is Some
}

/// The groups that `fields` write, in order.
pub open spec fn hex_groups(fields: Seq<Seq<char>>) -> Seq<u16> {
    Seq::new(fields.len(), |k: int| parse_hex_group(fields[k]).unwrap())
}

/// The group made of the two octets `hi` and `lo`.
pub open spec fn group_of(hi: u8, lo: u8) -> u16 {
    (hi as int * 256 + lo as int) as u16
}

/// The groups that the colon-separated list `s` writes. Every field is a
/// group; where `quad_allowed`, the last field may be a dotted quad instead,
/// which stands for two groups.
pub open spec fn parse_group_list(s: Seq<char>, quad_allowed: bool) -> Option<Seq<u16>> {
    let fields = split_on(s, ':');
    let init = fields.drop_last();
    let last = fields.last();
    if !all_hex_groups(init) {
        None
    } else if parse_hex_group(last) is Some {
        Some(hex_groups(init).push(parse_hex_group(last).unwrap()))
    } else if quad_allowed && parse_ipv4(last) is Some {
        let o = parse_ipv4(last).unwrap();
        Some(hex_groups(init).push(group_of(o[0], o[1])).push(group_of(o[2], o[3])))
    } else {
        None
    }
}

/// The index of the first `::` in `s`, or the length of `s` where there is none.
pub open spec fn double_colon_index(s: Seq<char>) -> int
    decreases s.len(),
{
    if s.len() < 2 {
        s.len() as int
    } else if s[0] == ':' && s[1] == ':' {
        0
    } else {
        1 + double_colon_index(s.skip(1))
    }
}

/// `n` groups of zero.
pub open spec fn zero_groups(n: int) -> Seq<u16> {
    Seq::new(n as nat, |k: int| 0u16)
}

/// The eight groups that the IPv6 text `s` writes. Without `::` the text is a
/// list of eight groups. With `::`, the lists before and after it hold at most
/// seven groups together, and zero groups fill the gap; only the list after it
/// may end in a dotted quad.
pub open spec fn parse_ipv6(s: Seq<char>) -> Option<Seq<u16>> {
    let i = double_colon_index(s);
    if i >= s.len() {
        match parse_group_list(s, true) {
            Some(g) => if g.len() == 8 {
                Some(g)
            } else {
                None
            },
            None => None,
        }
    } else {
        let head = if i == 0 {
            Some(Seq::<u16>::empty())
        } else {
            parse_group_list(s.take(i), false)
        };
        let tail = if i + 2 == s.len() {
            Some(Seq::<u16>::empty())
        } else {
            parse_group_list(s.skip(i + 2), true)
        };
        match (head, tail) {
            (Some(h), Some(t)) => if h.len() + t.len() <= 7 {
                Some(h + zero_groups(8 - h.len() - t.len()) + t)
            } else {
                None
            },
            _ => None,
        }
    }
}

/// `n` in lower-case hexadecimal, without leading zeros.
pub open spec fn hex_text(n: nat) -> Seq<char>
    decreases n,
{
    if n < 16 {
        seq![digit_char(n)]
    } else {
        hex_text(n / 16).push(digit_char(n % 16))
    }
}

/// The hexadecimal texts of the groups `g`, in order.
pub open spec fn group_texts(g: Seq<u16>) -> Seq<Seq<char>> {
    Seq::new(g.len(), |i: int| hex_text(g[i] as nat))
}

/// The number of zero groups of `g` in a row from index `i` on.
pub open spec fn zero_run_len(g: Seq<u16>, i: int) -> nat
    decreases g.len() - i,
{
    if 0 <= i < g.len() && g[i] == 0 {
        1 + zero_run_len(g, i + 1)
    } else {
        0
    }
}

/// Among the indices below `n`, the first at which the longest run of zero
/// groups of `g` starts.
pub open spec fn best_run_start(g: Seq<u16>, n: int) -> int
    decreases n,
{
    if n <= 1 {
        0
    } else {
        let b = best_run_start(g, n - 1);
        if zero_run_len(g, n - 1) > zero_run_len(g, b) {
            n - 1
        } else {
            b
        }
    }
}

/// Whether the groups `g` hold an IPv4 address mapped into IPv6.
pub open spec fn is_ipv4_mapped(g: Seq<u16>) -> bool {
    g.len() == 8 && g[0] == 0 && g[1] == 0 && g[2] == 0 && g[3] == 0 && g[4] == 0 && g[5]
        == 0xffff
}

/// The four octets held by the last two of the groups `g`.
pub open spec fn embedded_octets(g: Seq<u16>) -> Seq<u8> {
    seq![(g[6] / 256) as u8, (g[6] % 256) as u8, (g[7] / 256) as u8, (g[7] % 256) as u8]
}

/// The canonical text of the eight groups `g`: an IPv4-mapped address as
/// `::ffff:` and a dotted quad; any other with its first longest run of two
/// or more zero groups written as `::`.
pub open spec fn ipv6_text(g: Seq<u16>) -> Seq<char> {
    if is_ipv4_mapped(g) {
        seq![':', ':', 'f', 'f', 'f', 'f', ':'] + ipv4_text(embedded_octets(g))
    } else {
        let start = best_run_start(g, 8);
        let len = zero_run_len(g, start) as int;
        if len > 1 {
            join(group_texts(g.take(start)), ':') + seq![':', ':'] + join(
                group_texts(g.skip(start + len)),
                ':',
            )
        } else {
            join(group_texts(g), ':')
        }
    }
}

impl Ipv4Addr {
    /// The address `a.b.c.d`.
    pub fn new(a: u8, b: u8, c: u8, d: u8) -> (ip: Ipv4Addr)
        ensures
            ip@ == seq![a, b, c, d],
    {
        let octets = [a, b, c, d];
        assert(octets@ =~= seq![a, b, c, d]);
        Ipv4Addr { octets }
    }

    /// The four octets of the address.
    pub fn octets(&self) -> (o: [u8; 4])
        ensures
            o@ == self@,
    {
        self.octets
    }

    /// Parses a dotted quad.
    pub fn parse(s: &str) -> (r: Result<Ipv4Addr, AddrParseError>)
        ensures
            match parse_ipv4(s@) {
                Some(o) => r matches Ok(ip) && ip@ == o,
                None => r == Err::<Ipv4Addr, AddrParseError>(AddrParseError::Ipv4),
            },
    {
        let chars = chars_of(s);
        assert(chars@.subrange(0, chars.len() as int) == s@);
        match parse_ipv4_at(&chars, 0, chars.len()) {
            Some(octets) => Ok(Ipv4Addr { octets }),
            None => Err(AddrParseError::Ipv4),
        }
    }

    /// The dotted-quad text of the address.
    pub fn to_string(&self) -> (text: String)
        ensures
            text@ == ipv4_text(self@),
    {
        let mut out = String::new();
        push_decimal(&mut out, self.octets[0]);
        out.append(".");
        push_decimal(&mut out, self.octets[1]);
        out.append(".");
        push_decimal(&mut out, self.octets[2]);
        out.append(".");
        push_decimal(&mut out, self.octets[3]);
        proof {
            reveal_strlit(".");
            reveal_with_fuel(join, 4);
            let t = octet_texts(self@);
            assert(t.skip(1).skip(1) == t.skip(2));
            assert(t.skip(2).skip(1) == t.skip(3));
            assert("."@ == seq!['.']);
            assert(out@ =~= ipv4_text(self@));
        }
        out
    }
}

impl Ipv6Addr {
    /// The address with the eight groups `a` to `h`.
    pub fn new(a: u16, b: u16, c: u16, d: u16, e: u16, f: u16, g: u16, h: u16) -> (ip: Ipv6Addr)
        ensures
            ip@ == seq![a, b, c, d, e, f, g, h],
    {
        let segments = [a, b, c, d, e, f, g, h];
        assert(segments@ =~= seq![a, b, c, d, e, f, g, h]);
        Ipv6Addr { segments }
    }

    /// The eight groups of the address.
    pub fn segments(&self) -> (s: [u16; 8])
        ensures
            s@ == self@,
    {
        self.segments
    }

    /// Parses the text of an IPv6 address.
    pub fn parse(s: &str) -> (r: Result<Ipv6Addr, AddrParseError>)
        ensures
            match parse_ipv6(s@) {
                Some(g) => r matches Ok(ip) && ip@ == g,
                None => r == Err::<Ipv6Addr, AddrParseError>(AddrParseError::Ipv6),
            },
    {
        let chars = chars_of(s);
        let n = chars.len();
        let i = find_double_colon(&chars);
        if i >= n {
            assert(chars@.subrange(0, n as int) == s@);
            match parse_group_list_at(&chars, 0, n, true) {
                Some(v) => {
                    if v.len() != 8 {
                        return Err(AddrParseError::Ipv6);
                    }
                    Ok(Ipv6Addr { segments: eight_groups(&v) })
                },
                None => Err(AddrParseError::Ipv6),
            }
        } else {
            assert(chars@.subrange(0, i as int) == s@.take(i as int));
            assert(chars@.subrange(i + 2, n as int) == s@.skip(i + 2));
            let head: Vec<u16> = if i == 0 {
                Vec::new()
            } else {
                match parse_group_list_at(&chars, 0, i, false) {
                    Some(v) => v,
                    None => {
                        return Err(AddrParseError::Ipv6);
                    },
                }
            };
            let tail: Vec<u16> = if i + 2 == n {
                Vec::new()
            } else {
                match parse_group_list_at(&chars, i + 2, n, true) {
                    Some(v) => v,
                    None => {
                        return Err(AddrParseError::Ipv6);
                    },
                }
            };
            if head.len() > 7 || tail.len() > 7 - head.len() {
                return Err(AddrParseError::Ipv6);
            }
            let all = fill_gap(&head, &tail);
            Ok(Ipv6Addr { segments: eight_groups(&all) })
        }
    }

    /// The canonical text of the address.
    pub fn to_string(&self) -> (text: String)
        ensures
            text@ == ipv6_text(self@),
    {
        let g = &self.segments;
        let mut out = String::new();
        if g[0] == 0 && g[1] == 0 && g[2] == 0 && g[3] == 0 && g[4] == 0 && g[5] == 0xffff {
            let quad = Ipv4Addr::new(
                (g[6] / 256) as u8,
                (g[6] % 256) as u8,
                (g[7] / 256) as u8,
                (g[7] % 256) as u8,
            );
            out.append("::ffff:");
            let tail = quad.to_string();
            out.append(tail.as_str());
            proof {
                reveal_strlit("::ffff:");
                assert("::ffff:"@ =~= seq![':', ':', 'f', 'f', 'f', 'f', ':']);
                assert(quad@ == embedded_octets(self@));
            }
            return out;
        }
        let runs = zero_runs(g);
        let mut best: usize = 0;
        let mut k: usize = 1;
        while k < 8
            invariant
                1 <= k <= 8,
                best < 8,
                best == best_run_start(self@, k as int),
                runs@.len() == 9,
                forall|i: int| 0 <= i <= 8 ==> #[trigger] runs@[i] == zero_run_len(self@, i),
            decreases 8 - k,
        {
            if runs[k] > runs[best] {
                best = k;
            }
            k += 1;
        }
        let len = runs[best];
        assert(len <= 8 - best);
        if len > 1 {
            push_groups(&mut out, g, 0, best);
            out.append("::");
            push_groups(&mut out, g, best + len, 8);
            proof {
                reveal_strlit("::");
                assert("::"@ =~= seq![':', ':']);
                assert(self@.subrange(0, best as int) == self@.take(best as int));
                assert(self@.subrange(best + len, 8) == self@.skip(best + len));
            }
        } else {
            push_groups(&mut out, g, 0, 8);
            assert(self@.subrange(0, 8) == self@);
        }
        out
    }
}

} // verus!
