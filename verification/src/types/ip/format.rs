//! The writing of addresses: digits, groups and runs of zero groups.
use crate::text::join;
use crate::types::ip::{decimal_text, digit_char, group_texts, hex_text, zero_run_len};
use vstd::prelude::*;
use vstd::string::*;

verus! {

/// The one-character text of the digit `d`.
pub(crate) fn digit_str(d: u8) -> (s: &'static str)
    requires
        d < 16,
    ensures
        s@ == seq![digit_char(d as nat)],
{
    proof {
        reveal_strlit("0");
        reveal_strlit("1");
        reveal_strlit("2");
        reveal_strlit("3");
        reveal_strlit("4");
        reveal_strlit("5");
        reveal_strlit("6");
        reveal_strlit("7");
        reveal_strlit("8");
        reveal_strlit("9");
        reveal_strlit("a");
        reveal_strlit("b");
        reveal_strlit("c");
        reveal_strlit("d");
        reveal_strlit("e");
        reveal_strlit("f");
    }
    let s = match d {
        0 => "0",
        1 => "1",
        2 => "2",
        3 => "3",
        4 => "4",
        5 => "5",
        6 => "6",
        7 => "7",
        8 => "8",
        9 => "9",
        10 => "a",
        11 => "b",
        12 => "c",
        13 => "d",
        14 => "e",
        _ => "f",
    };
    assert(s@ =~= seq![digit_char(d as nat)]);
    s
}

/// Appends `n` in decimal to `out`.
pub(crate) fn push_decimal(out: &mut String, n: u8)
    ensures
        final(out)@ == old(out)@ + decimal_text(n as nat),
{
    let d2: u8 = n / 100;
    let d1: u8 = (n / 10) % 10;
    let d0: u8 = n % 10;
    proof {
        reveal_with_fuel(decimal_text, 3);
    }
    if n >= 100 {
        out.append(digit_str(d2));
        out.append(digit_str(d1));
        out.append(digit_str(d0));
        assert(decimal_text(n as nat) == seq![
            digit_char(d2 as nat),
            digit_char(d1 as nat),
            digit_char(d0 as nat),
        ]);
    } else if n >= 10 {
        out.append(digit_str(d1));
        out.append(digit_str(d0));
        assert(decimal_text(n as nat) == seq![digit_char(d1 as nat), digit_char(d0 as nat)]);
    } else {
        out.append(digit_str(d0));
    }
    assert(out@ =~= old(out)@ + decimal_text(n as nat));
}

/// Appends `n` in lower-case hexadecimal to `out`.
pub(crate) fn push_hex(out: &mut String, n: u16)
    ensures
        final(out)@ == old(out)@ + hex_text(n as nat),
{
    let d3: u8 = (n / 4096) as u8;
    let d2: u8 = ((n / 256) % 16) as u8;
    let d1: u8 = ((n / 16) % 16) as u8;
    let d0: u8 = (n % 16) as u8;
    proof {
        reveal_with_fuel(hex_text, 4);
    }
    if n >= 4096 {
        out.append(digit_str(d3));
        out.append(digit_str(d2));
        out.append(digit_str(d1));
        out.append(digit_str(d0));
        assert(hex_text(n as nat) == seq![
            digit_char(d3 as nat),
            digit_char(d2 as nat),
            digit_char(d1 as nat),
            digit_char(d0 as nat),
        ]);
    } else if n >= 256 {
        out.append(digit_str(d2));
        out.append(digit_str(d1));
        out.append(digit_str(d0));
        assert(hex_text(n as nat) == seq![
            digit_char(d2 as nat),
            digit_char(d1 as nat),
            digit_char(d0 as nat),
        ]);
    } else if n >= 16 {
        out.append(digit_str(d1));
        out.append(digit_str(d0));
        assert(hex_text(n as nat) == seq![digit_char(d1 as nat), digit_char(d0 as nat)]);
    } else {
        out.append(digit_str(d0));
    }
    assert(out@ =~= old(out)@ + hex_text(n as nat));
}

/// Joining one more piece onto a non-empty list adds the separator and the piece.
pub proof fn lemma_join_push(parts: Seq<Seq<char>>, x: Seq<char>, sep: char)
    ensures
        join(parts.push(x), sep) == if parts.len() == 0 {
            x
        } else {
            join(parts, sep) + seq![sep] + x
        },
    decreases parts.len(),
{
    let all = parts.push(x);
    if parts.len() == 0 {
    } else if parts.len() == 1 {
        assert(all.skip(1) == seq![x]);
        assert(join(all.skip(1), sep) == x);
    } else {
        assert(all.skip(1) == parts.skip(1).push(x));
        lemma_join_push(parts.skip(1), x, sep);
        assert(join(all, sep) =~= join(parts, sep) + seq![sep] + x);
    }
}

/// Appends the groups `segments[from..to]`, colon-separated, to `out`.
pub(crate) fn push_groups(out: &mut String, segments: &[u16; 8], from: usize, to: usize)
    requires
        from <= to <= 8,
    ensures
        final(out)@ == old(out)@ + join(
            group_texts(segments@.subrange(from as int, to as int)),
            ':',
        ),
{
    let ghost g = segments@.subrange(from as int, to as int);
    let mut k: usize = from;
    assert(group_texts(g.take(0)) == Seq::<Seq<char>>::empty());
    assert(out@ == old(out)@ + join(group_texts(g.take(0)), ':'));
    while k < to
        invariant
            from <= k <= to <= 8,
            g == segments@.subrange(from as int, to as int),
            out@ == old(out)@ + join(group_texts(g.take(k - from)), ':'),
        decreases to - k,
    {
        let ghost before = group_texts(g.take(k - from));
        proof {
            reveal_strlit(":");
            assert(":"@ == seq![':']);
            lemma_join_push(before, hex_text(segments@[k as int] as nat), ':');
            assert(group_texts(g.take(k - from + 1)) == before.push(
                hex_text(segments@[k as int] as nat),
            ));
        }
        if k > from {
            out.append(":");
        }
        push_hex(out, segments[k]);
        k += 1;
    }
    assert(g.take(to - from) == g);
}

/// The length of the run of zero groups of `segments` that starts at each
/// index; the last entry, for the index past the end, is zero.
pub(crate) fn zero_runs(segments: &[u16; 8]) -> (runs: Vec<usize>)
    ensures
        runs@.len() == 9,
        forall|i: int| 0 <= i <= 8 ==> #[trigger] runs@[i] == zero_run_len(segments@, i),
        forall|i: int| 0 <= i <= 8 ==> #[trigger] runs@[i] <= 8 - i,
{
    let mut runs: Vec<usize> = vec![0, 0, 0, 0, 0, 0, 0, 0, 0];
    let mut i: usize = 8;
    while i > 0
        invariant
            i <= 8,
            runs@.len() == 9,
            forall|j: int| i <= j <= 8 ==> #[trigger] runs@[j] == zero_run_len(segments@, j),
            forall|j: int| i <= j <= 8 ==> #[trigger] runs@[j] <= 8 - j,
        decreases i,
    {
        i -= 1;
        let r: usize = if segments[i] == 0 {
            1 + runs[i + 1]
        } else {
            0
        };
        runs.set(i, r);
    }
    runs
}

} // verus!
