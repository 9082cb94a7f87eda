//! Splitting a comma-delimited header string into header lines.

use vstd::prelude::*;

verus! {

/// Whitespace around a header line: the characters of Unicode's
/// White_Space property, as `char::is_whitespace` counts them.
pub open spec fn is_white(c: char) -> bool {
    let u = c as u32;
    ||| 0x9 <= u <= 0xD
    ||| u == 0x20
    ||| u == 0x85
    ||| u == 0xA0
    ||| u == 0x1680
    ||| 0x2000 <= u <= 0x200A
    ||| u == 0x2028
    ||| u == 0x2029
    ||| u == 0x202F
    ||| u == 0x205F
    ||| u == 0x3000
}

/// Whether `c` is whitespace.
fn is_white_char(c: char) -> (r: bool)
    ensures
        r == is_white(c),
{
    let u = c as u32;
    (0x9 <= u && u <= 0xD) || u == 0x20 || u == 0x85 || u == 0xA0 || u == 0x1680 || (0x2000
        <= u && u <= 0x200A) || u == 0x2028 || u == 0x2029 || u == 0x202F || u == 0x205F || u
        == 0x3000
}

/// `s` without its leading whitespace.
pub open spec fn trim_start(s: Seq<char>) -> Seq<char>
    decreases s.len(),
{
    if s.len() > 0 && is_white(s[0]) {
        trim_start(s.drop_first())
    } else {
        s
    }
}

/// `s` without its trailing whitespace.
pub open spec fn trim_end(s: Seq<char>) -> Seq<char>
    decreases s.len(),
{
    if s.len() > 0 && is_white(s.last()) {
        trim_end(s.drop_last())
    } else {
        s
    }
}

/// `s` without whitespace on either side.
pub open spec fn trim_white(s: Seq<char>) -> Seq<char> {
    trim_end(trim_start(s))
}

/// The pieces of `s` between commas, in order. Like `str::split`, it always
/// yields at least one piece, and `n` commas give `n + 1` pieces.
pub open spec fn split_commas(s: Seq<char>) -> Seq<Seq<char>>
    decreases s.len(),
{
    if s.len() == 0 {
        seq![Seq::empty()]
    } else {
        let rest = split_commas(s.drop_last());
        if s.last() == ',' {
            rest.push(Seq::empty())
        } else {
            rest.update(rest.len() - 1, rest.last().push(s.last()))
        }
    }
}

/// The header lines that a header string stands for: none for the empty
/// string, else each piece between commas with its whitespace trimmed.
pub open spec fn header_lines(s: Seq<char>) -> Seq<Seq<char>> {
    if s.len() == 0 {
        Seq::empty()
    } else {
        split_commas(s).map_values(|p: Seq<char>| trim_white(p))
    }
}

/// A string that can stand in a header: it holds no NUL character.
pub open spec fn no_nul(s: Seq<char>) -> bool {
    forall|j: int| 0 <= j < s.len() ==> s[j] != '\0'
}

proof fn lemma_split_commas_nonempty(s: Seq<char>)
    ensures
        split_commas(s).len() >= 1,
    decreases s.len(),
{
    if s.len() > 0 {
        lemma_split_commas_nonempty(s.drop_last());
    }
}

/// Header lines joined into one string, with a comma between two lines.
pub open spec fn join_commas(lines: Seq<Seq<char>>) -> Seq<char>
    decreases lines.len(),
{
    if lines.len() <= 1 {
        if lines.len() == 0 {
            Seq::empty()
        } else {
            lines[0]
        }
    } else {
        join_commas(lines.drop_last()) + seq![','] + lines.last()
    }
}

proof fn lemma_split_commas_no_comma(s: Seq<char>)
    requires
        !s.contains(','),
    ensures
        split_commas(s) == seq![s],
    decreases s.len(),
{
    if s.len() > 0 {
        assert(!s.drop_last().contains(',')) by {
            if s.drop_last().contains(',') {
                let j = choose|j: int| 0 <= j < s.drop_last().len() && s.drop_last()[j] == ',';
                assert(s[j] == ',');
            }
        }
        lemma_split_commas_no_comma(s.drop_last());
        assert(s.last() != ',') by {
            assert(s[s.len() - 1] == s.last());
        }
        assert(s.drop_last().push(s.last()) =~= s);
        assert(seq![s.drop_last()].update(0, s) =~= seq![s]);
    } else {
        assert(s =~= Seq::<char>::empty());
    }
}

proof fn lemma_split_commas_concat(s: Seq<char>, t: Seq<char>)
    ensures
        split_commas(s + seq![','] + t) == split_commas(s) + split_commas(t),
    decreases t.len(),
{
    let u = s + seq![','] + t;
    if t.len() == 0 {
        assert(u.drop_last() =~= s);
        assert(split_commas(s).push(Seq::empty()) =~= split_commas(s) + split_commas(t));
    } else {
        assert(u.drop_last() =~= s + seq![','] + t.drop_last());
        lemma_split_commas_concat(s, t.drop_last());
        lemma_split_commas_nonempty(t.drop_last());
        lemma_split_commas_nonempty(s);
        let a = split_commas(s);
        let b = split_commas(t.drop_last());
        if t.last() == ',' {
            assert((a + b).push(Seq::empty()) =~= a + b.push(Seq::empty()));
        } else {
            assert((a + b).update((a + b).len() - 1, (a + b).last().push(t.last())) =~= a
                + b.update(b.len() - 1, b.last().push(t.last())));
        }
    }
}

proof fn lemma_split_join(lines: Seq<Seq<char>>)
    requires
        lines.len() >= 1,
        forall|k: int| 0 <= k < lines.len() ==> !(#[trigger] lines[k]).contains(','),
    ensures
        split_commas(join_commas(lines)) == lines,
    decreases lines.len(),
{
    if lines.len() == 1 {
        lemma_split_commas_no_comma(lines[0]);
        assert(seq![lines[0]] =~= lines);
    } else {
        let init = lines.drop_last();
        assert forall|k: int| 0 <= k < init.len() implies !(#[trigger] init[k]).contains(',') by {
            assert(init[k] == lines[k]);
        }
        lemma_split_join(init);
        lemma_split_commas_concat(join_commas(init), lines.last());
        lemma_split_commas_no_comma(lines[lines.len() - 1]);
        assert(init + seq![lines.last()] =~= lines);
    }
}

/// Splitting recovers header lines joined with commas, in their order, when
/// each line is non-empty, holds no comma and has no surrounding whitespace.
pub proof fn lemma_header_lines_of_join(lines: Seq<Seq<char>>)
    requires
        lines.len() >= 1,
        forall|k: int|
            0 <= k < lines.len() ==> {
                &&& (#[trigger] lines[k]).len() > 0
                &&& !lines[k].contains(',')
                &&& trim_white(lines[k]) == lines[k]
            },
    ensures
        header_lines(join_commas(lines)) == lines,
    decreases lines.len(),
{
    lemma_split_join(lines);
    let s = join_commas(lines);
    if s.len() == 0 {
        if lines.len() == 1 {
            assert(lines[0].len() > 0);
        } else {
            assert(lines.last() == lines[lines.len() - 1]);
        }
    }
    assert(split_commas(s).map_values(|p: Seq<char>| trim_white(p)) =~= lines);
}

/// Trims whitespace from both ends of `s`.
fn trim_line(s: &str) -> (r: &str)
    ensures
        r@ == trim_white(s@),
        no_nul(s@) ==> no_nul(r@),
{
    let n = s.unicode_len();
    let mut lo: usize = 0;
    assert(s@.subrange(0, n as int) =~= s@);
    while lo < n && is_white_char(s.get_char(lo))
        invariant
            n == s@.len(),
            lo <= n,
            trim_start(s@) == trim_start(s@.subrange(lo as int, n as int)),
        decreases n - lo,
    {
        assert(s@.subrange(lo as int, n as int).drop_first() =~= s@.subrange(
            lo + 1,
            n as int,
        ));
        lo = lo + 1;
    }
    assert(trim_start(s@) == s@.subrange(lo as int, n as int));
    let mut hi: usize = n;
    while hi > lo && is_white_char(s.get_char(hi - 1))
        invariant
            n == s@.len(),
            lo <= hi <= n,
            trim_white(s@) == trim_end(s@.subrange(lo as int, hi as int)),
        decreases hi - lo,
    {
        assert(s@.subrange(lo as int, hi as int).drop_last() =~= s@.subrange(
            lo as int,
            hi - 1,
        ));
        hi = hi - 1;
    }
    s.substring_char(lo, hi)
}

/// Splits `headers` on commas into trimmed header lines, keeping their order.
/// The empty string gives no lines at all.
pub fn split_headers(headers: &str) -> (r: Vec<String>)
    ensures
        r@.map_values(|l: String| l@) == header_lines(headers@),
        headers@.len() == 0 ==> r@.len() == 0,
        no_nul(headers@) ==> forall|k: int| 0 <= k < r@.len() ==> no_nul(#[trigger] r@[k]@),
{
    let mut lines: Vec<String> = Vec::new();
    let n = headers.unicode_len();
    if n == 0 {
        assert(lines@.map_values(|l: String| l@) =~= header_lines(headers@));
        return lines;
    }
    let ghost mut pieces: Seq<Seq<char>> = Seq::empty();
    let mut start: usize = 0;
    let mut i: usize = 0;
    assert(headers@.take(0) =~= Seq::empty());
    assert(headers@.subrange(0, 0) =~= Seq::empty());
    assert(pieces.push(Seq::empty()) =~= seq![Seq::empty()]);
    while i < n
        invariant
            n == headers@.len(),
            start <= i <= n,
            split_commas(headers@.take(i as int)) == pieces.push(
                headers@.subrange(start as int, i as int),
            ),
            lines@.len() == pieces.len(),
            forall|k: int| 0 <= k < lines@.len() ==> #[trigger] lines@[k]@ == trim_white(pieces[k]),
            no_nul(headers@) ==> forall|k: int| 0 <= k < lines@.len() ==> no_nul(#[trigger] lines@[k]@),
        decreases n - i,
    {
        let c = headers.get_char(i);
        assert(headers@.take(i + 1).drop_last() =~= headers@.take(i as int));
        assert(headers@.take(i + 1).last() == c);
        if c == ',' {
            let piece = headers.substring_char(start, i);
            let line = trim_line(piece);
            lines.push(String::from_str(line));
            proof {
                pieces = pieces.push(headers@.subrange(start as int, i as int));
            }
            start = i + 1;
            assert(headers@.subrange(start as int, i + 1) =~= Seq::empty());
        } else {
            assert(headers@.subrange(start as int, i + 1) =~= headers@.subrange(
                start as int,
                i as int,
            ).push(c));
        }
        i = i + 1;
    }
    let piece = headers.substring_char(start, n);
    let line = trim_line(piece);
    lines.push(String::from_str(line));
    proof {
        assert(headers@.take(n as int) =~= headers@);
        pieces = pieces.push(headers@.subrange(start as int, n as int));
        assert(lines@.map_values(|l: String| l@) =~= header_lines(headers@));
    }
    lines
}

} // verus!
