//! Character-level helpers shared by the parsers and formatters.

use vstd::prelude::*;

verus! {

/// The characters of `s`, in order.
pub fn chars_of(s: &str) -> (out: Vec<char>)
    ensures
        out@ == s@,
{
    let mut out: Vec<char> = Vec::new();
    for c in it: s.chars()
        invariant
            out@ == s@.take(it.index()),
            it.seq() == s@,
    {
        out.push(c);
    }
    out
}

/// `String::push` of the standard library: the string grows by the one character `c`.
#[verifier::external_body]
pub(crate) fn push_char(s: &mut String, c: char)
    ensures
        final(s)@ == old(s)@.push(c),
{
    s.push(c);
}

/// The string made of the characters `cs[from..to]`, in order.
pub fn string_of_range(cs: &Vec<char>, from: usize, to: usize) -> (s: String)
    requires
        from <= to <= cs.len(),
    ensures
        s@ == cs@.subrange(from as int, to as int),
{
    let mut s: String = String::new();
    let mut i: usize = from;
    while i < to
        invariant
            from <= i <= to <= cs.len(),
            s@ == cs@.subrange(from as int, i as int),
        decreases to - i,
    {
        push_char(&mut s, cs[i]);
        proof {
            assert(cs@.subrange(from as int, i + 1) =~= cs@.subrange(from as int, i as int).push(
                cs@[i as int],
            ));
        }
        i = i + 1;
    }
    s
}

/// The string made of the characters `cs`, in order.
pub fn string_of(cs: &Vec<char>) -> (s: String)
    ensures
        s@ == cs@,
{
    proof {
        assert(cs@.subrange(0, cs.len() as int) =~= cs@);
    }
    string_of_range(cs, 0, cs.len())
}

/// Whether the two texts hold the same characters.
pub fn same_text(a: &str, b: &str) -> (same: bool)
    ensures
        same == (a@ == b@),
{
    let x: Vec<char> = chars_of(a);
    let y: Vec<char> = chars_of(b);
    if x.len() != y.len() {
        return false;
    }
    let mut i: usize = 0;
    while i < x.len()
        invariant
            i <= x.len(),
            x.len() == y.len(),
            x@ == a@,
            y@ == b@,
            forall|j: int| 0 <= j < i ==> x@[j] == y@[j],
        decreases x.len() - i,
    {
        if x[i] != y[i] {
            return false;
        }
        i = i + 1;
    }
    proof {
        assert(x@ =~= y@);
    }
    true
}

/// Whether `text` begins with `prefix`.
pub fn has_prefix(text: &str, prefix: &str) -> (begins: bool)
    ensures
        begins == prefix@.is_prefix_of(text@),
{
    let x: Vec<char> = chars_of(text);
    let y: Vec<char> = chars_of(prefix);
    if y.len() > x.len() {
        return false;
    }
    let mut i: usize = 0;
    while i < y.len()
        invariant
            i <= y.len() <= x.len(),
            x@ == text@,
            y@ == prefix@,
            forall|j: int| 0 <= j < i ==> x@[j] == y@[j],
        decreases y.len() - i,
    {
        if x[i] != y[i] {
            proof {
                assert(text@.subrange(0, prefix@.len() as int)[i as int] == x@[i as int]);
            }
            return false;
        }
        i = i + 1;
    }
    proof {
        assert(prefix@ =~= text@.subrange(0, prefix@.len() as int));
    }
    true
}

/// The letter `c` in lower case where it is one of `A` to `Z`; `c` itself otherwise.
pub open spec fn lower_char(c: char) -> char {
    if 'A' <= c && c <= 'Z' {
        ((c as u8) + 32) as char
    } else {
        c
    }
}

/// `s` with each of the letters `A` to `Z` in lower case.
pub open spec fn lowercase(s: Seq<char>) -> Seq<char> {
    Seq::new(s.len(), |i: int| lower_char(s[i]))
}

fn lower_char_of(c: char) -> (l: char)
    ensures
        l == lower_char(c),
{
    if 'A' <= c && c <= 'Z' {
        ((c as u8) + 32) as char
    } else {
        c
    }
}

/// Appends to `out` the text `s` with the letters `A` to `Z` in lower case.
pub fn push_lowercase(out: &mut String, s: &str)
    ensures
        final(out)@ == old(out)@ + lowercase(s@),
{
    let cs: Vec<char> = chars_of(s);
    let mut i: usize = 0;
    proof {
        assert(old(out)@ + lowercase(s@).take(0) =~= old(out)@);
    }
    while i < cs.len()
        invariant
            i <= cs.len(),
            cs@ == s@,
            out@ == old(out)@ + lowercase(s@).take(i as int),
        decreases cs.len() - i,
    {
        push_char(out, lower_char_of(cs[i]));
        proof {
            assert(lowercase(s@).take(i + 1) =~= lowercase(s@).take(i as int).push(
                lower_char(s@[i as int]),
            ));
            assert(out@ =~= old(out)@ + lowercase(s@).take(i + 1));
        }
        i = i + 1;
    }
    proof {
        assert(lowercase(s@).take(cs.len() as int) =~= lowercase(s@));
    }
}

/// `s` with the letters `A` to `Z` in lower case.
pub fn to_lowercase(s: &str) -> (l: String)
    ensures
        l@ == lowercase(s@),
{
    let mut l: String = String::new();
    push_lowercase(&mut l, s);
    proof {
        assert(Seq::<char>::empty() + lowercase(s@) =~= lowercase(s@));
    }
    l
}

/// The character that writes the digit `d`.
pub open spec fn digit_char(d: nat) -> char {
    ((48 + d) as u8) as char
}

/// The digits of `n` in base ten, without leading zeros; `"0"` for zero.
pub open spec fn nat_digits(n: nat) -> Seq<char>
    decreases n,
{
    if n < 10 {
        seq![digit_char(n)]
    } else {
        nat_digits(n / 10).push(digit_char(n % 10))
    }
}

/// The last `width` digits of `n` in base ten, with leading zeros kept.
pub open spec fn padded_digits(n: nat, width: nat) -> Seq<char>
    decreases width,
{
    if width == 0 {
        Seq::empty()
    } else {
        padded_digits(n / 10, (width - 1) as nat).push(digit_char(n % 10))
    }
}

fn digit_char_of(d: u128) -> (c: char)
    requires
        d < 10,
    ensures
        c == digit_char(d as nat),
{
    (48u8 + d as u8) as char
}

/// Appends the digits of `n` to `out`.
pub fn push_nat_digits(out: &mut Vec<char>, n: u128)
    ensures
        final(out)@ == old(out)@ + nat_digits(n as nat),
    decreases n,
{
    if n >= 10 {
        push_nat_digits(out, n / 10);
    }
    out.push(digit_char_of(n % 10));
}

/// Appends the last `width` digits of `n` to `out`, leading zeros kept.
pub fn push_padded_digits(out: &mut Vec<char>, n: u128, width: u32)
    ensures
        final(out)@ == old(out)@ + padded_digits(n as nat, width as nat),
    decreases width,
{
    if width > 0 {
        push_padded_digits(out, n / 10, width - 1);
        out.push(digit_char_of(n % 10));
    }
}

/// The digits of `n` as text.
pub fn number_text(n: u64) -> (s: String)
    ensures
        s@ == nat_digits(n as nat),
{
    let mut out: Vec<char> = Vec::new();
    push_nat_digits(&mut out, n as u128);
    string_of(&out)
}

/// Index of the first `c` in `s`, or `s.len()` where there is none.
pub open spec fn first_index(s: Seq<char>, c: char) -> int
    decreases s.len(),
{
    if s.len() == 0 || s[0] == c {
        0
    } else {
        1 + first_index(s.skip(1), c)
    }
}

/// Where no `c` stands before `i`, and `i` is the end or holds one, the first index is `i`.
pub proof fn lemma_first_index_at(s: Seq<char>, c: char, i: int)
    requires
        0 <= i <= s.len(),
        forall|j: int| 0 <= j < i ==> s[j] != c,
        i < s.len() ==> s[i] == c,
    ensures
        first_index(s, c) == i,
    decreases i,
{
    if i > 0 {
        let rest = s.skip(1);
        assert forall|j: int| 0 <= j < i - 1 implies rest[j] != c by {
            assert(rest[j] == s[j + 1]);
        }
        lemma_first_index_at(rest, c, i - 1);
    }
}

/// The first index lies within the text, and no `c` stands before it.
pub proof fn lemma_first_index_bounds(s: Seq<char>, c: char)
    ensures
        0 <= first_index(s, c) <= s.len(),
        forall|j: int| 0 <= j < first_index(s, c) ==> s[j] != c,
        first_index(s, c) < s.len() ==> s[first_index(s, c)] == c,
    decreases s.len(),
{
    if !(s.len() == 0 || s[0] == c) {
        let rest = s.skip(1);
        lemma_first_index_bounds(rest, c);
        assert forall|j: int| 0 <= j < first_index(s, c) implies s[j] != c by {
            if j > 0 {
                assert(rest[j - 1] == s[j]);
            }
        }
    }
}

/// The pieces of `s` between occurrences of `sep`; one piece, `s` itself,
/// where `sep` does not occur.
pub open spec fn split_on(s: Seq<char>, sep: char) -> Seq<Seq<char>>
    decreases s.len(),
{
    let i = first_index(s, sep);
    if 0 <= i < s.len() {
        seq![s.take(i)] + split_on(s.skip(i + 1), sep)
    } else {
        seq![s]
    }
}

/// Whether `c` is white space, as Unicode defines it.
pub open spec fn is_space(c: char) -> bool {
    ||| '\u{9}' <= c && c <= '\u{d}'
    ||| c == ' '
    ||| c == '\u{85}'
    ||| c == '\u{a0}'
    ||| c == '\u{1680}'
    ||| '\u{2000}' <= c && c <= '\u{200a}'
    ||| c == '\u{2028}'
    ||| c == '\u{2029}'
    ||| c == '\u{202f}'
    ||| c == '\u{205f}'
    ||| c == '\u{3000}'
}

/// `s` without its leading white space.
pub open spec fn trim_start(s: Seq<char>) -> Seq<char>
    decreases s.len(),
{
    if s.len() > 0 && is_space(s[0]) {
        trim_start(s.skip(1))
    } else {
        s
    }
}

/// `s` without its trailing white space.
pub open spec fn trim_end(s: Seq<char>) -> Seq<char>
    decreases s.len(),
{
    if s.len() > 0 && is_space(s.last()) {
        trim_end(s.drop_last())
    } else {
        s
    }
}

/// `s` without leading and trailing white space.
pub open spec fn trim(s: Seq<char>) -> Seq<char> {
    trim_end(trim_start(s))
}

fn is_space_char(c: char) -> (b: bool)
    ensures
        b == is_space(c),
{
    ('\u{9}' <= c && c <= '\u{d}') || c == ' ' || c == '\u{85}' || c == '\u{a0}' || c == '\u{1680}'
        || ('\u{2000}' <= c && c <= '\u{200a}') || c == '\u{2028}' || c == '\u{2029}' || c
        == '\u{202f}' || c == '\u{205f}' || c == '\u{3000}'
}

/// The text `cs[from..to]` without leading and trailing white space.
pub fn trimmed(cs: &Vec<char>, from: usize, to: usize) -> (s: String)
    requires
        from <= to <= cs.len(),
    ensures
        s@ == trim(cs@.subrange(from as int, to as int)),
{
    let ghost whole = cs@.subrange(from as int, to as int);
    let mut a: usize = from;
    while a < to && is_space_char(cs[a])
        invariant
            from <= a <= to <= cs.len(),
            trim_start(whole) == trim_start(cs@.subrange(a as int, to as int)),
        decreases to - a,
    {
        proof {
            let here = cs@.subrange(a as int, to as int);
            assert(here[0] == cs@[a as int]);
            assert(here.skip(1) =~= cs@.subrange(a + 1, to as int));
        }
        a = a + 1;
    }
    let ghost started = cs@.subrange(a as int, to as int);
    proof {
        if a < to {
            assert(started[0] == cs@[a as int]);
        }
        assert(trim_start(whole) == started);
    }
    let mut b: usize = to;
    while b > a && is_space_char(cs[b - 1])
        invariant
            a <= b <= to <= cs.len(),
            trim_end(started) == trim_end(cs@.subrange(a as int, b as int)),
        decreases b - a,
    {
        proof {
            let here = cs@.subrange(a as int, b as int);
            assert(here.last() == cs@[b - 1]);
            assert(here.drop_last() =~= cs@.subrange(a as int, b - 1));
        }
        b = b - 1;
    }
    proof {
        let ended = cs@.subrange(a as int, b as int);
        if b > a {
            assert(ended.last() == cs@[b - 1]);
        }
        assert(trim_end(started) == ended);
    }
    string_of_range(cs, a, b)
}

/// The texts of `parts`, in order.
pub open spec fn texts(parts: Seq<String>) -> Seq<Seq<char>> {
    Seq::new(parts.len(), |i: int| parts[i]@)
}

/// The pieces of `s` between occurrences of `sep`, each without leading and
/// trailing white space.
pub fn split_trimmed(s: &str, sep: char) -> (parts: Vec<String>)
    ensures
        parts.len() == split_on(s@, sep).len(),
        forall|i: int| 0 <= i < parts.len() ==> (#[trigger] parts[i])@ == trim(split_on(s@, sep)[i]),
{
    let cs: Vec<char> = chars_of(s);
    let n: usize = cs.len();
    let mut parts: Vec<String> = Vec::new();
    let mut start: usize = 0;
    let mut i: usize = 0;
    proof {
        assert(cs@.skip(0) =~= cs@);
    }
    while i < n
        invariant
            start <= i <= n,
            n == cs.len(),
            cs@ == s@,
            forall|j: int| start <= j < i ==> cs@[j] != sep,
            split_on(s@, sep).len() == parts.len() + split_on(cs@.skip(start as int), sep).len(),
            forall|k: int| 0 <= k < parts.len() ==> (#[trigger] parts[k])@ == trim(split_on(s@, sep)[k]),
            forall|k: int|
                0 <= k < split_on(cs@.skip(start as int), sep).len() ==> split_on(s@, sep)[parts.len()
                    + k] == #[trigger] split_on(cs@.skip(start as int), sep)[k],
        decreases n - i,
    {
        if cs[i] == sep {
            let ghost rest = cs@.skip(start as int);
            let ghost before = split_on(rest, sep);
            proof {
                assert forall|j: int| 0 <= j < i - start implies rest[j] != sep by {
                    assert(rest[j] == cs@[start + j]);
                }
                assert(rest[i - start] == cs@[i as int]);
                lemma_first_index_at(rest, sep, i - start);
                assert(rest.take(i - start) =~= cs@.subrange(start as int, i as int));
                assert(rest.skip(i - start + 1) =~= cs@.skip(i + 1));
                assert(before == seq![rest.take(i - start)] + split_on(cs@.skip(i + 1), sep));
                assert(before[0] == rest.take(i - start));
            }
            let piece: String = trimmed(&cs, start, i);
            let ghost old_parts = parts@;
            parts.push(piece);
            proof {
                let after = split_on(cs@.skip(i + 1), sep);
                assert forall|k: int| 0 <= k < parts.len() implies (#[trigger] parts[k])@ == trim(
                    split_on(s@, sep)[k],
                ) by {
                    if k < old_parts.len() {
                        assert(parts[k] == old_parts[k]);
                    } else {
                        assert(split_on(s@, sep)[old_parts.len() as int + 0] == before[0]);
                    }
                }
                assert forall|k: int| 0 <= k < after.len() implies split_on(s@, sep)[parts.len() + k]
                    == #[trigger] after[k] by {
                    assert(before[k + 1] == after[k]);
                    assert(split_on(s@, sep)[old_parts.len() as int + (k + 1)] == before[k + 1]);
                }
            }
            start = i + 1;
        }
        i = i + 1;
    }
    let ghost rest = cs@.skip(start as int);
    proof {
        assert forall|j: int| 0 <= j < n - start implies rest[j] != sep by {
            assert(rest[j] == cs@[start + j]);
        }
        lemma_first_index_at(rest, sep, n - start);
        assert(split_on(rest, sep) == seq![rest]);
        assert(rest =~= cs@.subrange(start as int, n as int));
        assert(split_on(s@, sep)[parts.len() + 0] == split_on(rest, sep)[0]);
    }
    let piece: String = trimmed(&cs, start, n);
    let ghost old_parts = parts@;
    parts.push(piece);
    proof {
        assert forall|k: int| 0 <= k < parts.len() implies (#[trigger] parts[k])@ == trim(
            split_on(s@, sep)[k],
        ) by {
            if k < old_parts.len() {
                assert(parts[k] == old_parts[k]);
            }
        }
    }
    parts
}

} // verus!
