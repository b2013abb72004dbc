//! Character-sequence utilities shared by the rest of the crate.
//!
//! Strings are modelled by their view, a `Seq<char>`; the executable
//! functions work on `Vec<char>` and are specified against the spec functions
//! of this module.

use vstd::prelude::*;

verus! {

/// Appends one character to a string.
///
/// Trusted: `String::push` appends exactly the given character.
#[verifier::external_body]
fn push_char(s: &mut String, c: char)
    ensures
        final(s)@ == old(s)@.push(c),
{
    s.push(c)
}

/// The characters of a string, in order.
pub fn chars_of(s: &str) -> (v: Vec<char>)
    ensures
        v@ == s@,
{
    let mut v: Vec<char> = Vec::new();
    for c in it: s.chars()
        invariant
            v@ == it.seq().take(it.index() as int),
            it.seq() == s@,
    {
        v.push(c);
    }
    v
}

/// The string made of the given characters.
pub fn string_of(v: &Vec<char>) -> (s: String)
    ensures
        s@ == v@,
{
    let mut s = String::new();
    let mut i: usize = 0;
    while i < v.len()
        invariant
            i <= v.len(),
            s@ == v@.take(i as int),
        decreases v.len() - i,
    {
        push_char(&mut s, v[i]);
        i = i + 1;
        assert(v@.take(i as int) =~= v@.take(i as int - 1).push(v@[i as int - 1]));
    }
    assert(v@.take(v.len() as int) =~= v@);
    s
}


/// A copy of the characters of `s` from index `from` up to, not including, `to`.
pub fn slice_of(s: &Vec<char>, from: usize, to: usize) -> (v: Vec<char>)
    requires
        from <= to <= s.len(),
    ensures
        v@ == s@.subrange(from as int, to as int),
{
    let mut v: Vec<char> = Vec::new();
    let mut i: usize = from;
    while i < to
        invariant
            from <= i <= to <= s.len(),
            v@ == s@.subrange(from as int, i as int),
        decreases to - i,
    {
        v.push(s[i]);
        i = i + 1;
        assert(s@.subrange(from as int, i as int) =~= s@.subrange(from as int, i as int - 1).push(
            s@[i as int - 1],
        ));
    }
    v
}

/// Appends the characters of `tail` to `v`.
pub fn extend_chars(v: &mut Vec<char>, tail: &Vec<char>)
    ensures
        final(v)@ == old(v)@ + tail@,
{
    let mut i: usize = 0;
    while i < tail.len()
        invariant
            i <= tail.len(),
            v@ == old(v)@ + tail@.take(i as int),
        decreases tail.len() - i,
    {
        v.push(tail[i]);
        i = i + 1;
        assert(tail@.take(i as int) =~= tail@.take(i as int - 1).push(tail@[i as int - 1]));
        assert(v@ =~= old(v)@ + tail@.take(i as int));
    }
    assert(tail@.take(tail.len() as int) =~= tail@);
}

/// `pat` occurs in `s` at index `i`.
pub open spec fn occurs_at(s: Seq<char>, pat: Seq<char>, i: int) -> bool {
    0 <= i && i + pat.len() <= s.len() && s.subrange(i, i + pat.len()) == pat
}

/// `pat` occurs somewhere in `s`.
pub open spec fn contains(s: Seq<char>, pat: Seq<char>) -> bool {
    exists|i: int| occurs_at(s, pat, i)
}

/// `s` begins with `pat`.
pub open spec fn starts_with(s: Seq<char>, pat: Seq<char>) -> bool {
    occurs_at(s, pat, 0)
}

/// `s` ends with `pat`.
pub open spec fn ends_with(s: Seq<char>, pat: Seq<char>) -> bool {
    occurs_at(s, pat, s.len() - pat.len())
}

/// Tests whether `pat` occurs in `s` at index `i`.
pub fn is_at(s: &Vec<char>, pat: &Vec<char>, i: usize) -> (r: bool)
    ensures
        r == occurs_at(s@, pat@, i as int),
{
    if i > s.len() || pat.len() > s.len() - i {
        return false;
    }
    let mut k: usize = 0;
    while k < pat.len()
        invariant
            k <= pat.len(),
            i + pat.len() <= s.len(),
            forall|j: int| 0 <= j < k ==> s@[i + j] == pat@[j],
        decreases pat.len() - k,
    {
        if s[i + k] != pat[k] {
            assert(s@.subrange(i as int, i + pat.len())[k as int] == s@[i + k]);
            return false;
        }
        k = k + 1;
    }
    assert(s@.subrange(i as int, i + pat.len()) =~= pat@);
    true
}

/// Tests whether `s` begins with `pat`.
pub fn has_prefix(s: &Vec<char>, pat: &Vec<char>) -> (r: bool)
    ensures
        r == starts_with(s@, pat@),
{
    is_at(s, pat, 0)
}

/// Tests whether `s` ends with `pat`.
pub fn has_suffix(s: &Vec<char>, pat: &Vec<char>) -> (r: bool)
    ensures
        r == ends_with(s@, pat@),
{
    if pat.len() > s.len() {
        return false;
    }
    is_at(s, pat, s.len() - pat.len())
}

/// The index of the first occurrence of `pat` in `s`, if there is one.
pub fn find(s: &Vec<char>, pat: &Vec<char>) -> (r: Option<usize>)
    ensures
        match r {
            Some(i) => occurs_at(s@, pat@, i as int) && forall|j: int|
                0 <= j < i ==> !occurs_at(s@, pat@, j),
            None => !contains(s@, pat@),
        },
{
    if pat.len() > s.len() {
        return None;
    }
    let last: usize = s.len() - pat.len();
    let mut i: usize = 0;
    while i < last
        invariant
            i <= last,
            last == s.len() - pat.len(),
            forall|j: int| 0 <= j < i ==> !occurs_at(s@, pat@, j),
        decreases last - i,
    {
        if is_at(s, pat, i) {
            return Some(i);
        }
        i = i + 1;
    }
    if is_at(s, pat, i) {
        Some(i)
    } else {
        None
    }
}

/// Tests whether `pat` occurs somewhere in `s`.
pub fn includes(s: &Vec<char>, pat: &Vec<char>) -> (r: bool)
    ensures
        r == contains(s@, pat@),
{
    find(s, pat).is_some()
}

/// `s` with every occurrence of `from` replaced by `to`, scanning from the
/// left and never inside a replacement. An empty `from` occurs nowhere.
pub open spec fn replaced(s: Seq<char>, from: Seq<char>, to: Seq<char>) -> Seq<char>
    decreases s.len(),
{
    if from.len() == 0 || s.len() == 0 {
        s
    } else if occurs_at(s, from, 0) {
        to + replaced(s.skip(from.len() as int), from, to)
    } else {
        seq![s[0]] + replaced(s.skip(1), from, to)
    }
}

/// Replaces every occurrence of `from` in `s` by `to`.
pub fn replace(s: &Vec<char>, from: &Vec<char>, to: &Vec<char>) -> (r: Vec<char>)
    ensures
        r@ == replaced(s@, from@, to@),
{
    if from.len() == 0 {
        return slice_of(s, 0, s.len());
    }
    let mut out: Vec<char> = Vec::new();
    let mut i: usize = 0;
    assert(s@.skip(0) =~= s@);
    assert(out@ + replaced(s@, from@, to@) =~= replaced(s@, from@, to@));
    while i < s.len()
        invariant
            i <= s.len(),
            from.len() > 0,
            out@ + replaced(s@.skip(i as int), from@, to@) == replaced(s@, from@, to@),
        decreases s.len() - i,
    {
        let ghost rest = s@.skip(i as int);
        let ghost before = out@;
        assert(occurs_at(rest, from@, 0) == occurs_at(s@, from@, i as int)) by {
            if i + from.len() <= s.len() {
                assert(rest.subrange(0, from.len() as int) =~= s@.subrange(
                    i as int,
                    i + from.len(),
                ));
            }
        }
        if is_at(s, from, i) {
            extend_chars(&mut out, to);
            i = i + from.len();
            assert(rest.skip(from.len() as int) =~= s@.skip(i as int));
            assert(out@ + replaced(s@.skip(i as int), from@, to@) =~= before + replaced(
                rest,
                from@,
                to@,
            ));
        } else {
            out.push(s[i]);
            i = i + 1;
            assert(rest.skip(1) =~= s@.skip(i as int));
            assert(out@ + replaced(s@.skip(i as int), from@, to@) =~= before + replaced(
                rest,
                from@,
                to@,
            ));
        }
    }
    assert(s@.skip(s.len() as int) =~= Seq::<char>::empty());
    assert(out@ + Seq::<char>::empty() =~= out@);
    out
}


/// White space, as `char::is_whitespace` has it: the characters with the
/// Unicode property `White_Space`.
pub open spec fn is_space(c: char) -> bool {
    let n = c as u32;
    (0x09 <= n && n <= 0x0d) || n == 0x20 || n == 0x85 || n == 0xa0 || n == 0x1680 || (0x2000 <= n
        && n <= 0x200a) || n == 0x2028 || n == 0x2029 || n == 0x202f || n == 0x205f || n == 0x3000
}

/// Tests whether `c` is white space.
pub fn is_space_char(c: char) -> (r: bool)
    ensures
        r == is_space(c),
{
    let n: u32 = c as u32;
    (0x09 <= n && n <= 0x0d) || n == 0x20 || n == 0x85 || n == 0xa0 || n == 0x1680 || (0x2000 <= n
        && n <= 0x200a) || n == 0x2028 || n == 0x2029 || n == 0x202f || n == 0x205f || n == 0x3000
}

/// The number of white-space characters at the start of `s`.
pub open spec fn leading_spaces(s: Seq<char>) -> int
    decreases s.len(),
{
    if s.len() > 0 && is_space(s[0]) {
        1 + leading_spaces(s.skip(1))
    } else {
        0
    }
}

/// The number of white-space characters at the end of `s`.
pub open spec fn trailing_spaces(s: Seq<char>) -> int
    decreases s.len(),
{
    if s.len() > 0 && is_space(s.last()) {
        1 + trailing_spaces(s.drop_last())
    } else {
        0
    }
}

/// `s` without its leading white space.
pub open spec fn trimmed_start(s: Seq<char>) -> Seq<char> {
    s.skip(leading_spaces(s))
}

/// `s` without its trailing white space.
pub open spec fn trimmed_end(s: Seq<char>) -> Seq<char> {
    s.take(s.len() - trailing_spaces(s))
}

/// `s` without its leading and trailing white space.
pub open spec fn trimmed(s: Seq<char>) -> Seq<char> {
    trimmed_end(trimmed_start(s))
}

/// The leading white space of `s` is its longest prefix of white-space
/// characters.
pub proof fn lemma_leading_spaces(s: Seq<char>, n: int)
    requires
        0 <= n <= s.len(),
        forall|k: int| 0 <= k < n ==> is_space(s[k]),
        n == s.len() || !is_space(s[n]),
    ensures
        leading_spaces(s) == n,
    decreases n,
{
    if n > 0 {
        let t = s.skip(1);
        assert forall|k: int| 0 <= k < n - 1 implies is_space(t[k]) by {
            assert(t[k] == s[k + 1]);
        }
        lemma_leading_spaces(t, n - 1);
    }
}

/// The trailing white space of `s` is its longest suffix of white-space
/// characters.
pub proof fn lemma_trailing_spaces(s: Seq<char>, n: int)
    requires
        0 <= n <= s.len(),
        forall|k: int| s.len() - n <= k < s.len() ==> is_space(s[k]),
        n == s.len() || !is_space(s[s.len() - n - 1]),
    ensures
        trailing_spaces(s) == n,
    decreases n,
{
    if n > 0 {
        let t = s.drop_last();
        assert forall|k: int| t.len() - (n - 1) <= k < t.len() implies is_space(t[k]) by {
            assert(t[k] == s[k]);
        }
        lemma_trailing_spaces(t, n - 1);
    }
}

/// The number of white-space characters at the start of `s`.
pub fn count_leading_spaces(s: &Vec<char>) -> (n: usize)
    ensures
        n == leading_spaces(s@),
        n <= s.len(),
{
    let mut n: usize = 0;
    while n < s.len() && is_space_char(s[n])
        invariant
            n <= s.len(),
            forall|k: int| 0 <= k < n ==> is_space(s@[k]),
        decreases s.len() - n,
    {
        n = n + 1;
    }
    proof {
        lemma_leading_spaces(s@, n as int);
    }
    n
}

/// The number of white-space characters at the end of `s`.
pub fn count_trailing_spaces(s: &Vec<char>) -> (n: usize)
    ensures
        n == trailing_spaces(s@),
        n <= s.len(),
{
    let mut n: usize = 0;
    while n < s.len() && is_space_char(s[s.len() - n - 1])
        invariant
            n <= s.len(),
            forall|k: int| s.len() - n <= k < s.len() ==> is_space(s@[k]),
        decreases s.len() - n,
    {
        n = n + 1;
    }
    proof {
        lemma_trailing_spaces(s@, n as int);
    }
    n
}

/// Removes the leading white space of `s`.
pub fn trim_start(s: &Vec<char>) -> (r: Vec<char>)
    ensures
        r@ == trimmed_start(s@),
{
    let n = count_leading_spaces(s);
    let r = slice_of(s, n, s.len());
    assert(s@.subrange(n as int, s.len() as int) =~= s@.skip(n as int));
    r
}

/// Removes the trailing white space of `s`.
pub fn trim_end(s: &Vec<char>) -> (r: Vec<char>)
    ensures
        r@ == trimmed_end(s@),
{
    let n = count_trailing_spaces(s);
    let r = slice_of(s, 0, s.len() - n);
    assert(s@.subrange(0, s.len() - n) =~= s@.take(s.len() - n));
    r
}

/// Removes the leading and trailing white space of `s`.
pub fn trim(s: &Vec<char>) -> (r: Vec<char>)
    ensures
        r@ == trimmed(s@),
{
    let t = trim_start(s);
    trim_end(&t)
}

/// Tests whether `s` holds nothing but white space.
pub fn is_blank(s: &Vec<char>) -> (r: bool)
    ensures
        r == (trimmed(s@).len() == 0),
{
    let t = trim(s);
    t.len() == 0
}

/// The views of a list of character vectors.
pub open spec fn views(v: Seq<Vec<char>>) -> Seq<Seq<char>> {
    v.map_values(|l: Vec<char>| l@)
}

/// The pieces of `s` between the occurrences of `sep`: one more piece than
/// there are separators, so never an empty list.
pub open spec fn split_on(s: Seq<char>, sep: char) -> Seq<Seq<char>>
    decreases s.len(),
{
    if s.len() == 0 {
        seq![Seq::<char>::empty()]
    } else {
        let before = split_on(s.drop_last(), sep);
        if s.last() == sep {
            before.push(Seq::<char>::empty())
        } else {
            before.drop_last().push(before.last().push(s.last()))
        }
    }
}

/// A string without the separator is its own single piece.
pub proof fn lemma_split_single(s: Seq<char>, sep: char)
    requires
        forall|i: int| 0 <= i < s.len() ==> s[i] != sep,
    ensures
        split_on(s, sep) == seq![s],
    decreases s.len(),
{
    if s.len() > 0 {
        lemma_split_single(s.drop_last(), sep);
        let before = split_on(s.drop_last(), sep);
        assert(before.drop_last().push(before.last().push(s.last())) =~= seq![s]) by {
            assert(s.drop_last().push(s.last()) =~= s);
        }
    } else {
        assert(s =~= Seq::<char>::empty());
    }
}

/// Splitting two texts that are joined by the separator gives the pieces of
/// the one, then the pieces of the other.
pub proof fn lemma_split_concat(a: Seq<char>, b: Seq<char>, sep: char)
    ensures
        split_on(a + seq![sep] + b, sep) == split_on(a, sep) + split_on(b, sep),
    decreases b.len(),
{
    let whole = a + seq![sep] + b;
    lemma_split_total_len(a, sep);
    lemma_split_total_len(b, sep);
    if b.len() == 0 {
        assert(whole.drop_last() =~= a);
        assert(split_on(a, sep).push(Seq::<char>::empty()) =~= split_on(a, sep) + split_on(
            b,
            sep,
        ));
    } else {
        let shorter = b.drop_last();
        lemma_split_concat(a, shorter, sep);
        lemma_split_total_len(shorter, sep);
        assert(whole.drop_last() =~= a + seq![sep] + shorter);
        assert(whole.last() == b.last());
        let first = split_on(a, sep);
        let rest = split_on(shorter, sep);
        if b.last() == sep {
            assert((first + rest).push(Seq::<char>::empty()) =~= first + rest.push(
                Seq::<char>::empty(),
            ));
        } else {
            assert((first + rest).drop_last() =~= first + rest.drop_last());
            assert((first + rest).last() == rest.last());
            assert((first + rest.drop_last()).push(rest.last().push(b.last())) =~= first
                + rest.drop_last().push(rest.last().push(b.last())));
        }
    }
}

/// Splits `s` at every occurrence of `sep`.
pub fn split(s: &Vec<char>, sep: char) -> (parts: Vec<Vec<char>>)
    ensures
        views(parts@) == split_on(s@, sep),
        parts.len() >= 1,
{
    let mut parts: Vec<Vec<char>> = Vec::new();
    let mut cur: Vec<char> = Vec::new();
    let mut i: usize = 0;
    assert(s@.take(0) =~= Seq::<char>::empty());
    assert(views(parts@).push(cur@) =~= seq![Seq::<char>::empty()]);
    while i < s.len()
        invariant
            i <= s.len(),
            views(parts@).push(cur@) == split_on(s@.take(i as int), sep),
        decreases s.len() - i,
    {
        let ghost prefix = s@.take(i as int);
        let ghost next = s@.take(i + 1);
        let ghost done = views(parts@);
        let ghost piece = cur@;
        assert(next.drop_last() =~= prefix);
        assert(next.last() == s@[i as int]);
        assert(done.push(piece).drop_last() =~= done);
        if s[i] == sep {
            parts.push(cur);
            cur = Vec::new();
            assert(views(parts@) =~= done.push(piece));
        } else {
            cur.push(s[i]);
            assert(views(parts@).push(cur@) =~= done.push(piece.push(s@[i as int])));
        }
        i = i + 1;
    }
    assert(s@.take(s.len() as int) =~= s@);
    let ghost done = views(parts@);
    parts.push(cur);
    assert(views(parts@) =~= done.push(cur@));
    parts
}

/// `line` without one trailing carriage return.
pub open spec fn without_cr(line: Seq<char>) -> Seq<char> {
    if line.len() > 0 && line.last() == '\r' {
        line.drop_last()
    } else {
        line
    }
}

/// The lines of `s`, as `str::lines` gives them: a line ends at a newline,
/// a carriage return just before that newline belongs to the line ending, and
/// what follows the last newline is a line only if it is not empty.
pub open spec fn lines_of(s: Seq<char>) -> Seq<Seq<char>> {
    let parts = split_on(s, '\n');
    let ended = parts.drop_last().map_values(|l: Seq<char>| without_cr(l));
    if parts.last().len() == 0 {
        ended
    } else {
        ended.push(parts.last())
    }
}

/// The lines of `s`.
pub fn lines(s: &Vec<char>) -> (r: Vec<Vec<char>>)
    ensures
        views(r@) == lines_of(s@),
{
    let parts = split(s, '\n');
    let ghost pieces = split_on(s@, '\n');
    let mut r: Vec<Vec<char>> = Vec::new();
    let last: usize = parts.len() - 1;
    let mut i: usize = 0;
    while i < last
        invariant
            i <= last,
            last == parts.len() - 1,
            views(parts@) == pieces,
            views(r@) == pieces.take(i as int).map_values(|l: Seq<char>| without_cr(l)),
        decreases last - i,
    {
        let part = &parts[i];
        let ghost before = views(r@);
        assert(pieces[i as int] == part@);
        let n: usize = part.len();
        if n > 0 && part[n - 1] == '\r' {
            let line = slice_of(part, 0, n - 1);
            assert(part@.subrange(0, n - 1) =~= part@.drop_last());
            r.push(line);
        } else {
            let line = slice_of(part, 0, n);
            assert(part@.subrange(0, n as int) =~= part@);
            r.push(line);
        }
        i = i + 1;
        assert(views(r@) =~= before.push(without_cr(pieces[i - 1])));
        assert(pieces.take(i as int).map_values(|l: Seq<char>| without_cr(l)) =~= before.push(
            without_cr(pieces[i - 1]),
        ));
    }
    assert(pieces.take(last as int) =~= pieces.drop_last());
    let tail = &parts[last];
    assert(pieces.last() == tail@);
    if tail.len() > 0 {
        let ghost before = views(r@);
        let line = slice_of(tail, 0, tail.len());
        assert(tail@.subrange(0, tail.len() as int) =~= tail@);
        r.push(line);
        assert(views(r@) =~= before.push(tail@));
    }
    r
}

/// The pieces joined, with `sep` between neighbours.
pub open spec fn joined(parts: Seq<Seq<char>>, sep: Seq<char>) -> Seq<char>
    decreases parts.len(),
{
    if parts.len() == 0 {
        Seq::<char>::empty()
    } else if parts.len() == 1 {
        parts[0]
    } else {
        joined(parts.drop_last(), sep) + sep + parts.last()
    }
}

/// Joins the pieces, with `sep` between neighbours.
pub fn join(parts: &Vec<Vec<char>>, sep: &Vec<char>) -> (r: Vec<char>)
    ensures
        r@ == joined(views(parts@), sep@),
{
    let mut r: Vec<char> = Vec::new();
    let mut i: usize = 0;
    let ghost all = views(parts@);
    assert(all.take(0) =~= Seq::<Seq<char>>::empty());
    while i < parts.len()
        invariant
            i <= parts.len(),
            all == views(parts@),
            r@ == joined(all.take(i as int), sep@),
        decreases parts.len() - i,
    {
        let ghost before = all.take(i as int);
        let ghost next = all.take(i + 1);
        assert(next.drop_last() =~= before);
        assert(next.last() == parts@[i as int]@);
        if i > 0 {
            extend_chars(&mut r, sep);
        }
        extend_chars(&mut r, &parts[i]);
        if i == 0 {
            assert(next[0] == parts@[0]@);
            assert(r@ =~= parts@[0]@);
        }
        i = i + 1;
    }
    assert(all.take(parts.len() as int) =~= all);
    r
}

/// The character of a decimal digit.
pub open spec fn digit_char(d: nat) -> char
    recommends
        d < 10,
{
    ((48 + d) as u8) as char
}

/// The decimal notation of `n`, without leading zeros.
pub open spec fn decimal_digits(n: nat) -> Seq<char>
    decreases n,
{
    if n < 10 {
        seq![digit_char(n)]
    } else {
        decimal_digits(n / 10).push(digit_char(n % 10))
    }
}

/// Writes `n` in decimal notation.
pub fn decimal(n: u128) -> (r: Vec<char>)
    ensures
        r@ == decimal_digits(n as nat),
    decreases n,
{
    if n < 10 {
        let d: u8 = 48 + (n as u8);
        let mut r: Vec<char> = Vec::new();
        r.push(d as char);
        assert(r@ =~= seq![digit_char(n as nat)]);
        r
    } else {
        let mut r = decimal(n / 10);
        let d: u8 = 48 + ((n % 10) as u8);
        r.push(d as char);
        r
    }
}


/// `s` without the copies of `pat` that it starts with.
pub open spec fn without_leading(s: Seq<char>, pat: Seq<char>) -> Seq<char>
    decreases s.len(),
{
    if pat.len() > 0 && occurs_at(s, pat, 0) {
        without_leading(s.skip(pat.len() as int), pat)
    } else {
        s
    }
}

/// `s` without the copies of `pat` that it ends with.
pub open spec fn without_trailing(s: Seq<char>, pat: Seq<char>) -> Seq<char>
    decreases s.len(),
{
    if pat.len() > 0 && ends_with(s, pat) {
        without_trailing(s.take(s.len() - pat.len()), pat)
    } else {
        s
    }
}

/// Removes the copies of `pat` that `s` starts with.
pub fn strip_leading(s: &Vec<char>, pat: &Vec<char>) -> (r: Vec<char>)
    ensures
        r@ == without_leading(s@, pat@),
{
    let mut i: usize = 0;
    assert(s@.skip(0) =~= s@);
    if pat.len() > 0 {
        while is_at(s, pat, i)
            invariant
                i <= s.len(),
                pat.len() > 0,
                without_leading(s@.skip(i as int), pat@) == without_leading(s@, pat@),
            decreases s.len() - i,
        {
            let ghost rest = s@.skip(i as int);
            assert(rest.subrange(0, pat.len() as int) =~= s@.subrange(i as int, i + pat.len()));
            assert(rest.skip(pat.len() as int) =~= s@.skip(i + pat.len()));
            i = i + pat.len();
        }
        proof {
            let rest = s@.skip(i as int);
            if i + pat.len() <= s.len() {
                assert(rest.subrange(0, pat.len() as int) =~= s@.subrange(
                    i as int,
                    i + pat.len(),
                ));
            }
        }
    }
    let r = slice_of(s, i, s.len());
    assert(s@.subrange(i as int, s.len() as int) =~= s@.skip(i as int));
    r
}

/// Removes the copies of `pat` that `s` ends with.
pub fn strip_trailing(s: &Vec<char>, pat: &Vec<char>) -> (r: Vec<char>)
    ensures
        r@ == without_trailing(s@, pat@),
{
    let mut end: usize = s.len();
    assert(s@.take(s.len() as int) =~= s@);
    if pat.len() > 0 {
        while end >= pat.len() && is_at(s, pat, end - pat.len())
            invariant
                end <= s.len(),
                pat.len() > 0,
                without_trailing(s@.take(end as int), pat@) == without_trailing(s@, pat@),
            decreases end,
        {
            let ghost head = s@.take(end as int);
            assert(head.subrange(end - pat.len(), end as int) =~= s@.subrange(
                end - pat.len(),
                end as int,
            ));
            assert(head.take(end - pat.len()) =~= s@.take(end - pat.len()));
            end = end - pat.len();
        }
        proof {
            let head = s@.take(end as int);
            if end >= pat.len() {
                assert(head.subrange(end - pat.len(), end as int) =~= s@.subrange(
                    end - pat.len(),
                    end as int,
                ));
            }
        }
    }
    let r = slice_of(s, 0, end);
    assert(s@.subrange(0, end as int) =~= s@.take(end as int));
    r
}

/// Tests whether the string `pat` occurs in the string `s`.
pub fn str_contains(s: &str, pat: &str) -> (r: bool)
    ensures
        r == contains(s@, pat@),
{
    let chars = chars_of(s);
    let pattern = chars_of(pat);
    includes(&chars, &pattern)
}

/// Replaces every occurrence of `from` in `s` by `to`.
pub fn str_replace(s: &str, from: &str, to: &str) -> (r: String)
    ensures
        r@ == replaced(s@, from@, to@),
{
    let chars = chars_of(s);
    let pattern = chars_of(from);
    let with = chars_of(to);
    let out = replace(&chars, &pattern, &with);
    string_of(&out)
}

/// Removes the leading and trailing white space of `s`.
pub fn str_trim(s: &str) -> (r: String)
    ensures
        r@ == trimmed(s@),
{
    let chars = chars_of(s);
    let out = trim(&chars);
    string_of(&out)
}


/// Appends the characters of the string `tail` to `v`.
pub fn extend_str(v: &mut Vec<char>, tail: &str)
    ensures
        final(v)@ == old(v)@ + tail@,
{
    let chars = chars_of(tail);
    extend_chars(v, &chars);
}

/// Tests whether two strings hold the same characters.
pub fn str_eq(a: &str, b: &str) -> (r: bool)
    ensures
        r == (a@ == b@),
{
    let x = chars_of(a);
    let y = chars_of(b);
    if x.len() != y.len() {
        return false;
    }
    let same = is_at(&x, &y, 0);
    proof {
        assert(x@.subrange(0, y@.len() as int) =~= x@);
    }
    same
}


/// The number of occurrences of the character `c` in `s`.
pub open spec fn count_of(s: Seq<char>, c: char) -> nat
    decreases s.len(),
{
    if s.len() == 0 {
        0
    } else {
        count_of(s.drop_last(), c) + if s.last() == c {
            1nat
        } else {
            0nat
        }
    }
}

/// A character occurs in a text at most as often as the text is long.
pub proof fn lemma_count_bounded(s: Seq<char>, c: char)
    ensures
        count_of(s, c) <= s.len(),
    decreases s.len(),
{
    if s.len() > 0 {
        lemma_count_bounded(s.drop_last(), c);
    }
}

/// Counts the occurrences of the character `c` in `s`.
pub fn count_char(s: &Vec<char>, c: char) -> (n: usize)
    ensures
        n == count_of(s@, c),
{
    let mut n: usize = 0;
    let mut i: usize = 0;
    assert(s@.take(0) =~= Seq::<char>::empty());
    while i < s.len()
        invariant
            i <= s.len(),
            n == count_of(s@.take(i as int), c),
            n <= i,
        decreases s.len() - i,
    {
        assert(s@.take(i + 1).drop_last() =~= s@.take(i as int));
        if s[i] == c {
            n = n + 1;
        }
        i = i + 1;
    }
    assert(s@.take(s.len() as int) =~= s@);
    n
}

/// Tests whether two texts hold the same characters.
pub fn same_chars(a: &Vec<char>, b: &Vec<char>) -> (r: bool)
    ensures
        r == (a@ == b@),
{
    if a.len() != b.len() {
        return false;
    }
    let same = is_at(a, b, 0);
    proof {
        assert(a@.subrange(0, b@.len() as int) =~= a@);
    }
    same
}

/// The lengths of the lines, added up.
pub open spec fn total_len(lines: Seq<Seq<char>>) -> nat
    decreases lines.len(),
{
    if lines.len() == 0 {
        0
    } else {
        total_len(lines.drop_last()) + lines.last().len()
    }
}

/// The first lines of a list are together no longer than all of them.
pub proof fn lemma_total_len_take(lines: Seq<Seq<char>>, n: int)
    requires
        0 <= n <= lines.len(),
    ensures
        total_len(lines.take(n)) <= total_len(lines),
    decreases lines.len(),
{
    if n == lines.len() {
        assert(lines.take(n) =~= lines);
    } else {
        lemma_total_len_take(lines.drop_last(), n);
        assert(lines.drop_last().take(n) =~= lines.take(n));
    }
}

/// The pieces of a split are together no longer than the text.
pub proof fn lemma_split_total_len(s: Seq<char>, sep: char)
    ensures
        total_len(split_on(s, sep)) <= s.len(),
        split_on(s, sep).len() >= 1,
    decreases s.len(),
{
    if s.len() > 0 {
        lemma_split_total_len(s.drop_last(), sep);
        let before = split_on(s.drop_last(), sep);
        if s.last() == sep {
            assert(before.push(Seq::<char>::empty()).drop_last() =~= before);
        } else {
            let grown = before.drop_last().push(before.last().push(s.last()));
            assert(grown.drop_last() =~= before.drop_last());
        }
    } else {
        let one = seq![Seq::<char>::empty()];
        assert(one.drop_last() =~= Seq::<Seq<char>>::empty());
        assert(total_len(one.drop_last()) == 0);
    }
}

/// Taking carriage returns off the ends of lines makes them no longer.
pub proof fn lemma_without_cr_total_len(lines: Seq<Seq<char>>)
    ensures
        total_len(lines.map_values(|l: Seq<char>| without_cr(l))) <= total_len(lines),
    decreases lines.len(),
{
    if lines.len() > 0 {
        lemma_without_cr_total_len(lines.drop_last());
        let mapped = lines.map_values(|l: Seq<char>| without_cr(l));
        assert(mapped.drop_last() =~= lines.drop_last().map_values(|l: Seq<char>| without_cr(l)));
        assert(mapped.last() == without_cr(lines.last()));
    }
}

/// The lines of a text are together no longer than the text.
pub proof fn lemma_lines_total_len(s: Seq<char>)
    ensures
        total_len(lines_of(s)) <= s.len(),
{
    lemma_split_total_len(s, '\n');
    let parts = split_on(s, '\n');
    lemma_without_cr_total_len(parts.drop_last());
    let ended = parts.drop_last().map_values(|l: Seq<char>| without_cr(l));
    if parts.last().len() > 0 {
        assert(ended.push(parts.last()).drop_last() =~= ended);
    }
}


/// The index of the first occurrence of `pat` in `s`, if there is one.
pub open spec fn index_of(s: Seq<char>, pat: Seq<char>) -> Option<int>
    decreases s.len(),
{
    if occurs_at(s, pat, 0) {
        Some(0)
    } else if s.len() == 0 {
        None
    } else {
        match index_of(s.skip(1), pat) {
            Some(i) => Some(i + 1),
            None => None,
        }
    }
}

/// The first occurrence is an occurrence before which there is none.
pub proof fn lemma_index_of_first(s: Seq<char>, pat: Seq<char>, i: int)
    requires
        occurs_at(s, pat, i),
        forall|j: int| 0 <= j < i ==> !occurs_at(s, pat, j),
    ensures
        index_of(s, pat) == Some(i),
    decreases i,
{
    if i > 0 {
        let t = s.skip(1);
        assert(occurs_at(t, pat, i - 1)) by {
            assert(t.subrange(i - 1, i - 1 + pat.len()) =~= s.subrange(i, i + pat.len()));
        }
        assert forall|j: int| 0 <= j < i - 1 implies !occurs_at(t, pat, j) by {
            assert(!occurs_at(s, pat, j + 1));
            if j + pat.len() <= t.len() {
                assert(t.subrange(j, j + pat.len()) =~= s.subrange(j + 1, j + 1 + pat.len()));
            }
        }
        lemma_index_of_first(t, pat, i - 1);
    }
}

/// Where the pattern does not occur there is no first occurrence.
pub proof fn lemma_index_of_none(s: Seq<char>, pat: Seq<char>)
    requires
        !contains(s, pat),
    ensures
        index_of(s, pat) is None,
    decreases s.len(),
{
    if s.len() > 0 {
        let t = s.skip(1);
        assert forall|j: int| !occurs_at(t, pat, j) by {
            if occurs_at(t, pat, j) {
                assert(t.subrange(j, j + pat.len()) =~= s.subrange(j + 1, j + 1 + pat.len()));
                assert(occurs_at(s, pat, j + 1));
            }
        }
        lemma_index_of_none(t, pat);
    }
}

/// The index of the first occurrence of `pat` in `s`.
pub fn find_first(s: &Vec<char>, pat: &Vec<char>) -> (r: Option<usize>)
    ensures
        match r {
            Some(i) => index_of(s@, pat@) == Some(i as int) && i + pat@.len() <= s@.len(),
            None => index_of(s@, pat@) is None,
        },
{
    let r = find(s, pat);
    proof {
        match r {
            Some(i) => {
                lemma_index_of_first(s@, pat@, i as int);
            },
            None => {
                lemma_index_of_none(s@, pat@);
            },
        }
    }
    r
}

/// What stands in `s` before the first occurrence of `pat`: all of `s`
/// where `pat` does not occur.
pub open spec fn before_first(s: Seq<char>, pat: Seq<char>) -> Seq<char> {
    match index_of(s, pat) {
        Some(i) => s.take(i),
        None => s,
    }
}

/// What stands in `s` after the first occurrence of `pat`.
pub open spec fn after_first(s: Seq<char>, pat: Seq<char>) -> Option<Seq<char>> {
    match index_of(s, pat) {
        Some(i) => Some(s.skip(i + pat.len())),
        None => None,
    }
}

/// What stands in `s` before the first occurrence of `pat`.
pub fn take_before(s: &Vec<char>, pat: &Vec<char>) -> (r: Vec<char>)
    ensures
        r@ == before_first(s@, pat@),
{
    match find_first(s, pat) {
        Some(i) => {
            let r = slice_of(s, 0, i);
            assert(s@.subrange(0, i as int) =~= s@.take(i as int));
            r
        },
        None => {
            let r = slice_of(s, 0, s.len());
            assert(s@.subrange(0, s.len() as int) =~= s@);
            r
        },
    }
}

/// What stands in `s` after the first occurrence of `pat`.
pub fn take_after(s: &Vec<char>, pat: &Vec<char>) -> (r: Option<Vec<char>>)
    ensures
        match r {
            Some(rest) => after_first(s@, pat@) == Some(rest@),
            None => after_first(s@, pat@) is None,
        },
{
    match find_first(s, pat) {
        Some(i) => {
            let length: usize = s.len();
            let r = slice_of(s, i + pat.len(), length);
            assert(s@.subrange(i + pat.len(), s.len() as int) =~= s@.skip(i + pat.len()));
            Some(r)
        },
        None => None,
    }
}

} // verus!
