//! Character sequences: the operations on text that the rest of the
//! library is stated over.

use vstd::prelude::*;
use vstd::string::*;

verus! {

/// `String::push` appends one character.
pub assume_specification[ String::push ](s: &mut String, c: char)
    ensures
        final(s)@ == old(s)@.push(c),
;

/// The characters of `s`, in order.
pub fn chars_of(s: &str) -> (v: Vec<char>)
    ensures
        v@ == s@,
{
    let n: usize = s.unicode_len();
    let mut v: Vec<char> = Vec::new();
    let mut i: usize = 0;
    while i < n
        invariant
            n == s@.len(),
            i <= n,
            v@ == s@.take(i as int),
        decreases n - i,
    {
        v.push(s.get_char(i));
        i += 1;
    }
    v
}

/// The string made of the characters of `v`, in order.
pub fn string_of(v: &Vec<char>) -> (s: String)
    ensures
        s@ == v@,
{
    let mut s = String::new();
    let mut i: usize = 0;
    while i < v.len()
        invariant
            i <= v.len(),
            s@ == v@.take(i as int),
        decreases v.len() - i,
    {
        s.push(v[i]);
        i += 1;
    }
    s
}

/// The character sequences that a list of character vectors holds.
pub open spec fn views(parts: Seq<Vec<char>>) -> Seq<Seq<char>> {
    Seq::new(parts.len(), |i: int| parts[i]@)
}

/// The character sequences that a list of strings holds.
pub open spec fn string_views(items: Seq<String>) -> Seq<Seq<char>> {
    Seq::new(items.len(), |i: int| items[i]@)
}

/// `pat` stands in `s` at position `i`.
pub open spec fn matches_at(s: Seq<char>, pat: Seq<char>, i: int) -> bool {
    0 <= i && i + pat.len() <= s.len() && s.subrange(i, i + pat.len()) == pat
}

/// `s` begins with `pat`.
pub open spec fn starts_with(s: Seq<char>, pat: Seq<char>) -> bool {
    matches_at(s, pat, 0)
}

/// `s` ends with `pat`.
pub open spec fn ends_with(s: Seq<char>, pat: Seq<char>) -> bool {
    matches_at(s, pat, s.len() - pat.len())
}

/// The first position at or after `from` at which `pat` stands in `s`.
pub open spec fn find_from(s: Seq<char>, pat: Seq<char>, from: int) -> Option<int>
    decreases s.len() + 1 - from,
{
    if from < 0 || from + pat.len() > s.len() {
        None
    } else if matches_at(s, pat, from) {
        Some(from)
    } else {
        find_from(s, pat, from + 1)
    }
}

/// `pat` occurs somewhere in `s`.
pub open spec fn contains(s: Seq<char>, pat: Seq<char>) -> bool {
    find_from(s, pat, 0) is Some
}

/// What `find_from` finds is the first match at or after `from`.
pub proof fn lemma_find_from(s: Seq<char>, pat: Seq<char>, from: int)
    requires
        0 <= from,
    ensures
        match find_from(s, pat, from) {
            Some(i) => from <= i && matches_at(s, pat, i) && forall|j: int|
                from <= j < i ==> !matches_at(s, pat, j),
            None => forall|j: int| from <= j ==> !matches_at(s, pat, j),
        },
    decreases s.len() + 1 - from,
{
    if from + pat.len() > s.len() {
    } else if matches_at(s, pat, from) {
    } else {
        lemma_find_from(s, pat, from + 1);
    }
}

/// The first match at or after `from` is what `find_from` finds.
pub proof fn lemma_find_from_is(s: Seq<char>, pat: Seq<char>, from: int, i: int)
    requires
        0 <= from <= i,
        matches_at(s, pat, i),
        forall|j: int| from <= j < i ==> !matches_at(s, pat, j),
    ensures
        find_from(s, pat, from) == Some(i),
    decreases i - from,
{
    if from < i {
        lemma_find_from_is(s, pat, from + 1, i);
    }
}

/// The pieces of `s` from `from` on, cut at each match of a non-empty `pat`,
/// matches taken from the left and not overlapping.
pub open spec fn split_from(s: Seq<char>, pat: Seq<char>, from: int) -> Seq<Seq<char>>
    decreases s.len() - from,
{
    match find_from(s, pat, from) {
        Some(i) => if from <= i && i + pat.len() <= s.len() && pat.len() > 0 {
            seq![s.subrange(from, i)] + split_from(s, pat, i + pat.len())
        } else {
            seq![s.subrange(from, s.len() as int)]
        },
        None => seq![s.subrange(from, s.len() as int)],
    }
}

/// A match at `i`, the first at or after `from`, ends the first piece.
pub proof fn lemma_split_from_step(s: Seq<char>, pat: Seq<char>, from: int, i: int)
    requires
        0 <= from <= i,
        pat.len() > 0,
        matches_at(s, pat, i),
        forall|j: int| from <= j < i ==> !matches_at(s, pat, j),
    ensures
        split_from(s, pat, from) == seq![s.subrange(from, i)] + split_from(
            s,
            pat,
            i + pat.len(),
        ),
{
    lemma_find_from_is(s, pat, from, i);
}

/// `pat`, a single character that `s` does not hold between `from` and `i`,
/// does not match there.
pub proof fn lemma_no_match_without_char(s: Seq<char>, c: char, from: int, i: int)
    requires
        0 <= from <= i <= s.len(),
        forall|j: int| from <= j < i ==> s[j] != c,
    ensures
        forall|j: int| from <= j < i ==> !matches_at(s, seq![c], j),
{
    assert forall|j: int| from <= j < i implies !matches_at(s, seq![c], j) by {
        if matches_at(s, seq![c], j) {
            assert(s.subrange(j, j + 1)[0] == seq![c][0]);
        }
    }
}

/// Removing a character that `s` does not hold leaves `s` as it is.
pub proof fn lemma_without_absent(s: Seq<char>, c: char)
    requires
        forall|j: int| 0 <= j < s.len() ==> s[j] != c,
    ensures
        without(s, c) == s,
    decreases s.len(),
{
    if s.len() > 0 {
        lemma_without_absent(s.drop_last(), c);
        assert(s.drop_last().push(s.last()) =~= s);
    }
}

/// The pieces of `s` between the matches of `pat`. With an empty `pat` every
/// character is a piece of its own, between two empty pieces.
pub open spec fn split(s: Seq<char>, pat: Seq<char>) -> Seq<Seq<char>> {
    if pat.len() == 0 {
        seq![Seq::<char>::empty()] + Seq::new(s.len(), |i: int| seq![s[i]]) + seq![
            Seq::<char>::empty(),
        ]
    } else {
        split_from(s, pat, 0)
    }
}

/// A split has at least one piece.
pub proof fn lemma_split_nonempty(s: Seq<char>, pat: Seq<char>)
    ensures
        split(s, pat).len() >= 1,
{
}

/// `s` from `from` on, with each match of a non-empty `pat` replaced by `with`.
pub open spec fn replace_from(s: Seq<char>, pat: Seq<char>, with: Seq<char>, from: int) -> Seq<
    char,
>
    decreases s.len() - from,
{
    match find_from(s, pat, from) {
        Some(i) => if from <= i && i + pat.len() <= s.len() && pat.len() > 0 {
            s.subrange(from, i) + with + replace_from(s, pat, with, i + pat.len())
        } else {
            s.subrange(from, s.len() as int)
        },
        None => s.subrange(from, s.len() as int),
    }
}

/// Each character of `s` followed by `with`.
pub open spec fn weave(s: Seq<char>, with: Seq<char>) -> Seq<char>
    decreases s.len(),
{
    if s.len() == 0 {
        s
    } else {
        weave(s.drop_last(), with) + seq![s.last()] + with
    }
}

/// `s` with each match of `pat` replaced by `with`, matches taken from the
/// left and not overlapping. An empty `pat` matches before each character and
/// at the end.
pub open spec fn replace(s: Seq<char>, pat: Seq<char>, with: Seq<char>) -> Seq<char> {
    if pat.len() == 0 {
        with + weave(s, with)
    } else {
        replace_from(s, pat, with, 0)
    }
}

/// `s` without the characters equal to `c`.
pub open spec fn without(s: Seq<char>, c: char) -> Seq<char>
    decreases s.len(),
{
    if s.len() == 0 {
        s
    } else if s.last() == c {
        without(s.drop_last(), c)
    } else {
        without(s.drop_last(), c).push(s.last())
    }
}

/// Whether `pat` stands in `s` at position `i`.
pub fn has_at(s: &Vec<char>, pat: &Vec<char>, i: usize) -> (b: bool)
    ensures
        b == matches_at(s@, pat@, i as int),
{
    if pat.len() > s.len() || i > s.len() - pat.len() {
        return false;
    }
    let mut k: usize = 0;
    while k < pat.len()
        invariant
            k <= pat.len(),
            i + pat.len() <= s.len(),
            forall|j: int| 0 <= j < k ==> s@[i + j] == pat@[j],
        decreases pat.len() - k,
    {
        if s[i + k] != pat[k] {
            assert(s@.subrange(i as int, i + pat.len())[k as int] != pat@[k as int]);
            return false;
        }
        k += 1;
    }
    assert(s@.subrange(i as int, i + pat.len()) =~= pat@);
    true
}

/// The first position at or after `from` at which `pat` stands in `s`.
pub fn find_in(s: &Vec<char>, pat: &Vec<char>, from: usize) -> (r: Option<usize>)
    ensures
        match r {
            Some(i) => find_from(s@, pat@, from as int) == Some(i as int),
            None => find_from(s@, pat@, from as int) is None,
        },
{
    if pat.len() > s.len() {
        return None;
    }
    let last: usize = s.len() - pat.len();
    let mut i: usize = from;
    while i <= last
        invariant
            from <= i,
            last == s.len() - pat.len(),
            find_from(s@, pat@, i as int) == find_from(s@, pat@, from as int),
        decreases last + 1 - i,
    {
        if has_at(s, pat, i) {
            return Some(i);
        }
        if i == last {
            assert(find_from(s@, pat@, i + 1) is None);
            return None;
        }
        i += 1;
    }
    None
}

/// Whether `pat` occurs in `s`.
pub fn contains_in(s: &Vec<char>, pat: &Vec<char>) -> (b: bool)
    ensures
        b == contains(s@, pat@),
{
    find_in(s, pat, 0).is_some()
}

/// Appends the characters of `s` from `from` up to `to` to `out`.
pub fn push_range(out: &mut Vec<char>, s: &Vec<char>, from: usize, to: usize)
    requires
        from <= to <= s.len(),
    ensures
        final(out)@ == old(out)@ + s@.subrange(from as int, to as int),
{
    let mut i: usize = from;
    while i < to
        invariant
            from <= i <= to <= s.len(),
            out@ == old(out)@ + s@.subrange(from as int, i as int),
        decreases to - i,
    {
        out.push(s[i]);
        assert(s@.subrange(from as int, i + 1) == s@.subrange(from as int, i as int).push(
            s@[i as int],
        ));
        i += 1;
    }
}

/// The characters of `s` from `from` up to `to`.
pub fn slice_of(s: &Vec<char>, from: usize, to: usize) -> (r: Vec<char>)
    requires
        from <= to <= s.len(),
    ensures
        r@ == s@.subrange(from as int, to as int),
{
    let mut r: Vec<char> = Vec::new();
    push_range(&mut r, s, from, to);
    r
}

/// The pieces of `s` between the matches of `pat`.
pub fn split_by(s: &Vec<char>, pat: &Vec<char>) -> (parts: Vec<Vec<char>>)
    ensures
        views(parts@) == split(s@, pat@),
{
    let mut parts: Vec<Vec<char>> = Vec::new();
    if pat.len() == 0 {
        parts.push(Vec::new());
        let mut k: usize = 0;
        while k < s.len()
            invariant
                k <= s.len(),
                views(parts@) == seq![Seq::<char>::empty()] + Seq::new(
                    k as nat,
                    |i: int| seq![s@[i]],
                ),
            decreases s.len() - k,
        {
            let ghost before = views(parts@);
            let mut one: Vec<char> = Vec::new();
            one.push(s[k]);
            assert(one@ =~= seq![s@[k as int]]);
            parts.push(one);
            assert(views(parts@) =~= before.push(seq![s@[k as int]]));
            k += 1;
            assert(views(parts@) =~~= seq![Seq::<char>::empty()] + Seq::new(
                k as nat,
                |i: int| seq![s@[i]],
            ));
        }
        parts.push(Vec::new());
        assert(views(parts@) =~~= split(s@, pat@));
        return parts;
    }
    let mut pos: usize = 0;
    assert(views(parts@) + split_from(s@, pat@, 0) =~= split_from(s@, pat@, 0));
    loop
        invariant
            pos <= s.len(),
            pat.len() > 0,
            views(parts@) + split_from(s@, pat@, pos as int) == split_from(s@, pat@, 0),
        decreases s.len() - pos,
    {
        let ghost before = views(parts@);
        proof {
            lemma_find_from(s@, pat@, pos as int);
        }
        match find_in(s, pat, pos) {
            Some(i) => {
                parts.push(slice_of(s, pos, i));
                assert(views(parts@) =~= before + seq![s@.subrange(pos as int, i as int)]);
                pos = i + pat.len();
            },
            None => {
                parts.push(slice_of(s, pos, s.len()));
                assert(views(parts@) =~= before + seq![
                    s@.subrange(pos as int, s@.len() as int),
                ]);
                return parts;
            },
        }
    }
}

/// `s` with each match of `pat` replaced by `with`.
pub fn replace_in(s: &Vec<char>, pat: &Vec<char>, with: &Vec<char>) -> (r: Vec<char>)
    ensures
        r@ == replace(s@, pat@, with@),
{
    let mut out: Vec<char> = Vec::new();
    if pat.len() == 0 {
        push_range(&mut out, with, 0, with.len());
        let mut k: usize = 0;
        assert(s@.take(0) =~= Seq::<char>::empty());
        while k < s.len()
            invariant
                k <= s.len(),
                out@ == with@ + weave(s@.take(k as int), with@),
            decreases s.len() - k,
        {
            out.push(s[k]);
            push_range(&mut out, with, 0, with.len());
            assert(s@.take(k + 1).drop_last() =~= s@.take(k as int));
            assert(with@.subrange(0, with@.len() as int) =~= with@);
            k += 1;
        }
        assert(s@.take(s@.len() as int) =~= s@);
        assert(with@.subrange(0, with@.len() as int) =~= with@);
        return out;
    }
    let mut pos: usize = 0;
    loop
        invariant
            pos <= s.len(),
            pat.len() > 0,
            out@ + replace_from(s@, pat@, with@, pos as int) == replace_from(s@, pat@, with@, 0),
        decreases s.len() - pos,
    {
        let ghost before = out@;
        proof {
            lemma_find_from(s@, pat@, pos as int);
        }
        match find_in(s, pat, pos) {
            Some(i) => {
                push_range(&mut out, s, pos, i);
                push_range(&mut out, with, 0, with.len());
                assert(with@.subrange(0, with@.len() as int) =~= with@);
                assert(out@ =~= before + (s@.subrange(pos as int, i as int) + with@));
                assert(before + (s@.subrange(pos as int, i as int) + with@ + replace_from(
                    s@,
                    pat@,
                    with@,
                    i + pat@.len(),
                )) =~= out@ + replace_from(s@, pat@, with@, i + pat@.len()));
                pos = i + pat.len();
            },
            None => {
                push_range(&mut out, s, pos, s.len());
                return out;
            },
        }
    }
}

/// `s` without the characters equal to `c`.
pub fn remove_char(s: &Vec<char>, c: char) -> (r: Vec<char>)
    ensures
        r@ == without(s@, c),
{
    let mut r: Vec<char> = Vec::new();
    let mut i: usize = 0;
    assert(s@.take(0) =~= Seq::<char>::empty());
    while i < s.len()
        invariant
            i <= s.len(),
            r@ == without(s@.take(i as int), c),
        decreases s.len() - i,
    {
        assert(s@.take(i + 1).drop_last() =~= s@.take(i as int));
        if s[i] != c {
            r.push(s[i]);
        }
        i += 1;
    }
    assert(s@.take(s@.len() as int) =~= s@);
    r
}

/// Whether `a` and `b` hold the same characters.
pub fn equal(a: &Vec<char>, b: &Vec<char>) -> (r: bool)
    ensures
        r == (a@ == b@),
{
    if a.len() != b.len() {
        return false;
    }
    let r = has_at(a, b, 0);
    assert(a@.subrange(0, a@.len() as int) =~= a@);
    r
}

/// Whether `s` begins with `pat`.
pub fn starts_with_in(s: &Vec<char>, pat: &Vec<char>) -> (r: bool)
    ensures
        r == starts_with(s@, pat@),
{
    has_at(s, pat, 0)
}

/// What `char::is_numeric` returns for `c`.
pub uninterp spec fn unicode_numeric(c: char) -> bool;

/// `c` is a decimal digit of ASCII.
pub open spec fn is_digit(c: char) -> bool {
    '0' <= c <= '9'
}

/// `c` counts as a numeral: a decimal digit, or any other character that
/// Unicode classes as a number.
pub open spec fn numeric(c: char) -> bool {
    is_digit(c) || unicode_numeric(c)
}

/// `char::is_numeric`. Trusted: its result is the same for the same
/// character, and it is `true` for the ten decimal digits.
#[verifier::external_body]
fn char_is_numeric(c: char) -> (r: bool)
    ensures
        r == unicode_numeric(c),
        is_digit(c) ==> r,
{
    c.is_numeric()
}

/// Whether `c` counts as a numeral.
pub fn is_numeric(c: char) -> (r: bool)
    ensures
        r == numeric(c),
{
    char_is_numeric(c)
}

/// Every character of `s` is a decimal digit.
pub open spec fn all_digits(s: Seq<char>) -> bool {
    forall|i: int| 0 <= i < s.len() ==> is_digit(#[trigger] s[i])
}

/// The number that the decimal digits `s` write.
pub open spec fn digits_value(s: Seq<char>) -> nat
    decreases s.len(),
{
    if s.len() == 0 {
        0
    } else {
        (digits_value(s.drop_last()) * 10 + (s.last() as nat - '0' as nat)) as nat
    }
}

/// The integer that `s` writes in decimal: digits, at least one, after an
/// optional sign.
pub open spec fn signed_value(s: Seq<char>) -> Option<int> {
    if s.len() == 0 {
        None
    } else if s[0] == '-' || s[0] == '+' {
        let d = s.skip(1);
        if d.len() > 0 && all_digits(d) {
            Some(
                if s[0] == '-' {
                    -(digits_value(d) as int)
                } else {
                    digits_value(d) as int
                },
            )
        } else {
            None
        }
    } else if all_digits(s) {
        Some(digits_value(s) as int)
    } else {
        None
    }
}

/// The `i32` that `s` writes, if it writes one.
pub open spec fn parsed_i32(s: Seq<char>) -> Option<i32> {
    match signed_value(s) {
        Some(v) => if -0x8000_0000 <= v <= 0x7fff_ffff {
            Some(v as i32)
        } else {
            None
        },
        None => None,
    }
}

/// The `u32` that `s` writes, if it writes one. A minus sign is not accepted,
/// not even before zero.
pub open spec fn parsed_u32(s: Seq<char>) -> Option<u32> {
    if s.len() > 0 && s[0] == '-' {
        None
    } else {
        match signed_value(s) {
            Some(v) => if 0 <= v <= 0xffff_ffff {
                Some(v as u32)
            } else {
                None
            },
            None => None,
        }
    }
}

/// Among digits, a longer numeral is worth no less than its beginning.
pub proof fn lemma_digits_value_grows(s: Seq<char>, k: int)
    requires
        0 <= k <= s.len(),
        all_digits(s),
    ensures
        digits_value(s.take(k)) <= digits_value(s),
    decreases s.len(),
{
    if k < s.len() {
        assert(s.drop_last().take(k) =~= s.take(k));
        assert(is_digit(s[s.len() - 1]));
        lemma_digits_value_grows(s.drop_last(), k);
    } else {
        assert(s.take(k) =~= s);
    }
}

/// The value of the digits of `s` from `from` on, where they are digits, at
/// least one, and the value is at most `limit`.
fn parse_digits(s: &Vec<char>, from: usize, limit: u64) -> (r: Option<u64>)
    requires
        from <= s.len(),
        limit <= 0xffff_ffff,
    ensures
        r == (if from < s.len() && all_digits(s@.skip(from as int)) && digits_value(
            s@.skip(from as int),
        ) <= limit {
            Some(digits_value(s@.skip(from as int)) as u64)
        } else {
            None
        }),
{
    let ghost d = s@.skip(from as int);
    if from == s.len() {
        return None;
    }
    let mut m: u64 = 0;
    let mut i: usize = from;
    assert(d.take(0) =~= Seq::<char>::empty());
    while i < s.len()
        invariant
            from <= i <= s.len(),
            d == s@.skip(from as int),
            limit <= 0xffff_ffff,
            all_digits(d.take(i - from)),
            m == digits_value(d.take(i - from)),
            m <= limit,
        decreases s.len() - i,
    {
        let c: char = s[i];
        assert(d[i - from] == c);
        if c < '0' || c > '9' {
            assert(!is_digit(d[i - from]));
            return None;
        }
        let digit: u64 = (c as u64) - ('0' as u64);
        assert(d.take(i - from + 1).drop_last() =~= d.take(i - from));
        assert(d.take(i - from + 1).last() == c);
        assert(all_digits(d.take(i - from + 1))) by {
            assert forall|j: int| 0 <= j < d.take(i - from + 1).len() implies is_digit(
                #[trigger] d.take(i - from + 1)[j],
            ) by {
                if j < i - from {
                    assert(d.take(i - from)[j] == d.take(i - from + 1)[j]);
                }
            }
        }
        m = m * 10 + digit;
        if m > limit {
            proof {
                if all_digits(d) {
                    lemma_digits_value_grows(d, i - from + 1);
                }
            }
            return None;
        }
        i += 1;
    }
    assert(d.take(i - from) =~= d);
    Some(m)
}

/// The `i32` that `s` writes in decimal, after an optional sign.
pub fn parse_i32(s: &Vec<char>) -> (r: Option<i32>)
    ensures
        r == parsed_i32(s@),
{
    if s.len() == 0 {
        return None;
    }
    if s[0] == '-' {
        match parse_digits(s, 1, 0x8000_0000) {
            Some(m) => Some((0 - (m as i64)) as i32),
            None => None,
        }
    } else if s[0] == '+' {
        match parse_digits(s, 1, 0x7fff_ffff) {
            Some(m) => Some(m as i32),
            None => None,
        }
    } else {
        assert(s@.skip(0) =~= s@);
        match parse_digits(s, 0, 0x7fff_ffff) {
            Some(m) => Some(m as i32),
            None => None,
        }
    }
}

/// The `u32` that `s` writes in decimal, after an optional plus sign.
pub fn parse_u32(s: &Vec<char>) -> (r: Option<u32>)
    ensures
        r == parsed_u32(s@),
{
    if s.len() == 0 {
        return None;
    }
    if s[0] == '-' {
        None
    } else if s[0] == '+' {
        match parse_digits(s, 1, 0xffff_ffff) {
            Some(m) => Some(m as u32),
            None => None,
        }
    } else {
        assert(s@.skip(0) =~= s@);
        match parse_digits(s, 0, 0xffff_ffff) {
            Some(m) => Some(m as u32),
            None => None,
        }
    }
}

/// The character that writes the digit `d`.
pub open spec fn digit_char(d: nat) -> char {
    if d == 0 {
        '0'
    } else if d == 1 {
        '1'
    } else if d == 2 {
        '2'
    } else if d == 3 {
        '3'
    } else if d == 4 {
        '4'
    } else if d == 5 {
        '5'
    } else if d == 6 {
        '6'
    } else if d == 7 {
        '7'
    } else if d == 8 {
        '8'
    } else {
        '9'
    }
}

/// `n` written in decimal, without leading zeros.
pub open spec fn decimal(n: nat) -> Seq<char>
    decreases n,
{
    if n < 10 {
        seq![digit_char(n)]
    } else {
        decimal(n / 10).push(digit_char(n % 10))
    }
}

/// The character that writes the digit `d`.
fn digit_of(d: u64) -> (c: char)
    requires
        d < 10,
    ensures
        c == digit_char(d as nat),
{
    if d == 0 {
        '0'
    } else if d == 1 {
        '1'
    } else if d == 2 {
        '2'
    } else if d == 3 {
        '3'
    } else if d == 4 {
        '4'
    } else if d == 5 {
        '5'
    } else if d == 6 {
        '6'
    } else if d == 7 {
        '7'
    } else if d == 8 {
        '8'
    } else {
        '9'
    }
}

/// Appends `n` in decimal to `out`.
pub fn push_decimal(out: &mut Vec<char>, n: u64)
    ensures
        final(out)@ == old(out)@ + decimal(n as nat),
    decreases n,
{
    if n < 10 {
        out.push(digit_of(n));
        assert(out@ =~= old(out)@ + decimal(n as nat));
    } else {
        push_decimal(out, n / 10);
        out.push(digit_of(n % 10));
        assert(out@ =~= old(out)@ + decimal(n as nat));
    }
}

/// Appends the characters of `s` to `out`.
pub fn push_str(out: &mut Vec<char>, s: &str)
    ensures
        final(out)@ == old(out)@ + s@,
{
    let v = chars_of(s);
    push_range(out, &v, 0, v.len());
    assert(v@.subrange(0, v@.len() as int) =~= v@);
}

/// Appends the characters of `v` to `out`.
pub fn push_all(out: &mut Vec<char>, v: &Vec<char>)
    ensures
        final(out)@ == old(out)@ + v@,
{
    push_range(out, v, 0, v.len());
    assert(v@.subrange(0, v@.len() as int) =~= v@);
}

/// `s` with each match of `pat` replaced by `with`.
pub fn replace_str(s: &str, pat: &str, with: &str) -> (r: String)
    ensures
        r@ == replace(s@, pat@, with@),
{
    string_of(&replace_in(&chars_of(s), &chars_of(pat), &chars_of(with)))
}

/// Whether `pat` occurs in `s`.
pub fn contains_str(s: &str, pat: &str) -> (b: bool)
    ensures
        b == contains(s@, pat@),
{
    contains_in(&chars_of(s), &chars_of(pat))
}

/// Whether `a` and `b` hold the same characters.
pub fn equal_str(a: &str, b: &str) -> (r: bool)
    ensures
        r == (a@ == b@),
{
    equal(&chars_of(a), &chars_of(b))
}

/// What `str::to_lowercase` makes of `s`.
pub uninterp spec fn lowercase_of(s: Seq<char>) -> Seq<char>;

/// `str::to_lowercase`. Trusted: the result depends on the characters of
/// `s` alone.
#[verifier::external_body]
pub(crate) fn to_lowercase(s: &str) -> (lower: String)
    ensures
        lower@ == lowercase_of(s@),
{
    s.to_lowercase()
}

/// The text that `count` copies of `c` make.
pub open spec fn repeated(c: char, count: nat) -> Seq<char> {
    Seq::new(count, |i: int| c)
}

/// Appends `count` copies of `c` to `out`.
pub fn push_repeated(out: &mut Vec<char>, c: char, count: usize)
    ensures
        final(out)@ == old(out)@ + repeated(c, count as nat),
{
    let mut i: usize = 0;
    assert(out@ =~= old(out)@ + repeated(c, 0));
    while i < count
        invariant
            i <= count,
            out@ == old(out)@ + repeated(c, i as nat),
        decreases count - i,
    {
        out.push(c);
        i += 1;
        assert(out@ =~= old(out)@ + repeated(c, i as nat));
    }
}

/// `a` comes before `b` or equals it, in the order of dictionaries: by the
/// first character in which they differ, and a beginning before the whole.
pub open spec fn lex_le(a: Seq<char>, b: Seq<char>) -> bool
    decreases a.len(),
{
    if a.len() == 0 {
        true
    } else if b.len() == 0 {
        false
    } else if a[0] != b[0] {
        a[0] < b[0]
    } else {
        lex_le(a.skip(1), b.skip(1))
    }
}

/// Of two texts one comes before the other or equals it.
pub proof fn lemma_lex_total(a: Seq<char>, b: Seq<char>)
    ensures
        lex_le(a, b) || lex_le(b, a),
    decreases a.len(),
{
    if a.len() > 0 && b.len() > 0 && a[0] == b[0] {
        lemma_lex_total(a.skip(1), b.skip(1));
    }
}

/// Whether `a` comes before `b` or equals it, in the order of dictionaries.
pub fn lex_le_in(a: &Vec<char>, b: &Vec<char>) -> (r: bool)
    ensures
        r == lex_le(a@, b@),
{
    let mut i: usize = 0;
    assert(a@.skip(0) =~= a@);
    assert(b@.skip(0) =~= b@);
    while i < a.len()
        invariant
            i <= a.len(),
            i <= b.len(),
            lex_le(a@, b@) == lex_le(a@.skip(i as int), b@.skip(i as int)),
        decreases a.len() - i,
    {
        if i >= b.len() {
            return false;
        }
        assert(a@.skip(i as int)[0] == a@[i as int]);
        assert(b@.skip(i as int)[0] == b@[i as int]);
        if a[i] != b[i] {
            return a[i] < b[i];
        }
        assert(a@.skip(i as int).skip(1) =~= a@.skip(i + 1));
        assert(b@.skip(i as int).skip(1) =~= b@.skip(i + 1));
        i += 1;
    }
    true
}

/// Each text of `items` comes before the next or equals it.
pub open spec fn sorted(items: Seq<Seq<char>>) -> bool {
    forall|i: int| 0 <= i && i + 1 < items.len() ==> lex_le(#[trigger] items[i], items[i + 1])
}

/// Inserting an element adds it to what a sequence holds.
pub proof fn lemma_insert_adds<A>(s: Seq<A>, i: int, x: A)
    requires
        0 <= i <= s.len(),
    ensures
        s.insert(i, x).to_multiset() =~= s.to_multiset().insert(x),
{
    broadcast use vstd::seq_lib::group_to_multiset_ensures;

    let t = s.insert(i, x);
    assert(t.remove(i) =~= s);
    assert(t[i] == x);
    assert(t.contains(x));
    assert(t.remove(i).to_multiset() =~= t.to_multiset().remove(x));
}

/// `items` in the order of dictionaries: the same texts, each before the
/// next or equal to it.
pub fn sort_strings(items: Vec<String>) -> (r: Vec<String>)
    ensures
        string_views(r@).to_multiset() == string_views(items@).to_multiset(),
        sorted(string_views(r@)),
{
    let mut r: Vec<String> = Vec::new();
    let mut k: usize = 0;
    let ghost all = string_views(items@);
    assert(all.take(0) =~= Seq::<Seq<char>>::empty());
    assert(string_views(r@) =~= Seq::<Seq<char>>::empty());
    while k < items.len()
        invariant
            k <= items.len(),
            all == string_views(items@),
            r@.len() == k,
            string_views(r@).to_multiset() == all.take(k as int).to_multiset(),
            sorted(string_views(r@)),
        decreases items.len() - k,
    {
        let x = items[k].clone();
        let key = chars_of(x.as_str());
        assert(x@ == all[k as int]);
        let mut j: usize = r.len();
        while j > 0 && !lex_le_in(&chars_of(r[j - 1].as_str()), &key)
            invariant
                j <= r.len(),
                key@ == x@,
                j < r@.len() ==> !lex_le(r@[j as int]@, x@),
            decreases j,
        {
            j -= 1;
        }
        let ghost before = string_views(r@);
        assert(j > 0 ==> lex_le(before[j - 1], x@));
        assert(j < before.len() ==> !lex_le(before[j as int], x@));
        r.insert(j, x);
        proof {
            let after = string_views(r@);
            assert(after =~= before.insert(j as int, x@));
            lemma_insert_adds(before, j as int, x@);
            assert(all.take(k + 1) =~= all.take(k as int).push(x@));
            broadcast use vstd::seq_lib::group_to_multiset_ensures;

            assert forall|i: int| 0 <= i && i + 1 < after.len() implies lex_le(
                #[trigger] after[i],
                after[i + 1],
            ) by {
                if i + 1 < j {
                    assert(lex_le(before[i], before[i + 1]));
                } else if i + 1 == j {
                } else if i == j {
                    lemma_lex_total(before[j as int], x@);
                } else {
                    assert(lex_le(before[i - 1], before[i]));
                }
            }
        }
        k += 1;
    }
    assert(all.take(items@.len() as int) =~= all);
    r
}

/// What `char::is_whitespace` returns for `c`.
pub uninterp spec fn unicode_whitespace(c: char) -> bool;

/// `char::is_whitespace`. Trusted: its result is the same for the same
/// character.
#[verifier::external_body]
fn char_is_whitespace(c: char) -> (r: bool)
    ensures
        r == unicode_whitespace(c),
{
    c.is_whitespace()
}

/// How many characters of white space begin `s`.
pub open spec fn leading_space(s: Seq<char>) -> nat
    decreases s.len(),
{
    if s.len() == 0 || !unicode_whitespace(s[0]) {
        0
    } else {
        1 + leading_space(s.skip(1))
    }
}

/// How many characters of white space end `s`.
pub open spec fn trailing_space(s: Seq<char>) -> nat
    decreases s.len(),
{
    if s.len() == 0 || !unicode_whitespace(s.last()) {
        0
    } else {
        1 + trailing_space(s.drop_last())
    }
}

/// `s` without the white space that begins and ends it.
pub open spec fn trimmed(s: Seq<char>) -> Seq<char> {
    let rest = s.skip(leading_space(s) as int);
    rest.take(rest.len() - trailing_space(rest))
}

/// `s` without the white space that begins and ends it.
pub fn trim(s: &Vec<char>) -> (r: Vec<char>)
    ensures
        r@ == trimmed(s@),
{
    let mut from: usize = 0;
    assert(s@.skip(0) =~= s@);
    while from < s.len() && char_is_whitespace(s[from])
        invariant
            from <= s.len(),
            leading_space(s@) == from + leading_space(s@.skip(from as int)),
        decreases s.len() - from,
    {
        assert(s@.skip(from as int)[0] == s@[from as int]);
        assert(s@.skip(from as int).skip(1) =~= s@.skip(from + 1));
        from += 1;
    }
    assert(from < s.len() ==> s@.skip(from as int)[0] == s@[from as int]);
    let ghost rest = s@.skip(from as int);
    let mut to: usize = s.len();
    assert(rest.take(rest.len() as int) =~= rest);
    while to > from && char_is_whitespace(s[to - 1])
        invariant
            from <= to <= s.len(),
            rest == s@.skip(from as int),
            trailing_space(rest) == s.len() - to + trailing_space(rest.take(to - from)),
        decreases to,
    {
        assert(rest.take(to - from).last() == s@[to - 1]);
        assert(rest.take(to - from).drop_last() =~= rest.take(to - from - 1));
        to -= 1;
    }
    assert(to > from ==> rest.take(to - from).last() == s@[to - 1]);
    let r = slice_of(s, from, to);
    assert(r@ =~= rest.take(rest.len() - trailing_space(rest)));
    r
}

/// How often the character `c` occurs in `s`.
pub open spec fn count_of(s: Seq<char>, c: char) -> nat
    decreases s.len(),
{
    if s.len() == 0 {
        0
    } else if s.last() == c {
        1 + count_of(s.drop_last(), c)
    } else {
        count_of(s.drop_last(), c)
    }
}

/// How often the character `c` occurs in `s`.
pub fn count_char(s: &Vec<char>, c: char) -> (count: usize)
    ensures
        count == count_of(s@, c),
{
    let mut count: usize = 0;
    let mut i: usize = 0;
    assert(s@.take(0) =~= Seq::<char>::empty());
    while i < s.len()
        invariant
            i <= s.len(),
            count <= i,
            count == count_of(s@.take(i as int), c),
        decreases s.len() - i,
    {
        assert(s@.take(i + 1).drop_last() =~= s@.take(i as int));
        if s[i] == c {
            count += 1;
        }
        i += 1;
    }
    assert(s@.take(s@.len() as int) =~= s@);
    count
}

} // verus!
