//! The order of texts in which numerals count by their value, as the crate
//! `human-sort` compares them, and sorting by it.

use vstd::prelude::*;
use std::cmp::Ordering;
use crate::text::{chars_of, is_digit, lemma_insert_adds, string_views};

verus! {

/// How `human_sort::compare` orders `a` and `b`: negative where `a` comes
/// first, zero where neither does, positive where `b` comes first.
pub uninterp spec fn human_order(a: Seq<char>, b: Seq<char>) -> int;

/// How many decimal digits end `s`.
pub open spec fn trailing_digits(s: Seq<char>) -> nat
    decreases s.len(),
{
    if s.len() == 0 || !is_digit(s.last()) {
        0
    } else {
        1 + trailing_digits(s.drop_last())
    }
}

/// The length of the longest run of decimal digits in `s`.
pub open spec fn longest_digit_run(s: Seq<char>) -> nat
    decreases s.len(),
{
    if s.len() == 0 {
        0
    } else if longest_digit_run(s.drop_last()) >= trailing_digits(s) {
        longest_digit_run(s.drop_last())
    } else {
        trailing_digits(s)
    }
}

/// Every numeral in `s` has at most nine digits, and so fits the 32 bits
/// in which the comparison reads numerals.
pub open spec fn numerals_fit(s: Seq<char>) -> bool {
    longest_digit_run(s) <= 9
}

/// Whether every numeral in `s` has at most nine digits.
pub fn check_numerals(s: &str) -> (fit: bool)
    ensures
        fit == numerals_fit(s@),
{
    let v = chars_of(s);
    let mut longest: usize = 0;
    let mut run: usize = 0;
    let mut i: usize = 0;
    assert(v@.take(0) =~= Seq::<char>::empty());
    while i < v.len()
        invariant
            i <= v.len(),
            v@ == s@,
            run == trailing_digits(v@.take(i as int)),
            longest == longest_digit_run(v@.take(i as int)),
            run <= i,
            longest <= i,
        decreases v.len() - i,
    {
        assert(v@.take(i + 1).drop_last() =~= v@.take(i as int));
        let c = v[i];
        if c >= '0' && c <= '9' {
            run = run + 1;
        } else {
            run = 0;
        }
        if run > longest {
            longest = run;
        }
        i += 1;
    }
    assert(v@.take(v@.len() as int) =~= v@);
    longest <= 9
}

/// `human_sort::compare`. Trusted: for texts whose numerals have at most
/// nine digits it returns, and its result depends on the two texts alone.
#[verifier::external_body]
fn human_compare(a: &str, b: &str) -> (order: i8)
    requires
        numerals_fit(a@),
        numerals_fit(b@),
    ensures
        order == human_order(a@, b@),
        -1 <= order <= 1,
{
    match human_sort::compare(a, b) {
        Ordering::Less => -1,
        Ordering::Equal => 0,
        Ordering::Greater => 1,
    }
}

/// Whether `version` comes before `new_version`.
pub fn is_outdated(version: &str, new_version: &str) -> (outdated: bool)
    requires
        numerals_fit(version@),
        numerals_fit(new_version@),
    ensures
        outdated == (human_order(version@, new_version@) < 0),
{
    human_compare(version, new_version) < 0
}

/// Whether `version` comes before `new_version`; `None` where a numeral in
/// either has more than nine digits.
pub fn check_outdated(version: &str, new_version: &str) -> (outdated: Option<bool>)
    ensures
        outdated == (if numerals_fit(version@) && numerals_fit(new_version@) {
            Some(human_order(version@, new_version@) < 0)
        } else {
            None
        }),
{
    if check_numerals(version) && check_numerals(new_version) {
        Some(is_outdated(version, new_version))
    } else {
        None
    }
}

/// `a` may stand directly before `b`: the comparison does not put `a`
/// after `b`, or it puts `b` after `a`.
pub open spec fn may_precede(a: Seq<char>, b: Seq<char>) -> bool {
    human_order(a, b) <= 0 || human_order(b, a) > 0
}

/// No two neighbours of `items` stand against the order.
pub open spec fn in_human_order(items: Seq<Seq<char>>) -> bool {
    forall|i: int| 0 <= i && i + 1 < items.len() ==> may_precede(#[trigger] items[i], items[i + 1])
}

/// Every numeral in every text of `items` has at most nine digits.
pub open spec fn all_numerals_fit(items: Seq<Seq<char>>) -> bool {
    forall|i: int| 0 <= i < items.len() ==> numerals_fit(#[trigger] items[i])
}

/// `items` sorted: the same texts, each put, from the first on, behind the
/// last of those before it that the comparison does not put after it.
pub fn sort(items: Vec<String>) -> (sorted: Vec<String>)
    requires
        all_numerals_fit(string_views(items@)),
    ensures
        string_views(sorted@).to_multiset() == string_views(items@).to_multiset(),
        in_human_order(string_views(sorted@)),
{
    let mut sorted: Vec<String> = Vec::new();
    let mut k: usize = 0;
    let ghost all = string_views(items@);
    assert(all.take(0) =~= Seq::<Seq<char>>::empty());
    assert(string_views(sorted@) =~= Seq::<Seq<char>>::empty());
    while k < items.len()
        invariant
            k <= items.len(),
            all == string_views(items@),
            all_numerals_fit(all),
            sorted@.len() == k,
            string_views(sorted@).to_multiset() == all.take(k as int).to_multiset(),
            in_human_order(string_views(sorted@)),
            all_numerals_fit(string_views(sorted@)),
        decreases items.len() - k,
    {
        let x = items[k].clone();
        assert(x@ == all[k as int]);
        proof {
            assert forall|i: int| 0 <= i < sorted@.len() implies numerals_fit(
                #[trigger] sorted@[i]@,
            ) by {
                assert(string_views(sorted@)[i] == sorted@[i]@);
            }
        }
        let mut j: usize = sorted.len();
        while j > 0 && human_compare(sorted[j - 1].as_str(), x.as_str()) > 0
            invariant
                j <= sorted.len(),
                numerals_fit(x@),
                all_numerals_fit(string_views(sorted@)),
                j < sorted@.len() ==> human_order(sorted@[j as int]@, x@) > 0,
                forall|i: int| 0 <= i < sorted@.len() ==> numerals_fit(#[trigger] sorted@[i]@),
            decreases j,
        {
            assert(string_views(sorted@)[j - 1] == sorted@[j - 1]@);
            j -= 1;
        }
        let ghost before = string_views(sorted@);
        sorted.insert(j, x);
        proof {
            let after = string_views(sorted@);
            assert(after =~= before.insert(j as int, x@));
            lemma_insert_adds(before, j as int, x@);
            assert(all.take(k + 1) =~= all.take(k as int).push(x@));
            broadcast use vstd::seq_lib::group_to_multiset_ensures;

            assert forall|i: int| 0 <= i && i + 1 < after.len() implies may_precede(
                #[trigger] after[i],
                after[i + 1],
            ) by {
                if i + 1 < j {
                    assert(may_precede(before[i], before[i + 1]));
                } else if i + 1 == j {
                } else if i == j {
                } else {
                    assert(may_precede(before[i - 1], before[i]));
                }
            }
            assert forall|i: int| 0 <= i < after.len() implies numerals_fit(
                #[trigger] after[i],
            ) by {
                if i < j {
                    assert(after[i] == before[i]);
                } else if i > j {
                    assert(after[i] == before[i - 1]);
                }
            }
        }
        k += 1;
    }
    assert(all.take(items@.len() as int) =~= all);
    sorted
}

/// `items` sorted; `None`, where a numeral in one of them has more than
/// nine digits.
pub fn check_sort(items: Vec<String>) -> (sorted: Option<Vec<String>>)
    ensures
        sorted is Some <==> all_numerals_fit(string_views(items@)),
        sorted is Some ==> string_views(sorted->Some_0@).to_multiset() == string_views(
            items@,
        ).to_multiset() && in_human_order(string_views(sorted->Some_0@)),
{
    let mut i: usize = 0;
    while i < items.len()
        invariant
            i <= items.len(),
            forall|j: int| 0 <= j < i ==> numerals_fit(#[trigger] string_views(items@)[j]),
        decreases items.len() - i,
    {
        assert(string_views(items@)[i as int] == items@[i as int]@);
        if !check_numerals(items[i].as_str()) {
            return None;
        }
        i += 1;
    }
    Some(sort(items))
}

} // verus!
