use vstd::prelude::*;
use crate::records::{
    ExportInside, ExportInsideView, ExportOutside, ExportOutsideView, export_insides_view,
    export_outsides_view,
};

verus! {

/// Where a stable insertion puts `x` into `s`: right after the last item
/// that ranks at least as high as `x`.
pub open spec fn insert_pos<T>(s: Seq<T>, x: T, ge: spec_fn(T, T) -> bool) -> int
    decreases s.len(),
{
    if s.len() == 0 {
        0
    } else if ge(s.last(), x) {
        s.len() as int
    } else {
        insert_pos(s.drop_last(), x, ge)
    }
}

pub open spec fn insert_ranked<T>(s: Seq<T>, x: T, ge: spec_fn(T, T) -> bool) -> Seq<T> {
    s.insert(insert_pos(s, x, ge), x)
}

/// The stable sort of `s`, highest rank first: items of equal rank keep their
/// order.
pub open spec fn stable_sort<T>(s: Seq<T>, ge: spec_fn(T, T) -> bool) -> Seq<T>
    decreases s.len(),
{
    if s.len() == 0 {
        s
    } else {
        insert_ranked(stable_sort(s.drop_last(), ge), s.last(), ge)
    }
}

/// Each item ranks at least as high as the next.
pub open spec fn ranked<T>(s: Seq<T>, ge: spec_fn(T, T) -> bool) -> bool {
    forall|i: int| 0 < i < s.len() ==> #[trigger] ge(s[i - 1], s[i])
}

pub open spec fn total<T>(ge: spec_fn(T, T) -> bool) -> bool {
    forall|a: T, b: T| #[trigger] ge(a, b) || ge(b, a)
}

/// Text order: code point by code point, a proper prefix first.
pub open spec fn text_lt(a: Seq<char>, b: Seq<char>) -> bool
    decreases a.len(),
{
    if b.len() == 0 {
        false
    } else if a.len() == 0 {
        true
    } else if a[0] != b[0] {
        (a[0] as u32) < (b[0] as u32)
    } else {
        text_lt(a.drop_first(), b.drop_first())
    }
}

/// Outside records rank by percentage.
pub open spec fn by_percentage() -> spec_fn(ExportOutsideView, ExportOutsideView) -> bool {
    |a: ExportOutsideView, b: ExportOutsideView| a.percentage >= b.percentage
}

/// Inside records rank by date, the later date first.
pub open spec fn by_date() -> spec_fn(ExportInsideView, ExportInsideView) -> bool {
    |a: ExportInsideView, b: ExportInsideView| !text_lt(a.date, b.date)
}

proof fn lemma_insert_pos<T>(s: Seq<T>, x: T, ge: spec_fn(T, T) -> bool)
    ensures
        0 <= insert_pos(s, x, ge) <= s.len(),
        insert_pos(s, x, ge) > 0 ==> ge(s[insert_pos(s, x, ge) - 1], x),
        forall|k: int| insert_pos(s, x, ge) <= k < s.len() ==> !ge(#[trigger] s[k], x),
    decreases s.len(),
{
    if s.len() > 0 && !ge(s.last(), x) {
        let d = s.drop_last();
        lemma_insert_pos(d, x, ge);
        assert forall|k: int| insert_pos(s, x, ge) <= k < s.len() implies !ge(#[trigger] s[k], x) by {
            if k < d.len() {
                assert(s[k] == d[k]);
            }
        }
    }
}

proof fn lemma_insert_multiset<T>(s: Seq<T>, x: T, ge: spec_fn(T, T) -> bool)
    ensures
        insert_ranked(s, x, ge).to_multiset() == s.to_multiset().insert(x),
{
    lemma_insert_pos(s, x, ge);
    vstd::seq_lib::to_multiset_insert(s, insert_pos(s, x, ge), x);
}

/// Sorting keeps every item, as often as it occurs.
pub proof fn lemma_sort_permutes<T>(s: Seq<T>, ge: spec_fn(T, T) -> bool)
    ensures
        stable_sort(s, ge).to_multiset() == s.to_multiset(),
        stable_sort(s, ge).len() == s.len(),
    decreases s.len(),
{
    if s.len() > 0 {
        lemma_sort_permutes(s.drop_last(), ge);
        lemma_insert_multiset(stable_sort(s.drop_last(), ge), s.last(), ge);
        vstd::seq_lib::to_multiset_build(s.drop_last(), s.last());
        assert(s =~= s.drop_last().push(s.last()));
        vstd::seq_lib::to_multiset_len(s);
        vstd::seq_lib::to_multiset_len(stable_sort(s, ge));
    }
}

proof fn lemma_insert_keeps_ranked<T>(s: Seq<T>, x: T, ge: spec_fn(T, T) -> bool)
    requires
        total(ge),
        ranked(s, ge),
    ensures
        ranked(insert_ranked(s, x, ge), ge),
{
    lemma_insert_pos(s, x, ge);
    let p = insert_pos(s, x, ge);
    let r = insert_ranked(s, x, ge);
    assert forall|i: int| 0 < i < r.len() implies #[trigger] ge(r[i - 1], r[i]) by {
        if i < p {
            assert(ge(s[i - 1], s[i]));
        } else if i == p {
            assert(ge(s[p - 1], x));
        } else if i == p + 1 {
            assert(!ge(s[p], x));
            assert(ge(x, s[p]) || ge(s[p], x));
        } else {
            let j = i - 1;
            assert(ge(s[j - 1], s[j]));
            assert(r[i - 1] == s[j - 1] && r[i] == s[j]);
        }
    }
}

/// A sort by a total ranking comes out ranked.
pub proof fn lemma_sort_ranked<T>(s: Seq<T>, ge: spec_fn(T, T) -> bool)
    requires
        total(ge),
    ensures
        ranked(stable_sort(s, ge), ge),
    decreases s.len(),
{
    if s.len() > 0 {
        lemma_sort_ranked(s.drop_last(), ge);
        lemma_insert_keeps_ranked(stable_sort(s.drop_last(), ge), s.last(), ge);
    }
}

/// Sorting what is already ranked changes nothing.
pub proof fn lemma_sort_of_ranked<T>(s: Seq<T>, ge: spec_fn(T, T) -> bool)
    requires
        ranked(s, ge),
    ensures
        stable_sort(s, ge) == s,
    decreases s.len(),
{
    if s.len() > 0 {
        let d = s.drop_last();
        assert(ranked(d, ge)) by {
            assert forall|i: int| 0 < i < d.len() implies #[trigger] ge(d[i - 1], d[i]) by {
                assert(ge(s[i - 1], s[i]));
            }
        }
        lemma_sort_of_ranked(d, ge);
        if d.len() > 0 {
            assert(ge(s[d.len() - 1], s[d.len() as int]));
        }
        assert(d.insert(insert_pos(d, s.last(), ge), s.last()) =~= s);
    }
}

proof fn lemma_text_lt_asymmetric(a: Seq<char>, b: Seq<char>)
    ensures
        !(text_lt(a, b) && text_lt(b, a)),
    decreases a.len(),
{
    if a.len() > 0 && b.len() > 0 && a[0] == b[0] {
        lemma_text_lt_asymmetric(a.drop_first(), b.drop_first());
    }
}

/// The ranking by date is total.
pub proof fn lemma_by_date_total()
    ensures
        total(by_date()),
{
    assert forall|a: ExportInsideView, b: ExportInsideView| #[trigger] by_date()(a, b) || by_date()(b, a) by {
        lemma_text_lt_asymmetric(a.date, b.date);
    }
}

/// The ranking by percentage is total.
pub proof fn lemma_by_percentage_total()
    ensures
        total(by_percentage()),
{
}

fn insert_by_percentage(v: &mut Vec<ExportOutside>, x: ExportOutside)
    ensures
        export_outsides_view(final(v)@) == insert_ranked(export_outsides_view(old(v)@), x@, by_percentage()),
{
    let ghost s = export_outsides_view(v@);
    let mut j: usize = v.len();
    assert(s.take(s.len() as int) =~= s);
    while j > 0 && v[j - 1].percentage < x.percentage
        invariant
            j <= v.len(),
            s == export_outsides_view(v@),
            insert_pos(s, x@, by_percentage()) == insert_pos(s.take(j as int), x@, by_percentage()),
        decreases j,
    {
        assert(s.take(j as int).drop_last() =~= s.take(j - 1));
        j = j - 1;
    }
    assert(s.take(0) =~= Seq::<ExportOutsideView>::empty());
    v.insert(j, x);
    assert(export_outsides_view(v@) =~= s.insert(j as int, x@));
}

/// The records ordered by percentage, highest first; equal percentages keep
/// their order.
pub fn sort_outsides(v: &Vec<ExportOutside>) -> (r: Vec<ExportOutside>)
    ensures
        export_outsides_view(r@) == stable_sort(export_outsides_view(v@), by_percentage()),
{
    let ghost s = export_outsides_view(v@);
    let mut out: Vec<ExportOutside> = Vec::new();
    let mut i: usize = 0;
    while i < v.len()
        invariant
            i <= v.len(),
            s == export_outsides_view(v@),
            export_outsides_view(out@) == stable_sort(s.take(i as int), by_percentage()),
        decreases v.len() - i,
    {
        assert(s.take(i + 1).drop_last() =~= s.take(i as int));
        insert_by_percentage(&mut out, v[i].duplicate());
        i = i + 1;
    }
    assert(s.take(v.len() as int) =~= s);
    out
}

/// Whether `a` comes before `b` in text order.
pub fn text_less(a: &str, b: &str) -> (r: bool)
    ensures
        r == text_lt(a@, b@),
{
    let la = a.unicode_len();
    let lb = b.unicode_len();
    let mut i: usize = 0;
    assert(a@.skip(0) =~= a@ && b@.skip(0) =~= b@);
    while i < la && i < lb
        invariant
            la == a@.len(),
            lb == b@.len(),
            i <= la,
            i <= lb,
            text_lt(a@, b@) == text_lt(a@.skip(i as int), b@.skip(i as int)),
        decreases la - i,
    {
        let ca = a.get_char(i);
        let cb = b.get_char(i);
        if ca != cb {
            return (ca as u32) < (cb as u32);
        }
        assert(a@.skip(i as int).drop_first() =~= a@.skip(i + 1));
        assert(b@.skip(i as int).drop_first() =~= b@.skip(i + 1));
        i = i + 1;
    }
    i < lb
}

fn insert_by_date(v: &mut Vec<ExportInside>, x: ExportInside)
    ensures
        export_insides_view(final(v)@) == insert_ranked(export_insides_view(old(v)@), x@, by_date()),
{
    let ghost s = export_insides_view(v@);
    let mut j: usize = v.len();
    assert(s.take(s.len() as int) =~= s);
    while j > 0 && text_less(v[j - 1].date.as_str(), x.date.as_str())
        invariant
            j <= v.len(),
            s == export_insides_view(v@),
            insert_pos(s, x@, by_date()) == insert_pos(s.take(j as int), x@, by_date()),
        decreases j,
    {
        assert(s.take(j as int).drop_last() =~= s.take(j - 1));
        j = j - 1;
    }
    assert(s.take(0) =~= Seq::<ExportInsideView>::empty());
    v.insert(j, x);
    assert(export_insides_view(v@) =~= s.insert(j as int, x@));
}

/// The records ordered by date, latest first; equal dates keep their order.
pub fn sort_insides(v: &Vec<ExportInside>) -> (r: Vec<ExportInside>)
    ensures
        export_insides_view(r@) == stable_sort(export_insides_view(v@), by_date()),
{
    let ghost s = export_insides_view(v@);
    let mut out: Vec<ExportInside> = Vec::new();
    let mut i: usize = 0;
    while i < v.len()
        invariant
            i <= v.len(),
            s == export_insides_view(v@),
            export_insides_view(out@) == stable_sort(s.take(i as int), by_date()),
        decreases v.len() - i,
    {
        assert(s.take(i + 1).drop_last() =~= s.take(i as int));
        insert_by_date(&mut out, v[i].duplicate());
        i = i + 1;
    }
    assert(s.take(v.len() as int) =~= s);
    out
}

} // verus!
