use vstd::prelude::*;

use crate::text::text_eq;

verus! {

/// Records that carry a workflow status (such as `open`).
pub trait HasStatus {
    spec fn status_view(&self) -> Seq<char>;

    fn status_text(&self) -> (r: &str)
        ensures
            r@ == self.status_view(),
    ;
}

/// Records that carry a severity (such as `high`).
pub trait HasSeverity {
    spec fn severity_view(&self) -> Seq<char>;

    fn severity_text(&self) -> (r: &str)
        ensures
            r@ == self.severity_view(),
    ;
}

/// How many records of `s` have status `v`.
pub open spec fn count_status<T: HasStatus>(s: Seq<T>, v: Seq<char>) -> nat
    decreases s.len(),
{
    if s.len() == 0 {
        0
    } else {
        count_status(s.drop_last(), v) + if s.last().status_view() == v {
            1nat
        } else {
            0nat
        }
    }
}

/// How many records of `s` have severity `v`.
pub open spec fn count_severity<T: HasSeverity>(s: Seq<T>, v: Seq<char>) -> nat
    decreases s.len(),
{
    if s.len() == 0 {
        0
    } else {
        count_severity(s.drop_last(), v) + if s.last().severity_view() == v {
            1nat
        } else {
            0nat
        }
    }
}

/// How many records of `s` are high or critical.
pub open spec fn count_high<T: HasSeverity>(s: Seq<T>) -> nat {
    count_severity(s, "high"@) + count_severity(s, "critical"@)
}

pub proof fn lemma_count_status_bound<T: HasStatus>(s: Seq<T>, v: Seq<char>)
    ensures
        count_status(s, v) <= s.len(),
    decreases s.len(),
{
    if s.len() > 0 {
        lemma_count_status_bound(s.drop_last(), v);
    }
}

pub proof fn lemma_count_severity_bound<T: HasSeverity>(s: Seq<T>, v: Seq<char>)
    ensures
        count_severity(s, v) <= s.len(),
    decreases s.len(),
{
    if s.len() > 0 {
        lemma_count_severity_bound(s.drop_last(), v);
    }
}

/// The number of records, as the summaries report it.
pub fn count_of<T>(items: &Vec<T>) -> (n: i64)
    requires
        items@.len() <= i64::MAX,
    ensures
        n == items@.len(),
{
    items.len() as i64
}

/// Counts the records with a given status.
pub fn tally_status<T: HasStatus>(items: &Vec<T>, v: &str) -> (n: i64)
    requires
        items@.len() <= i64::MAX,
    ensures
        n == count_status(items@, v@),
{
    let mut n: i64 = 0;
    let mut i: usize = 0;
    while i < items.len()
        invariant
            i <= items@.len(),
            items@.len() <= i64::MAX,
            n == count_status(items@.take(i as int), v@),
        decreases items@.len() - i,
    {
        proof {
            assert(items@.take(i + 1).drop_last() =~= items@.take(i as int));
            assert(items@.take(i + 1).last() == items@[i as int]);
            lemma_count_status_bound(items@.take(i as int), v@);
        }
        if text_eq(items[i].status_text(), v) {
            n = n + 1;
        }
        i = i + 1;
    }
    assert(items@.take(i as int) =~= items@);
    n
}

/// Counts the records with a given severity.
pub fn tally_severity<T: HasSeverity>(items: &Vec<T>, v: &str) -> (n: i64)
    requires
        items@.len() <= i64::MAX,
    ensures
        n == count_severity(items@, v@),
{
    let mut n: i64 = 0;
    let mut i: usize = 0;
    while i < items.len()
        invariant
            i <= items@.len(),
            items@.len() <= i64::MAX,
            n == count_severity(items@.take(i as int), v@),
        decreases items@.len() - i,
    {
        proof {
            assert(items@.take(i + 1).drop_last() =~= items@.take(i as int));
            assert(items@.take(i + 1).last() == items@[i as int]);
            lemma_count_severity_bound(items@.take(i as int), v@);
        }
        if text_eq(items[i].severity_text(), v) {
            n = n + 1;
        }
        i = i + 1;
    }
    assert(items@.take(i as int) =~= items@);
    n
}

/// Counts the records that are high or critical.
pub fn tally_high<T: HasSeverity>(items: &Vec<T>) -> (n: i64)
    requires
        items@.len() <= i64::MAX,
    ensures
        n == count_high(items@),
{
    let h = tally_severity(items, "high");
    let c = tally_severity(items, "critical");
    proof {
        lemma_count_severity_bound(items@, "high"@);
        lemma_count_severity_bound(items@, "critical"@);
        lemma_count_high_bound(items@);
    }
    h + c
}

pub proof fn lemma_count_high_bound<T: HasSeverity>(s: Seq<T>)
    ensures
        count_high(s) <= s.len(),
    decreases s.len(),
{
    reveal_strlit("high");
    reveal_strlit("critical");
    assert("high"@.len() != "critical"@.len());
    if s.len() > 0 {
        lemma_count_high_bound(s.drop_last());
        assert(count_severity(s, "high"@) == count_severity(s.drop_last(), "high"@) + if s.last().severity_view() == "high"@ {
            1nat
        } else {
            0nat
        });
        assert(count_severity(s, "critical"@) == count_severity(s.drop_last(), "critical"@) + if s.last().severity_view() == "critical"@ {
            1nat
        } else {
            0nat
        });
    }
}

/// How many of the texts equal `v`.
pub open spec fn count_text(s: Seq<Seq<char>>, v: Seq<char>) -> nat
    decreases s.len(),
{
    if s.len() == 0 {
        0
    } else {
        count_text(s.drop_last(), v) + if s.last() == v {
            1nat
        } else {
            0nat
        }
    }
}

/// Counts the texts equal to `v` (a status or severity read off records).
pub fn tally_text(texts: &Vec<String>, v: &str) -> (n: i64)
    requires
        texts@.len() <= i64::MAX,
    ensures
        n == count_text(crate::policy::texts(texts@), v@),
{
    let ghost s = crate::policy::texts(texts@);
    let mut n: i64 = 0;
    let mut i: usize = 0;
    while i < texts.len()
        invariant
            i <= texts@.len(),
            texts@.len() <= i64::MAX,
            s == crate::policy::texts(texts@),
            n == count_text(s.take(i as int), v@),
            n <= i,
        decreases texts@.len() - i,
    {
        proof {
            assert(s.take(i + 1).drop_last() =~= s.take(i as int));
            assert(s.take(i + 1).last() == texts@[i as int]@);
        }
        if text_eq(texts[i].as_str(), v) {
            n = n + 1;
        }
        i = i + 1;
    }
    assert(s.take(i as int) =~= s);
    n
}

} // verus!
