//! The in-memory filtering engine.
//!
//! A query matches an entry when any of the entry's searchable text fields,
//! lower-cased, contains the lower-cased query as a substring.  Filtering is
//! stable: the result keeps the original entry order, and an empty query
//! keeps the whole set.

use vstd::prelude::*;

use crate::text::{contains_chars, contains_seq, lower_chars, lower_of};

verus! {

/// An entry type whose text fields the filtering engine can search.
pub trait Searchable: Sized {
    /// The searchable text fields, as character sequences.
    spec fn search_rep(&self) -> Seq<Seq<char>>;

    /// The searchable text fields of this entry.
    fn search_fields(&self) -> (r: Vec<String>)
        ensures
            r@.len() == self.search_rep().len(),
            forall|i: int| 0 <= i < r@.len() ==> (#[trigger] r@[i])@ == self.search_rep()[i],
    ;

    /// An exact copy of this entry.
    fn duplicate(&self) -> (r: Self)
        ensures
            r == *self,
    ;
}

/// The entry matches the already lower-cased query `lq`: some lower-cased
/// searchable field contains `lq` as a substring.
pub open spec fn matches_query<E: Searchable>(e: E, lq: Seq<char>) -> bool {
    exists|i: int|
        0 <= i < e.search_rep().len() && contains_seq(lower_of(#[trigger] e.search_rep()[i]), lq)
}

/// The filtered entry sequence for query `q`: everything for an empty
/// query, else the matching entries in their original order.
pub open spec fn filter_spec<E: Searchable>(s: Seq<E>, q: Seq<char>) -> Seq<E> {
    if q.len() == 0 {
        s
    } else {
        s.filter(|e: E| matches_query(e, lower_of(q)))
    }
}

/// Whether `e` matches the lower-cased query `lq`.
pub fn entry_matches<E: Searchable>(e: &E, lq: &Vec<char>) -> (r: bool)
    ensures
        r == matches_query(*e, lq@),
{
    let fields = e.search_fields();
    let mut i: usize = 0;
    while i < fields.len()
        invariant
            i <= fields@.len(),
            fields@.len() == e.search_rep().len(),
            forall|k: int| 0 <= k < fields@.len() ==> (#[trigger] fields@[k])@
                == e.search_rep()[k],
            forall|k: int| 0 <= k < i ==> !contains_seq(
                lower_of(#[trigger] e.search_rep()[k]),
                lq@,
            ),
        decreases fields@.len() - i,
    {
        let low = lower_chars(fields[i].as_str());
        if contains_chars(&low, lq) {
            proof {
                assert(contains_seq(lower_of(e.search_rep()[i as int]), lq@));
            }
            return true;
        }
        i += 1;
    }
    false
}

/// Filter `entries` by `query`, keeping the original order.  An empty query
/// keeps every entry.
pub fn static_filter<E: Searchable>(entries: &Vec<E>, query: &str) -> (r: Vec<E>)
    ensures
        r@ == filter_spec(entries@, query@),
{
    let mut out: Vec<E> = Vec::new();
    if query.is_empty() {
        let mut i: usize = 0;
        while i < entries.len()
            invariant
                i <= entries@.len(),
                out@ =~= entries@.take(i as int),
            decreases entries@.len() - i,
        {
            out.push(entries[i].duplicate());
            proof {
                assert(out@ =~= entries@.take(i + 1));
            }
            i += 1;
        }
        proof {
            assert(entries@.take(entries@.len() as int) =~= entries@);
        }
        out
    } else {
        let lq = lower_chars(query);
        let ghost pred = |e: E| matches_query(e, lower_of(query@));
        let mut i: usize = 0;
        proof {
            assert(entries@.take(0).filter(pred) =~= Seq::<E>::empty()) by {
                reveal(Seq::filter);
            }
        }
        while i < entries.len()
            invariant
                i <= entries@.len(),
                lq@ == lower_of(query@),
                pred == (|e: E| matches_query(e, lower_of(query@))),
                out@ =~= entries@.take(i as int).filter(pred),
            decreases entries@.len() - i,
        {
            let m = entry_matches(&entries[i], &lq);
            proof {
                let t = entries@.take(i + 1);
                assert(t.drop_last() =~= entries@.take(i as int));
                assert(t.last() == entries@[i as int]);
                reveal(Seq::filter);
            }
            if m {
                out.push(entries[i].duplicate());
            }
            i += 1;
        }
        proof {
            assert(entries@.take(entries@.len() as int) =~= entries@);
        }
        out
    }
}

/// The filter returns a subset of its input: every returned entry stands in
/// the input, and, for a non-empty query, some lower-cased field of every
/// returned entry contains the lower-cased query as a substring.  An empty
/// query keeps the whole set, which is its own subset.
pub proof fn lemma_filter_is_matching_subset<E: Searchable>(s: Seq<E>, q: Seq<char>)
    ensures
        forall|i: int| 0 <= i < filter_spec(s, q).len() ==> s.contains(#[trigger] filter_spec(
            s,
            q,
        )[i]),
        q.len() > 0 ==> forall|i: int| 0 <= i < filter_spec(s, q).len() ==> matches_query(
            #[trigger] filter_spec(s, q)[i],
            lower_of(q),
        ),
{
    broadcast use vstd::seq_lib::group_filter_ensures;

    let pred = |e: E| matches_query(e, lower_of(q));
    assert forall|i: int| 0 <= i < filter_spec(s, q).len() implies s.contains(
        #[trigger] filter_spec(s, q)[i],
    ) by {
        if q.len() > 0 {
            assert(filter_spec(s, q).contains(filter_spec(s, q)[i]));
            lemma_filter_elements_come_from(s, pred, filter_spec(s, q)[i]);
        }
    }
}

proof fn lemma_filter_elements_come_from<E>(s: Seq<E>, pred: spec_fn(E) -> bool, x: E)
    requires
        s.filter(pred).contains(x),
    ensures
        s.contains(x),
    decreases s.len(),
{
    reveal(Seq::filter);
    if s.len() > 0 {
        if s.drop_last().filter(pred).contains(x) {
            lemma_filter_elements_come_from(s.drop_last(), pred, x);
            let j = choose|j: int| 0 <= j < s.drop_last().len() && s.drop_last()[j] == x;
            assert(s[j] == x);
        } else {
            assert(x == s.last());
        }
    }
}

proof fn lemma_filter_of_all_matching<E>(s: Seq<E>, pred: spec_fn(E) -> bool)
    requires
        forall|i: int| 0 <= i < s.len() ==> pred(#[trigger] s[i]),
    ensures
        s.filter(pred) =~= s,
    decreases s.len(),
{
    reveal(Seq::filter);
    if s.len() > 0 {
        lemma_filter_of_all_matching(s.drop_last(), pred);
        assert(s.filter(pred) =~= s.drop_last().filter(pred).push(s.last()));
    }
}

/// Filtering is idempotent: filtering an already filtered set with the same
/// query changes nothing, so the selection a reset derives from the result
/// is the same as well.
pub proof fn lemma_filter_idempotent<E: Searchable>(s: Seq<E>, q: Seq<char>)
    ensures
        filter_spec(filter_spec(s, q), q) =~= filter_spec(s, q),
        crate::selection::reset_selection_spec(filter_spec(filter_spec(s, q), q).len() as int)
            == crate::selection::reset_selection_spec(filter_spec(s, q).len() as int),
{
    broadcast use vstd::seq_lib::group_filter_ensures;

    if q.len() > 0 {
        let pred = |e: E| matches_query(e, lower_of(q));
        lemma_filter_of_all_matching(s.filter(pred), pred);
    }
}

} // verus!
