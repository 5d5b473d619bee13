//! The read-only query service's request planning: which datastore lookups
//! answer a timetable request, and how distinct values are cleaned.
use crate::text::{chars_of, split, split_chars, string_of, views_of};
use crate::timetable::{strings_view, TimeTableEntry};
use vstd::prelude::*;

verus! {

/// The non-empty ones among `fields`, in order.
pub open spec fn nonempty_fields(fields: Seq<Seq<char>>) -> Seq<Seq<char>>
    decreases fields.len(),
{
    if fields.len() == 0 {
        Seq::empty()
    } else {
        let r = nonempty_fields(fields.drop_last());
        if fields.last().len() > 0 {
            r.push(fields.last())
        } else {
            r
        }
    }
}

/// The terms of a `;`-separated list, empty ones dropped.
pub open spec fn terms_of(list: Seq<char>) -> Seq<Seq<char>> {
    nonempty_fields(split(list, ';'))
}

/// The terms of a `;`-separated list, empty ones dropped.
pub fn split_terms(list: &str) -> (r: Vec<String>)
    ensures
        strings_view(r@) == terms_of(list@),
{
    let cs = chars_of(list);
    let fields = split_chars(&cs, ';');
    let ghost f = split(list@, ';');
    let mut out: Vec<String> = Vec::new();
    let mut i: usize = 0;
    while i < fields.len()
        invariant
            i <= fields@.len(),
            views_of(fields@) == f,
            strings_view(out@) == nonempty_fields(f.take(i as int)),
        decreases fields.len() - i,
    {
        let ghost prev = out@;
        assert(f.take(i + 1).drop_last() =~= f.take(i as int));
        assert(f.take(i + 1).last() == fields@[i as int]@);
        if fields[i].len() > 0 {
            out.push(string_of(&fields[i]));
            assert(strings_view(out@) =~= strings_view(prev).push(fields@[i as int]@));
        }
        i = i + 1;
    }
    assert(f.take(f.len() as int) =~= f);
    out
}

/// The list field that a lookup matches on.
#[derive(Debug, Clone, Copy, PartialEq, Eq, Structural)]
pub enum MatchField {
    Groups,
    Persons,
}

/// One datastore lookup: entries that begin at or after, and end at or
/// before, the given instants (in milliseconds since the Unix epoch), and
/// whose list field holds the given term.
#[derive(Debug)]
pub struct TimetableQuery {
    pub begins_from_ms: Option<i64>,
    pub ends_by_ms: Option<i64>,
    pub matching: Option<(MatchField, String)>,
}

/// A lookup, over sequences.
pub struct QueryView {
    pub begins_from_ms: Option<i64>,
    pub ends_by_ms: Option<i64>,
    pub matching: Option<(MatchField, Seq<char>)>,
}

pub open spec fn query_view(q: TimetableQuery) -> QueryView {
    QueryView {
        begins_from_ms: q.begins_from_ms,
        ends_by_ms: q.ends_by_ms,
        matching: match q.matching {
            Some((f, t)) => Some((f, t@)),
            None => None,
        },
    }
}

/// Seconds to milliseconds.
pub open spec fn millis(s: Option<i64>) -> Option<i64> {
    match s {
        Some(x) => Some((x * 1000) as i64),
        None => None,
    }
}

/// Whether a number of seconds has a number of milliseconds in `i64`.
pub open spec fn fits_millis(s: Option<i64>) -> bool {
    s matches Some(x) ==> i64::MIN <= x * 1000 <= i64::MAX
}

/// The lookups for one term each of `terms` on `field`.
pub open spec fn lookups(from: Option<i64>, to: Option<i64>, field: MatchField, terms: Seq<Seq<char>>) -> Seq<QueryView> {
    Seq::new(
        terms.len(),
        |i: int| QueryView { begins_from_ms: millis(from), ends_by_ms: millis(to), matching: Some((field, terms[i])) },
    )
}

/// The lookups that answer a timetable request: one per group where groups
/// are given, else one per tutor where tutors are, else one for all entries.
pub open spec fn timetable_plan(
    from: Option<i64>,
    to: Option<i64>,
    groups: Option<Seq<char>>,
    tutors: Option<Seq<char>>,
) -> Seq<QueryView> {
    match groups {
        Some(g) => lookups(from, to, MatchField::Groups, terms_of(g)),
        None => match tutors {
            Some(t) => lookups(from, to, MatchField::Persons, terms_of(t)),
            None => seq![QueryView { begins_from_ms: millis(from), ends_by_ms: millis(to), matching: None }],
        },
    }
}

fn to_millis(s: Option<i64>) -> (r: Option<i64>)
    requires
        fits_millis(s),
    ensures
        r == millis(s),
{
    match s {
        Some(x) => Some(x * 1000),
        None => None,
    }
}

fn lookups_for(from: Option<i64>, to: Option<i64>, field: MatchField, terms: Vec<String>) -> (r: Vec<TimetableQuery>)
    requires
        fits_millis(from),
        fits_millis(to),
    ensures
        r@.map_values(|q: TimetableQuery| query_view(q)) == lookups(from, to, field, strings_view(terms@)),
{
    let mut out: Vec<TimetableQuery> = Vec::new();
    let mut i: usize = 0;
    let ghost t = strings_view(terms@);
    while i < terms.len()
        invariant
            i <= terms@.len(),
            fits_millis(from),
            fits_millis(to),
            t == strings_view(terms@),
            out@.map_values(|q: TimetableQuery| query_view(q)) == lookups(from, to, field, t).take(i as int),
        decreases terms.len() - i,
    {
        let term = string_of(&chars_of(terms[i].as_str()));
        let ghost prev = out@.map_values(|q: TimetableQuery| query_view(q));
        let q = TimetableQuery { begins_from_ms: to_millis(from), ends_by_ms: to_millis(to), matching: Some((field, term)) };
        assert(t[i as int] == terms@[i as int]@);
        assert(query_view(q) == lookups(from, to, field, t)[i as int]);
        out.push(q);
        assert(out@.map_values(|q: TimetableQuery| query_view(q)) =~= prev.push(query_view(q)));
        assert(out@.map_values(|q: TimetableQuery| query_view(q)) =~= lookups(from, to, field, t).take(i + 1));
        i = i + 1;
    }
    assert(lookups(from, to, field, t).take(t.len() as int) =~= lookups(from, to, field, t));
    out
}

/// The lookups that answer a timetable request for entries between the
/// Unix timestamps `date_from` and `date_to` (in seconds), of the
/// `;`-separated `groups`, or else of the `;`-separated `tutors`.
pub fn plan_timetable_queries(
    date_from: Option<i64>,
    date_to: Option<i64>,
    groups: Option<&str>,
    tutors: Option<&str>,
) -> (r: Vec<TimetableQuery>)
    requires
        fits_millis(date_from),
        fits_millis(date_to),
    ensures
        r@.map_values(|q: TimetableQuery| query_view(q)) == timetable_plan(
            date_from,
            date_to,
            match groups {
                Some(g) => Some(g@),
                None => None,
            },
            match tutors {
                Some(t) => Some(t@),
                None => None,
            },
        ),
{
    match groups {
        Some(g) => lookups_for(date_from, date_to, MatchField::Groups, split_terms(g)),
        None => match tutors {
            Some(t) => lookups_for(date_from, date_to, MatchField::Persons, split_terms(t)),
            None => {
                let mut out: Vec<TimetableQuery> = Vec::new();
                out.push(TimetableQuery { begins_from_ms: to_millis(date_from), ends_by_ms: to_millis(date_to), matching: None });
                assert(out@.map_values(|q: TimetableQuery| query_view(q)) =~= seq![
                    QueryView { begins_from_ms: millis(date_from), ends_by_ms: millis(date_to), matching: None },
                ]);
                out
            },
        },
    }
}

/// `s` without its `"` characters.
pub open spec fn without_quotes(s: Seq<char>) -> Seq<char>
    decreases s.len(),
{
    if s.len() == 0 {
        Seq::empty()
    } else if s.last() == '"' {
        without_quotes(s.drop_last())
    } else {
        without_quotes(s.drop_last()).push(s.last())
    }
}

/// A distinct value as the datastore prints it, without its quotes.
pub fn strip_quotes(s: &str) -> (r: String)
    ensures
        r@ == without_quotes(s@),
{
    let cs = chars_of(s);
    let mut out: Vec<char> = Vec::new();
    let mut i: usize = 0;
    while i < cs.len()
        invariant
            i <= cs@.len(),
            cs@ == s@,
            out@ == without_quotes(cs@.take(i as int)),
        decreases cs.len() - i,
    {
        assert(cs@.take(i + 1).drop_last() =~= cs@.take(i as int));
        if cs[i] != '"' {
            out.push(cs[i]);
        }
        i = i + 1;
    }
    assert(cs@.take(cs@.len() as int) =~= cs@);
    string_of(&out)
}

} // verus!

verus! {

/// Whether the entries are in order of their beginning.
pub open spec fn by_beginning(s: Seq<TimeTableEntry>) -> bool {
    forall|i: int, j: int| 0 <= i < j < s.len() ==> s[i].datetime_beginning <= s[j].datetime_beginning
}

/// The entries of `s` that begin at `k`, in their order in `s`.
pub open spec fn beginning_at(s: Seq<TimeTableEntry>, k: i64) -> Seq<TimeTableEntry> {
    s.filter(|e: TimeTableEntry| e.datetime_beginning == k)
}

/// `x` alone where it begins at `k`, else nothing.
pub open spec fn single_at(x: TimeTableEntry, k: i64) -> Seq<TimeTableEntry> {
    if x.datetime_beginning == k {
        seq![x]
    } else {
        Seq::empty()
    }
}

proof fn lemma_none_at(s: Seq<TimeTableEntry>, k: i64)
    requires
        forall|i: int| 0 <= i < s.len() ==> s[i].datetime_beginning != k,
    ensures
        beginning_at(s, k) == Seq::<TimeTableEntry>::empty(),
{
    let pred = |e: TimeTableEntry| e.datetime_beginning == k;
    let f = s.filter(pred);
    if f.len() > 0 {
        s.lemma_filter_pred(pred, 0);
        assert(f.contains(f[0]));
        s.lemma_filter_contains_rev(pred, f[0]);
    }
    assert(f =~= Seq::<TimeTableEntry>::empty());
}

proof fn lemma_single_at(x: TimeTableEntry, k: i64)
    ensures
        beginning_at(seq![x], k) == single_at(x, k),
{
    reveal_with_fuel(Seq::filter, 2);
    assert(seq![x].drop_last() =~= Seq::<TimeTableEntry>::empty());
    assert(seq![x].last() == x);
    assert(beginning_at(seq![x], k) =~= single_at(x, k));
}

proof fn lemma_split_at(a: Seq<TimeTableEntry>, b: Seq<TimeTableEntry>, k: i64)
    ensures
        beginning_at(a + b, k) == beginning_at(a, k) + beginning_at(b, k),
{
    Seq::filter_distributes_over_add(a, b, |e: TimeTableEntry| e.datetime_beginning == k);
}

/// Inserting `x` after every entry that begins no later and before every
/// entry that begins later puts it last among those that begin with it.
proof fn lemma_insert_keeps_order(prev: Seq<TimeTableEntry>, j: int, x: TimeTableEntry, k: i64)
    requires
        0 <= j <= prev.len(),
        forall|i: int| 0 <= i < j ==> prev[i].datetime_beginning <= x.datetime_beginning,
        forall|i: int| j <= i < prev.len() ==> prev[i].datetime_beginning > x.datetime_beginning,
    ensures
        beginning_at(prev.insert(j, x), k) == beginning_at(prev, k) + single_at(x, k),
{
    let lo = prev.subrange(0, j);
    let hi = prev.subrange(j, prev.len() as int);
    assert(prev =~= lo + hi);
    assert(prev.insert(j, x) =~= lo + seq![x] + hi);
    lemma_split_at(lo, hi, k);
    lemma_split_at(lo + seq![x], hi, k);
    lemma_split_at(lo, seq![x], k);
    lemma_single_at(x, k);
    if x.datetime_beginning == k {
        lemma_none_at(hi, k);
        assert(beginning_at(prev.insert(j, x), k) =~= beginning_at(prev, k) + single_at(x, k));
    } else {
        assert(beginning_at(prev.insert(j, x), k) =~= beginning_at(lo, k) + beginning_at(hi, k));
        assert(beginning_at(prev.insert(j, x), k) =~= beginning_at(prev, k) + single_at(x, k));
    }
}

/// The entries in order of their beginning; entries that begin together
/// keep their order.
pub fn order_by_beginning(entries: Vec<TimeTableEntry>) -> (r: Vec<TimeTableEntry>)
    ensures
        by_beginning(r@),
        r@.to_multiset() == entries@.to_multiset(),
        forall|k: i64| #[trigger] beginning_at(r@, k) == beginning_at(entries@, k),
{
    broadcast use vstd::seq_lib::group_to_multiset_ensures;
    broadcast use vstd::multiset::group_multiset_axioms;

    let mut rest = entries;
    let mut out: Vec<TimeTableEntry> = Vec::new();
    while rest.len() > 0
        invariant
            by_beginning(out@),
            out@.to_multiset().add(rest@.to_multiset()) == entries@.to_multiset(),
            forall|k: i64| #[trigger] beginning_at(entries@, k) == beginning_at(out@, k) + beginning_at(rest@, k),
        decreases rest.len(),
    {
        let ghost before = rest@;
        let x = rest.remove(0);
        assert(before.remove(0) == rest@);
        let key = x.datetime_beginning;
        let mut j: usize = 0;
        while j < out.len() && out[j].datetime_beginning <= key
            invariant
                j <= out@.len(),
                by_beginning(out@),
                forall|k: int| 0 <= k < j ==> out@[k].datetime_beginning <= key,
            decreases out.len() - j,
        {
            j = j + 1;
        }
        let ghost prev = out@;
        out.insert(j, x);
        assert(out@ == prev.insert(j as int, x));
        assert forall|a: int, b: int| 0 <= a < b < out@.len() implies out@[a].datetime_beginning
            <= out@[b].datetime_beginning by {
            if b < j {
            } else if b == j {
            } else if a < j {
                assert(out@[b] == prev[b - 1]);
                if j < prev.len() {
                    assert(prev[j as int].datetime_beginning > key);
                }
            } else if a == j {
                assert(out@[b] == prev[b - 1]);
                assert(prev[j as int].datetime_beginning > key);
                assert(prev[j as int].datetime_beginning <= prev[b - 1].datetime_beginning || b - 1 == j);
            } else {
                assert(out@[a] == prev[a - 1]);
                assert(out@[b] == prev[b - 1]);
            }
        }
        proof {
            vstd::seq_lib::to_multiset_insert(prev, j as int, x);
            vstd::seq_lib::to_multiset_remove(before, 0);
            vstd::seq_lib::to_multiset_contains(before, x);
            assert(before.contains(x)) by {
                assert(before[0] == x);
            }
        }
        assert(out@.to_multiset() == prev.to_multiset().insert(x));
        assert(rest@.to_multiset() == before.to_multiset().remove(x));
        assert(before.to_multiset().contains(x));
        assert(out@.to_multiset().add(rest@.to_multiset()) =~= entries@.to_multiset());
        assert forall|k: i64| #[trigger] beginning_at(entries@, k) == beginning_at(out@, k) + beginning_at(rest@, k) by {
            assert(before =~= seq![x] + rest@);
            lemma_split_at(seq![x], rest@, k);
            lemma_single_at(x, k);
            lemma_insert_keeps_order(prev, j as int, x, k);
            assert(beginning_at(entries@, k) == beginning_at(prev, k) + beginning_at(before, k));
            assert(beginning_at(out@, k) + beginning_at(rest@, k) =~= beginning_at(prev, k) + (single_at(x, k) + beginning_at(rest@, k)));
        }
    }
    assert(rest@.to_multiset() =~= vstd::multiset::Multiset::<TimeTableEntry>::empty());
    assert(out@.to_multiset().add(rest@.to_multiset()) =~= out@.to_multiset());
    assert forall|k: i64| #[trigger] beginning_at(out@, k) == beginning_at(entries@, k) by {
        lemma_none_at(rest@, k);
        assert(beginning_at(out@, k) + beginning_at(rest@, k) =~= beginning_at(out@, k));
    }
    out
}

/// The answer to a timetable request: `None` (nothing found) where the
/// lookups found no entry, else the entries in order of their beginning.
pub fn timetable_response(entries: Vec<TimeTableEntry>) -> (r: Option<Vec<TimeTableEntry>>)
    ensures
        entries@.len() == 0 <==> r is None,
        r matches Some(v) ==> by_beginning(v@) && v@.to_multiset() == entries@.to_multiset() && forall|k: i64|
            #[trigger] beginning_at(v@, k) == beginning_at(entries@, k),
{
    if entries.len() == 0 {
        None
    } else {
        Some(order_by_beginning(entries))
    }
}

} // verus!

verus! {

/// The distinct values of a list field, without quotes; `None` (nothing
/// found) where there are none.
pub fn distinct_values(values: &Vec<String>) -> (r: Option<Vec<String>>)
    ensures
        values@.len() == 0 <==> r is None,
        r matches Some(v) ==> v@.len() == values@.len() && forall|i: int|
            0 <= i < v@.len() ==> (#[trigger] v@[i])@ == without_quotes(values@[i]@),
{
    if values.len() == 0 {
        return None;
    }
    let mut out: Vec<String> = Vec::new();
    let mut i: usize = 0;
    while i < values.len()
        invariant
            i <= values@.len(),
            out@.len() == i,
            forall|k: int| 0 <= k < i ==> (#[trigger] out@[k])@ == without_quotes(values@[k]@),
        decreases values.len() - i,
    {
        out.push(strip_quotes(values[i].as_str()));
        i = i + 1;
    }
    Some(out)
}

} // verus!
