//! The element ids of the classes scheduled on a day: every match of
//! `\d+;[zr]` in the day's HTML, each kept once.
use crate::text::{copy_str, same_text};
use crate::timetable::{opt_strings_view, strings_view};
use vstd::prelude::*;

verus! {

/// The texts of the successive non-overlapping matches of the regular
/// expression `pattern` in `hay`, or `None` where `pattern` is not valid.
pub uninterp spec fn regex_matches(pattern: Seq<char>, hay: Seq<char>) -> Option<Seq<Seq<char>>>;

/// Relies on `regex::Regex::new` and `Regex::find_iter`: the texts of all
/// matches, leftmost first.
#[verifier::external_body]
fn find_all(pattern: &str, hay: &str) -> (r: Option<Vec<String>>)
    ensures
        opt_strings_view(r) == regex_matches(pattern@, hay@),
{
    let re = regex::Regex::new(pattern).ok()?;
    Some(re.find_iter(hay).map(|m| m.as_str().to_string()).collect())
}

/// The pattern of an entry's element id.
pub open spec fn id_pattern() -> Seq<char> {
    "\\d+;[zr]"@
}

/// `s` with each element kept at its first occurrence only.
pub open spec fn dedup(s: Seq<Seq<char>>) -> Seq<Seq<char>>
    decreases s.len(),
{
    if s.len() == 0 {
        Seq::empty()
    } else {
        let r = dedup(s.drop_last());
        if r.contains(s.last()) {
            r
        } else {
            r.push(s.last())
        }
    }
}

/// The entry ids of a day's HTML.
pub open spec fn entry_ids(body: Seq<char>) -> Seq<Seq<char>> {
    match regex_matches(id_pattern(), body) {
        Some(m) => dedup(m),
        None => Seq::empty(),
    }
}

/// `matches` with each id kept once, at its first occurrence.
pub fn collect_entry_ids(matches: &Vec<String>) -> (r: Vec<String>)
    ensures
        strings_view(r@) == dedup(strings_view(matches@)),
{
    let ghost m = strings_view(matches@);
    let mut out: Vec<String> = Vec::new();
    let mut i: usize = 0;
    while i < matches.len()
        invariant
            i <= matches@.len(),
            m == strings_view(matches@),
            strings_view(out@) == dedup(m.take(i as int)),
        decreases matches.len() - i,
    {
        assert(m.take(i + 1).drop_last() =~= m.take(i as int));
        assert(m.take(i + 1).last() == matches@[i as int]@);
        let mut found = false;
        let mut j: usize = 0;
        while j < out.len()
            invariant
                j <= out@.len(),
                i < matches@.len(),
                found <==> exists|k: int| 0 <= k < j && out@[k]@ == matches@[i as int]@,
            decreases out.len() - j,
        {
            if same_text(out[j].as_str(), matches[i].as_str()) {
                found = true;
            }
            j = j + 1;
        }
        let ghost prev = strings_view(out@);
        proof {
            if found {
                let k = choose|k: int| 0 <= k < out@.len() && out@[k]@ == matches@[i as int]@;
                assert(prev[k] == matches@[i as int]@);
            } else {
                assert forall|k: int| 0 <= k < prev.len() implies prev[k] != matches@[i as int]@ by {
                    assert(prev[k] == out@[k]@);
                }
            }
        }
        if !found {
            out.push(copy_str(matches[i].as_str()));
            assert(strings_view(out@) =~= prev.push(matches@[i as int]@));
        }
        i = i + 1;
    }
    assert(m.take(m.len() as int) =~= m);
    out
}

/// The entry ids of a day's HTML, each once, in order of first occurrence.
pub fn find_entry_ids(body: &str) -> (r: Vec<String>)
    ensures
        strings_view(r@) == entry_ids(body@),
{
    match find_all("\\d+;[zr]", body) {
        Some(m) => collect_entry_ids(&m),
        None => Vec::new(),
    }
}

/// Collapsing keeps exactly the elements of the input.
pub proof fn lemma_dedup_elements(s: Seq<Seq<char>>)
    ensures
        dedup(s).to_set() == s.to_set(),
        dedup(s).no_duplicates(),
    decreases s.len(),
{
    if s.len() > 0 {
        let p = s.drop_last();
        lemma_dedup_elements(p);
        let r = dedup(p);
        assert(s =~= p.push(s.last()));
        p.lemma_push_to_set_commute(s.last());
        if !r.contains(s.last()) {
            r.lemma_push_to_set_commute(s.last());
            assert forall|a: int, b: int| 0 <= a < b < r.push(s.last()).len() implies r.push(
                s.last(),
            )[a] != r.push(s.last())[b] by {
                if b == r.len() {
                    assert(r.push(s.last())[a] == r[a]);
                }
            }
        } else {
            assert(r.to_set().contains(s.last()));
            assert(r.to_set().insert(s.last()) =~= r.to_set());
        }
    } else {
        assert(dedup(s).to_set() =~= s.to_set());
    }
}

/// Two days whose HTML holds the same ids, in any order and any number of
/// times, give the same id set: retrying a day against an unchanged server
/// finds the same entries.
pub proof fn lemma_same_day_same_ids(first: Seq<Seq<char>>, second: Seq<Seq<char>>)
    requires
        first.to_set() == second.to_set(),
    ensures
        dedup(first).to_set() == dedup(second).to_set(),
        dedup(first).len() == dedup(second).len(),
{
    lemma_dedup_elements(first);
    lemma_dedup_elements(second);
    dedup(first).unique_seq_to_set();
    dedup(second).unique_seq_to_set();
}

} // verus!
