//! Which days a fetch request of the browser-driven scraper service covers.
use crate::html::opt_view;
use crate::timetable::strings_view;
use vstd::prelude::*;

verus! {

/// The calendar day `n` days after the day that `date` gives in the chrono
/// layout `layout`, in that layout; `None` where `date` does not parse or
/// the day is past the last one that chrono represents.
pub uninterp spec fn day_after(date: Seq<char>, layout: Seq<char>, n: u64) -> Option<Seq<char>>;

/// Relies on `chrono::NaiveDate::parse_from_str`,
/// `NaiveDate::checked_add_days` and `NaiveDate::format`.
#[verifier::external_body]
fn shift_day(date: &str, layout: &str, n: u64) -> (r: Option<String>)
    requires
        layout@ == request_layout(),
    ensures
        opt_view(r) == day_after(date@, layout@, n),
{
    let day = chrono::NaiveDate::parse_from_str(date, layout).ok()?;
    day.checked_add_days(chrono::Days::new(n)).map(|d| d.format(layout).to_string())
}

/// The layout of a requested day, `YYYY-MM-DD`.
pub open spec fn request_layout() -> Seq<char> {
    "%Y-%m-%d"@
}

/// The days that a request starting on `beginning_date` for
/// `amount_of_days` days covers (one day where no amount is given), as
/// `YYYY-MM-DD`; `None` where the date does not parse, which is a bad
/// request. The days run on from the first, and stop early only at the last
/// day that can be represented.
pub fn fetch_days(beginning_date: &str, amount_of_days: Option<u8>) -> (r: Option<Vec<String>>)
    ensures
        day_after(beginning_date@, request_layout(), 0) is None <==> r is None,
        r matches Some(v) ==> {
            let count: int = match amount_of_days {
                Some(n) => n as int,
                None => 1,
            };
            &&& v@.len() <= count
            &&& forall|i: int| 0 <= i < v@.len() ==> day_after(beginning_date@, request_layout(), i as u64) == Some(#[trigger] strings_view(v@)[i])
            &&& v@.len() < count ==> day_after(beginning_date@, request_layout(), v@.len() as u64) is None
        },
{
    if shift_day(beginning_date, "%Y-%m-%d", 0).is_none() {
        return None;
    }
    let count: u64 = match amount_of_days {
        Some(n) => n as u64,
        None => 1,
    };
    let mut out: Vec<String> = Vec::new();
    let mut i: u64 = 0;
    while i < count
        invariant
            i <= count <= 255,
            count == match amount_of_days {
                Some(n) => n as u64,
                None => 1u64,
            },
            day_after(beginning_date@, request_layout(), 0) is Some,
            out@.len() == i,
            forall|k: int| 0 <= k < i ==> day_after(beginning_date@, request_layout(), k as u64) == Some(#[trigger] strings_view(out@)[k]),
        decreases count - i,
    {
        match shift_day(beginning_date, "%Y-%m-%d", i) {
            Some(d) => {
                let ghost prev = out@;
                out.push(d);
                assert forall|k: int| 0 <= k < i + 1 implies day_after(beginning_date@, request_layout(), k as u64) == Some(#[trigger] strings_view(out@)[k]) by {
                    if k < i {
                        assert(strings_view(out@)[k] == strings_view(prev)[k]);
                    }
                }
            },
            None => {
                return Some(out);
            },
        }
        i = i + 1;
    }
    Some(out)
}

} // verus!
