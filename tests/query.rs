use pjatk_scrapper::query::{plan_timetable_queries, split_terms, strip_quotes, MatchField};

#[test]
fn terms_drop_empty_ones() {
    assert_eq!(split_terms("WIs I.2 - 46c;;WIS I.2 - 23c;"), vec!["WIs I.2 - 46c".to_string(), "WIS I.2 - 23c".to_string()]);
    assert_eq!(split_terms(""), Vec::<String>::new());
}

#[test]
fn groups_take_precedence_over_tutors() {
    let qs = plan_timetable_queries(Some(1700000000), None, Some("a;b"), Some("t"));
    assert_eq!(qs.len(), 2);
    assert_eq!(qs[0].begins_from_ms, Some(1700000000000));
    assert_eq!(qs[0].ends_by_ms, None);
    assert_eq!(qs[0].matching, Some((MatchField::Groups, "a".to_string())));
    assert_eq!(qs[1].matching, Some((MatchField::Groups, "b".to_string())));
}

#[test]
fn tutors_then_everything() {
    let qs = plan_timetable_queries(None, Some(5), None, Some(";Kowalski Jan"));
    assert_eq!(qs.len(), 1);
    assert_eq!(qs[0].ends_by_ms, Some(5000));
    assert_eq!(qs[0].matching, Some((MatchField::Persons, "Kowalski Jan".to_string())));
    let all = plan_timetable_queries(None, None, None, None);
    assert_eq!(all.len(), 1);
    assert_eq!(all[0].matching, None);
}

#[test]
fn quotes_are_stripped() {
    assert_eq!(strip_quotes("\"WIs I.2 - 46c\""), "WIs I.2 - 46c");
    assert_eq!(strip_quotes("plain"), "plain");
}

use pjatk_scrapper::query::{order_by_beginning, timetable_response};
use pjatk_scrapper::timetable::TimeTableEntry;

fn entry(room: &str, beginning: i64) -> TimeTableEntry {
    TimeTableEntry {
        title: None,
        persons: vec!["Kowalski Jan".to_string()],
        details: None,
        type_of: "Wykład".to_string(),
        subjects: vec!["SOP".to_string()],
        subject_codes: vec!["SOP".to_string()],
        groups: None,
        students_count: None,
        building: "B".to_string(),
        room: room.to_string(),
        datetime_beginning: beginning,
        datetime_ending: beginning + 5400,
    }
}

#[test]
fn entries_come_in_order_of_beginning() {
    let sorted = order_by_beginning(vec![entry("a", 30), entry("b", 10), entry("c", 20), entry("d", 10)]);
    let rooms: Vec<&str> = sorted.iter().map(|e| e.room.as_str()).collect();
    assert_eq!(rooms, vec!["b", "d", "c", "a"]);
}

#[test]
fn nothing_found_is_none() {
    assert!(timetable_response(vec![]).is_none());
    let found = timetable_response(vec![entry("x", 2), entry("y", 1)]).unwrap();
    assert_eq!(found[0].room, "y");
}

use pjatk_scrapper::query::distinct_values;
use pjatk_scrapper::schedule::fetch_days;

#[test]
fn distinct_values_are_unquoted() {
    assert_eq!(distinct_values(&vec![]), None);
    assert_eq!(
        distinct_values(&vec!["\"WIs I.2 - 46c\"".to_string(), "\"Kowalski Jan\"".to_string()]),
        Some(vec!["WIs I.2 - 46c".to_string(), "Kowalski Jan".to_string()])
    );
}

#[test]
fn fetch_days_runs_over_month_end() {
    assert_eq!(
        fetch_days("2024-01-30", Some(3)),
        Some(vec!["2024-01-30".to_string(), "2024-01-31".to_string(), "2024-02-01".to_string()])
    );
    assert_eq!(fetch_days("2024-02-28", None), Some(vec!["2024-02-28".to_string()]));
    assert_eq!(fetch_days("2024-02-28", Some(0)), Some(vec![]));
    assert_eq!(fetch_days("28.02.2024", Some(2)), None);
}
