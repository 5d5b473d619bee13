use pjatk_scrapper::text::{same_text, trim_str};
use pjatk_scrapper::timetable::{extract_date_from_string, split_tokens, Field, ParseError, TimeTableEntry};

fn tooltip(date: &str, begin: &str, end: &str, groups: &str, room: Option<&str>) -> String {
    let mut html = String::new();
    html.push_str("<div class=\"tip\"><table>");
    html.push_str(&format!("<tr><td><span id=\"ctl06_DataZajecLabel\">{}</span></td></tr>", date));
    html.push_str(&format!("<tr><td><span id=\"ctl06_GodzRozpLabel\"> {} </span></td></tr>", begin));
    html.push_str(&format!("<tr><td><span id=\"ctl06_GodzZakonLabel\">{}</span></td></tr>", end));
    html.push_str("<tr><td><span id=\"ctl06_DydaktycyLabel\">Kowalski Jan</span></td></tr>");
    html.push_str("<tr><td><span id=\"ctl06_TypZajecLabel\">Wykład</span></td></tr>");
    html.push_str("<tr><td><span id=\"ctl06_NazwaPrzedmiotyLabel\">SOP</span></td></tr>");
    html.push_str("<tr><td><span id=\"ctl06_KodPrzedmiotuLabel\">SOP</span></td></tr>");
    html.push_str(&format!("<tr><td><span id=\"ctl06_GrupyLabel\">{}</span></td></tr>", groups));
    html.push_str("<tr><td><span id=\"ctl06_BudynekLabel\">B</span></td></tr>");
    if let Some(room) = room {
        html.push_str(&format!("<tr><td><span id=\"ctl06_SalaLabel\">{}</span></td></tr>", room));
    }
    html.push_str("</table></div>");
    html
}

/// 2024-01-15T07:00:00Z and 2024-01-15T08:30:00Z.
const BEGIN_UTC: i64 = 1705302000;
const END_UTC: i64 = 1705307400;

#[test]
fn decodes_single_entry_golden() {
    let html = tooltip("15.01.2024", "08:00:00", "09:30:00", "---", Some("B/227"));
    let e = TimeTableEntry::try_from(&html).expect("decodes");
    assert_eq!(e.title, None);
    assert_eq!(e.details, None);
    assert_eq!(e.students_count, None);
    assert_eq!(e.persons, vec!["Kowalski Jan".to_string()]);
    assert_eq!(e.type_of, "Wykład");
    assert_eq!(e.subjects, vec!["SOP".to_string()]);
    assert_eq!(e.subject_codes, vec!["SOP".to_string()]);
    assert_eq!(e.groups, None);
    assert_eq!(e.building, "B");
    assert_eq!(e.room, "B/227");
    assert_eq!(e.datetime_beginning, BEGIN_UTC);
    assert_eq!(e.datetime_ending, END_UTC);
    assert_eq!(e.get_datetime_beginning(), BEGIN_UTC);
}

#[test]
fn decodes_summer_time_offset() {
    let html = tooltip("15.07.2024", "08:00:00", "09:30:00", "---", Some("A/1"));
    let e = TimeTableEntry::try_from(&html).expect("decodes");
    // 2024-07-15T06:00:00Z: Warsaw is two hours ahead in summer.
    assert_eq!(e.datetime_beginning, 1721023200);
    assert_eq!(e.datetime_ending - e.datetime_beginning, 5400);
}

#[test]
fn decoded_entries_begin_before_they_end() {
    for (b, e) in [("08:00:00", "09:30:00"), ("00:00:00", "23:59:59"), ("12:00:00", "12:00:01")] {
        let html = tooltip("10.03.2024", b, e, "---", Some("R"));
        let entry = TimeTableEntry::try_from(&html).expect("decodes");
        assert!(entry.datetime_beginning < entry.datetime_ending);
    }
}

#[test]
fn ending_not_after_beginning_is_refused() {
    let html = tooltip("15.01.2024", "10:00:00", "09:30:00", "---", Some("B/227"));
    assert_eq!(TimeTableEntry::try_from(&html).unwrap_err(), ParseError::EndsBeforeStart);
    let html = tooltip("15.01.2024", "10:00:00", "10:00:00", "---", Some("B/227"));
    assert_eq!(TimeTableEntry::try_from(&html).unwrap_err(), ParseError::EndsBeforeStart);
}

#[test]
fn nonexistent_local_time_is_refused() {
    // 02:30 on 31 March 2024 does not exist in Warsaw (clocks jump to 03:00).
    let html = tooltip("31.03.2024", "02:30:00", "04:00:00", "---", Some("B/227"));
    assert_eq!(TimeTableEntry::try_from(&html).unwrap_err(), ParseError::BadTime(Field::HourBeginning));
}

#[test]
fn ambiguous_local_time_is_refused() {
    // 02:30 on 27 October 2024 happens twice in Warsaw.
    let html = tooltip("27.10.2024", "01:00:00", "02:30:00", "---", Some("B/227"));
    assert_eq!(TimeTableEntry::try_from(&html).unwrap_err(), ParseError::BadTime(Field::HourEnding));
}

#[test]
fn malformed_date_is_refused() {
    let html = tooltip("2024-01-15", "08:00:00", "09:30:00", "---", Some("B/227"));
    assert_eq!(TimeTableEntry::try_from(&html).unwrap_err(), ParseError::BadTime(Field::HourBeginning));
}

#[test]
fn missing_room_is_named() {
    let html = tooltip("15.01.2024", "08:00:00", "09:30:00", "---", None);
    let err = TimeTableEntry::try_from(&html).unwrap_err();
    assert_eq!(err, ParseError::Missing(Field::Room));
    assert_eq!(err.cause(), Some(Field::Room));
    assert_eq!(err.message(), "Parse error: room");
}

#[test]
fn empty_required_text_counts_as_missing() {
    let html = tooltip("15.01.2024", "08:00:00", "09:30:00", "---", Some("   "));
    assert_eq!(TimeTableEntry::try_from(&html).unwrap_err(), ParseError::Missing(Field::Room));
}

#[test]
fn missing_date_is_named_first() {
    let html = "<div><span id=\"ctl06_SalaLabel\">B/227</span></div>";
    let err = TimeTableEntry::try_from(html).unwrap_err();
    assert_eq!(err, ParseError::Missing(Field::Date));
    assert_eq!(err.message(), "Parse error: date");
}

#[test]
fn all_sentinel_groups_are_absent() {
    let html = tooltip("15.01.2024", "08:00:00", "09:30:00", " --- , ---,", Some("B/227"));
    assert_eq!(TimeTableEntry::try_from(&html).unwrap().groups, None);
}

#[test]
fn other_groups_are_present() {
    let html = tooltip("15.01.2024", "08:00:00", "09:30:00", "WIs I.2 - 46c, ---", Some("B/227"));
    let groups = TimeTableEntry::try_from(&html).unwrap().groups;
    assert_eq!(groups, Some(vec!["WIs I.2 - 46c".to_string(), "---".to_string()]));
}

#[test]
fn multi_values_are_split_and_trimmed() {
    assert_eq!(
        split_tokens("  Niezgoda Adam ,Tomaszewski Michał, ,, "),
        vec!["Niezgoda Adam".to_string(), "Tomaszewski Michał".to_string()]
    );
    assert_eq!(split_tokens("   "), Vec::<String>::new());
    assert_eq!(split_tokens("one"), vec!["one".to_string()]);
}

#[test]
fn trims_unicode_whitespace() {
    assert_eq!(trim_str("\u{a0}\t x y \n\u{3000}"), "x y");
    assert_eq!(trim_str(""), "");
    assert!(same_text("ab", "ab"));
    assert!(!same_text("ab", "a"));
}

#[test]
fn interval_of_date_and_hours() {
    assert_eq!(extract_date_from_string("15.01.2024", "08:00:00", "09:30:00"), Ok((BEGIN_UTC, END_UTC)));
    assert_eq!(
        extract_date_from_string("15.01.2024", "8", "09:30:00"),
        Err(ParseError::BadTime(Field::HourBeginning))
    );
}
