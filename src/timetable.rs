//! The tooltip decoder: one class occurrence, read from the tooltip's HTML
//! into a normalized record.
use crate::html::{html_limit, opt_view, select_text, selected_text};
use crate::text::{
    chars_of, concat, split, split_chars, string_of, trim, trim_chars, trim_str, views_of,
};
use chrono::TimeZone;
use vstd::prelude::*;

verus! {

/// The UTC instant, in seconds since the Unix epoch, of the local civil time
/// that `text` gives in the layout `format`, in the time zone named `zone`;
/// `None` where the text does not parse, the zone is unknown, or the local
/// time is ambiguous or does not exist there.
pub uninterp spec fn zoned_utc_seconds(text: Seq<char>, format: Seq<char>, zone: Seq<char>) -> Option<i64>;

/// Relies on `chrono::NaiveDateTime::parse_from_str`, `chrono_tz::Tz`'s
/// `FromStr` and `TimeZone::from_local_datetime(..).single()`.
#[verifier::external_body]
fn local_text_to_utc(text: &str, format: &str, zone: &str) -> (r: Option<i64>)
    ensures
        r == zoned_utc_seconds(text@, format@, zone@),
{
    let naive = chrono::NaiveDateTime::parse_from_str(text, format).ok()?;
    let tz: chrono_tz::Tz = zone.parse().ok()?;
    tz.from_local_datetime(&naive).single().map(|t| t.timestamp())
}

/// The layout of the tooltip's date and hour, joined by one space.
pub open spec fn time_layout() -> Seq<char> {
    "%d.%m.%Y %T"@
}

/// The civil time zone of the timetable.
pub open spec fn time_zone() -> Seq<char> {
    "Europe/Warsaw"@
}

/// The UTC instant of a tooltip's date and hour.
pub open spec fn instant_of(date: Seq<char>, hour: Seq<char>) -> Option<i64> {
    zoned_utc_seconds(date + " "@ + hour, time_layout(), time_zone())
}

/// The fields that a tooltip must carry.
#[derive(Debug, Clone, Copy, PartialEq, Eq, Structural)]
pub enum Field {
    Date,
    HourBeginning,
    HourEnding,
    Persons,
    TypeOf,
    Subjects,
    SubjectCodes,
    Groups,
    Building,
    Room,
}

impl Field {
    /// The field's name, as error messages give it.
    pub fn name(&self) -> (r: &'static str)
        ensures
            r@ == field_name(*self),
    {
        match self {
            Field::Date => "date",
            Field::HourBeginning => "hour_beginning",
            Field::HourEnding => "hour_ending",
            Field::Persons => "persons",
            Field::TypeOf => "type_of",
            Field::Subjects => "subjects",
            Field::SubjectCodes => "subject_codes",
            Field::Groups => "groups",
            Field::Building => "building",
            Field::Room => "room",
        }
    }
}

pub open spec fn field_name(f: Field) -> Seq<char> {
    match f {
        Field::Date => "date"@,
        Field::HourBeginning => "hour_beginning"@,
        Field::HourEnding => "hour_ending"@,
        Field::Persons => "persons"@,
        Field::TypeOf => "type_of"@,
        Field::Subjects => "subjects"@,
        Field::SubjectCodes => "subject_codes"@,
        Field::Groups => "groups"@,
        Field::Building => "building"@,
        Field::Room => "room"@,
    }
}

/// Why a tooltip could not be decoded.
#[derive(Debug, Clone, Copy, PartialEq, Eq, Structural)]
pub enum ParseError {
    /// The field's element is absent, or its text is empty.
    Missing(Field),
    /// The date and this hour give no single instant in the civil zone.
    BadTime(Field),
    /// The class does not end after it begins.
    EndsBeforeStart,
}

impl ParseError {
    /// The field that the error is about, if any.
    pub fn cause(&self) -> (r: Option<Field>)
        ensures
            r == match *self {
                ParseError::Missing(f) => Some(f),
                ParseError::BadTime(f) => Some(f),
                ParseError::EndsBeforeStart => None::<Field>,
            },
    {
        match self {
            ParseError::Missing(f) => Some(*f),
            ParseError::BadTime(f) => Some(*f),
            ParseError::EndsBeforeStart => None,
        }
    }

    /// A one-line description.
    pub fn message(&self) -> (r: String)
        ensures
            r@ == match *self {
                ParseError::Missing(f) => "Parse error: "@ + field_name(f),
                ParseError::BadTime(f) => "Bad time: "@ + field_name(f),
                ParseError::EndsBeforeStart => "Parse error: ending before beginning"@,
            },
    {
        match self {
            ParseError::Missing(f) => concat("Parse error: ", f.name()),
            ParseError::BadTime(f) => concat("Bad time: ", f.name()),
            ParseError::EndsBeforeStart => crate::text::copy_str("Parse error: ending before beginning"),
        }
    }
}

/// The text of an optional field: trimmed, absent where its element is.
pub open spec fn optional_text(html: Seq<char>, selector: Seq<char>) -> Option<Seq<char>> {
    match selected_text(html, selector) {
        Some(t) => Some(trim(t)),
        None => None,
    }
}

/// The text of a required field: trimmed, and `None` where its element is
/// absent or the trimmed text is empty.
pub open spec fn required_text(html: Seq<char>, selector: Seq<char>) -> Option<Seq<char>> {
    match selected_text(html, selector) {
        Some(t) => if trim(t).len() > 0 {
            Some(trim(t))
        } else {
            None
        },
        None => None,
    }
}

/// The trimmed, non-empty ones among `fields`, in order.
pub open spec fn kept_tokens(fields: Seq<Seq<char>>) -> Seq<Seq<char>>
    decreases fields.len(),
{
    if fields.len() == 0 {
        Seq::empty()
    } else {
        let r = kept_tokens(fields.drop_last());
        if trim(fields.last()).len() > 0 {
            r.push(trim(fields.last()))
        } else {
            r
        }
    }
}

/// A multi-valued text: split on `,`, each token trimmed, empty ones dropped.
pub open spec fn tokens_of(text: Seq<char>) -> Seq<Seq<char>> {
    kept_tokens(split(trim(text), ','))
}

/// The tokens of a multi-valued field; `None` where its element is absent
/// or it has no token.
pub open spec fn required_list(html: Seq<char>, selector: Seq<char>) -> Option<Seq<Seq<char>>> {
    match selected_text(html, selector) {
        Some(t) => if tokens_of(t).len() > 0 {
            Some(tokens_of(t))
        } else {
            None
        },
        None => None,
    }
}

/// The group sentinel.
pub open spec fn sentinel() -> Seq<char> {
    "---"@
}

/// Groups: absent where every token is the sentinel, else the tokens.
pub open spec fn groups_of(tokens: Seq<Seq<char>>) -> Option<Seq<Seq<char>>> {
    if forall|i: int| 0 <= i < tokens.len() ==> tokens[i] == sentinel() {
        None
    } else {
        Some(tokens)
    }
}

pub open spec fn sel_date() -> Seq<char> { "#ctl06_DataZajecLabel"@ }
pub open spec fn sel_hour_beginning() -> Seq<char> { "#ctl06_GodzRozpLabel"@ }
pub open spec fn sel_hour_ending() -> Seq<char> { "#ctl06_GodzZakonLabel"@ }
pub open spec fn sel_title() -> Seq<char> { "#ctl06_TytulRezerwacjiLabel"@ }
pub open spec fn sel_persons() -> Seq<char> { "#ctl06_OsobaRezerwujacaLabel, #ctl06_DydaktycyLabel"@ }
pub open spec fn sel_details() -> Seq<char> { "#ctl06_OpisLabel"@ }
pub open spec fn sel_type() -> Seq<char> { "#ctl06_TypRezerwacjiLabel, #ctl06_TypZajecLabel"@ }
pub open spec fn sel_subjects() -> Seq<char> { "#ctl06_NazwyPrzedmiotowLabel, #ctl06_NazwaPrzedmiotyLabel"@ }
pub open spec fn sel_codes() -> Seq<char> { "#ctl06_KodyPrzedmiotowLabel, #ctl06_KodPrzedmiotuLabel"@ }
pub open spec fn sel_groups() -> Seq<char> { "#ctl06_GrupyStudenckieLabel, #ctl06_GrupyLabel"@ }
pub open spec fn sel_students() -> Seq<char> { "#ctl06_LiczbaStudentowLabel"@ }
pub open spec fn sel_building() -> Seq<char> { "#ctl06_BudynekLabel"@ }
pub open spec fn sel_room() -> Seq<char> { "#ctl06_SalaLabel"@ }

/// A decoded entry, over sequences.
pub struct EntryView {
    pub title: Option<Seq<char>>,
    pub persons: Seq<Seq<char>>,
    pub details: Option<Seq<char>>,
    pub type_of: Seq<char>,
    pub subjects: Seq<Seq<char>>,
    pub subject_codes: Seq<Seq<char>>,
    pub groups: Option<Seq<Seq<char>>>,
    pub students_count: Option<Seq<char>>,
    pub building: Seq<char>,
    pub room: Seq<char>,
    pub beginning: i64,
    pub ending: i64,
}

/// The record's constraints: required texts and lists are non-empty, present
/// groups are non-empty, and the class ends after it begins.
pub open spec fn entry_wf(e: EntryView) -> bool {
    &&& e.persons.len() > 0
    &&& e.type_of.len() > 0
    &&& e.subjects.len() > 0
    &&& e.subject_codes.len() > 0
    &&& (e.groups matches Some(g) ==> g.len() > 0)
    &&& e.building.len() > 0
    &&& e.room.len() > 0
    &&& e.beginning < e.ending
}

/// The fields after the times: the rest of the decoding.
pub open spec fn decode_rest(html: Seq<char>, b: i64, e: i64) -> Result<EntryView, ParseError> {
    match required_list(html, sel_persons()) {
        None => Err(ParseError::Missing(Field::Persons)),
        Some(persons) => match required_text(html, sel_type()) {
            None => Err(ParseError::Missing(Field::TypeOf)),
            Some(type_of) => match required_list(html, sel_subjects()) {
                None => Err(ParseError::Missing(Field::Subjects)),
                Some(subjects) => match required_list(html, sel_codes()) {
                    None => Err(ParseError::Missing(Field::SubjectCodes)),
                    Some(codes) => match selected_text(html, sel_groups()) {
                        None => Err(ParseError::Missing(Field::Groups)),
                        Some(g) => match required_text(html, sel_building()) {
                            None => Err(ParseError::Missing(Field::Building)),
                            Some(building) => match required_text(html, sel_room()) {
                                None => Err(ParseError::Missing(Field::Room)),
                                Some(room) => Ok(
                                    EntryView {
                                        title: optional_text(html, sel_title()),
                                        persons,
                                        details: optional_text(html, sel_details()),
                                        type_of,
                                        subjects,
                                        subject_codes: codes,
                                        groups: groups_of(tokens_of(g)),
                                        students_count: optional_text(html, sel_students()),
                                        building,
                                        room,
                                        beginning: b,
                                        ending: e,
                                    },
                                ),
                            },
                        },
                    },
                },
            },
        },
    }
}

/// What a tooltip decodes to.
pub open spec fn decode(html: Seq<char>) -> Result<EntryView, ParseError> {
    match required_text(html, sel_date()) {
        None => Err(ParseError::Missing(Field::Date)),
        Some(date) => match required_text(html, sel_hour_beginning()) {
            None => Err(ParseError::Missing(Field::HourBeginning)),
            Some(hb) => match required_text(html, sel_hour_ending()) {
                None => Err(ParseError::Missing(Field::HourEnding)),
                Some(he) => match instant_of(date, hb) {
                    None => Err(ParseError::BadTime(Field::HourBeginning)),
                    Some(b) => match instant_of(date, he) {
                        None => Err(ParseError::BadTime(Field::HourEnding)),
                        Some(e) => if b < e {
                            decode_rest(html, b, e)
                        } else {
                            Err(ParseError::EndsBeforeStart)
                        },
                    },
                },
            },
        },
    }
}

/// The views of a list of strings.
pub open spec fn strings_view(v: Seq<String>) -> Seq<Seq<char>> {
    v.map_values(|s: String| s@)
}

/// The views of an optional list of strings.
pub open spec fn opt_strings_view(o: Option<Vec<String>>) -> Option<Seq<Seq<char>>> {
    match o {
        Some(v) => Some(strings_view(v@)),
        None => None,
    }
}

/// One class occurrence. Instants are seconds since the Unix epoch, in UTC.
#[derive(Debug)]
pub struct TimeTableEntry {
    pub title: Option<String>,
    pub persons: Vec<String>,
    pub details: Option<String>,
    pub type_of: String,
    pub subjects: Vec<String>,
    pub subject_codes: Vec<String>,
    pub groups: Option<Vec<String>>,
    pub students_count: Option<String>,
    pub building: String,
    pub room: String,
    pub datetime_beginning: i64,
    pub datetime_ending: i64,
}

impl View for TimeTableEntry {
    type V = EntryView;

    open spec fn view(&self) -> EntryView {
        EntryView {
            title: opt_view(self.title),
            persons: strings_view(self.persons@),
            details: opt_view(self.details),
            type_of: self.type_of@,
            subjects: strings_view(self.subjects@),
            subject_codes: strings_view(self.subject_codes@),
            groups: opt_strings_view(self.groups),
            students_count: opt_view(self.students_count),
            building: self.building@,
            room: self.room@,
            beginning: self.datetime_beginning,
            ending: self.datetime_ending,
        }
    }
}

/// The tokens of a multi-valued text.
pub fn split_tokens(text: &str) -> (r: Vec<String>)
    ensures
        strings_view(r@) == tokens_of(text@),
{
    let cs = chars_of(text);
    let t = trim_chars(&cs);
    let fields = split_chars(&t, ',');
    let ghost f = split(trim(text@), ',');
    let mut out: Vec<String> = Vec::new();
    let mut i: usize = 0;
    while i < fields.len()
        invariant
            i <= fields@.len(),
            views_of(fields@) == f,
            strings_view(out@) == kept_tokens(f.take(i as int)),
        decreases fields.len() - i,
    {
        let w = trim_chars(&fields[i]);
        let ghost prev = out@;
        assert(f.take(i + 1).drop_last() =~= f.take(i as int));
        assert(f.take(i + 1).last() == fields@[i as int]@);
        if w.len() > 0 {
            out.push(string_of(&w));
            assert(strings_view(out@) =~= strings_view(prev).push(w@));
        }
        i = i + 1;
    }
    assert(f.take(f.len() as int) =~= f);
    out
}

/// Whether every token is the group sentinel.
fn all_sentinel(v: &Vec<String>) -> (r: bool)
    ensures
        r == (forall|i: int| 0 <= i < v@.len() ==> strings_view(v@)[i] == sentinel()),
{
    let mut i: usize = 0;
    while i < v.len()
        invariant
            i <= v@.len(),
            forall|j: int| 0 <= j < i ==> strings_view(v@)[j] == sentinel(),
        decreases v.len() - i,
    {
        if !crate::text::same_text(v[i].as_str(), "---") {
            assert(strings_view(v@)[i as int] == v@[i as int]@);
            return false;
        }
        i = i + 1;
    }
    true
}

/// A required text field.
fn get_data(html: &str, selector: &str) -> (r: Option<String>)
    requires
        html@.len() <= html_limit(),
    ensures
        opt_view(r) == required_text(html@, selector@),
{
    match select_text(html, selector) {
        Some(t) => {
            let s = trim_str(t.as_str());
            if s.as_str().unicode_len() > 0 {
                Some(s)
            } else {
                None
            }
        },
        None => None,
    }
}

/// An optional text field.
fn get_data_option(html: &str, selector: &str) -> (r: Option<String>)
    requires
        html@.len() <= html_limit(),
    ensures
        opt_view(r) == optional_text(html@, selector@),
{
    match select_text(html, selector) {
        Some(t) => Some(trim_str(t.as_str())),
        None => None,
    }
}

/// A required multi-valued field.
fn get_multiple_data(html: &str, selector: &str) -> (r: Option<Vec<String>>)
    requires
        html@.len() <= html_limit(),
    ensures
        opt_strings_view(r) == required_list(html@, selector@),
{
    match select_text(html, selector) {
        Some(t) => {
            let v = split_tokens(t.as_str());
            if v.len() > 0 {
                Some(v)
            } else {
                None
            }
        },
        None => None,
    }
}

/// The instant of a tooltip's date and hour.
fn instant(date: &str, hour: &str) -> (r: Option<i64>)
    ensures
        r == instant_of(date@, hour@),
{
    let with_space = concat(date, " ");
    let text = concat(with_space.as_str(), hour);
    local_text_to_utc(text.as_str(), "%d.%m.%Y %T", "Europe/Warsaw")
}

impl TimeTableEntry {
    /// Decodes a tooltip's HTML, of at most `html_limit()` characters.
    pub fn try_from(html: &str) -> (r: Result<TimeTableEntry, ParseError>)
        requires
            html@.len() <= html_limit(),
        ensures
            match r {
                Ok(e) => decode(html@) == Ok::<EntryView, ParseError>(e@),
                Err(err) => decode(html@) == Err::<EntryView, ParseError>(err),
            },
            r is Ok ==> entry_wf(r->Ok_0@),
    {
        let date = match get_data(html, "#ctl06_DataZajecLabel") {
            Some(d) => d,
            None => return Err(ParseError::Missing(Field::Date)),
        };
        let hour_beginning = match get_data(html, "#ctl06_GodzRozpLabel") {
            Some(d) => d,
            None => return Err(ParseError::Missing(Field::HourBeginning)),
        };
        let hour_ending = match get_data(html, "#ctl06_GodzZakonLabel") {
            Some(d) => d,
            None => return Err(ParseError::Missing(Field::HourEnding)),
        };
        let (datetime_beginning, datetime_ending) = extract_date_from_string(
            date.as_str(),
            hour_beginning.as_str(),
            hour_ending.as_str(),
        )?;
        let persons = match get_multiple_data(html, "#ctl06_OsobaRezerwujacaLabel, #ctl06_DydaktycyLabel") {
            Some(v) => v,
            None => return Err(ParseError::Missing(Field::Persons)),
        };
        let type_of = match get_data(html, "#ctl06_TypRezerwacjiLabel, #ctl06_TypZajecLabel") {
            Some(v) => v,
            None => return Err(ParseError::Missing(Field::TypeOf)),
        };
        let subjects = match get_multiple_data(html, "#ctl06_NazwyPrzedmiotowLabel, #ctl06_NazwaPrzedmiotyLabel") {
            Some(v) => v,
            None => return Err(ParseError::Missing(Field::Subjects)),
        };
        let subject_codes = match get_multiple_data(html, "#ctl06_KodyPrzedmiotowLabel, #ctl06_KodPrzedmiotuLabel") {
            Some(v) => v,
            None => return Err(ParseError::Missing(Field::SubjectCodes)),
        };
        let group_tokens = match select_text(html, "#ctl06_GrupyStudenckieLabel, #ctl06_GrupyLabel") {
            Some(t) => split_tokens(t.as_str()),
            None => return Err(ParseError::Missing(Field::Groups)),
        };
        let building = match get_data(html, "#ctl06_BudynekLabel") {
            Some(v) => v,
            None => return Err(ParseError::Missing(Field::Building)),
        };
        let room = match get_data(html, "#ctl06_SalaLabel") {
            Some(v) => v,
            None => return Err(ParseError::Missing(Field::Room)),
        };
        let groups = if all_sentinel(&group_tokens) {
            None
        } else {
            Some(group_tokens)
        };
        let entry = TimeTableEntry {
            title: get_data_option(html, "#ctl06_TytulRezerwacjiLabel"),
            persons,
            details: get_data_option(html, "#ctl06_OpisLabel"),
            type_of,
            subjects,
            subject_codes,
            groups,
            students_count: get_data_option(html, "#ctl06_LiczbaStudentowLabel"),
            building,
            room,
            datetime_beginning,
            datetime_ending,
        };
        assert(entry@ == decode(html@)->Ok_0);
        Ok(entry)
    }

    pub fn get_datetime_beginning(&self) -> (r: i64)
        ensures
            r == self.datetime_beginning,
    {
        self.datetime_beginning
    }
}

/// The beginning and ending instants of a class on `date`, from its two
/// hours, with the beginning strictly first.
pub fn extract_date_from_string(date: &str, hour_beginning: &str, hour_ending: &str) -> (r: Result<
    (i64, i64),
    ParseError,
>)
    ensures
        r == match instant_of(date@, hour_beginning@) {
            None => Err(ParseError::BadTime(Field::HourBeginning)),
            Some(b) => match instant_of(date@, hour_ending@) {
                None => Err(ParseError::BadTime(Field::HourEnding)),
                Some(e) => if b < e {
                    Ok((b, e))
                } else {
                    Err(ParseError::EndsBeforeStart)
                },
            },
        },
{
    let b = match instant(date, hour_beginning) {
        Some(b) => b,
        None => return Err(ParseError::BadTime(Field::HourBeginning)),
    };
    let e = match instant(date, hour_ending) {
        Some(e) => e,
        None => return Err(ParseError::BadTime(Field::HourEnding)),
    };
    if b < e {
        Ok((b, e))
    } else {
        Err(ParseError::EndsBeforeStart)
    }
}

/// Every decoded entry ends strictly after it begins.
pub proof fn lemma_decoded_interval(html: Seq<char>)
    ensures
        decode(html) matches Ok(e) ==> e.beginning < e.ending,
{
}

/// Groups are absent exactly where every group token is the sentinel, and
/// present groups are never empty.
pub proof fn lemma_group_sentinel(html: Seq<char>)
    ensures
        decode(html) matches Ok(e) ==> match selected_text(html, sel_groups()) {
            Some(t) => (e.groups is None <==> forall|i: int|
                0 <= i < tokens_of(t).len() ==> tokens_of(t)[i] == sentinel()) && (
            e.groups matches Some(g) ==> g.len() > 0 && g == tokens_of(t)),
            None => false,
        },
{
}

} // verus!
