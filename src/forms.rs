//! The two form payloads that drive the page, and the headers every request
//! carries. A form is a list of (key, value) pairs, in order.
use crate::text::{concat, copy_str, same_text};
use crate::tokens::BaseValidation;
use vstd::prelude::*;

verus! {

/// The view of a list of pairs of strings.
pub open spec fn pairs_view(v: Seq<(String, String)>) -> Seq<(Seq<char>, Seq<char>)> {
    v.map_values(|p: (String, String)| (p.0@, p.1@))
}

/// The date picker's client state for the day `iso`.
pub open spec fn date_client_state(iso: Seq<char>) -> Seq<char> {
    "{\"enabled\":true,\"emptyMessage\":\"\",\"validationText\":\""@ + iso
        + "-00-00-00\",\"valueAsString\":\""@ + iso
        + "-00-00-00\",\"minDateStr\":\"1980-01-01-00-00-00\",\"maxDateStr\":\"2099-12-31-00-00-00\",\"lastSetTextBoxValue\":\""@
        + iso + "\"}"@
}

/// The tooltip manager's client state for the entry `id`.
pub open spec fn entry_client_state(id: Seq<char>) -> Seq<char> {
    "{\"AjaxTargetControl\":\""@ + id + "\",\"Value\":\""@ + id + "\"}"@
}

/// The form that moves the page to the day `iso`.
pub open spec fn date_form(iso: Seq<char>, t: (Seq<char>, Seq<char>, Seq<char>)) -> Seq<(Seq<char>, Seq<char>)> {
    seq![
        ("RadScriptManager1"@, "RadAjaxPanel1Panel|DataPicker"@),
        ("__EVENTTARGET"@, "DataPicker"@),
        ("__EVENTARGUMENT"@, ""@),
        ("DataPicker"@, iso),
        ("DataPicker$dateInput"@, iso),
        ("DataPicker_ClientState"@, ""@),
        ("DataPicker_dateInput_ClientState"@, date_client_state(iso)),
        ("__ASYNCPOST"@, "true"@),
        ("RadAJAXControlID"@, "RadAjaxPanel1"@),
        ("__VIEWSTATE"@, t.0),
        ("__VIEWSTATEGENERATOR"@, t.1),
        ("__EVENTVALIDATION"@, t.2),
    ]
}

/// The form that opens the tooltip of the entry `id`.
pub open spec fn entry_form(id: Seq<char>, t: (Seq<char>, Seq<char>, Seq<char>)) -> Seq<(Seq<char>, Seq<char>)> {
    seq![
        ("RadScriptManager1"@, "RadToolTipManager1RTMPanel|RadToolTipManager1RTMPanel"@),
        ("__EVENTTARGET"@, "RadToolTipManager1RTMPanel"@),
        ("__EVENTARGUMENT"@, "undefined"@),
        ("RadToolTipManager1_ClientState"@, entry_client_state(id)),
        ("__VIEWSTATE"@, t.0),
        ("__VIEWSTATEGENERATOR"@, t.1),
        ("__EVENTVALIDATION"@, t.2),
    ]
}

/// The headers of every request; the last one switches the server to
/// partial updates.
pub open spec fn base_headers_view() -> Seq<(Seq<char>, Seq<char>)> {
    seq![
        ("User-Agent"@, "Mozilla/5.0 (X11; Fedora; Linux x86_64; rv:98.0) Gecko/20100101 Firefox/98.0"@),
        ("Content-Type"@, "application/x-www-form-urlencoded; charset=utf-8"@),
        ("X-MicrosoftAjax"@, "Delta=true"@),
    ]
}

fn pair(k: &str, v: &str) -> (r: (String, String))
    ensures
        r.0@ == k@,
        r.1@ == v@,
{
    (copy_str(k), copy_str(v))
}

/// The headers of every request.
pub fn get_base_headers() -> (r: Vec<(String, String)>)
    ensures
        pairs_view(r@) == base_headers_view(),
{
    let mut v: Vec<(String, String)> = Vec::new();
    v.push(pair("User-Agent", "Mozilla/5.0 (X11; Fedora; Linux x86_64; rv:98.0) Gecko/20100101 Firefox/98.0"));
    v.push(pair("Content-Type", "application/x-www-form-urlencoded; charset=utf-8"));
    v.push(pair("X-MicrosoftAjax", "Delta=true"));
    assert(pairs_view(v@) =~= base_headers_view());
    v
}

fn date_client_state_of(iso: &str) -> (r: String)
    ensures
        r@ == date_client_state(iso@),
{
    let a = concat("{\"enabled\":true,\"emptyMessage\":\"\",\"validationText\":\"", iso);
    let b = concat(a.as_str(), "-00-00-00\",\"valueAsString\":\"");
    let c = concat(b.as_str(), iso);
    let d = concat(
        c.as_str(),
        "-00-00-00\",\"minDateStr\":\"1980-01-01-00-00-00\",\"maxDateStr\":\"2099-12-31-00-00-00\",\"lastSetTextBoxValue\":\"",
    );
    let e = concat(d.as_str(), iso);
    concat(e.as_str(), "\"}")
}

fn entry_client_state_of(id: &str) -> (r: String)
    ensures
        r@ == entry_client_state(id@),
{
    let a = concat("{\"AjaxTargetControl\":\"", id);
    let b = concat(a.as_str(), "\",\"Value\":\"");
    let c = concat(b.as_str(), id);
    concat(c.as_str(), "\"}")
}

/// The form that moves the page to another day.
pub struct DateRequest {
    fields: Vec<(String, String)>,
}

impl View for DateRequest {
    type V = Seq<(Seq<char>, Seq<char>)>;

    closed spec fn view(&self) -> Seq<(Seq<char>, Seq<char>)> {
        pairs_view(self.fields@)
    }
}

impl DateRequest {
    /// The form for the day `iso_date` (`YYYY-MM-DD`) with the current
    /// tokens; `None` where that day is `today`, which the page shows
    /// without a post.
    pub fn new(iso_date: &str, today: &str, base_validation: &BaseValidation) -> (r: Option<Self>)
        ensures
            iso_date@ == today@ <==> r is None,
            r matches Some(f) ==> f@ == date_form(iso_date@, base_validation@),
    {
        if same_text(iso_date, today) {
            return None;
        }
        Some(DateRequest::for_day(iso_date, base_validation))
    }

    /// The form for the day `iso_date` with the current tokens.
    pub fn for_day(iso_date: &str, base_validation: &BaseValidation) -> (r: Self)
        ensures
            r@ == date_form(iso_date@, base_validation@),
    {
        let mut v: Vec<(String, String)> = Vec::new();
        v.push(pair("RadScriptManager1", "RadAjaxPanel1Panel|DataPicker"));
        v.push(pair("__EVENTTARGET", "DataPicker"));
        v.push(pair("__EVENTARGUMENT", ""));
        v.push(pair("DataPicker", iso_date));
        v.push(pair("DataPicker$dateInput", iso_date));
        v.push(pair("DataPicker_ClientState", ""));
        v.push((copy_str("DataPicker_dateInput_ClientState"), date_client_state_of(iso_date)));
        v.push(pair("__ASYNCPOST", "true"));
        v.push(pair("RadAJAXControlID", "RadAjaxPanel1"));
        v.push(pair("__VIEWSTATE", base_validation.view_state()));
        v.push(pair("__VIEWSTATEGENERATOR", base_validation.view_state_generator()));
        v.push(pair("__EVENTVALIDATION", base_validation.event_validation()));
        let r = DateRequest { fields: v };
        assert(r@ =~= date_form(iso_date@, base_validation@));
        r
    }

    /// The (key, value) pairs, in order.
    pub fn into_form(self) -> (r: Vec<(String, String)>)
        ensures
            pairs_view(r@) == self@,
    {
        self.fields
    }
}

/// The form that opens an entry's tooltip.
pub struct EntryRequest {
    fields: Vec<(String, String)>,
}

impl View for EntryRequest {
    type V = Seq<(Seq<char>, Seq<char>)>;

    closed spec fn view(&self) -> Seq<(Seq<char>, Seq<char>)> {
        pairs_view(self.fields@)
    }
}

impl EntryRequest {
    /// The form for the entry `html_id` with the current tokens.
    pub fn new(html_id: String, base_validation: &BaseValidation) -> (r: Self)
        ensures
            r@ == entry_form(html_id@, base_validation@),
    {
        let mut v: Vec<(String, String)> = Vec::new();
        v.push(pair("RadScriptManager1", "RadToolTipManager1RTMPanel|RadToolTipManager1RTMPanel"));
        v.push(pair("__EVENTTARGET", "RadToolTipManager1RTMPanel"));
        v.push(pair("__EVENTARGUMENT", "undefined"));
        v.push((copy_str("RadToolTipManager1_ClientState"), entry_client_state_of(html_id.as_str())));
        v.push(pair("__VIEWSTATE", base_validation.view_state()));
        v.push(pair("__VIEWSTATEGENERATOR", base_validation.view_state_generator()));
        v.push(pair("__EVENTVALIDATION", base_validation.event_validation()));
        let r = EntryRequest { fields: v };
        assert(r@ =~= entry_form(html_id@, base_validation@));
        r
    }

    /// The (key, value) pairs, in order.
    pub fn into_form(self) -> (r: Vec<(String, String)>)
        ensures
            pairs_view(r@) == self@,
    {
        self.fields
    }
}

} // verus!
