use pjatk_scrapper::bus::{EntryToSend, HypervisorCommand, Received, UploadEntry};
use pjatk_scrapper::delta::give_html_delta;
use pjatk_scrapper::engine::{Action, ParserLoop, Phase, ProtocolError};
use pjatk_scrapper::forms::{get_base_headers, DateRequest, EntryRequest};
use pjatk_scrapper::ids::{collect_entry_ids, find_entry_ids};
use pjatk_scrapper::timetable::TimeTableEntry;
use pjatk_scrapper::tokens::{BaseValidation, MissingToken, TokenName};
use std::collections::HashSet;

fn page(v: &str, g: &str, e: &str, body: &str) -> String {
    format!(
        "<html><body><form><input type=\"hidden\" id=\"__VIEWSTATE\" value=\"{}\"/>\
         <input type=\"hidden\" id=\"__VIEWSTATEGENERATOR\" value=\"{}\"/>\
         <input type=\"hidden\" id=\"__EVENTVALIDATION\" value=\"{}\"/>{}</form></body></html>",
        v, g, e, body
    )
}

fn delta(panel: &str, payload: &str, v: &str, g: &str, e: &str) -> String {
    format!(
        "1|#||4|{}|updatePanel|{}|{}|{}|hiddenField|__VIEWSTATE|{}|{}|hiddenField|__VIEWSTATEGENERATOR|{}|{}|hiddenField|__EVENTVALIDATION|{}|",
        payload.len(), panel, payload, v.len(), v, g.len(), g, e.len(), e
    )
}

fn tooltip() -> String {
    "<div><span id=\"ctl06_DataZajecLabel\">15.01.2024</span>\
     <span id=\"ctl06_GodzRozpLabel\">08:00:00</span><span id=\"ctl06_GodzZakonLabel\">09:30:00</span>\
     <span id=\"ctl06_DydaktycyLabel\">Kowalski Jan</span><span id=\"ctl06_TypZajecLabel\">Wykład</span>\
     <span id=\"ctl06_NazwaPrzedmiotyLabel\">SOP</span><span id=\"ctl06_KodPrzedmiotuLabel\">SOP</span>\
     <span id=\"ctl06_GrupyLabel\">---</span><span id=\"ctl06_BudynekLabel\">B</span>\
     <span id=\"ctl06_SalaLabel\">B/227</span></div>"
        .to_string()
}

fn value<'a>(form: &'a [(String, String)], key: &str) -> &'a str {
    form.iter().find(|(k, _)| k == key).map(|(_, v)| v.as_str()).expect("key present")
}

fn tokens_of(form: &[(String, String)]) -> (String, String, String) {
    (
        value(form, "__VIEWSTATE").to_string(),
        value(form, "__VIEWSTATEGENERATOR").to_string(),
        value(form, "__EVENTVALIDATION").to_string(),
    )
}

fn single_post(actions: Vec<Action>) -> (Vec<(String, String)>, u64) {
    assert_eq!(actions.len(), 1);
    match actions.into_iter().next().unwrap() {
        Action::Post { form, timeout_secs } => (form, timeout_secs),
        other => panic!("expected a post, got {:?}", other),
    }
}

#[test]
fn delta_field_after_name() {
    let body = "12|updatePanel|RadAjaxPanel1Panel|<div>x</div>|3|hiddenField|__VIEWSTATE|abc|";
    assert_eq!(give_html_delta(body, "RadAjaxPanel1Panel"), Some("<div>x</div>".to_string()));
    assert_eq!(give_html_delta(body, "__VIEWSTATE"), Some("abc".to_string()));
    assert_eq!(give_html_delta(body, "__EVENTVALIDATION"), None);
    assert_eq!(give_html_delta("a|b", "b"), None);
    assert_eq!(give_html_delta("a|b|a|c", "a"), Some("b".to_string()));
}

#[test]
fn token_roundtrip_from_delta() {
    let mut bv = BaseValidation::empty();
    let body = delta("RadAjaxPanel1Panel", "<p/>", "v1", "g1", "e1");
    assert_eq!(bv.update_from_delta(&body), Ok(()));
    let snap = bv.snapshot();
    assert_eq!((snap.view_state(), snap.view_state_generator(), snap.event_validation()), ("v1", "g1", "e1"));
}

#[test]
fn token_roundtrip_from_page() {
    let mut bv = BaseValidation::new("a".into(), "b".into(), "c".into());
    assert_eq!(bv.update_from_page(&page("V", "G", "E", "")), Ok(()));
    assert_eq!((bv.view_state(), bv.view_state_generator(), bv.event_validation()), ("V", "G", "E"));
}

#[test]
fn missing_token_leaves_tokens_whole() {
    let mut bv = BaseValidation::new("a".into(), "b".into(), "c".into());
    let body = "1|hiddenField|__VIEWSTATEGENERATOR|g|1|hiddenField|__EVENTVALIDATION|e|";
    assert_eq!(bv.update_from_delta(body), Err(MissingToken { name: TokenName::ViewState }));
    assert_eq!((bv.view_state(), bv.view_state_generator(), bv.event_validation()), ("a", "b", "c"));
    let body = "1|hiddenField|__VIEWSTATE|v|1|hiddenField|__EVENTVALIDATION|e|";
    assert_eq!(bv.update_from_delta(body), Err(MissingToken { name: TokenName::ViewStateGenerator }));
    let body = "1|hiddenField|__VIEWSTATE|v|1|hiddenField|__VIEWSTATEGENERATOR|g|";
    assert_eq!(bv.update_from_delta(body), Err(MissingToken { name: TokenName::EventValidation }));
    bv.update("x".into(), "y".into(), "z".into());
    assert_eq!((bv.view_state(), bv.view_state_generator(), bv.event_validation()), ("x", "y", "z"));
}

#[test]
fn date_form_fields() {
    let bv = BaseValidation::new("V".into(), "G".into(), "E".into());
    assert!(DateRequest::new("2024-01-15", "2024-01-15", &bv).is_none());
    let form = DateRequest::new("2024-01-15", "2024-01-20", &bv).unwrap().into_form();
    let keys: Vec<&str> = form.iter().map(|(k, _)| k.as_str()).collect();
    assert_eq!(
        keys,
        vec![
            "RadScriptManager1", "__EVENTTARGET", "__EVENTARGUMENT", "DataPicker", "DataPicker$dateInput",
            "DataPicker_ClientState", "DataPicker_dateInput_ClientState", "__ASYNCPOST", "RadAJAXControlID",
            "__VIEWSTATE", "__VIEWSTATEGENERATOR", "__EVENTVALIDATION"
        ]
    );
    assert_eq!(value(&form, "RadScriptManager1"), "RadAjaxPanel1Panel|DataPicker");
    assert_eq!(value(&form, "DataPicker"), "2024-01-15");
    assert_eq!(value(&form, "DataPicker$dateInput"), "2024-01-15");
    assert_eq!(value(&form, "__EVENTARGUMENT"), "");
    assert_eq!(
        value(&form, "DataPicker_dateInput_ClientState"),
        "{\"enabled\":true,\"emptyMessage\":\"\",\"validationText\":\"2024-01-15-00-00-00\",\"valueAsString\":\"2024-01-15-00-00-00\",\"minDateStr\":\"1980-01-01-00-00-00\",\"maxDateStr\":\"2099-12-31-00-00-00\",\"lastSetTextBoxValue\":\"2024-01-15\"}"
    );
    assert_eq!(tokens_of(&form), ("V".into(), "G".into(), "E".into()));
}

#[test]
fn entry_form_fields() {
    let bv = BaseValidation::new("V".into(), "G".into(), "E".into());
    let form = EntryRequest::new("4821;z".to_string(), &bv).into_form();
    assert_eq!(form.len(), 7);
    assert_eq!(value(&form, "RadScriptManager1"), "RadToolTipManager1RTMPanel|RadToolTipManager1RTMPanel");
    assert_eq!(value(&form, "__EVENTTARGET"), "RadToolTipManager1RTMPanel");
    assert_eq!(value(&form, "__EVENTARGUMENT"), "undefined");
    assert_eq!(
        value(&form, "RadToolTipManager1_ClientState"),
        "{\"AjaxTargetControl\":\"4821;z\",\"Value\":\"4821;z\"}"
    );
    assert_eq!(tokens_of(&form), ("V".into(), "G".into(), "E".into()));
}

#[test]
fn base_headers_switch_to_delta_mode() {
    let h = get_base_headers();
    assert_eq!(h.len(), 3);
    assert_eq!(h[0].0, "User-Agent");
    assert_eq!(h[1], ("Content-Type".to_string(), "application/x-www-form-urlencoded; charset=utf-8".to_string()));
    assert_eq!(h[2], ("X-MicrosoftAjax".to_string(), "Delta=true".to_string()));
}

#[test]
fn entry_ids_are_collapsed() {
    let body = "<td id=\"4821;z\"></td><td id=\"4821;z\"></td><td id=\"77;r\"></td><td id=\"12;x\"></td>";
    assert_eq!(find_entry_ids(body), vec!["4821;z".to_string(), "77;r".to_string()]);
    assert_eq!(find_entry_ids("no ids here"), Vec::<String>::new());
    let m = vec!["b".to_string(), "a".to_string(), "b".to_string()];
    assert_eq!(collect_entry_ids(&m), vec!["b".to_string(), "a".to_string()]);
}

#[test]
fn same_day_twice_gives_same_ids() {
    let body = "<td id=\"1;z\"></td><td id=\"2;r\"></td><td id=\"1;z\"></td>";
    let first: HashSet<String> = find_entry_ids(body).into_iter().collect();
    let second: HashSet<String> = find_entry_ids(body).into_iter().collect();
    assert_eq!(first, second);
    let reordered = "<td id=\"2;r\"></td><td id=\"1;z\"></td>";
    let third: HashSet<String> = find_entry_ids(reordered).into_iter().collect();
    assert_eq!(first, third);
}

#[test]
fn single_entry_happy_path() {
    let mut engine = ParserLoop::new(&page("v0", "g0", "e0", "")).expect("page has tokens");
    let (form, t) = single_post(engine.start_day("2024-01-15", "2024-02-01"));
    assert_eq!(t, 5);
    assert_eq!(value(&form, "DataPicker"), "2024-01-15");
    assert_eq!(tokens_of(&form), ("v0".into(), "g0".into(), "e0".into()));
    assert_eq!(engine.phase(), Phase::PostingDate);

    let day = delta("RadAjaxPanel1Panel", "<td id=\"4821;z\">SOP</td>", "v1", "g1", "e1");
    let (form, _) = single_post(engine.on_response(&day));
    assert_eq!(value(&form, "RadToolTipManager1_ClientState"), "{\"AjaxTargetControl\":\"4821;z\",\"Value\":\"4821;z\"}");
    assert_eq!(engine.phase(), Phase::Fetching);

    let tip = tooltip();
    let acts = engine.on_response(&delta("RadToolTipManager1RTMPanel", &tip, "v2", "g2", "e2"));
    assert_eq!(acts.len(), 2);
    match &acts[0] {
        Action::Publish(EntryToSend::Entry(UploadEntry { htmlId, body })) => {
            assert_eq!(htmlId, "4821;z");
            assert_eq!(body, &tip);
            let e = TimeTableEntry::try_from(body).unwrap();
            assert_eq!(e.datetime_beginning, 1705302000);
            assert_eq!(e.datetime_ending, 1705307400);
            assert_eq!(e.groups, None);
        }
        other => panic!("expected an entry, got {:?}", other),
    }
    assert!(matches!(acts[1], Action::Publish(EntryToSend::HypervisorFinish)));
    assert_eq!(engine.phase(), Phase::Idle);
}

#[test]
fn today_skips_the_date_post() {
    let body = "<td id=\"1;z\"></td><td id=\"2;r\"></td>";
    let mut engine = ParserLoop::new(&page("v0", "g0", "e0", body)).unwrap();
    let mut posts = 0;
    let (form, _) = single_post(engine.start_day("2024-01-15", "2024-01-15"));
    posts += 1;
    assert!(form.iter().all(|(k, _)| k != "DataPicker"));
    assert_eq!(value(&form, "RadToolTipManager1_ClientState"), "{\"AjaxTargetControl\":\"1;z\",\"Value\":\"1;z\"}");
    let acts = engine.on_response(&delta("RadToolTipManager1RTMPanel", "<b/>", "v1", "g1", "e1"));
    posts += acts.iter().filter(|a| matches!(a, Action::Post { .. })).count();
    let acts = engine.on_response(&delta("RadToolTipManager1RTMPanel", "<i/>", "v2", "g2", "e2"));
    posts += acts.iter().filter(|a| matches!(a, Action::Post { .. })).count();
    assert!(matches!(acts.last(), Some(Action::Publish(EntryToSend::HypervisorFinish))));
    assert_eq!(posts, 2);
}

#[test]
fn empty_day_finishes_at_once() {
    let mut engine = ParserLoop::new(&page("v0", "g0", "e0", "nothing")).unwrap();
    let acts = engine.start_day("2024-01-15", "2024-01-15");
    assert_eq!(acts.len(), 1);
    assert!(matches!(acts[0], Action::Publish(EntryToSend::HypervisorFinish)));
    assert_eq!(engine.phase(), Phase::Idle);
}

#[test]
fn token_rotation_across_posts() {
    let mut engine = ParserLoop::new(&page("v0", "g0", "e0", "")).unwrap();
    let (form, _) = single_post(engine.start_day("2024-01-15", "2024-02-01"));
    assert_eq!(tokens_of(&form), ("v0".into(), "g0".into(), "e0".into()));
    let day = delta("RadAjaxPanel1Panel", "<td id=\"1;z\"></td><td id=\"2;z\"></td>", "v1", "g1", "e1");
    let (form, _) = single_post(engine.on_response(&day));
    assert_eq!(tokens_of(&form), ("v1".into(), "g1".into(), "e1".into()));
    let acts = engine.on_response(&delta("RadToolTipManager1RTMPanel", "<b/>", "v2", "g2", "e2"));
    match &acts[1] {
        Action::Post { form, .. } => assert_eq!(tokens_of(form), ("v2".into(), "g2".into(), "e2".into())),
        other => panic!("expected a post, got {:?}", other),
    }
    let acts = engine.on_response(&delta("RadToolTipManager1RTMPanel", "<i/>", "v3", "g3", "e3"));
    assert!(matches!(acts[1], Action::Publish(EntryToSend::HypervisorFinish)));
    assert_eq!(
        (engine.tokens().view_state(), engine.tokens().view_state_generator(), engine.tokens().event_validation()),
        ("v3", "g3", "e3")
    );
}

#[test]
fn fatal_missing_token() {
    let mut engine = ParserLoop::new(&page("v0", "g0", "e0", "")).unwrap();
    single_post(engine.start_day("2024-01-15", "2024-02-01"));
    let body = "3|updatePanel|RadAjaxPanel1Panel|<p>|1|hiddenField|__VIEWSTATEGENERATOR|g|1|hiddenField|__EVENTVALIDATION|e|";
    let acts = engine.on_response(body);
    assert_eq!(acts.len(), 1);
    assert!(matches!(acts[0], Action::Fatal(ProtocolError::MissingToken(TokenName::ViewState))));
    assert_eq!(engine.phase(), Phase::Terminated);
    assert!(engine.on_response(&delta("RadAjaxPanel1Panel", "<p>", "v", "g", "e")).is_empty());
    assert!(engine.on_failure().is_empty());
    assert!(engine.start_day("2024-01-16", "2024-02-01").is_empty());
}

#[test]
fn missing_panel_is_fatal() {
    let mut engine = ParserLoop::new(&page("v0", "g0", "e0", "")).unwrap();
    single_post(engine.start_day("2024-01-15", "2024-02-01"));
    let acts = engine.on_response(&delta("OtherPanel", "<p>", "v", "g", "e"));
    assert!(matches!(acts[0], Action::Fatal(ProtocolError::MissingPanel)));
}

#[test]
fn page_without_tokens_is_refused() {
    assert!(matches!(
        ParserLoop::new("<html></html>"),
        Err(ProtocolError::MissingToken(TokenName::ViewState))
    ));
}

#[test]
fn quit_while_fetching_drains() {
    let mut engine = ParserLoop::new(&page("v0", "g0", "e0", "<td id=\"1;z\"></td><td id=\"2;z\"></td>")).unwrap();
    single_post(engine.start_day("2024-01-15", "2024-01-15"));
    let acts = engine.handle(Received::Message(EntryToSend::Quit));
    assert_eq!(acts.len(), 1);
    assert!(matches!(acts[0], Action::Exit));
    assert_eq!(engine.phase(), Phase::Terminated);
    assert!(engine.on_response(&delta("RadToolTipManager1RTMPanel", "<b/>", "v", "g", "e")).is_empty());
}

#[test]
fn transport_failures_escalate_then_drop() {
    let mut engine = ParserLoop::new(&page("v0", "g0", "e0", "<td id=\"1;z\"></td><td id=\"2;z\"></td>")).unwrap();
    let (_, t) = single_post(engine.start_day("2024-01-15", "2024-01-15"));
    assert_eq!(t, 5);
    let (form, t) = single_post(engine.on_failure());
    assert_eq!(t, 10);
    assert_eq!(value(&form, "RadToolTipManager1_ClientState"), "{\"AjaxTargetControl\":\"1;z\",\"Value\":\"1;z\"}");
    let (_, t) = single_post(engine.on_failure());
    assert_eq!(t, 30);
    let acts = engine.on_failure();
    assert_eq!(acts.len(), 2);
    assert!(matches!(&acts[0], Action::DropEntry(id) if id == "1;z"));
    match &acts[1] {
        Action::Post { form, timeout_secs } => {
            assert_eq!(*timeout_secs, 5);
            assert_eq!(value(form, "RadToolTipManager1_ClientState"), "{\"AjaxTargetControl\":\"2;z\",\"Value\":\"2;z\"}");
        }
        other => panic!("expected a post, got {:?}", other),
    }
}

#[test]
fn date_post_given_up_after_three_failures() {
    let mut engine = ParserLoop::new(&page("v0", "g0", "e0", "")).unwrap();
    single_post(engine.start_day("2024-01-15", "2024-02-01"));
    let (form, t) = single_post(engine.on_failure());
    assert_eq!((value(&form, "DataPicker"), t), ("2024-01-15", 10));
    let (_, t) = single_post(engine.on_failure());
    assert_eq!(t, 30);
    let acts = engine.on_failure();
    assert!(matches!(acts[..], [Action::DropDay]));
    assert_eq!(engine.phase(), Phase::Idle);
}

#[test]
fn command_starts_a_day() {
    let mut engine = ParserLoop::new(&page("v0", "g0", "e0", "")).unwrap();
    let cmd = HypervisorCommand {
        scrapStart: None,
        scrapUntil: "2001-01-15T00:00:00Z".to_string(),
        limit: None,
        skip: None,
    };
    let (form, _) = single_post(engine.handle(Received::Message(EntryToSend::HypervisorCommand(cmd))));
    assert_eq!(value(&form, "DataPicker"), "2001-01-15");
    let bad = HypervisorCommand { scrapStart: None, scrapUntil: "15.01.2024".to_string(), limit: None, skip: None };
    let mut idle = ParserLoop::new(&page("v0", "g0", "e0", "")).unwrap();
    let acts = idle.on_command(&bad);
    assert!(matches!(acts[..], [Action::RejectCommand]));
    assert_eq!(idle.phase(), Phase::Idle);
}

#[test]
fn lag_and_close_reach_the_engine() {
    let mut engine = ParserLoop::new(&page("v0", "g0", "e0", "")).unwrap();
    assert!(matches!(engine.handle(Received::Lagged(6))[..], [Action::WarnLagged(6)]));
    assert_eq!(engine.phase(), Phase::Idle);
    assert!(engine.handle(Received::Message(EntryToSend::HypervisorFinish)).is_empty());
    assert!(matches!(engine.handle(Received::Closed)[..], [Action::Exit]));
}
