//! The scrape engine: for each command, post the date form, enumerate the
//! day's entries, fetch each tooltip in turn, then report the day finished.
//! The engine decides; its caller performs each action and hands back what
//! came of it (a response body, a transport failure, a quit).
use crate::bus::{EntryToSend, HypervisorCommand, Received, UploadEntry};
use crate::delta::{delta_field, give_html_delta};
use crate::forms::{date_form, entry_form, pairs_view, DateRequest, EntryRequest};
use crate::html::{html_limit, opt_view};
use crate::ids::{entry_ids, find_entry_ids};
use crate::text::copy_str;
use crate::timetable::strings_view;
use crate::tokens::{delta_tokens, page_tokens, BaseValidation, MissingToken, TokenName};
use vstd::prelude::*;

verus! {

/// The result of formatting, with the chrono layout `layout`, the instant
/// that the RFC 3339 text `text` gives, in that text's own offset; `None`
/// where `text` is not RFC 3339.
pub uninterp spec fn rfc3339_formatted(text: Seq<char>, layout: Seq<char>) -> Option<Seq<char>>;

/// Relies on `chrono::DateTime::parse_from_rfc3339` and `DateTime::format`.
#[verifier::external_body]
fn format_rfc3339(text: &str, layout: &str) -> (r: Option<String>)
    requires
        layout@ == day_layout(),
    ensures
        opt_view(r) == rfc3339_formatted(text@, layout@),
{
    chrono::DateTime::parse_from_rfc3339(text).ok().map(|d| d.format(layout).to_string())
}

/// Relies on `chrono::Local::now` and `DateTime::format`: the current local
/// time in the layout `layout`. Nothing is known of the clock.
#[verifier::external_body]
fn format_local_now(layout: &str) -> (r: String)
    requires
        layout@ == day_layout(),
{
    chrono::Local::now().format(layout).to_string()
}

/// The layout of a calendar day, `YYYY-MM-DD`.
pub open spec fn day_layout() -> Seq<char> {
    "%Y-%m-%d"@
}

/// The update panel that holds a day's HTML.
pub open spec fn day_panel() -> Seq<char> {
    "RadAjaxPanel1Panel"@
}

/// The panel that holds a tooltip's HTML.
pub open spec fn tooltip_panel() -> Seq<char> {
    "RadToolTipManager1RTMPanel"@
}

/// Where the engine stands in the handling of a command.
#[derive(Debug, Clone, Copy, PartialEq, Eq, Structural)]
pub enum Phase {
    Idle,
    PostingDate,
    Fetching,
    Terminated,
}

/// A response that breaks the protocol: the engine stops.
#[derive(Debug, Clone, Copy, PartialEq, Eq, Structural)]
pub enum ProtocolError {
    MissingToken(TokenName),
    MissingPanel,
}

/// What the engine asks of its caller.
#[derive(Debug)]
pub enum Action {
    /// Post this form, with this timeout, and report the response or failure.
    Post { form: Vec<(String, String)>, timeout_secs: u64 },
    /// Put this message on the bus.
    Publish(EntryToSend),
    /// Log that this entry was given up after three failed posts.
    DropEntry(String),
    /// Log that the day was given up after three failed posts.
    DropDay,
    /// Log that the command's date is not RFC 3339.
    RejectCommand,
    /// A fatal protocol error: put `Quit` on the bus and exit with status 1.
    Fatal(ProtocolError),
    /// Log that this many bus messages were skipped.
    WarnLagged(u64),
    /// Stop cleanly.
    Exit,
}

/// An action, over sequences.
pub enum ActionView {
    Post(Seq<(Seq<char>, Seq<char>)>, u64),
    PublishEntry(Seq<char>, Seq<char>),
    PublishFinished,
    PublishOther,
    DropEntry(Seq<char>),
    DropDay,
    RejectCommand,
    Fatal(ProtocolError),
    WarnLagged(u64),
    Exit,
}

pub open spec fn action_view(a: Action) -> ActionView {
    match a {
        Action::Post { form, timeout_secs } => ActionView::Post(pairs_view(form@), timeout_secs),
        Action::Publish(EntryToSend::Entry(e)) => ActionView::PublishEntry(e.htmlId@, e.body@),
        Action::Publish(EntryToSend::HypervisorFinish) => ActionView::PublishFinished,
        Action::Publish(_) => ActionView::PublishOther,
        Action::DropEntry(id) => ActionView::DropEntry(id@),
        Action::DropDay => ActionView::DropDay,
        Action::RejectCommand => ActionView::RejectCommand,
        Action::Fatal(e) => ActionView::Fatal(e),
        Action::WarnLagged(n) => ActionView::WarnLagged(n),
        Action::Exit => ActionView::Exit,
    }
}

pub open spec fn actions_view(v: Seq<Action>) -> Seq<ActionView> {
    v.map_values(|a: Action| action_view(a))
}

/// The engine's state, over sequences.
pub struct EngineView {
    pub phase: Phase,
    pub tokens: (Seq<char>, Seq<char>, Seq<char>),
    /// The initial page, which shows today.
    pub page: Seq<char>,
    /// The day being scraped.
    pub day: Seq<char>,
    /// The day's entry ids.
    pub ids: Seq<Seq<char>>,
    /// The index of the entry being fetched.
    pub next: int,
    /// How many posts of the current form have failed.
    pub attempt: int,
}

/// The timeout of a post after `failed` failures: 5 s, then 10 s, then 30 s.
pub open spec fn timeout_tier(failed: int) -> u64 {
    if failed == 0 {
        5
    } else if failed == 1 {
        10
    } else {
        30
    }
}

/// How many posts of one form are made before it is given up.
pub open spec fn max_attempts() -> int {
    3
}

/// Starting to fetch the entries `ids`: the first one's tooltip is posted,
/// or, where there is none, the day is finished.
pub open spec fn fetch_start(s: EngineView, ids: Seq<Seq<char>>) -> (EngineView, Seq<ActionView>) {
    if ids.len() == 0 {
        (
            EngineView { phase: Phase::Idle, ids, next: 0, attempt: 0, ..s },
            seq![ActionView::PublishFinished],
        )
    } else {
        (
            EngineView { phase: Phase::Fetching, ids, next: 0, attempt: 0, ..s },
            seq![ActionView::Post(entry_form(ids[0], s.tokens), timeout_tier(0))],
        )
    }
}

/// Moving past the current entry.
pub open spec fn advance(s: EngineView) -> (EngineView, Seq<ActionView>) {
    if s.next + 1 < s.ids.len() {
        (
            EngineView { next: s.next + 1, attempt: 0, ..s },
            seq![ActionView::Post(entry_form(s.ids[s.next + 1], s.tokens), timeout_tier(0))],
        )
    } else {
        (
            EngineView { phase: Phase::Idle, next: 0, attempt: 0, ..s },
            seq![ActionView::PublishFinished],
        )
    }
}

/// A command for the day `iso` when the local day is `today`.
pub open spec fn start_day_step(s: EngineView, iso: Seq<char>, today: Seq<char>) -> (
    EngineView,
    Seq<ActionView>,
) {
    if s.phase != Phase::Idle {
        (s, Seq::empty())
    } else if iso == today {
        fetch_start(EngineView { day: iso, ..s }, entry_ids(s.page))
    } else {
        (
            EngineView { phase: Phase::PostingDate, day: iso, attempt: 0, ..s },
            seq![ActionView::Post(date_form(iso, s.tokens), timeout_tier(0))],
        )
    }
}

/// A command whose `scrapUntil` is `until`, when the local day is `today`.
pub open spec fn command_step(s: EngineView, until: Seq<char>, today: Seq<char>) -> (
    EngineView,
    Seq<ActionView>,
) {
    match rfc3339_formatted(until, day_layout()) {
        None => (s, seq![ActionView::RejectCommand]),
        Some(iso) => start_day_step(s, iso, today),
    }
}

/// The response `body` to the current post.
pub open spec fn response_step(s: EngineView, body: Seq<char>) -> (EngineView, Seq<ActionView>) {
    if s.phase != Phase::PostingDate && s.phase != Phase::Fetching {
        (s, Seq::empty())
    } else {
        match delta_tokens(body) {
            Err(n) => (
                EngineView { phase: Phase::Terminated, ..s },
                seq![ActionView::Fatal(ProtocolError::MissingToken(n))],
            ),
            Ok(t) => {
                let s1 = EngineView { tokens: t, attempt: 0, ..s };
                if s.phase == Phase::PostingDate {
                    match delta_field(body, day_panel()) {
                        None => (
                            EngineView { phase: Phase::Terminated, ..s1 },
                            seq![ActionView::Fatal(ProtocolError::MissingPanel)],
                        ),
                        Some(p) => fetch_start(s1, entry_ids(p)),
                    }
                } else {
                    match delta_field(body, tooltip_panel()) {
                        None => (
                            EngineView { phase: Phase::Terminated, ..s1 },
                            seq![ActionView::Fatal(ProtocolError::MissingPanel)],
                        ),
                        Some(tip) => {
                            let (s2, acts) = advance(s1);
                            (s2, seq![ActionView::PublishEntry(s.ids[s.next], tip)] + acts)
                        },
                    }
                }
            },
        }
    }
}

/// The current post failed in transport.
pub open spec fn failure_step(s: EngineView) -> (EngineView, Seq<ActionView>) {
    if s.phase == Phase::PostingDate {
        if s.attempt + 1 < max_attempts() {
            (
                EngineView { attempt: s.attempt + 1, ..s },
                seq![ActionView::Post(date_form(s.day, s.tokens), timeout_tier(s.attempt + 1))],
            )
        } else {
            (EngineView { phase: Phase::Idle, attempt: 0, ..s }, seq![ActionView::DropDay])
        }
    } else if s.phase == Phase::Fetching {
        if s.attempt + 1 < max_attempts() {
            (
                EngineView { attempt: s.attempt + 1, ..s },
                seq![
                    ActionView::Post(
                        entry_form(s.ids[s.next], s.tokens),
                        timeout_tier(s.attempt + 1),
                    ),
                ],
            )
        } else {
            let (s2, acts) = advance(s);
            (s2, seq![ActionView::DropEntry(s.ids[s.next])] + acts)
        }
    } else {
        (s, Seq::empty())
    }
}

/// A quit: the engine stops.
pub open spec fn quit_step(s: EngineView) -> (EngineView, Seq<ActionView>) {
    (EngineView { phase: Phase::Terminated, ..s }, seq![ActionView::Exit])
}

/// The engine's invariant.
pub open spec fn engine_wf(s: EngineView) -> bool {
    &&& 0 <= s.attempt < max_attempts()
    &&& 0 <= s.next
    &&& (s.phase == Phase::Fetching ==> s.next < s.ids.len())
}

/// The scrape engine. It alone holds and updates the server's tokens.
pub struct ParserLoop {
    tokens: BaseValidation,
    page: String,
    phase: Phase,
    day: String,
    ids: Vec<String>,
    next: usize,
    attempt: usize,
}

impl View for ParserLoop {
    type V = EngineView;

    closed spec fn view(&self) -> EngineView {
        EngineView {
            phase: self.phase,
            tokens: self.tokens@,
            page: self.page@,
            day: self.day@,
            ids: strings_view(self.ids@),
            next: self.next as int,
            attempt: self.attempt as int,
        }
    }
}

fn timeout_for(failed: usize) -> (r: u64)
    ensures
        r == timeout_tier(failed as int),
{
    if failed == 0 {
        5
    } else if failed == 1 {
        10
    } else {
        30
    }
}

impl ParserLoop {
    /// An engine on the initial page, whose hidden inputs give the first
    /// tokens; the page holds at most `html_limit()` characters.
    pub fn new(page: &str) -> (r: Result<Self, ProtocolError>)
        requires
            page@.len() <= html_limit(),
        ensures
            match page_tokens(page@) {
                Ok(t) => r matches Ok(e) && e@ == EngineView {
                    phase: Phase::Idle,
                    tokens: t,
                    page: page@,
                    day: Seq::empty(),
                    ids: Seq::empty(),
                    next: 0,
                    attempt: 0,
                },
                Err(n) => r == Err::<ParserLoop, ProtocolError>(ProtocolError::MissingToken(n)),
            },
            r matches Ok(e) ==> engine_wf(e@),
    {
        let mut tokens = BaseValidation::empty();
        match tokens.update_from_page(page) {
            Ok(()) => {},
            Err(m) => return Err(ProtocolError::MissingToken(m.name)),
        }
        let r = ParserLoop {
            tokens,
            page: copy_str(page),
            phase: Phase::Idle,
            day: String::new(),
            ids: Vec::new(),
            next: 0,
            attempt: 0,
        };
        assert(r@.ids =~= Seq::<Seq<char>>::empty());
        Ok(r)
    }

    pub fn phase(&self) -> (r: Phase)
        ensures
            r == self@.phase,
    {
        self.phase
    }

    /// The current tokens.
    pub fn tokens(&self) -> (r: &BaseValidation)
        ensures
            r@ == self@.tokens,
    {
        &self.tokens
    }

    fn post_entry(&self, failed: usize) -> (r: Action)
        requires
            self.next < self.ids@.len(),
        ensures
            action_view(r) == ActionView::Post(
                entry_form(self@.ids[self.next as int], self@.tokens),
                timeout_tier(failed as int),
            ),
    {
        let id = copy_str(self.ids[self.next].as_str());
        let form = EntryRequest::new(id, &self.tokens).into_form();
        Action::Post { form, timeout_secs: timeout_for(failed) }
    }

    fn finished() -> (r: Action)
        ensures
            action_view(r) == ActionView::PublishFinished,
    {
        Action::Publish(EntryToSend::HypervisorFinish)
    }

    /// Takes `ids` as the day's entries and starts on them.
    fn start_fetching(&mut self, ids: Vec<String>) -> (r: Vec<Action>)
        requires
            engine_wf(old(self)@),
        ensures
            (final(self)@, actions_view(r@)) == fetch_start(old(self)@, strings_view(ids@)),
            engine_wf(final(self)@),
    {
        self.ids = ids;
        self.next = 0;
        self.attempt = 0;
        let mut acts: Vec<Action> = Vec::new();
        if self.ids.len() == 0 {
            self.phase = Phase::Idle;
            acts.push(ParserLoop::finished());
        } else {
            self.phase = Phase::Fetching;
            acts.push(self.post_entry(0));
        }
        assert(actions_view(acts@) =~= fetch_start(old(self)@, strings_view(ids@)).1);
        acts
    }

    /// Moves past the current entry, after `acts`.
    fn advance(&mut self, acts: &mut Vec<Action>)
        requires
            old(self).phase == Phase::Fetching,
            engine_wf(old(self)@),
        ensures
            final(self)@ == advance(old(self)@).0,
            actions_view(final(acts)@) == actions_view(old(acts)@) + advance(old(self)@).1,
            engine_wf(final(self)@),
    {
        let ghost before = actions_view(acts@);
        assert(self.ids@.len() == self@.ids.len());
        assert(self@ == old(self)@);
        assert(self.next < self.ids.len());
        if self.next + 1 < self.ids.len() {
            self.next = self.next + 1;
            self.attempt = 0;
            acts.push(self.post_entry(0));
        } else {
            self.phase = Phase::Idle;
            self.next = 0;
            self.attempt = 0;
            acts.push(ParserLoop::finished());
        }
        assert(actions_view(acts@) =~= before + advance(old(self)@).1);
    }

    /// A command for the day `iso_date`, when the local day is `today`.
    /// Only an idle engine takes one; any other ignores it.
    pub fn start_day(&mut self, iso_date: &str, today: &str) -> (r: Vec<Action>)
        requires
            engine_wf(old(self)@),
        ensures
            (final(self)@, actions_view(r@)) == start_day_step(old(self)@, iso_date@, today@),
            engine_wf(final(self)@),
    {
        if self.phase != Phase::Idle {
            let r: Vec<Action> = Vec::new();
            assert(actions_view(r@) =~= Seq::<ActionView>::empty());
            return r;
        }
        match DateRequest::new(iso_date, today, &self.tokens) {
            None => {
                self.day = copy_str(iso_date);
                let ids = find_entry_ids(self.page.as_str());
                self.start_fetching(ids)
            },
            Some(req) => {
                self.day = copy_str(iso_date);
                self.phase = Phase::PostingDate;
                self.attempt = 0;
                let mut acts: Vec<Action> = Vec::new();
                acts.push(Action::Post { form: req.into_form(), timeout_secs: timeout_for(0) });
                assert(actions_view(acts@) =~= start_day_step(old(self)@, iso_date@, today@).1);
                acts
            },
        }
    }

    /// A command from the control plane: its `scrapUntil` day is scraped.
    pub fn on_command(&mut self, command: &HypervisorCommand) -> (r: Vec<Action>)
        requires
            engine_wf(old(self)@),
        ensures
            exists|today: Seq<char>|
                (#[trigger] command_step(old(self)@, command.scrapUntil@, today)) == (
                    final(self)@,
                    actions_view(r@),
                ),
            engine_wf(final(self)@),
    {
        match format_rfc3339(command.scrapUntil.as_str(), "%Y-%m-%d") {
            None => {
                let mut acts: Vec<Action> = Vec::new();
                acts.push(Action::RejectCommand);
                assert(actions_view(acts@) =~= seq![ActionView::RejectCommand]);
                assert(command_step(old(self)@, command.scrapUntil@, Seq::empty()) == (self@, actions_view(acts@)));
                acts
            },
            Some(iso) => {
                let today = format_local_now("%Y-%m-%d");
                let r = self.start_day(iso.as_str(), today.as_str());
                assert(command_step(old(self)@, command.scrapUntil@, today@) == (self@, actions_view(r@)));
                r
            },
        }
    }

    /// The response to the current post.
    pub fn on_response(&mut self, body: &str) -> (r: Vec<Action>)
        requires
            engine_wf(old(self)@),
        ensures
            (final(self)@, actions_view(r@)) == response_step(old(self)@, body@),
            engine_wf(final(self)@),
    {
        if self.phase != Phase::PostingDate && self.phase != Phase::Fetching {
            let r: Vec<Action> = Vec::new();
            assert(actions_view(r@) =~= Seq::<ActionView>::empty());
            return r;
        }
        let mut acts: Vec<Action> = Vec::new();
        match self.tokens.update_from_delta(body) {
            Err(MissingToken { name }) => {
                self.phase = Phase::Terminated;
                acts.push(Action::Fatal(ProtocolError::MissingToken(name)));
                assert(actions_view(acts@) =~= response_step(old(self)@, body@).1);
                return acts;
            },
            Ok(()) => {},
        }
        self.attempt = 0;
        if self.phase == Phase::PostingDate {
            match give_html_delta(body, "RadAjaxPanel1Panel") {
                None => {
                    self.phase = Phase::Terminated;
                    acts.push(Action::Fatal(ProtocolError::MissingPanel));
                    assert(actions_view(acts@) =~= response_step(old(self)@, body@).1);
                    acts
                },
                Some(panel) => {
                    let ids = find_entry_ids(panel.as_str());
                    self.start_fetching(ids)
                },
            }
        } else {
            match give_html_delta(body, "RadToolTipManager1RTMPanel") {
                None => {
                    self.phase = Phase::Terminated;
                    acts.push(Action::Fatal(ProtocolError::MissingPanel));
                    assert(actions_view(acts@) =~= response_step(old(self)@, body@).1);
                    acts
                },
                Some(tip) => {
                    let id = copy_str(self.ids[self.next].as_str());
                    acts.push(Action::Publish(EntryToSend::Entry(UploadEntry { htmlId: id, body: tip })));
                    self.advance(&mut acts);
                    assert(actions_view(acts@) =~= response_step(old(self)@, body@).1);
                    acts
                },
            }
        }
    }

    /// The current post failed in transport: it is made again with a longer
    /// timeout, or, after three failures, given up.
    pub fn on_failure(&mut self) -> (r: Vec<Action>)
        requires
            engine_wf(old(self)@),
        ensures
            (final(self)@, actions_view(r@)) == failure_step(old(self)@),
            engine_wf(final(self)@),
    {
        let mut acts: Vec<Action> = Vec::new();
        if self.phase == Phase::PostingDate {
            if self.attempt + 1 < 3 {
                self.attempt = self.attempt + 1;
                let req = DateRequest::for_day(self.day.as_str(), &self.tokens);
                acts.push(Action::Post { form: req.into_form(), timeout_secs: timeout_for(self.attempt) });
            } else {
                self.phase = Phase::Idle;
                self.attempt = 0;
                acts.push(Action::DropDay);
            }
        } else if self.phase == Phase::Fetching {
            if self.attempt + 1 < 3 {
                self.attempt = self.attempt + 1;
                acts.push(self.post_entry(self.attempt));
            } else {
                acts.push(Action::DropEntry(copy_str(self.ids[self.next].as_str())));
                self.advance(&mut acts);
            }
        }
        assert(actions_view(acts@) =~= failure_step(old(self)@).1);
        acts
    }

    /// What the engine received from the bus: a command starts a day, a quit
    /// or a closed bus stops the engine, a lag is logged, anything else is
    /// ignored.
    pub fn handle(&mut self, received: Received) -> (r: Vec<Action>)
        requires
            engine_wf(old(self)@),
        ensures
            engine_wf(final(self)@),
            match received {
                Received::Message(EntryToSend::HypervisorCommand(c)) => exists|today: Seq<char>|
                    (#[trigger] command_step(old(self)@, c.scrapUntil@, today)) == (
                        final(self)@,
                        actions_view(r@),
                    ),
                Received::Message(EntryToSend::Quit) => (final(self)@, actions_view(r@)) == quit_step(
                    old(self)@,
                ),
                Received::Closed => (final(self)@, actions_view(r@)) == quit_step(old(self)@),
                Received::Lagged(n) => final(self)@ == old(self)@ && actions_view(r@) == seq![
                    ActionView::WarnLagged(n),
                ],
                _ => final(self)@ == old(self)@ && r@.len() == 0,
            },
    {
        match received {
            Received::Message(EntryToSend::HypervisorCommand(c)) => self.on_command(&c),
            Received::Message(EntryToSend::Quit) => self.on_quit(),
            Received::Closed => self.on_quit(),
            Received::Lagged(n) => {
                let mut acts: Vec<Action> = Vec::new();
                acts.push(Action::WarnLagged(n));
                assert(actions_view(acts@) =~= seq![ActionView::WarnLagged(n)]);
                acts
            },
            _ => Vec::new(),
        }
    }

    /// A quit: the engine stops and asks its caller to exit.
    pub fn on_quit(&mut self) -> (r: Vec<Action>)
        ensures
            (final(self)@, actions_view(r@)) == quit_step(old(self)@),
            engine_wf(old(self)@) ==> engine_wf(final(self)@),
    {
        self.phase = Phase::Terminated;
        let mut acts: Vec<Action> = Vec::new();
        acts.push(Action::Exit);
        assert(actions_view(acts@) =~= seq![ActionView::Exit]);
        acts
    }
}

} // verus!

verus! {

/// Whether the form `f` ends with the token triple `t`.
pub open spec fn carries_tokens(f: Seq<(Seq<char>, Seq<char>)>, t: (Seq<char>, Seq<char>, Seq<char>)) -> bool {
    &&& f.len() >= 3
    &&& f[f.len() - 3] == (crate::tokens::view_state_key(), t.0)
    &&& f[f.len() - 2] == (crate::tokens::view_state_generator_key(), t.1)
    &&& f[f.len() - 1] == (crate::tokens::event_validation_key(), t.2)
}

/// Whether every post among `acts` carries the token triple `t`.
pub open spec fn posts_carry(acts: Seq<ActionView>, t: (Seq<char>, Seq<char>, Seq<char>)) -> bool {
    forall|i: int| 0 <= i < acts.len() ==> (#[trigger] acts[i] matches ActionView::Post(f, _) ==> carries_tokens(f, t))
}

/// Whether no action among `acts` is a post.
pub open spec fn no_post(acts: Seq<ActionView>) -> bool {
    forall|i: int| 0 <= i < acts.len() ==> !(#[trigger] acts[i] is Post)
}

proof fn lemma_forms_carry(iso: Seq<char>, id: Seq<char>, t: (Seq<char>, Seq<char>, Seq<char>))
    ensures
        carries_tokens(date_form(iso, t), t),
        carries_tokens(entry_form(id, t), t),
{
    reveal_strlit("__VIEWSTATE");
    reveal_strlit("__VIEWSTATEGENERATOR");
    reveal_strlit("__EVENTVALIDATION");
}

/// Token rotation: after a response that carries the tokens `t`, the state
/// holds `t` and every post that follows carries `t`; a post made again
/// after a failure carries the tokens that the state holds.
pub proof fn lemma_posts_carry_latest_tokens(s: EngineView, body: Seq<char>)
    requires
        engine_wf(s),
    ensures
        delta_tokens(body) matches Ok(t) ==> (s.phase == Phase::PostingDate || s.phase
            == Phase::Fetching) ==> response_step(s, body).0.tokens == t && posts_carry(
            response_step(s, body).1,
            t,
        ),
        posts_carry(failure_step(s).1, s.tokens),
        failure_step(s).0.tokens == s.tokens,
{
    if s.phase == Phase::Fetching {
        lemma_forms_carry(s.day, s.ids[s.next], s.tokens);
        if s.next + 1 < s.ids.len() {
            lemma_forms_carry(s.day, s.ids[s.next + 1], s.tokens);
        }
    }
    if s.phase == Phase::PostingDate {
        lemma_forms_carry(s.day, Seq::empty(), s.tokens);
    }
    if let Ok(t) = delta_tokens(body) {
        if s.phase == Phase::PostingDate || s.phase == Phase::Fetching {
            let s1 = EngineView { tokens: t, attempt: 0, ..s };
            if s.phase == Phase::PostingDate {
                if let Some(p) = delta_field(body, day_panel()) {
                    let ids = entry_ids(p);
                    if ids.len() > 0 {
                        lemma_forms_carry(s.day, ids[0], t);
                    }
                }
            } else {
                if s.next + 1 < s.ids.len() {
                    lemma_forms_carry(s.day, s.ids[s.next + 1], t);
                }
                let acts = response_step(s, body).1;
                assert forall|i: int| 0 <= i < acts.len() implies (#[trigger] acts[i] matches ActionView::Post(f, _) ==> carries_tokens(f, t)) by {
                    if i > 0 {
                        assert(acts[i] == advance(s1).1[i - 1]);
                    }
                }
            }
        }
    }
}

/// Once stopped, the engine stays stopped and posts nothing more: neither a
/// response, nor a failure, nor a command moves it.
pub proof fn lemma_terminated_is_final(s: EngineView, body: Seq<char>, iso: Seq<char>, today: Seq<char>)
    requires
        s.phase == Phase::Terminated,
    ensures
        response_step(s, body) == (s, Seq::<ActionView>::empty()),
        failure_step(s) == (s, Seq::<ActionView>::empty()),
        start_day_step(s, iso, today) == (s, Seq::<ActionView>::empty()),
{
}

/// A reply that lacks a token stops the engine with a fatal error and no
/// further post.
pub proof fn lemma_missing_token_is_fatal(s: EngineView, body: Seq<char>)
    requires
        s.phase == Phase::PostingDate || s.phase == Phase::Fetching,
        delta_tokens(body) is Err,
    ensures
        response_step(s, body).0.phase == Phase::Terminated,
        response_step(s, body).1 == seq![
            ActionView::Fatal(ProtocolError::MissingToken(delta_tokens(body)->Err_0)),
        ],
        no_post(response_step(s, body).1),
{
}

/// A quit stops the engine, which asks only to exit.
pub proof fn lemma_quit_drains(s: EngineView)
    ensures
        quit_step(s).0.phase == Phase::Terminated,
        quit_step(s).1 == seq![ActionView::Exit],
        no_post(quit_step(s).1),
{
}

/// The day shown by default needs no date post: the entries are taken from
/// the initial page, and the only post, if any, opens the first entry.
pub proof fn lemma_today_skips_date_post(s: EngineView, iso: Seq<char>)
    requires
        s.phase == Phase::Idle,
    ensures
        start_day_step(s, iso, iso) == fetch_start(EngineView { day: iso, ..s }, entry_ids(s.page)),
        start_day_step(s, iso, iso).0.phase != Phase::PostingDate,
        forall|i: int| 0 <= i < start_day_step(s, iso, iso).1.len() ==>
            (#[trigger] start_day_step(s, iso, iso).1[i] matches ActionView::Post(f, _) ==>
            f == entry_form(entry_ids(s.page)[0], s.tokens)),
{
}

} // verus!

verus! {

/// What the caller hands back to the engine after a post, or a quit.
pub enum EngineInput {
    Response(Seq<char>),
    Failure,
    Quit,
}

/// One input.
pub open spec fn input_step(s: EngineView, i: EngineInput) -> (EngineView, Seq<ActionView>) {
    match i {
        EngineInput::Response(body) => response_step(s, body),
        EngineInput::Failure => failure_step(s),
        EngineInput::Quit => quit_step(s),
    }
}

/// The inputs `ins` in turn: the final state and every action, in order.
pub open spec fn run(s: EngineView, ins: Seq<EngineInput>) -> (EngineView, Seq<ActionView>)
    decreases ins.len(),
{
    if ins.len() == 0 {
        (s, Seq::empty())
    } else {
        let (s1, a1) = input_step(s, ins[0]);
        let (s2, a2) = run(s1, ins.drop_first());
        (s2, a1 + a2)
    }
}

/// After a fatal protocol error or a quit, whatever comes back, the engine
/// makes no further post and stays stopped.
pub proof fn lemma_no_post_after_stop(s: EngineView, ins: Seq<EngineInput>)
    requires
        s.phase == Phase::Terminated,
    ensures
        run(s, ins).0.phase == Phase::Terminated,
        no_post(run(s, ins).1),
    decreases ins.len(),
{
    if ins.len() > 0 {
        let (s1, a1) = input_step(s, ins[0]);
        assert(s1.phase == Phase::Terminated);
        assert(no_post(a1));
        lemma_no_post_after_stop(s1, ins.drop_first());
        let a2 = run(s1, ins.drop_first()).1;
        assert forall|i: int| 0 <= i < (a1 + a2).len() implies !(#[trigger] (a1 + a2)[i] is Post) by {
            if i >= a1.len() {
                assert((a1 + a2)[i] == a2[i - a1.len()]);
            }
        }
    }
}

/// A whole day with one entry: the date post carries the first tokens, the
/// entry post the tokens of the date reply; the entry's tooltip is published,
/// then the day is finished and the engine is idle, holding the tokens of
/// the last reply.
pub proof fn lemma_single_entry_day(
    s: EngineView,
    iso: Seq<char>,
    today: Seq<char>,
    day_reply: Seq<char>,
    tip_reply: Seq<char>,
    id: Seq<char>,
    tip: Seq<char>,
    t1: (Seq<char>, Seq<char>, Seq<char>),
    t2: (Seq<char>, Seq<char>, Seq<char>),
)
    requires
        s.phase == Phase::Idle,
        iso != today,
        delta_tokens(day_reply) == Ok::<(Seq<char>, Seq<char>, Seq<char>), TokenName>(t1),
        delta_field(day_reply, day_panel()) matches Some(p) && entry_ids(p) == seq![id],
        delta_tokens(tip_reply) == Ok::<(Seq<char>, Seq<char>, Seq<char>), TokenName>(t2),
        delta_field(tip_reply, tooltip_panel()) == Some(tip),
    ensures
        ({
            let (s1, a1) = start_day_step(s, iso, today);
            let (s2, a2) = run(s1, seq![EngineInput::Response(day_reply), EngineInput::Response(tip_reply)]);
            &&& a1 == seq![ActionView::Post(date_form(iso, s.tokens), timeout_tier(0))]
            &&& a2 == seq![
                ActionView::Post(entry_form(id, t1), timeout_tier(0)),
                ActionView::PublishEntry(id, tip),
                ActionView::PublishFinished,
            ]
            &&& s2.phase == Phase::Idle
            &&& s2.tokens == t2
        }),
{
    let (s1, a1) = start_day_step(s, iso, today);
    let ins = seq![EngineInput::Response(day_reply), EngineInput::Response(tip_reply)];
    let (s2, b1) = response_step(s1, day_reply);
    let (s3, b2) = response_step(s2, tip_reply);
    assert(ins.drop_first() =~= seq![EngineInput::Response(tip_reply)]);
    assert(ins.drop_first().drop_first() =~= Seq::<EngineInput>::empty());
    assert(run(s3, ins.drop_first().drop_first()) == (s3, Seq::<ActionView>::empty()));
    assert(ins.drop_first()[0] == EngineInput::Response(tip_reply));
    assert(input_step(s2, ins.drop_first()[0]) == (s3, b2));
    assert(run(s2, ins.drop_first()) == (s3, b2 + Seq::<ActionView>::empty()));
    assert(ins[0] == EngineInput::Response(day_reply));
    assert(run(s1, ins) == (s3, b1 + (b2 + Seq::<ActionView>::empty())));
    assert(b1 + (b2 + Seq::<ActionView>::empty()) =~= seq![
        ActionView::Post(entry_form(id, t1), timeout_tier(0)),
        ActionView::PublishEntry(id, tip),
        ActionView::PublishFinished,
    ]);
}

/// Token rotation over a day of two entries: the date post carries the
/// engine's tokens, each entry post the tokens of the reply just before it,
/// and the engine ends holding the tokens of the last reply.
pub proof fn lemma_token_rotation_day(
    s: EngineView,
    iso: Seq<char>,
    today: Seq<char>,
    r1: Seq<char>,
    r2: Seq<char>,
    r3: Seq<char>,
    a: Seq<char>,
    b: Seq<char>,
    t1: (Seq<char>, Seq<char>, Seq<char>),
    t2: (Seq<char>, Seq<char>, Seq<char>),
    t3: (Seq<char>, Seq<char>, Seq<char>),
)
    requires
        s.phase == Phase::Idle,
        iso != today,
        delta_tokens(r1) == Ok::<(Seq<char>, Seq<char>, Seq<char>), TokenName>(t1),
        delta_field(r1, day_panel()) matches Some(p) && entry_ids(p) == seq![a, b],
        delta_tokens(r2) == Ok::<(Seq<char>, Seq<char>, Seq<char>), TokenName>(t2),
        delta_field(r2, tooltip_panel()) is Some,
        delta_tokens(r3) == Ok::<(Seq<char>, Seq<char>, Seq<char>), TokenName>(t3),
        delta_field(r3, tooltip_panel()) is Some,
    ensures
        ({
            let (s1, a1) = start_day_step(s, iso, today);
            let (s2, a2) = run(
                s1,
                seq![EngineInput::Response(r1), EngineInput::Response(r2), EngineInput::Response(r3)],
            );
            &&& a1 == seq![ActionView::Post(date_form(iso, s.tokens), timeout_tier(0))]
            &&& a2.len() == 5
            &&& a2[0] == ActionView::Post(entry_form(a, t1), timeout_tier(0))
            &&& a2[2] == ActionView::Post(entry_form(b, t2), timeout_tier(0))
            &&& a2[4] == ActionView::PublishFinished
            &&& s2.phase == Phase::Idle
            &&& s2.tokens == t3
        }),
{
    let (s1, a1) = start_day_step(s, iso, today);
    let ins = seq![EngineInput::Response(r1), EngineInput::Response(r2), EngineInput::Response(r3)];
    let (s2, b1) = response_step(s1, r1);
    let (s3, b2) = response_step(s2, r2);
    let (s4, b3) = response_step(s3, r3);
    let e = Seq::<ActionView>::empty();
    assert(ins.drop_first() =~= seq![EngineInput::Response(r2), EngineInput::Response(r3)]);
    assert(ins.drop_first().drop_first() =~= seq![EngineInput::Response(r3)]);
    assert(ins.drop_first().drop_first().drop_first() =~= Seq::<EngineInput>::empty());
    assert(run(s4, ins.drop_first().drop_first().drop_first()) == (s4, e));
    assert(ins.drop_first().drop_first()[0] == EngineInput::Response(r3));
    assert(ins.drop_first()[0] == EngineInput::Response(r2));
    assert(ins[0] == EngineInput::Response(r1));
    assert(run(s3, ins.drop_first().drop_first()) == (s4, b3 + e));
    assert(run(s2, ins.drop_first()) == (s4, b2 + (b3 + e)));
    assert(run(s1, ins) == (s4, b1 + (b2 + (b3 + e))));
    assert(b1.len() == 1 && b2.len() == 2 && b3.len() == 2);
    let all = b1 + (b2 + (b3 + e));
    assert(all[0] == b1[0]);
    assert(all[2] == b2[1]);
    assert(all[4] == b3[1]);
}

} // verus!
