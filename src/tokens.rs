//! The three tokens that the server issues and that every post must echo.
use crate::delta::{delta_field, give_html_delta};
use crate::html::{html_limit, opt_view, select_attribute, selected_attribute};
use crate::text::{copy_str, has_char};
use crate::delta::{frame, lemma_frame_field};
use vstd::prelude::*;

verus! {

/// Which of the three tokens.
#[derive(Debug, Clone, Copy, PartialEq, Eq, Structural)]
pub enum TokenName {
    ViewState,
    ViewStateGenerator,
    EventValidation,
}

/// A response lacked a token: a fatal protocol error.
#[derive(Debug, Clone, Copy, PartialEq, Eq, Structural)]
pub struct MissingToken {
    pub name: TokenName,
}

/// The form field, element id and delta field name of `__VIEWSTATE`.
pub open spec fn view_state_key() -> Seq<char> {
    "__VIEWSTATE"@
}

/// The form field, element id and delta field name of `__VIEWSTATEGENERATOR`.
pub open spec fn view_state_generator_key() -> Seq<char> {
    "__VIEWSTATEGENERATOR"@
}

/// The form field, element id and delta field name of `__EVENTVALIDATION`.
pub open spec fn event_validation_key() -> Seq<char> {
    "__EVENTVALIDATION"@
}

/// The three tokens that a delta body carries, or the first one it lacks.
pub open spec fn delta_tokens(body: Seq<char>) -> Result<(Seq<char>, Seq<char>, Seq<char>), TokenName> {
    match (
        delta_field(body, view_state_key()),
        delta_field(body, view_state_generator_key()),
        delta_field(body, event_validation_key()),
    ) {
        (Some(v), Some(g), Some(e)) => Ok((v, g, e)),
        (None, _, _) => Err(TokenName::ViewState),
        (Some(_), None, _) => Err(TokenName::ViewStateGenerator),
        (Some(_), Some(_), None) => Err(TokenName::EventValidation),
    }
}

/// The `value` attribute of the element with id `id` in a full page.
pub open spec fn page_value(html: Seq<char>, id: Seq<char>) -> Option<Seq<char>> {
    selected_attribute(html, seq!['#'] + id, "value"@)
}

/// The three tokens that a full page carries in its hidden inputs, or the
/// first one it lacks.
pub open spec fn page_tokens(html: Seq<char>) -> Result<(Seq<char>, Seq<char>, Seq<char>), TokenName> {
    match (
        page_value(html, view_state_key()),
        page_value(html, view_state_generator_key()),
        page_value(html, event_validation_key()),
    ) {
        (Some(v), Some(g), Some(e)) => Ok((v, g, e)),
        (None, _, _) => Err(TokenName::ViewState),
        (Some(_), None, _) => Err(TokenName::ViewStateGenerator),
        (Some(_), Some(_), None) => Err(TokenName::EventValidation),
    }
}

/// The server's tokens: ViewState, ViewStateGenerator, EventValidation.
/// They are always replaced together.
#[derive(Debug)]
pub struct BaseValidation {
    view_state: String,
    view_state_generator: String,
    event_validation: String,
}

impl View for BaseValidation {
    type V = (Seq<char>, Seq<char>, Seq<char>);

    closed spec fn view(&self) -> (Seq<char>, Seq<char>, Seq<char>) {
        (self.view_state@, self.view_state_generator@, self.event_validation@)
    }
}

impl BaseValidation {
    pub fn new(view_state: String, view_state_generator: String, event_validation: String) -> (r:
        Self)
        ensures
            r@ == (view_state@, view_state_generator@, event_validation@),
    {
        BaseValidation { view_state, view_state_generator, event_validation }
    }

    /// No tokens yet: all three empty.
    pub fn empty() -> (r: Self)
        ensures
            r@ == (Seq::<char>::empty(), Seq::<char>::empty(), Seq::<char>::empty()),
    {
        BaseValidation::new(String::new(), String::new(), String::new())
    }

    /// Replaces all three tokens.
    pub fn update(&mut self, view_state: String, view_state_generator: String, event_validation: String)
        ensures
            final(self)@ == (view_state@, view_state_generator@, event_validation@),
    {
        self.view_state = view_state;
        self.event_validation = event_validation;
        self.view_state_generator = view_state_generator;
    }

    /// A copy of the current tokens.
    pub fn snapshot(&self) -> (r: Self)
        ensures
            r@ == self@,
    {
        BaseValidation::new(
            copy_str(self.view_state.as_str()),
            copy_str(self.view_state_generator.as_str()),
            copy_str(self.event_validation.as_str()),
        )
    }

    pub fn view_state(&self) -> (r: &str)
        ensures
            r@ == self@.0,
    {
        self.view_state.as_str()
    }

    pub fn view_state_generator(&self) -> (r: &str)
        ensures
            r@ == self@.1,
    {
        self.view_state_generator.as_str()
    }

    pub fn event_validation(&self) -> (r: &str)
        ensures
            r@ == self@.2,
    {
        self.event_validation.as_str()
    }

    /// Takes the tokens from a delta body. Where the body lacks one, nothing
    /// changes and the first missing token is named.
    pub fn update_from_delta(&mut self, body: &str) -> (r: Result<(), MissingToken>)
        ensures
            match delta_tokens(body@) {
                Ok(t) => r is Ok && final(self)@ == t,
                Err(n) => r == Err::<(), MissingToken>(MissingToken { name: n })
                    && final(self)@ == old(self)@,
            },
    {
        let v = give_html_delta(body, "__VIEWSTATE");
        let g = give_html_delta(body, "__VIEWSTATEGENERATOR");
        let e = give_html_delta(body, "__EVENTVALIDATION");
        match (v, g, e) {
            (Some(v), Some(g), Some(e)) => {
                self.update(v, g, e);
                Ok(())
            },
            (None, _, _) => Err(MissingToken { name: TokenName::ViewState }),
            (Some(_), None, _) => Err(MissingToken { name: TokenName::ViewStateGenerator }),
            (Some(_), Some(_), None) => Err(MissingToken { name: TokenName::EventValidation }),
        }
    }

    /// Takes the tokens from the hidden inputs of a full page. Where the page
    /// lacks one, nothing changes and the first missing token is named.
    pub fn update_from_page(&mut self, html: &str) -> (r: Result<(), MissingToken>)
        requires
            html@.len() <= html_limit(),
        ensures
            match page_tokens(html@) {
                Ok(t) => r is Ok && final(self)@ == t,
                Err(n) => r == Err::<(), MissingToken>(MissingToken { name: n })
                    && final(self)@ == old(self)@,
            },
    {
        proof {
            reveal_strlit("#__VIEWSTATE");
            reveal_strlit("__VIEWSTATE");
            reveal_strlit("#__VIEWSTATEGENERATOR");
            reveal_strlit("__VIEWSTATEGENERATOR");
            reveal_strlit("#__EVENTVALIDATION");
            reveal_strlit("__EVENTVALIDATION");
        }
        assert("#__VIEWSTATE"@ =~= seq!['#'] + view_state_key());
        assert("#__VIEWSTATEGENERATOR"@ =~= seq!['#'] + view_state_generator_key());
        assert("#__EVENTVALIDATION"@ =~= seq!['#'] + event_validation_key());
        let v = select_attribute(html, "#__VIEWSTATE", "value");
        let g = select_attribute(html, "#__VIEWSTATEGENERATOR", "value");
        let e = select_attribute(html, "#__EVENTVALIDATION", "value");
        match (v, g, e) {
            (Some(v), Some(g), Some(e)) => {
                self.update(v, g, e);
                Ok(())
            },
            (None, _, _) => Err(MissingToken { name: TokenName::ViewState }),
            (Some(_), None, _) => Err(MissingToken { name: TokenName::ViewStateGenerator }),
            (Some(_), Some(_), None) => Err(MissingToken { name: TokenName::EventValidation }),
        }
    }
}

} // verus!

verus! {

/// Whether `x` is one of the three token names.
pub open spec fn is_token_name(x: Seq<char>) -> bool {
    x == view_state_key() || x == view_state_generator_key() || x == event_validation_key()
}

/// Token round trip: a reply that carries the tokens `(v, g, e)`, each in a
/// record `length|kind|name|payload|`, reads back as exactly `(v, g, e)`
/// (so that after `update_from_delta` the state holds them).
pub proof fn lemma_token_roundtrip(
    lv: Seq<char>,
    kv: Seq<char>,
    v: Seq<char>,
    lg: Seq<char>,
    kg: Seq<char>,
    g: Seq<char>,
    le: Seq<char>,
    ke: Seq<char>,
    e: Seq<char>,
)
    requires
        !has_char(lv, '|') && !has_char(kv, '|') && !has_char(v, '|'),
        !has_char(lg, '|') && !has_char(kg, '|') && !has_char(g, '|'),
        !has_char(le, '|') && !has_char(ke, '|') && !has_char(e, '|'),
        !is_token_name(lv) && !is_token_name(kv) && !is_token_name(v),
        !is_token_name(lg) && !is_token_name(kg) && !is_token_name(g),
        !is_token_name(le) && !is_token_name(ke) && !is_token_name(e),
    ensures
        delta_tokens(
            frame(
                seq![lv, kv, view_state_key(), v, lg, kg, view_state_generator_key(), g, le, ke, event_validation_key(), e],
            ),
        ) == Ok::<(Seq<char>, Seq<char>, Seq<char>), TokenName>((v, g, e)),
{
    reveal_strlit("__VIEWSTATE");
    reveal_strlit("__VIEWSTATEGENERATOR");
    reveal_strlit("__EVENTVALIDATION");
    let fs = seq![lv, kv, view_state_key(), v, lg, kg, view_state_generator_key(), g, le, ke, event_validation_key(), e];
    assert(view_state_key().len() != view_state_generator_key().len());
    assert(view_state_key().len() != event_validation_key().len());
    assert(view_state_generator_key().len() != event_validation_key().len());
    assert(!has_char(view_state_key(), '|'));
    assert(!has_char(view_state_generator_key(), '|'));
    assert(!has_char(event_validation_key(), '|'));
    assert forall|j: int| 0 <= j < fs.len() implies !has_char(#[trigger] fs[j], '|') by {
        if j == 2 || j == 6 || j == 10 {
        }
    }
    assert forall|j: int| 0 <= j < fs.len() && j != 2 && j != 6 && j != 10 implies !is_token_name(#[trigger] fs[j]) by {}
    lemma_frame_field(fs, 2);
    lemma_frame_field(fs, 6);
    lemma_frame_field(fs, 10);
}

} // verus!
