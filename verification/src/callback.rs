//! OAuth deep-link callbacks: from a redirect URL to the code and state that
//! are handed to the frontend.

use vstd::prelude::*;

verus! {

/// Name of the event under which a parsed callback is emitted to the frontend.
pub const OAUTH_CALLBACK_EVENT: &'static str = "oauth-callback";

/// Code and state of one OAuth redirect, the payload of the frontend event.
#[derive(Debug, PartialEq, Eq)]
pub struct OAuthCallbackData {
    pub code: String,
    pub state: String,
}

/// Mathematical value of an [`OAuthCallbackData`].
pub struct CallbackView {
    pub code: Seq<char>,
    pub state: Seq<char>,
}

impl View for OAuthCallbackData {
    type V = CallbackView;

    open spec fn view(&self) -> CallbackView {
        CallbackView { code: self.code@, state: self.state@ }
    }
}

/// Why a callback could not be handled.
#[derive(Debug, PartialEq, Eq)]
pub enum CallbackError {
    /// The text is no well-formed URL; holds the parser's description.
    InvalidUrl(String),
    /// The query has no `code` parameter.
    MissingCode,
    /// The query has a `code` but no `state` parameter.
    MissingState,
    /// The frontend event could not be emitted; holds the emitter's description.
    EmitFailed(String),
}

/// Mathematical value of a [`CallbackError`].
pub enum CallbackErrorView {
    InvalidUrl(Seq<char>),
    MissingCode,
    MissingState,
    EmitFailed(Seq<char>),
}

impl View for CallbackError {
    type V = CallbackErrorView;

    open spec fn view(&self) -> CallbackErrorView {
        match self {
            CallbackError::InvalidUrl(detail) => CallbackErrorView::InvalidUrl(detail@),
            CallbackError::MissingCode => CallbackErrorView::MissingCode,
            CallbackError::MissingState => CallbackErrorView::MissingState,
            CallbackError::EmitFailed(detail) => CallbackErrorView::EmitFailed(detail@),
        }
    }
}

/// The text shown to the caller of a command for `error`.
pub open spec fn error_message(error: CallbackErrorView) -> Seq<char> {
    match error {
        CallbackErrorView::InvalidUrl(detail) => "Invalid OAuth callback URL: "@ + detail,
        CallbackErrorView::MissingCode => "Missing authorization code in callback URL"@,
        CallbackErrorView::MissingState => "Missing state parameter in callback URL"@,
        CallbackErrorView::EmitFailed(detail) => "Failed to emit OAuth callback event: "@ + detail,
    }
}

/// Whether two errors are of the same kind, whatever detail they carry.
pub open spec fn same_kind(a: CallbackErrorView, b: CallbackErrorView) -> bool {
    match (a, b) {
        (CallbackErrorView::InvalidUrl(_), CallbackErrorView::InvalidUrl(_)) => true,
        (CallbackErrorView::MissingCode, CallbackErrorView::MissingCode) => true,
        (CallbackErrorView::MissingState, CallbackErrorView::MissingState) => true,
        (CallbackErrorView::EmitFailed(_), CallbackErrorView::EmitFailed(_)) => true,
        _ => false,
    }
}

impl CallbackError {
    /// The text shown to the caller of a command that failed with this error.
    pub fn message(&self) -> (text: String)
        ensures
            text@ == error_message(self@),
    {
        match self {
            CallbackError::InvalidUrl(detail) => {
                String::from_str("Invalid OAuth callback URL: ").concat(detail.as_str())
            },
            CallbackError::MissingCode => String::from_str(
                "Missing authorization code in callback URL",
            ),
            CallbackError::MissingState => String::from_str(
                "Missing state parameter in callback URL",
            ),
            CallbackError::EmitFailed(detail) => {
                String::from_str("Failed to emit OAuth callback event: ").concat(detail.as_str())
            },
        }
    }
}

/// A malformed URL, a missing code, a missing state and a failed emission
/// can be told apart by their messages alone: errors of two kinds never share
/// a message, whatever detail they carry.
pub proof fn lemma_error_kinds_have_distinct_messages(a: CallbackErrorView, b: CallbackErrorView)
    requires
        error_message(a) == error_message(b),
    ensures
        same_kind(a, b),
{
    reveal_strlit("Invalid OAuth callback URL: ");
    reveal_strlit("Missing authorization code in callback URL");
    reveal_strlit("Missing state parameter in callback URL");
    reveal_strlit("Failed to emit OAuth callback event: ");
    let ma = error_message(a);
    let mb = error_message(b);
    assert(ma[0] == mb[0]);
    assert(ma[8] == mb[8]);
}

/// Decoded query parameters in the order in which the URL lists them.
pub type QueryView = Seq<(Seq<char>, Seq<char>)>;

/// Value of the last parameter called `name`, if there is one: where a name
/// occurs several times the last occurrence wins.
pub open spec fn last_value_of(pairs: QueryView, name: Seq<char>) -> Option<Seq<char>>
    decreases pairs.len(),
{
    if pairs.len() == 0 {
        None
    } else if pairs.last().0 == name {
        Some(pairs.last().1)
    } else {
        last_value_of(pairs.drop_last(), name)
    }
}

/// Whether the parameter at `index` is the last one called `name` and has
/// the value `value`.
pub open spec fn is_last_occurrence(
    pairs: QueryView,
    name: Seq<char>,
    value: Seq<char>,
    index: int,
) -> bool {
    &&& 0 <= index < pairs.len()
    &&& pairs[index] == (name, value)
    &&& forall|later: int| index < later < pairs.len() ==> (#[trigger] pairs[later]).0 != name
}

/// Last value wins: a name that no parameter has yields nothing, and any
/// other name yields the value of its last occurrence.
pub proof fn lemma_last_value_is_last_occurrence(pairs: QueryView, name: Seq<char>)
    ensures
        last_value_of(pairs, name) is None ==> forall|i: int|
            0 <= i < pairs.len() ==> (#[trigger] pairs[i]).0 != name,
        last_value_of(pairs, name) is Some ==> exists|i: int|
            is_last_occurrence(pairs, name, last_value_of(pairs, name)->Some_0, i),
    decreases pairs.len(),
{
    if pairs.len() > 0 {
        let front = pairs.drop_last();
        let found = last_value_of(pairs, name)->Some_0;
        if pairs.last().0 == name {
            assert(is_last_occurrence(pairs, name, found, pairs.len() - 1));
        } else {
            lemma_last_value_is_last_occurrence(front, name);
            assert(forall|i: int| 0 <= i < front.len() ==> front[i] == pairs[i]);
            if last_value_of(front, name) is Some {
                let i = choose|i: int| is_last_occurrence(front, name, found, i);
                assert forall|later: int| i < later < pairs.len() implies #[trigger] pairs[later].0
                    != name by {
                    if later < front.len() {
                        assert(front[later].0 != name);
                    }
                }
                assert(is_last_occurrence(pairs, name, found, i));
            }
        }
    }
}

/// Looks up the last parameter called `name`.
pub fn last_value(pairs: &Vec<(String, String)>, name: &str) -> (found: Option<String>)
    ensures
        found.deep_view() == last_value_of(pairs.deep_view(), name@),
{
    let wanted = String::from_str(name);
    let ghost all = pairs.deep_view();
    let mut i: usize = pairs.len();
    assert(all.subrange(0, i as int) == all);
    while i > 0
        invariant
            i <= pairs.len(),
            all == pairs.deep_view(),
            wanted@ == name@,
            last_value_of(all, name@) == last_value_of(all.subrange(0, i as int), name@),
        decreases i,
    {
        i -= 1;
        assert(all.subrange(0, i + 1).drop_last() == all.subrange(0, i as int));
        if pairs[i].0 == wanted {
            return Some(pairs[i].1.clone());
        }
    }
    None
}

/// What a URL parser made of a text: the decoded query parameters of the
/// URL, or the parser's description of what is wrong with the text.
pub type ParsedQueryView = Result<QueryView, Seq<char>>;

/// What [`parse_callback`] makes of a parsed query: the text must be a URL,
/// then `code` must be there, then `state`.
pub open spec fn callback_of(parsed: ParsedQueryView) -> Result<CallbackView, CallbackErrorView> {
    match parsed {
        Err(detail) => Err(CallbackErrorView::InvalidUrl(detail)),
        Ok(pairs) => match (last_value_of(pairs, "code"@), last_value_of(pairs, "state"@)) {
            (None, _) => Err(CallbackErrorView::MissingCode),
            (Some(_), None) => Err(CallbackErrorView::MissingState),
            (Some(code), Some(state)) => Ok(CallbackView { code, state }),
        },
    }
}

/// The failures of parsing come on separate inputs: a text that is no URL,
/// a URL without `code`, and a URL with `code` but without `state`. Every
/// other text is parsed, and parsing never reports a failed emission.
pub proof fn lemma_failures_are_told_apart(parsed: ParsedQueryView)
    ensures
        callback_of(parsed) matches Err(CallbackErrorView::InvalidUrl(_)) <==> parsed is Err,
        callback_of(parsed) matches Err(CallbackErrorView::MissingCode) <==> (parsed is Ok
            && last_value_of(parsed->Ok_0, "code"@) is None),
        callback_of(parsed) matches Err(CallbackErrorView::MissingState) <==> (parsed is Ok
            && last_value_of(parsed->Ok_0, "code"@) is Some && last_value_of(
            parsed->Ok_0,
            "state"@,
        ) is None),
        callback_of(parsed) is Ok <==> (parsed is Ok && last_value_of(parsed->Ok_0, "code"@)
            is Some && last_value_of(parsed->Ok_0, "state"@) is Some),
        !(callback_of(parsed) matches Err(CallbackErrorView::EmitFailed(_))),
{
}

/// Mathematical value of a parser's answer.
pub open spec fn parsed_view(parsed: Result<Vec<(String, String)>, String>) -> ParsedQueryView {
    match parsed {
        Ok(pairs) => Ok(pairs.deep_view()),
        Err(detail) => Err(detail@),
    }
}

/// Mathematical value of a callback result.
pub open spec fn outcome_view(outcome: Result<OAuthCallbackData, CallbackError>) -> Result<
    CallbackView,
    CallbackErrorView,
> {
    match outcome {
        Ok(data) => Ok(data@),
        Err(error) => Err(error@),
    }
}

/// Builds the callback payload from a parser's answer. No value is checked
/// against an expected nonce: that is the frontend's part.
pub fn callback_from_query(parsed: Result<Vec<(String, String)>, String>) -> (outcome: Result<
    OAuthCallbackData,
    CallbackError,
>)
    ensures
        outcome_view(outcome) == callback_of(parsed_view(parsed)),
{
    match parsed {
        Err(detail) => Err(CallbackError::InvalidUrl(detail)),
        Ok(pairs) => {
            match last_value(&pairs, "code") {
                None => Err(CallbackError::MissingCode),
                Some(code) => match last_value(&pairs, "state") {
                    None => Err(CallbackError::MissingState),
                    Some(state) => Ok(OAuthCallbackData { code, state }),
                },
            }
        },
    }
}

/// The answer of the `url` crate's parser for `raw`: the query parameters
/// that `Url::query_pairs` lists for the URL that `Url::parse` returns, or
/// the text of the error with which `Url::parse` rejects `raw`.
pub uninterp spec fn url_query(raw: Seq<char>) -> Result<Seq<(Seq<char>, Seq<char>)>, Seq<char>>;

/// Calls `url::Url::parse` on `raw` and reads the result.
///
/// Trusted: the answer depends on `raw` alone. For a URL it is the list that
/// `Url::query_pairs` yields, every name and value as an owned string; for
/// anything else it is the `Display` text of the `url::ParseError`.
#[verifier::external_body]
fn parse_url_query(raw: &str) -> (parsed: Result<Vec<(String, String)>, String>)
    ensures
        parsed_view(parsed) == url_query(raw@),
{
    match url::Url::parse(raw) {
        Ok(parsed) => Ok(parsed.query_pairs().into_owned().collect()),
        Err(error) => Err(error.to_string()),
    }
}

/// Parses the redirect URL of an OAuth callback into its code and state.
pub fn parse_callback(raw: &str) -> (outcome: Result<OAuthCallbackData, CallbackError>)
    ensures
        outcome_view(outcome) == callback_of(url_query(raw@)),
{
    callback_from_query(parse_url_query(raw))
}

/// What the command reports once the frontend event was handed to the
/// emitter: a failure to emit is an error of the command, never dropped.
pub fn emission_outcome(emitted: Result<(), String>) -> (outcome: Result<(), CallbackError>)
    ensures
        emitted is Ok ==> outcome is Ok,
        emitted is Err ==> outcome is Err && outcome->Err_0@ == CallbackErrorView::EmitFailed(
            emitted->Err_0@,
        ),
{
    match emitted {
        Ok(()) => Ok(()),
        Err(detail) => Err(CallbackError::EmitFailed(detail)),
    }
}

} // verus!
