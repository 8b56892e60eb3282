//! The client for the provider's project-scoped translation endpoint: the
//! request it sends and the mapping of each outcome of the call to a result.

use vstd::prelude::*;
use vstd::string::*;
use crate::error::TranslateError;
use crate::lang::{Lang, wire_code_of};

verus! {

/// The outcome of one translation: the translated text, or why there is none.
pub type TranslateResult = Result<String, TranslateError>;

/// The endpoint that translates for the project `project_id`.
pub open spec fn url_for(project_id: Seq<char>) -> Seq<char> {
    "https://translate.googleapis.com/v3beta1/projects/"@ + project_id + ":translateText"@
}

/// The authorization header value that carries `token`.
pub open spec fn bearer_of(token: Seq<char>) -> Seq<char> {
    "Bearer "@ + token
}

/// The payload sent to the provider: the text, unchanged, and the provider
/// codes of the two languages.
#[derive(Debug, Clone, Eq, PartialEq)]
pub struct GoogleRequestBody {
    pub contents: Vec<String>,
    pub source_language_code: String,
    pub target_language_code: String,
}

/// `body` asks for `text`, written in `from`, to be rendered in `to`.
pub open spec fn requests(body: GoogleRequestBody, text: Seq<char>, from: Lang, to: Lang) -> bool {
    &&& body.contents@.len() == 1
    &&& body.contents@[0]@ == text
    &&& body.source_language_code@ == wire_code_of(from)
    &&& body.target_language_code@ == wire_code_of(to)
}

impl GoogleRequestBody {
    /// The payload that asks for `text` from `from` into `to`.
    pub fn new(text: &str, from: &Lang, to: &Lang) -> (r: Self)
        ensures
            requests(r, text@, *from, *to),
    {
        let mut contents: Vec<String> = Vec::new();
        contents.push(text.to_owned());
        Self {
            contents,
            source_language_code: Self::language_text(from),
            target_language_code: Self::language_text(to),
        }
    }

    /// The provider's code for `lang`.
    pub fn language_text(lang: &Lang) -> (r: String)
        ensures
            r@ == wire_code_of(*lang),
    {
        lang.wire_code()
    }
}

/// One translation in the provider's reply.
#[derive(Debug, Clone, Eq, PartialEq)]
pub struct GoogleResponseTranslation {
    pub translated_text: String,
}

/// The provider's reply: its translations, in order.
#[derive(Debug, Clone, Eq, PartialEq)]
pub struct GoogleResponseBody {
    pub translations: Vec<GoogleResponseTranslation>,
}

impl View for GoogleResponseBody {
    type V = Seq<Seq<char>>;

    /// The translated texts, in order.
    open spec fn view(&self) -> Seq<Seq<char>> {
        self.translations@.map_values(|t: GoogleResponseTranslation| t.translated_text@)
    }
}

/// The message of the error for a reply with no translation in it.
pub open spec fn empty_result_message() -> Seq<char> {
    "empty translation result"@
}

impl GoogleResponseBody {
    /// The first translation's text; an error when the reply holds none.
    pub fn text(&self) -> (r: TranslateResult)
        ensures
            match r {
                Ok(s) => self@.len() > 0 && s@ == self@[0],
                Err(e) => self@.len() == 0 && e@ == empty_result_message(),
            },
    {
        if self.translations.len() == 0 {
            Err(TranslateError::new(String::from_str("empty translation result")))
        } else {
            Ok(self.translations[0].translated_text.clone())
        }
    }
}

/// What came of sending a request to the provider.
#[derive(Debug, Clone, Eq, PartialEq)]
pub enum ProviderOutcome {
    /// The request did not get through (connection, TLS, timeout); the
    /// transport's diagnostic.
    TransportFailed(String),
    /// The provider answered with a status outside 2xx; that status and what
    /// came with it.
    Rejected(String),
    /// The reply did not have the expected shape; the decoder's diagnostic.
    Malformed(String),
    /// The reply was decoded.
    Decoded(GoogleResponseBody),
}

/// The text a translation yields for `outcome`, if it succeeds.
pub open spec fn translation_of(outcome: ProviderOutcome) -> Option<Seq<char>> {
    match outcome {
        ProviderOutcome::Decoded(body) => if body@.len() > 0 {
            Some(body@[0])
        } else {
            None
        },
        _ => None,
    }
}

/// The message of the error a translation yields for `outcome` when it fails.
pub open spec fn failure_message_of(outcome: ProviderOutcome) -> Seq<char> {
    match outcome {
        ProviderOutcome::TransportFailed(d) => "transport error: "@ + d@,
        ProviderOutcome::Rejected(d) => "provider rejected the request: "@ + d@,
        ProviderOutcome::Malformed(d) => "malformed response: "@ + d@,
        ProviderOutcome::Decoded(_) => empty_result_message(),
    }
}

/// Everything needed to send one translation request.
#[derive(Debug, Clone, Eq, PartialEq)]
pub struct TranslateRequest {
    /// The endpoint to POST to.
    pub url: String,
    /// The value of the `Authorization` header.
    pub authorization: String,
    /// The payload, to be sent as JSON.
    pub body: GoogleRequestBody,
}

/// A client of the provider, holding the project and the access token it
/// works with.
pub struct Google {
    project_id: String,
    access_token: String,
}

impl View for Google {
    type V = (Seq<char>, Seq<char>);

    /// The project identifier and the access token.
    closed spec fn view(&self) -> (Seq<char>, Seq<char>) {
        (self.project_id@, self.access_token@)
    }
}

impl Google {
    /// A client for `project_id` that authenticates with `access_token`.
    pub fn new(project_id: String, access_token: String) -> (r: Self)
        ensures
            r@ == (project_id@, access_token@),
    {
        Self { project_id, access_token }
    }

    /// The translation endpoint of this client's project.
    pub fn translate_text_url(&self) -> (r: String)
        ensures
            r@ == url_for(self@.0),
    {
        String::from_str("https://translate.googleapis.com/v3beta1/projects/").concat(
            self.project_id.as_str(),
        ).concat(":translateText")
    }

    /// The bearer authorization header value for this client's token.
    pub fn authorization(&self) -> (r: String)
        ensures
            r@ == bearer_of(self@.1),
    {
        String::from_str("Bearer ").concat(self.access_token.as_str())
    }

    /// The request that asks the provider to translate `text` from `from`
    /// into `to`. Empty text and equal languages are passed on as they are.
    pub fn translate_request(&self, text: &str, from: &Lang, to: &Lang) -> (r: TranslateRequest)
        ensures
            r.url@ == url_for(self@.0),
            r.authorization@ == bearer_of(self@.1),
            requests(r.body, text@, *from, *to),
    {
        TranslateRequest {
            url: self.translate_text_url(),
            authorization: self.authorization(),
            body: GoogleRequestBody::new(text, from, to),
        }
    }

    /// The result of a translation whose request came to `outcome`: the first
    /// translated text of a decoded reply, and an error in every other case.
    pub fn translation_result(outcome: ProviderOutcome) -> (r: TranslateResult)
        ensures
            match r {
                Ok(s) => translation_of(outcome) == Some(s@),
                Err(e) => translation_of(outcome).is_none() && e@ == failure_message_of(outcome),
            },
    {
        match outcome {
            ProviderOutcome::TransportFailed(d) => Err(
                TranslateError::with_detail("transport error: ", d.as_str()),
            ),
            ProviderOutcome::Rejected(d) => Err(
                TranslateError::with_detail("provider rejected the request: ", d.as_str()),
            ),
            ProviderOutcome::Malformed(d) => Err(
                TranslateError::with_detail("malformed response: ", d.as_str()),
            ),
            ProviderOutcome::Decoded(body) => body.text(),
        }
    }
}

/// A reply with translations yields the first one's text exactly; what
/// follows the first entry has no bearing on the result.
pub proof fn lemma_first_translation_wins(body: GoogleResponseBody, other: GoogleResponseBody)
    requires
        body@.len() > 0,
    ensures
        translation_of(ProviderOutcome::Decoded(body)) == Some(body@[0]),
        other@.len() > 0 && other@[0] == body@[0] ==> translation_of(
            ProviderOutcome::Decoded(other),
        ) == translation_of(ProviderOutcome::Decoded(body)),
{
}

/// A reply with no translation yields an error, with a message of its own.
pub proof fn lemma_empty_reply_is_error(body: GoogleResponseBody)
    requires
        body@.len() == 0,
    ensures
        translation_of(ProviderOutcome::Decoded(body)).is_none(),
        failure_message_of(ProviderOutcome::Decoded(body)) == empty_result_message(),
        empty_result_message().len() > 0,
{
    reveal_strlit("empty translation result");
}

/// A failed transport yields an error whose message is never empty, whatever
/// the transport's own diagnostic.
pub proof fn lemma_transport_failure_is_error(detail: String)
    ensures
        translation_of(ProviderOutcome::TransportFailed(detail)).is_none(),
        failure_message_of(ProviderOutcome::TransportFailed(detail)).len() > 0,
{
    reveal_strlit("transport error: ");
}

/// Every outcome without a translation comes with a non-empty message.
pub proof fn lemma_failure_message_nonempty(outcome: ProviderOutcome)
    ensures
        translation_of(outcome).is_none() ==> failure_message_of(outcome).len() > 0,
{
    reveal_strlit("transport error: ");
    reveal_strlit("provider rejected the request: ");
    reveal_strlit("malformed response: ");
    reveal_strlit("empty translation result");
}

} // verus!
