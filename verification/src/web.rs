//! The translation and random-word services: the requests the bot makes of them
//! and what it takes from their JSON answers.

use crate::text::{unquoted, without_quotes};
use vstd::prelude::*;

verus! {

/// A POST request: where it goes and the JSON text it carries.
#[derive(Debug, Clone)]
pub struct PostRequest {
    pub url: String,
    pub body: String,
}

/// Why an answer of a service could not be used.
#[derive(Debug, Clone, Copy, PartialEq, Eq, Structural)]
pub enum ResponseError {
    /// The answer is not JSON.
    NotJson,
}

/// One step into a JSON value: an element of an array, or a member of an object.
#[derive(Debug, Clone)]
pub enum JsonStep {
    Index(usize),
    Key(String),
}

/// A step into a JSON value, with the member's name as text.
pub enum JsonStepView {
    Index(usize),
    Key(Seq<char>),
}

impl View for JsonStep {
    type V = JsonStepView;

    open spec fn view(&self) -> JsonStepView {
        match self {
            JsonStep::Index(i) => JsonStepView::Index(*i),
            JsonStep::Key(k) => JsonStepView::Key(k@),
        }
    }
}

/// The steps of a path, as views.
pub open spec fn path_view(path: Seq<JsonStep>) -> Seq<JsonStepView> {
    path.map_values(|s: JsonStep| s@)
}

/// What serde_json gives for a JSON text indexed step by step along `path`
/// (`Value`'s `Index` by position or by member name), written back as JSON;
/// `None` when the text is not JSON.
pub uninterp spec fn json_at(body: Seq<char>, path: Seq<JsonStepView>) -> Option<Seq<char>>;

/// Where the translation service's answer holds the translated text:
/// `answer[0]["translations"][0]["text"]`.
pub open spec fn translation_path() -> Seq<JsonStepView> {
    seq![
        JsonStepView::Index(0),
        JsonStepView::Key("translations"@),
        JsonStepView::Index(0),
        JsonStepView::Key("text"@),
    ]
}

/// Where the random-word service's answer holds the word: `answer["word"]`.
pub open spec fn word_path() -> Seq<JsonStepView> {
    seq![JsonStepView::Key("word"@)]
}

/// The address of the translation service, asking for a translation into `translate_to`.
pub open spec fn translation_url(translate_to: Seq<char>) -> Seq<char> {
    "https://microsoft-translator-text.p.rapidapi.com/translate?to%5B0%5D="@ + translate_to
        + "&api-version=3.0&profanityAction=NoAction&textType=plain&"@
}

/// The JSON text asking for a translation of `text` (the text is put in as it is).
pub open spec fn translation_body(text: Seq<char>) -> Seq<char> {
    "[{\"Text\":\""@ + text + "\"}]"@
}

/// The address names the target language right after the fixed start of the query,
/// so different target languages give different addresses.
pub proof fn lemma_translation_url_names_language(l1: Seq<char>, l2: Seq<char>)
    ensures
        translation_url(l1).subrange(69, 69 + l1.len() as int) == l1,
        translation_url(l1) == translation_url(l2) ==> l1 == l2,
{
    let pre: Seq<char> = "https://microsoft-translator-text.p.rapidapi.com/translate?to%5B0%5D="@;
    let post: Seq<char> = "&api-version=3.0&profanityAction=NoAction&textType=plain&"@;
    reveal_strlit("https://microsoft-translator-text.p.rapidapi.com/translate?to%5B0%5D=");
    reveal_strlit("&api-version=3.0&profanityAction=NoAction&textType=plain&");
    assert(pre.len() == 69);
    assert(translation_url(l1).subrange(69, 69 + l1.len() as int) =~= l1);
    assert(translation_url(l2).subrange(69, 69 + l2.len() as int) =~= l2);
    if translation_url(l1) == translation_url(l2) {
        assert(translation_url(l1).len() == 69 + l1.len() + post.len());
        assert(translation_url(l2).len() == 69 + l2.len() + post.len());
    }
}

/// The request's text names the text to translate, between the fixed start and end,
/// so different texts give different requests.
pub proof fn lemma_translation_body_names_text(t1: Seq<char>, t2: Seq<char>)
    ensures
        translation_body(t1).subrange(10, 10 + t1.len() as int) == t1,
        translation_body(t1) == translation_body(t2) ==> t1 == t2,
{
    let post: Seq<char> = "\"}]"@;
    reveal_strlit("[{\"Text\":\"");
    reveal_strlit("\"}]");
    assert(translation_body(t1).subrange(10, 10 + t1.len() as int) =~= t1);
    assert(translation_body(t2).subrange(10, 10 + t2.len() as int) =~= t2);
    if translation_body(t1) == translation_body(t2) {
        assert(translation_body(t1).len() == 10 + t1.len() + post.len());
        assert(translation_body(t2).len() == 10 + t2.len() + post.len());
    }
}

/// serde_json's `from_str::<Value>`, then `Value`'s `Index` for each step of the
/// path in turn, and `to_string` of the value found. Claimed: the result is `json_at`
/// of the text and the path; what it is, is left to serde_json.
#[verifier::external_body]
fn read_json_at(body: &str, path: &Vec<JsonStep>) -> (r: Option<String>)
    ensures
        match r {
            Some(t) => json_at(body@, path_view(path@)) == Some(t@),
            None => json_at(body@, path_view(path@)) is None,
        },
{
    let value: serde_json::Value = serde_json::from_str(body).ok()?;
    let mut at = &value;
    for step in path {
        at = match step {
            JsonStep::Index(i) => &at[*i],
            JsonStep::Key(k) => &at[k.as_str()],
        };
    }
    Some(at.to_string())
}

/// The path `translation_path`.
fn translation_steps() -> (r: Vec<JsonStep>)
    ensures
        path_view(r@) == translation_path(),
{
    let mut path: Vec<JsonStep> = Vec::new();
    path.push(JsonStep::Index(0));
    path.push(JsonStep::Key(String::from_str("translations")));
    path.push(JsonStep::Index(0));
    path.push(JsonStep::Key(String::from_str("text")));
    assert(path_view(path@) =~= translation_path());
    path
}

/// The path `word_path`.
fn word_steps() -> (r: Vec<JsonStep>)
    ensures
        path_view(r@) == word_path(),
{
    let mut path: Vec<JsonStep> = Vec::new();
    path.push(JsonStep::Key(String::from_str("word")));
    assert(path_view(path@) =~= word_path());
    path
}

/// The request for a translation of `text` into `translate_to`.
pub fn translation_request(text: &str, translate_to: &str) -> (r: PostRequest)
    ensures
        r.url@ == translation_url(translate_to@),
        r.body@ == translation_body(text@),
{
    let url = String::from_str(
        "https://microsoft-translator-text.p.rapidapi.com/translate?to%5B0%5D=",
    ).concat(translate_to).concat("&api-version=3.0&profanityAction=NoAction&textType=plain&");
    let body = String::from_str("[{\"Text\":\"").concat(text).concat("\"}]");
    PostRequest { url, body }
}

/// The translation in the service's answer: `None` when there is no answer, the
/// translated text as JSON (quotes included) when there is, and an error when the
/// answer is not JSON.
pub fn translate_text(response: Option<&str>) -> (r: Result<Option<String>, ResponseError>)
    ensures
        match response {
            None => r matches Ok(None),
            Some(body) => match json_at(body@, translation_path()) {
                Some(t) => r matches Ok(Some(s)) && s@ == t,
                None => r == Err::<Option<String>, ResponseError>(ResponseError::NotJson),
            },
        },
{
    match response {
        None => Ok(None),
        Some(body) => match read_json_at(body, &translation_steps()) {
            Some(t) => Ok(Some(t)),
            None => Err(ResponseError::NotJson),
        },
    }
}

/// The random word in the service's answer: `None` when there is no answer, the
/// word with its quote marks left out when there is, and an error when the answer
/// is not JSON.
pub fn get_random_word(response: Option<&str>) -> (r: Result<Option<String>, ResponseError>)
    ensures
        match response {
            None => r matches Ok(None),
            Some(body) => match json_at(body@, word_path()) {
                Some(w) => r matches Ok(Some(s)) && s@ == unquoted(w),
                None => r == Err::<Option<String>, ResponseError>(ResponseError::NotJson),
            },
        },
{
    match response {
        None => Ok(None),
        Some(body) => match read_json_at(body, &word_steps()) {
            Some(w) => Ok(Some(without_quotes(w.as_str()))),
            None => Err(ResponseError::NotJson),
        },
    }
}

} // verus!
