//! Market analysis: the chat-completion request for a coin and the reading
//! of the service's reply.
use vstd::prelude::*;
use vstd::string::*;

verus! {

/// Whether a text is a JSON document, as `serde_json::from_str` reads it.
pub uninterp spec fn json_parses(text: Seq<char>) -> bool;

/// The string that a JSON document holds at a JSON pointer, as
/// `serde_json::Value::pointer` finds it in what `serde_json::from_str` read.
pub uninterp spec fn json_string_at(text: Seq<char>, pointer: Seq<char>) -> Option<Seq<char>>;

/// Relies on serde_json::from_str into a `Value`, then Value::pointer: the
/// string at `pointer` in the document `text`, if it is one and has a string
/// there. Both depend on their arguments alone, and neither panics.
#[verifier::external_body]
fn json_string(text: &str, pointer: &str) -> (r: Option<String>)
    ensures
        r is Some ==> json_parses(text@),
        match r {
            Some(s) => json_string_at(text@, pointer@) == Some(s@),
            None => json_string_at(text@, pointer@) is None,
        },
{
    match serde_json::from_str::<serde_json::Value>(text) {
        Ok(v) => match v.pointer(pointer) {
            Some(serde_json::Value::String(s)) => Some(s.clone()),
            _ => None,
        },
        Err(_) => None,
    }
}

/// The chat-completion endpoint.
pub open spec fn completions_url_text() -> Seq<char> {
    "https://api.openai.com/v1/chat/completions"@
}

/// The model that is asked.
pub open spec fn model_name() -> Seq<char> {
    "gpt-3.5-turbo"@
}

/// Where the analysis stands in the service's JSON answer.
pub open spec fn content_pointer() -> Seq<char> {
    "/choices/0/message/content"@
}

/// The sampling temperature, in tenths.
pub open spec fn temperature_tenths() -> u32 {
    7
}


/// The prompt that asks for an analysis of `coin`.
pub open spec fn prompt_text(coin: Seq<char>) -> Seq<char> {
    "Haz un análisis simple del estado actual del mercado de la criptomoneda '"@ + coin
        + "'. Sé claro, breve y sin tecnicismos."@
}

/// Why no analysis could be given.
#[derive(PartialEq, Eq, Structural, Clone, Copy, Debug)]
pub enum AnalysisError {
    /// No API key is configured.
    MissingCredential,
    /// The service could not be reached.
    Transport,
    /// Its answer was not JSON, or held no non-empty text where expected.
    Decode,
}

/// What the chat is told for each analysis error.
pub open spec fn analysis_error_text(e: AnalysisError) -> Seq<char> {
    match e {
        AnalysisError::MissingCredential => "🔒 No se encontró la API key de OpenAI."@,
        AnalysisError::Transport => "❌ Error al contactar OpenAI."@,
        AnalysisError::Decode => "❌ Error al procesar respuesta de OpenAI."@,
    }
}

impl AnalysisError {
    /// The text that the chat is told for this error.
    pub fn user_text(&self) -> (r: String)
        ensures
            r@ == analysis_error_text(*self),
    {
        match self {
            AnalysisError::MissingCredential => String::from_str(
                "🔒 No se encontró la API key de OpenAI.",
            ),
            AnalysisError::Transport => String::from_str("❌ Error al contactar OpenAI."),
            AnalysisError::Decode => String::from_str("❌ Error al procesar respuesta de OpenAI."),
        }
    }
}

/// Everything that a chat-completion request for one coin carries.
pub struct AnalysisRequest {
    pub url: String,
    pub api_key: String,
    pub model: String,
    pub prompt: String,
    pub temperature_tenths: u32,
}

/// The prompt that asks for an analysis of `coin`.
pub fn analysis_prompt(coin: &str) -> (r: String)
    ensures
        r@ == prompt_text(coin@),
{
    let mut r = String::from_str(
        "Haz un análisis simple del estado actual del mercado de la criptomoneda '",
    );
    r.append(coin);
    r.append("'. Sé claro, breve y sin tecnicismos.");
    r
}

/// The request for an analysis of `coin`, given the API key if one is set.
/// Without a key there is no request: `MissingCredential`.
pub fn analysis_request(coin: &str, api_key: Option<String>) -> (r: Result<
    AnalysisRequest,
    AnalysisError,
>)
    ensures
        api_key is None <==> r == Err::<AnalysisRequest, AnalysisError>(
            AnalysisError::MissingCredential,
        ),
        r is Ok <==> api_key is Some,
        r matches Ok(q) ==> {
            &&& q.url@ == completions_url_text()
            &&& q.api_key@ == api_key->Some_0@
            &&& q.model@ == model_name()
            &&& q.prompt@ == prompt_text(coin@)
            &&& q.temperature_tenths == temperature_tenths()
        },
{
    match api_key {
        None => Err(AnalysisError::MissingCredential),
        Some(key) => Ok(
            AnalysisRequest {
                url: String::from_str("https://api.openai.com/v1/chat/completions"),
                api_key: key,
                model: String::from_str("gpt-3.5-turbo"),
                prompt: analysis_prompt(coin),
                temperature_tenths: 7,
            },
        ),
    }
}

/// The analysis given the text found in the answer: it must be there and
/// not be empty.
pub fn analysis_from_content(content: Option<String>) -> (r: Result<String, AnalysisError>)
    ensures
        match content {
            Some(c) => if c@.len() > 0 {
                r matches Ok(s) && s@ == c@
            } else {
                r == Err::<String, AnalysisError>(AnalysisError::Decode)
            },
            None => r == Err::<String, AnalysisError>(AnalysisError::Decode),
        },
{
    match content {
        Some(c) => if c.unicode_len() > 0 {
            Ok(c)
        } else {
            Err(AnalysisError::Decode)
        },
        None => Err(AnalysisError::Decode),
    }
}

/// Reads the analysis out of the service's answer `body`.
///
/// A body that is not JSON is `Decode`; otherwise the string at
/// `/choices/0/message/content` is the analysis, and its absence or
/// emptiness is `Decode`.
pub fn analysis_from_body(body: &str) -> (r: Result<String, AnalysisError>)
    ensures
        !json_parses(body@) ==> r == Err::<String, AnalysisError>(AnalysisError::Decode),
        json_parses(body@) ==> match json_string_at(body@, content_pointer()) {
            Some(c) => if c.len() > 0 {
                r matches Ok(s) && s@ == c
            } else {
                r == Err::<String, AnalysisError>(AnalysisError::Decode)
            },
            None => r == Err::<String, AnalysisError>(AnalysisError::Decode),
        },
{
    analysis_from_content(json_string(body, "/choices/0/message/content"))
}

} // verus!
