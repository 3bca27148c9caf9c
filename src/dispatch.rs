//! What the bot does with one incoming text, and the replies it sends once
//! a price or an analysis has come back.
use vstd::prelude::*;
use vstd::string::*;

use crate::analysis::{analysis_error_text, AnalysisError};
use crate::command::{help_text, parse_spec, Command, CommandSpec};
use crate::price::{price_error_text, quote_text, format_quote, PriceError};

verus! {

/// The lower-case form of a text, as `str::to_lowercase` gives it.
pub uninterp spec fn lower_of(s: Seq<char>) -> Seq<char>;

/// Relies on str::to_lowercase: the result depends on the characters alone.
#[verifier::external_body]
fn lowercase(s: &str) -> (r: String)
    ensures
        r@ == lower_of(s@),
{
    s.to_lowercase()
}

/// A message for the originating chat.
pub struct Reply {
    pub text: String,
    /// Whether the text carries Markdown emphasis.
    pub markdown: bool,
}

/// The answer to a text that is not a command.
pub open spec fn hint_text() -> Seq<char> {
    "Hola! Usa /help para ver los comandos disponibles."@
}

/// The answer to a `/` text that is no command of this bot.
pub open spec fn unrecognized_text() -> Seq<char> {
    "❌ Comando no reconocido. Usa /help para ver los comandos disponibles."@
}

/// The notice sent before an analysis is asked for.
pub open spec fn analyzing_text() -> Seq<char> {
    "🧠 Analizando el mercado con IA..."@
}

/// What to do about one incoming text.
pub enum Action {
    /// Send this reply, and nothing more.
    Send(Reply),
    /// Ask for the USD price of `coin`, then send `price_reply` of the outcome.
    FetchPrice(String),
    /// Send the notice, ask for an analysis of `coin`, then send
    /// `analysis_reply` of the outcome.
    Analyze { notice: Reply, coin: String },
}

/// An action as a mathematical value.
pub enum ActionSpec {
    Send(Seq<char>, bool),
    FetchPrice(Seq<char>),
    Analyze(Seq<char>, Seq<char>),
}

impl View for Action {
    type V = ActionSpec;

    open spec fn view(&self) -> ActionSpec {
        match self {
            Action::Send(r) => ActionSpec::Send(r.text@, r.markdown),
            Action::FetchPrice(c) => ActionSpec::FetchPrice(c@),
            Action::Analyze { notice, coin } => ActionSpec::Analyze(notice.text@, coin@),
        }
    }
}

/// What the bot does about the text `s`, when its name is `bot`.
pub open spec fn decide(s: Seq<char>, bot: Seq<char>) -> ActionSpec {
    if s.len() == 0 || s[0] != '/' {
        ActionSpec::Send(hint_text(), false)
    } else {
        match parse_spec(s, bot) {
            Err(_) => ActionSpec::Send(unrecognized_text(), false),
            Ok(CommandSpec::Help) => ActionSpec::Send(help_text(), false),
            Ok(CommandSpec::Price(c)) => ActionSpec::FetchPrice(lower_of(c)),
            Ok(CommandSpec::Analyze(c)) => ActionSpec::Analyze(analyzing_text(), lower_of(c)),
        }
    }
}

fn plain(text: String) -> (r: Reply)
    ensures
        r.text@ == text@,
        !r.markdown,
{
    Reply { text, markdown: false }
}

/// Decides what to do about the incoming text `text`, for the bot named
/// `bot_name`. The coin of a command is lower-cased.
pub fn on_text(text: &str, bot_name: &str) -> (r: Action)
    ensures
        r@ == decide(text@, bot_name@),
{
    if text.unicode_len() == 0 || text.get_char(0) != '/' {
        return Action::Send(plain(String::from_str("Hola! Usa /help para ver los comandos disponibles.")));
    }
    match Command::parse(text, bot_name) {
        Err(_) => Action::Send(
            plain(
                String::from_str(
                    "❌ Comando no reconocido. Usa /help para ver los comandos disponibles.",
                ),
            ),
        ),
        Ok(Command::Help) => Action::Send(plain(Command::descriptions())),
        Ok(Command::Price(c)) => Action::FetchPrice(lowercase(c.as_str())),
        Ok(Command::Analyze(c)) => Action::Analyze {
            notice: plain(String::from_str("🧠 Analizando el mercado con IA...")),
            coin: lowercase(c.as_str()),
        },
    }
}

/// The reply for the outcome of a price request for `coin`: the quote, with
/// Markdown emphasis, or the error's text.
pub fn price_reply(coin: &str, outcome: Result<u64, PriceError>) -> (r: Reply)
    ensures
        match outcome {
            Ok(t) => r.text@ == quote_text(coin@, t as nat) && r.markdown,
            Err(e) => r.text@ == price_error_text(e) && !r.markdown,
        },
{
    match outcome {
        Ok(t) => Reply { text: format_quote(coin, t), markdown: true },
        Err(e) => plain(e.user_text()),
    }
}

/// The reply for the outcome of an analysis request: the analysis, or the
/// error's text.
pub fn analysis_reply(outcome: Result<String, AnalysisError>) -> (r: Reply)
    ensures
        !r.markdown,
        match outcome {
            Ok(s) => r.text@ == s@,
            Err(e) => r.text@ == analysis_error_text(e),
        },
{
    match outcome {
        Ok(s) => plain(s),
        Err(e) => plain(e.user_text()),
    }
}

} // verus!
