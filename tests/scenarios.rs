use telegram_crypto_bot::analysis::{analysis_request, AnalysisError};
use telegram_crypto_bot::command::Command;
use telegram_crypto_bot::dispatch::{analysis_reply, on_text, price_reply, Action};
use telegram_crypto_bot::price::{lookup_usd, price_url, CoinPrices, PriceError, Quote};

const BOT: &str = "telegram_crypto_bot";

fn table(coin: &str, currency: &str, ticks: i64) -> Vec<CoinPrices> {
    vec![CoinPrices {
        coin: coin.to_string(),
        quotes: vec![Quote { currency: currency.to_string(), ticks }],
    }]
}

fn coin_to_fetch(text: &str) -> String {
    match on_text(text, BOT) {
        Action::FetchPrice(c) => c,
        _ => panic!("expected a price request"),
    }
}

#[test]
fn help_lists_the_commands() {
    match on_text("/help", BOT) {
        Action::Send(r) => {
            assert_eq!(r.text, Command::descriptions());
            assert!(r.text.contains("price"));
            assert!(r.text.contains("analyze"));
            assert!(r.text.contains("help"));
            assert!(!r.markdown);
        }
        _ => panic!("expected a reply"),
    }
}

#[test]
fn price_of_bitcoin() {
    let coin = coin_to_fetch("/price bitcoin");
    assert_eq!(coin, "bitcoin");
    let usd = 65432.1f64;
    let ticks = (usd * 10_000.0).round() as i64;
    let found = lookup_usd(&table("bitcoin", "usd", ticks), &coin);
    let r = price_reply(&coin, found);
    assert!(r.text.contains("bitcoin"));
    assert!(r.text.contains("$65432.1000"));
    assert!(r.markdown);
}

#[test]
fn price_coin_is_lower_cased() {
    let coin = coin_to_fetch("/price Bitcoin");
    assert_eq!(coin, "bitcoin");
    assert!(price_url(&coin).contains("ids=bitcoin"));
    let found = lookup_usd(&table("bitcoin", "usd", 10_000), &coin);
    let r = price_reply(&coin, found);
    assert!(r.text.contains("$1.0000"));
}

#[test]
fn price_of_unknown_coin() {
    let coin = coin_to_fetch("/price nosuchcoin");
    let found = lookup_usd(&Vec::new(), &coin);
    assert!(matches!(&found, Err(PriceError::NotFound(c)) if c == "nosuchcoin"));
    let r = price_reply(&coin, found);
    assert!(r.text.contains("'nosuchcoin'"));
    assert!(r.text.contains("Asegúrate de usar el nombre en inglés y en minúsculas"));
    assert!(!r.markdown);
}

#[test]
fn analyze_without_key() {
    let coin = match on_text("/analyze bitcoin", BOT) {
        Action::Analyze { notice, coin } => {
            assert_eq!(notice.text, "🧠 Analizando el mercado con IA...");
            coin
        }
        _ => panic!("expected an analysis"),
    };
    assert_eq!(coin, "bitcoin");
    let req = analysis_request(&coin, None);
    assert!(matches!(req, Err(AnalysisError::MissingCredential)));
    let r = analysis_reply(Err(AnalysisError::MissingCredential));
    assert_eq!(r.text, "🔒 No se encontró la API key de OpenAI.");
}

#[test]
fn plain_text_gets_greeting() {
    match on_text("hola", BOT) {
        Action::Send(r) => {
            assert_eq!(r.text, "Hola! Usa /help para ver los comandos disponibles.");
            assert!(!r.markdown);
        }
        _ => panic!("expected a reply"),
    }
}
