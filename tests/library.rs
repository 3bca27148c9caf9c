use telegram_crypto_bot::analysis::{
    analysis_from_body, analysis_from_content, analysis_prompt, analysis_request, AnalysisError,
};
use telegram_crypto_bot::command::{help_line, Command, Keyword, ParseError};
use telegram_crypto_bot::dispatch::{on_text, price_reply, Action};
use telegram_crypto_bot::price::{
    format_amount, format_quote, lookup_usd, price_url, CoinPrices, PriceError, Quote,
};

const BOT: &str = "telegram_crypto_bot";

fn reply_text(text: &str) -> String {
    match on_text(text, BOT) {
        Action::Send(r) => r.text,
        _ => panic!("expected a reply"),
    }
}

#[test]
fn parse_help_price_analyze() {
    assert!(matches!(Command::parse("/help", BOT), Ok(Command::Help)));
    assert!(matches!(Command::parse("/price bitcoin", BOT), Ok(Command::Price(c)) if c == "bitcoin"));
    assert!(matches!(Command::parse("/analyze ethereum", BOT), Ok(Command::Analyze(c)) if c == "ethereum"));
}

#[test]
fn parse_keyword_ignores_case_and_trims() {
    assert!(matches!(Command::parse("/PRICE   Doge  ", BOT), Ok(Command::Price(c)) if c == "Doge"));
    assert!(matches!(Command::parse("/Help", BOT), Ok(Command::Help)));
    assert!(matches!(Command::parse("/price\tbitcoin\n", BOT), Ok(Command::Price(c)) if c == "bitcoin"));
}

#[test]
fn parse_mentions() {
    assert!(matches!(Command::parse("/help@telegram_crypto_bot", BOT), Ok(Command::Help)));
    assert!(matches!(Command::parse("/price@Telegram_Crypto_Bot bitcoin", BOT), Ok(Command::Price(c)) if c == "bitcoin"));
    assert!(matches!(Command::parse("/help@other_bot", BOT), Err(ParseError::OtherBot)));
}

#[test]
fn parse_errors() {
    assert!(matches!(Command::parse("", BOT), Err(ParseError::NoPrefix)));
    assert!(matches!(Command::parse("price bitcoin", BOT), Err(ParseError::NoPrefix)));
    assert!(matches!(Command::parse("/start", BOT), Err(ParseError::UnknownCommand)));
    assert!(matches!(Command::parse("/", BOT), Err(ParseError::UnknownCommand)));
    assert!(matches!(Command::parse("/price", BOT), Err(ParseError::MissingArgument)));
    assert!(matches!(Command::parse("/analyze    ", BOT), Err(ParseError::MissingArgument)));
    assert!(matches!(Command::parse("/help me", BOT), Err(ParseError::UnexpectedArgument)));
}

#[test]
fn unrecognized_commands_get_notice() {
    let notice = "❌ Comando no reconocido. Usa /help para ver los comandos disponibles.";
    assert_eq!(reply_text("/start"), notice);
    assert_eq!(reply_text("/price"), notice);
    assert_eq!(reply_text("/help@other_bot"), notice);
}

#[test]
fn non_commands_get_hint() {
    let hint = "Hola! Usa /help para ver los comandos disponibles.";
    assert_eq!(reply_text(""), hint);
    assert_eq!(reply_text("price bitcoin"), hint);
    assert_eq!(reply_text(" /help"), hint);
}

#[test]
fn help_text_exact() {
    let expected = "Comandos disponibles:\n\n/help — muestra este mensaje\n/price — precio actual en USD de una criptomoneda\n/analyze — análisis breve del mercado de una criptomoneda con IA";
    assert_eq!(Command::descriptions(), expected);
    let lines: Vec<&str> = expected.lines().skip(2).collect();
    assert_eq!(lines.len(), 3);
    assert_eq!(lines[1], help_line(Keyword::Price));
}

#[test]
fn command_coin_lower_cased() {
    match on_text("/analyze ETHEREUM", BOT) {
        Action::Analyze { coin, .. } => assert_eq!(coin, "ethereum"),
        _ => panic!("expected an analysis"),
    }
    match on_text("/price DogeCoin", BOT) {
        Action::FetchPrice(c) => assert_eq!(c, "dogecoin"),
        _ => panic!("expected a price request"),
    }
}

#[test]
fn url_exact() {
    assert_eq!(
        price_url("ethereum"),
        "https://api.coingecko.com/api/v3/simple/price?ids=ethereum&vs_currencies=usd"
    );
}

#[test]
fn amounts_have_four_fraction_digits() {
    assert_eq!(format_amount(0), "0.0000");
    assert_eq!(format_amount(5), "0.0005");
    assert_eq!(format_amount(10_000), "1.0000");
    assert_eq!(format_amount(654_321_000), "65432.1000");
    assert_eq!(format_amount(123_456_789), "12345.6789");
    assert_eq!(format_amount(u64::MAX), "1844674407370955.1615");
}

#[test]
fn quote_text_exact() {
    assert_eq!(
        format_quote("bitcoin", 654_321_000),
        "📈 El precio actual de *bitcoin* es *$65432.1000*"
    );
}

#[test]
fn lookup_picks_usd_of_coin() {
    let table = vec![
        CoinPrices {
            coin: "ethereum".to_string(),
            quotes: vec![Quote { currency: "usd".to_string(), ticks: 30_000_000 }],
        },
        CoinPrices {
            coin: "bitcoin".to_string(),
            quotes: vec![
                Quote { currency: "eur".to_string(), ticks: 1 },
                Quote { currency: "usd".to_string(), ticks: 600_000_000 },
            ],
        },
    ];
    assert!(matches!(lookup_usd(&table, &"bitcoin".to_string()), Ok(600_000_000)));
    assert!(matches!(lookup_usd(&table, &"ethereum".to_string()), Ok(30_000_000)));
    assert!(matches!(lookup_usd(&table, &"dogecoin".to_string()), Err(PriceError::NotFound(c)) if c == "dogecoin"));
}

#[test]
fn lookup_without_usd_is_not_found() {
    let table = vec![CoinPrices {
        coin: "bitcoin".to_string(),
        quotes: vec![Quote { currency: "eur".to_string(), ticks: 5 }],
    }];
    assert!(matches!(lookup_usd(&table, &"bitcoin".to_string()), Err(PriceError::NotFound(_))));
}

#[test]
fn lookup_rejects_non_positive() {
    for t in [0i64, -10_000] {
        let table = vec![CoinPrices {
            coin: "bitcoin".to_string(),
            quotes: vec![Quote { currency: "usd".to_string(), ticks: t }],
        }];
        assert!(matches!(lookup_usd(&table, &"bitcoin".to_string()), Err(PriceError::Decode)));
    }
}

#[test]
fn price_error_texts() {
    assert_eq!(price_reply("bitcoin", Err(PriceError::Transport)).text, "❌ Error al contactar CoinGecko.");
    assert_eq!(
        price_reply("bitcoin", Err(PriceError::Decode)).text,
        "❌ Error al procesar respuesta de CoinGecko."
    );
    assert_eq!(
        PriceError::NotFound("abc".to_string()).user_text(),
        "⚠️ No se encontró el precio para 'abc'. Asegúrate de usar el nombre en inglés y en minúsculas, por ejemplo: bitcoin, ethereum, dogecoin."
    );
}

#[test]
fn analysis_error_texts() {
    assert_eq!(AnalysisError::Transport.user_text(), "❌ Error al contactar OpenAI.");
    assert_eq!(AnalysisError::Decode.user_text(), "❌ Error al procesar respuesta de OpenAI.");
    assert_eq!(AnalysisError::MissingCredential.user_text(), "🔒 No se encontró la API key de OpenAI.");
}

#[test]
fn request_with_key() {
    let q = match analysis_request("bitcoin", Some("k-123".to_string())) {
        Ok(q) => q,
        Err(_) => panic!("expected a request"),
    };
    assert_eq!(q.url, "https://api.openai.com/v1/chat/completions");
    assert_eq!(q.api_key, "k-123");
    assert_eq!(q.model, "gpt-3.5-turbo");
    assert_eq!(q.temperature_tenths, 7);
    assert_eq!(q.prompt, analysis_prompt("bitcoin"));
    assert_eq!(
        q.prompt,
        "Haz un análisis simple del estado actual del mercado de la criptomoneda 'bitcoin'. Sé claro, breve y sin tecnicismos."
    );
}

#[test]
fn analysis_read_from_body() {
    let body = r#"{"choices":[{"message":{"role":"assistant","content":"Mercado estable."}}]}"#;
    assert_eq!(analysis_from_body(body).ok(), Some("Mercado estable.".to_string()));
}

#[test]
fn analysis_body_errors() {
    assert!(matches!(analysis_from_body("not json"), Err(AnalysisError::Decode)));
    assert!(matches!(analysis_from_body("{}"), Err(AnalysisError::Decode)));
    assert!(matches!(analysis_from_body(r#"{"choices":[]}"#), Err(AnalysisError::Decode)));
    assert!(matches!(
        analysis_from_body(r#"{"choices":[{"message":{"content":42}}]}"#),
        Err(AnalysisError::Decode)
    ));
    assert!(matches!(
        analysis_from_body(r#"{"choices":[{"message":{"content":""}}]}"#),
        Err(AnalysisError::Decode)
    ));
}

#[test]
fn analysis_content_cases() {
    assert_eq!(analysis_from_content(Some("ok".to_string())).ok(), Some("ok".to_string()));
    assert!(matches!(analysis_from_content(Some(String::new())), Err(AnalysisError::Decode)));
    assert!(matches!(analysis_from_content(None), Err(AnalysisError::Decode)));
}
