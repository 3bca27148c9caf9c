//! Spot prices: the request URL, the lookup in a decoded price table, and
//! the text of a quote.
//!
//! Amounts are held in ten-thousandths of a dollar ("ticks"), the precision
//! at which a quote is shown.
use vstd::prelude::*;
use vstd::string::*;

verus! {

/// The start of the price endpoint's URL, up to the coin.
pub open spec fn price_url_head() -> Seq<char> {
    "https://api.coingecko.com/api/v3/simple/price?ids="@
}

/// The end of the price endpoint's URL, after the coin.
pub open spec fn price_url_tail() -> Seq<char> {
    "&vs_currencies=usd"@
}

/// The URL that asks for the USD price of `coin`.
pub fn price_url(coin: &str) -> (r: String)
    ensures
        r@ == price_url_head() + coin@ + price_url_tail(),
{
    let mut r = String::from_str("https://api.coingecko.com/api/v3/simple/price?ids=");
    r.append(coin);
    r.append("&vs_currencies=usd");
    r
}

/// One currency's amount for a coin, in ticks.
pub struct Quote {
    pub currency: String,
    pub ticks: i64,
}

/// The amounts that a price reply gives for one coin.
pub struct CoinPrices {
    pub coin: String,
    pub quotes: Vec<Quote>,
}

/// Why no price could be given.
#[derive(Debug)]
pub enum PriceError {
    /// The price service could not be reached.
    Transport,
    /// Its reply did not have the expected shape, or held no positive amount.
    Decode,
    /// The reply held no USD amount for this coin.
    NotFound(String),
}

/// The first USD amount among `qs[j..]`.
pub open spec fn usd_in(qs: Seq<Quote>, j: int) -> Option<i64>
    decreases qs.len() - j,
{
    if j < 0 || j >= qs.len() {
        None
    } else if qs[j].currency@ == "usd"@ {
        Some(qs[j].ticks)
    } else {
        usd_in(qs, j + 1)
    }
}

/// The USD amount of the first entry for `coin` among `t[i..]`.
pub open spec fn usd_for(t: Seq<CoinPrices>, coin: Seq<char>, i: int) -> Option<i64>
    decreases t.len() - i,
{
    if i < 0 || i >= t.len() {
        None
    } else if t[i].coin@ == coin {
        usd_in(t[i].quotes@, 0)
    } else {
        usd_for(t, coin, i + 1)
    }
}

/// The USD amount that a price table gives for `coin`.
pub open spec fn usd_of(t: Seq<CoinPrices>, coin: Seq<char>) -> Option<i64> {
    usd_for(t, coin, 0)
}

fn usd_amount(qs: &Vec<Quote>) -> (r: Option<i64>)
    ensures
        r == usd_in(qs@, 0),
{
    let usd = String::from_str("usd");
    let mut j: usize = 0;
    while j < qs.len()
        invariant
            j <= qs@.len(),
            usd@ == "usd"@,
            usd_in(qs@, 0) == usd_in(qs@, j as int),
        decreases qs@.len() - j,
    {
        if qs[j].currency == usd {
            return Some(qs[j].ticks);
        }
        j = j + 1;
    }
    None
}

/// A price table as a JSON object gives it: no coin twice, and no currency
/// twice for one coin.
pub open spec fn table_wf(t: Seq<CoinPrices>) -> bool {
    &&& forall|i: int, k: int|
        0 <= i < t.len() && 0 <= k < t.len() && i != k ==> #[trigger] t[i].coin@ != #[trigger] t[k].coin@
    &&& forall|i: int| 0 <= i < t.len() ==> currencies_unique(#[trigger] t[i].quotes@)
}

/// No currency stands twice among the quotes.
pub open spec fn currencies_unique(qs: Seq<Quote>) -> bool {
    forall|j: int, m: int|
        0 <= j < qs.len() && 0 <= m < qs.len() && j != m ==> #[trigger] qs[j].currency@
            != #[trigger] qs[m].currency@
}

proof fn lemma_usd_in_finds(qs: Seq<Quote>, m: int, j: int)
    requires
        currencies_unique(qs),
        0 <= m <= j < qs.len(),
        qs[j].currency@ == "usd"@,
    ensures
        usd_in(qs, m) == Some(qs[j].ticks),
    decreases j - m,
{
    if m < j {
        assert(qs[m].currency@ != qs[j].currency@);
        lemma_usd_in_finds(qs, m + 1, j);
    }
}

proof fn lemma_usd_for_finds(t: Seq<CoinPrices>, coin: Seq<char>, k: int, i: int)
    requires
        table_wf(t),
        0 <= k <= i < t.len(),
        t[i].coin@ == coin,
    ensures
        usd_for(t, coin, k) == usd_in(t[i].quotes@, 0),
    decreases i - k,
{
    if k < i {
        assert(t[k].coin@ != t[i].coin@);
        lemma_usd_for_finds(t, coin, k + 1, i);
    }
}

/// In a well-formed table, the USD amount of a coin is the one amount that
/// its entry gives in USD.
pub proof fn lemma_usd_of_entry(t: Seq<CoinPrices>, coin: Seq<char>, i: int, j: int)
    requires
        table_wf(t),
        0 <= i < t.len(),
        t[i].coin@ == coin,
        0 <= j < t[i].quotes@.len(),
        t[i].quotes@[j].currency@ == "usd"@,
    ensures
        usd_of(t, coin) == Some(t[i].quotes@[j].ticks),
{
    lemma_usd_for_finds(t, coin, 0, i);
    lemma_usd_in_finds(t[i].quotes@, 0, j);
}

/// Looks up the USD price of `coin` in a decoded price table.
///
/// A missing entry is `NotFound`; an amount that is not positive is
/// `Decode`, so that no zero or negative price is ever shown.
pub fn lookup_usd(table: &Vec<CoinPrices>, coin: &String) -> (r: Result<u64, PriceError>)
    requires
        table_wf(table@),
    ensures
        match r {
            Ok(v) => usd_of(table@, coin@) matches Some(p) && p > 0 && v as int == p as int,
            Err(PriceError::NotFound(c)) => usd_of(table@, coin@) is None && c@ == coin@,
            Err(PriceError::Decode) => usd_of(table@, coin@) matches Some(v) && v <= 0,
            Err(PriceError::Transport) => false,
        },
{
    let mut i: usize = 0;
    while i < table.len()
        invariant
            i <= table@.len(),
            usd_of(table@, coin@) == usd_for(table@, coin@, i as int),
        decreases table@.len() - i,
    {
        if table[i].coin == *coin {
            return match usd_amount(&table[i].quotes) {
                None => Err(PriceError::NotFound(coin.clone())),
                Some(v) => if v > 0 {
                    Ok(v as u64)
                } else {
                    Err(PriceError::Decode)
                },
            };
        }
        i = i + 1;
    }
    Err(PriceError::NotFound(coin.clone()))
}

/// The decimal digit for `d < 10`.
pub open spec fn digit(d: nat) -> char {
    if d == 0 {
        '0'
    } else if d == 1 {
        '1'
    } else if d == 2 {
        '2'
    } else if d == 3 {
        '3'
    } else if d == 4 {
        '4'
    } else if d == 5 {
        '5'
    } else if d == 6 {
        '6'
    } else if d == 7 {
        '7'
    } else if d == 8 {
        '8'
    } else {
        '9'
    }
}

/// Whether a character is a decimal digit.
pub open spec fn is_digit(c: char) -> bool {
    '0' <= c && c <= '9'
}

/// `n` in decimal, without leading zeros.
pub open spec fn decimal(n: nat) -> Seq<char>
    decreases n,
{
    if n < 10 {
        seq![digit(n)]
    } else {
        decimal(n / 10) + seq![digit(n % 10)]
    }
}

/// `f < 10000` as exactly four decimal digits.
pub open spec fn four_digits(f: nat) -> Seq<char> {
    seq![digit(f / 1000), digit((f / 100) % 10), digit((f / 10) % 10), digit(f % 10)]
}

/// An amount of ticks in dollars, with exactly four fractional digits.
pub open spec fn amount_text(ticks: nat) -> Seq<char> {
    decimal(ticks / 10000) + "."@ + four_digits(ticks % 10000)
}

/// What comes before the coin in a quote.
pub open spec fn quote_head() -> Seq<char> {
    "📈 El precio actual de *"@
}

/// What stands between the coin and the amount in a quote.
pub open spec fn quote_middle() -> Seq<char> {
    "* es *$"@
}

/// The text of a quote: the coin, then `$` and the amount.
pub open spec fn quote_text(coin: Seq<char>, ticks: nat) -> Seq<char> {
    quote_head() + coin + quote_middle() + amount_text(ticks) + "*"@
}

fn digit_str(d: u64) -> (r: &'static str)
    requires
        d < 10,
    ensures
        r@ == seq![digit(d as nat)],
{
    proof {
        reveal_strlit("0");
        reveal_strlit("1");
        reveal_strlit("2");
        reveal_strlit("3");
        reveal_strlit("4");
        reveal_strlit("5");
        reveal_strlit("6");
        reveal_strlit("7");
        reveal_strlit("8");
        reveal_strlit("9");
    }
    if d == 0 {
        "0"
    } else if d == 1 {
        "1"
    } else if d == 2 {
        "2"
    } else if d == 3 {
        "3"
    } else if d == 4 {
        "4"
    } else if d == 5 {
        "5"
    } else if d == 6 {
        "6"
    } else if d == 7 {
        "7"
    } else if d == 8 {
        "8"
    } else {
        "9"
    }
}

fn append_decimal(r: &mut String, n: u64)
    ensures
        final(r)@ == old(r)@ + decimal(n as nat),
    decreases n,
{
    if n < 10 {
        r.append(digit_str(n));
    } else {
        append_decimal(r, n / 10);
        r.append(digit_str(n % 10));
        assert(final(r)@ =~= old(r)@ + decimal(n as nat));
    }
}

/// The amount `ticks` in dollars, with exactly four fractional digits.
pub fn format_amount(ticks: u64) -> (r: String)
    ensures
        r@ == amount_text(ticks as nat),
{
    let mut r = String::new();
    append_decimal(&mut r, ticks / 10000);
    r.append(".");
    let f = ticks % 10000;
    r.append(digit_str(f / 1000));
    r.append(digit_str((f / 100) % 10));
    r.append(digit_str((f / 10) % 10));
    r.append(digit_str(f % 10));
    assert(r@ =~= amount_text(ticks as nat));
    r
}

/// The reply text for a quote of `ticks` for `coin`.
pub fn format_quote(coin: &str, ticks: u64) -> (r: String)
    ensures
        r@ == quote_text(coin@, ticks as nat),
{
    let mut r = String::from_str("📈 El precio actual de *");
    r.append(coin);
    r.append("* es *$");
    r.append(format_amount(ticks).as_str());
    r.append("*");
    r
}

/// The start of the guidance for a coin without a price.
pub open spec fn not_found_head() -> Seq<char> {
    "⚠️ No se encontró el precio para '"@
}

/// The guidance on coin names that follows the coin.
pub open spec fn slug_guidance() -> Seq<char> {
    "'. Asegúrate de usar el nombre en inglés y en minúsculas, por ejemplo: bitcoin, ethereum, dogecoin."@
}

/// What the chat is told for each price error.
pub open spec fn price_error_text(e: PriceError) -> Seq<char> {
    match e {
        PriceError::Transport => "❌ Error al contactar CoinGecko."@,
        PriceError::Decode => "❌ Error al procesar respuesta de CoinGecko."@,
        PriceError::NotFound(c) => not_found_head() + c@ + slug_guidance(),
    }
}

impl PriceError {
    /// The text that the chat is told for this error.
    pub fn user_text(&self) -> (r: String)
        ensures
            r@ == price_error_text(*self),
    {
        match self {
            PriceError::Transport => String::from_str("❌ Error al contactar CoinGecko."),
            PriceError::Decode => String::from_str("❌ Error al procesar respuesta de CoinGecko."),
            PriceError::NotFound(c) => {
                let mut r = String::from_str("⚠️ No se encontró el precio para '");
                r.append(c.as_str());
                r.append(
                    "'. Asegúrate de usar el nombre en inglés y en minúsculas, por ejemplo: bitcoin, ethereum, dogecoin.",
                );
                r
            },
        }
    }
}

} // verus!
