//! Properties that hold across the library's functions.
use vstd::prelude::*;

use crate::command::{
    all_keywords, help_text, help_title, join_lines, keyword_spec, line_of, name_of, parse_spec,
    same_ignoring_ascii_case, summary_of, Keyword,
};
use crate::dispatch::{decide, hint_text, unrecognized_text, ActionSpec};
use crate::price::{
    amount_text, decimal, digit, four_digits, is_digit, price_url_head, price_url_tail,
    quote_head, quote_middle, quote_text,
};

verus! {

/// The price URL for a coin carries `ids=<coin>` and ends in
/// `vs_currencies=usd`.
pub proof fn lemma_price_url_names_coin(coin: Seq<char>)
    ensures
        ({
            let u = price_url_head() + coin + price_url_tail();
            &&& u.subrange(46, 50 + coin.len() as int) == "ids="@ + coin
            &&& u.subrange(u.len() - 17, u.len() as int) == "vs_currencies=usd"@
        }),
{
    reveal_strlit("https://api.coingecko.com/api/v3/simple/price?ids=");
    reveal_strlit("&vs_currencies=usd");
    reveal_strlit("ids=");
    reveal_strlit("vs_currencies=usd");
    let u = price_url_head() + coin + price_url_tail();
    assert(u.subrange(46, 50 + coin.len() as int) =~= "ids="@ + coin);
    assert(u.subrange(u.len() - 17, u.len() as int) =~= "vs_currencies=usd"@);
}

proof fn lemma_digit_is_digit(d: nat)
    ensures
        is_digit(digit(d)),
{
}

proof fn lemma_decimal_digits(n: nat)
    ensures
        decimal(n).len() > 0,
        forall|i: int| 0 <= i < decimal(n).len() ==> is_digit(#[trigger] decimal(n)[i]),
    decreases n,
{
    if n >= 10 {
        lemma_decimal_digits(n / 10);
        lemma_digit_is_digit(n % 10);
    } else {
        lemma_digit_is_digit(n);
    }
}

/// A quote names the coin, then `$` and a number whose integer part is
/// all digits and which has exactly four fractional digits.
pub proof fn lemma_quote_shape(coin: Seq<char>, ticks: nat)
    ensures
        ({
            let whole = decimal(ticks / 10000);
            let frac = four_digits(ticks % 10000);
            &&& quote_text(coin, ticks) == quote_head() + coin + quote_middle() + whole + "."@
                + frac + "*"@
            &&& quote_middle().last() == '$'
            &&& whole.len() > 0
            &&& forall|i: int| 0 <= i < whole.len() ==> is_digit(#[trigger] whole[i])
            &&& frac.len() == 4
            &&& forall|i: int| 0 <= i < 4 ==> is_digit(#[trigger] frac[i])
        }),
{
    reveal_strlit("* es *$");
    lemma_decimal_digits(ticks / 10000);
    let f = ticks % 10000;
    lemma_digit_is_digit(f / 1000);
    lemma_digit_is_digit((f / 100) % 10);
    lemma_digit_is_digit((f / 10) % 10);
    lemma_digit_is_digit(f % 10);
    assert(quote_text(coin, ticks) =~= quote_head() + coin + quote_middle() + decimal(
        ticks / 10000,
    ) + "."@ + four_digits(f) + "*"@);
}

/// Every text that does not start with `/` gets the one hint, and nothing
/// else is done.
pub proof fn lemma_plain_text_gets_hint(s: Seq<char>, bot: Seq<char>)
    requires
        s.len() == 0 || s[0] != '/',
    ensures
        decide(s, bot) == ActionSpec::Send(hint_text(), false),
{
}

/// Every `/` text that is no command of this bot gets the one
/// "not recognized" reply, and nothing else is done.
pub proof fn lemma_unparsed_command_gets_notice(s: Seq<char>, bot: Seq<char>)
    requires
        s.len() > 0,
        s[0] == '/',
        parse_spec(s, bot) is Err,
    ensures
        decide(s, bot) == ActionSpec::Send(unrecognized_text(), false),
{
}

/// The help listing is its title followed by one line per command of the
/// closed set, each command once, and each line names its command so that
/// the parser reads it back.
pub proof fn lemma_help_lists_each_command()
    ensures
        help_text() == help_title() + join_lines(all_keywords().map_values(|k| line_of(k))),
        forall|k: Keyword| all_keywords().contains(k),
        all_keywords().no_duplicates(),
        forall|i: int|
            0 <= i < all_keywords().len() ==> !(#[trigger] line_of(all_keywords()[i])).contains(
                '\n',
            ),
        forall|k: Keyword| keyword_spec(#[trigger] name_of(k)) == Some(k),
{
    let ks = all_keywords();
    let ls = ks.map_values(|k| line_of(k));
    assert(ls.drop_last().drop_last().drop_last() =~= Seq::<Seq<char>>::empty());
    assert(ls.drop_last().drop_last() =~= seq![line_of(Keyword::Help)]);
    assert(ls.drop_last() =~= seq![line_of(Keyword::Help), line_of(Keyword::Price)]);
    assert(join_lines(ls.drop_last().drop_last()) == line_of(Keyword::Help));
    assert(ls.drop_last().last() == line_of(Keyword::Price));
    assert(ls.last() == line_of(Keyword::Analyze));
    assert(join_lines(ls.drop_last()) == line_of(Keyword::Help) + "\n"@ + line_of(
        Keyword::Price,
    ));
    assert(join_lines(ls) == line_of(Keyword::Help) + "\n"@ + line_of(Keyword::Price) + "\n"@
        + line_of(Keyword::Analyze));
    assert(help_text() =~= help_title() + join_lines(ls));
    assert forall|k: Keyword| ks.contains(k) by {
        match k {
            Keyword::Help => assert(ks[0] == k),
            Keyword::Price => assert(ks[1] == k),
            Keyword::Analyze => assert(ks[2] == k),
        }
    }
    reveal_strlit("/");
    reveal_strlit(" — ");
    reveal_strlit("help");
    reveal_strlit("price");
    reveal_strlit("analyze");
    reveal_strlit("muestra este mensaje");
    reveal_strlit("precio actual en USD de una criptomoneda");
    reveal_strlit("análisis breve del mercado de una criptomoneda con IA");
    assert forall|i: int| 0 <= i < ks.len() implies !(#[trigger] line_of(ks[i])).contains('\n') by {
        let l = line_of(ks[i]);
        assert(l =~= "/"@ + name_of(ks[i]) + " — "@ + summary_of(ks[i]));
        if l.contains('\n') {
            let j = choose|j: int| 0 <= j < l.len() && l[j] == '\n';
            assert(l[j] == '\n');
        }
    }
    assert forall|k: Keyword| keyword_spec(#[trigger] name_of(k)) == Some(k) by {
        match k {
            Keyword::Help => {
                assert(same_ignoring_ascii_case(name_of(k), name_of(Keyword::Help)));
            },
            Keyword::Price => {
                assert(!same_ignoring_ascii_case(name_of(k), name_of(Keyword::Help)));
            },
            Keyword::Analyze => {
                assert(!same_ignoring_ascii_case(name_of(k), name_of(Keyword::Help)));
                assert(!same_ignoring_ascii_case(name_of(k), name_of(Keyword::Price)));
            },
        }
    }
}

} // verus!
