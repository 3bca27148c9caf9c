//! The closed set of commands, their parser and their help listing.
use vstd::prelude::*;
use vstd::string::*;

verus! {

/// Whitespace that separates a command's keyword from its argument.
pub open spec fn is_space(c: char) -> bool {
    c == ' ' || c == '\t' || c == '\n' || c == '\r' || c == '\u{0B}' || c == '\u{0C}'
}

/// The code of `c` with ASCII upper-case letters mapped to lower case.
pub open spec fn fold(c: char) -> u32 {
    let n = c as u32;
    if 65 <= n && n <= 90 {
        (n + 32) as u32
    } else {
        n
    }
}

/// Equality of two texts up to ASCII case.
pub open spec fn same_ignoring_ascii_case(a: Seq<char>, b: Seq<char>) -> bool {
    &&& a.len() == b.len()
    &&& forall|i: int| 0 <= i < a.len() ==> #[trigger] fold(a[i]) == fold(b[i])
}

/// The first index at or after `i` that holds whitespace, or the length.
pub open spec fn word_end(s: Seq<char>, i: int) -> int
    decreases s.len() - i,
{
    if i >= s.len() || is_space(s[i]) {
        i
    } else {
        word_end(s, i + 1)
    }
}

/// The first index at or after `i`, and before `end`, that holds `@`, or `end`.
pub open spec fn at_sign(s: Seq<char>, i: int, end: int) -> int
    decreases end - i,
{
    if i >= end || s[i] == '@' {
        i
    } else {
        at_sign(s, i + 1, end)
    }
}

/// The first index at or after `i` that holds no whitespace, or the length.
pub open spec fn skip_space(s: Seq<char>, i: int) -> int
    decreases s.len() - i,
{
    if i >= s.len() || !is_space(s[i]) {
        i
    } else {
        skip_space(s, i + 1)
    }
}

/// `j` moved back over trailing whitespace, but not below `lo`.
pub open spec fn trim_back(s: Seq<char>, lo: int, j: int) -> int
    decreases j - lo,
{
    if j <= lo || !is_space(s[j - 1]) {
        j
    } else {
        trim_back(s, lo, j - 1)
    }
}

/// End of the first word of a command text (the `/` is at index 0).
pub open spec fn head_end(s: Seq<char>) -> int {
    word_end(s, 1)
}

/// Position of the `@` that starts a bot mention in the first word, or its end.
pub open spec fn mention_at(s: Seq<char>) -> int {
    at_sign(s, 1, head_end(s))
}

/// The keyword: the first word without the `/` and without a mention.
pub open spec fn keyword_of(s: Seq<char>) -> Seq<char> {
    s.subrange(1, mention_at(s))
}

/// Whether the first word names no bot, or names `bot` (up to ASCII case).
pub open spec fn mention_ok(s: Seq<char>, bot: Seq<char>) -> bool {
    mention_at(s) == head_end(s) || same_ignoring_ascii_case(
        s.subrange(mention_at(s) + 1, head_end(s)),
        bot,
    )
}

/// Where the argument starts: the first non-space after the first word.
pub open spec fn arg_start(s: Seq<char>) -> int {
    skip_space(s, head_end(s))
}

/// The argument: what follows the first word, without surrounding whitespace.
pub open spec fn arg_of(s: Seq<char>) -> Seq<char> {
    s.subrange(arg_start(s), trim_back(s, arg_start(s), s.len() as int))
}

/// The keywords of the command set.
#[derive(PartialEq, Eq, Structural, Clone, Copy, Debug)]
pub enum Keyword {
    Help,
    Price,
    Analyze,
}

/// Every keyword, in the order of the help listing.
pub open spec fn all_keywords() -> Seq<Keyword> {
    seq![Keyword::Help, Keyword::Price, Keyword::Analyze]
}

/// The lower-case name of a keyword.
pub open spec fn name_of(k: Keyword) -> Seq<char> {
    match k {
        Keyword::Help => "help"@,
        Keyword::Price => "price"@,
        Keyword::Analyze => "analyze"@,
    }
}


/// The keyword that a word names, up to ASCII case.
pub open spec fn keyword_spec(w: Seq<char>) -> Option<Keyword> {
    if same_ignoring_ascii_case(w, name_of(Keyword::Help)) {
        Some(Keyword::Help)
    } else if same_ignoring_ascii_case(w, name_of(Keyword::Price)) {
        Some(Keyword::Price)
    } else if same_ignoring_ascii_case(w, name_of(Keyword::Analyze)) {
        Some(Keyword::Analyze)
    } else {
        None
    }
}

/// A command that a user can send.
#[derive(Debug)]
pub enum Command {
    Help,
    Price(String),
    Analyze(String),
}

/// A command as a mathematical value.
pub enum CommandSpec {
    Help,
    Price(Seq<char>),
    Analyze(Seq<char>),
}

impl View for Command {
    type V = CommandSpec;

    open spec fn view(&self) -> CommandSpec {
        match self {
            Command::Help => CommandSpec::Help,
            Command::Price(c) => CommandSpec::Price(c@),
            Command::Analyze(c) => CommandSpec::Analyze(c@),
        }
    }
}

/// Why a text is not a command of this bot.
#[derive(PartialEq, Eq, Structural, Clone, Copy, Debug)]
pub enum ParseError {
    /// The text does not start with `/`.
    NoPrefix,
    /// The keyword carries a mention of another bot.
    OtherBot,
    /// The keyword names no command.
    UnknownCommand,
    /// A command that takes an argument came without one.
    MissingArgument,
    /// A command that takes no argument came with one.
    UnexpectedArgument,
}

/// What parsing a text gives.
pub open spec fn parse_spec(s: Seq<char>, bot: Seq<char>) -> Result<CommandSpec, ParseError> {
    if s.len() == 0 || s[0] != '/' {
        Err(ParseError::NoPrefix)
    } else if !mention_ok(s, bot) {
        Err(ParseError::OtherBot)
    } else {
        let a = arg_of(s);
        match keyword_spec(keyword_of(s)) {
            None => Err(ParseError::UnknownCommand),
            Some(Keyword::Help) => if a.len() == 0 {
                Ok(CommandSpec::Help)
            } else {
                Err(ParseError::UnexpectedArgument)
            },
            Some(Keyword::Price) => if a.len() == 0 {
                Err(ParseError::MissingArgument)
            } else {
                Ok(CommandSpec::Price(a))
            },
            Some(Keyword::Analyze) => if a.len() == 0 {
                Err(ParseError::MissingArgument)
            } else {
                Ok(CommandSpec::Analyze(a))
            },
        }
    }
}

fn is_space_char(c: char) -> (r: bool)
    ensures
        r == is_space(c),
{
    c == ' ' || c == '\t' || c == '\n' || c == '\r' || c == '\u{0B}' || c == '\u{0C}'
}

fn fold_char(c: char) -> (r: u32)
    ensures
        r == fold(c),
{
    let n = c as u32;
    if 65 <= n && n <= 90 {
        n + 32
    } else {
        n
    }
}

/// Whether `s[from..to]` equals `w` up to ASCII case.
fn span_matches(s: &str, from: usize, to: usize, w: &str) -> (r: bool)
    requires
        from <= to <= s@.len(),
    ensures
        r == same_ignoring_ascii_case(s@.subrange(from as int, to as int), w@),
{
    let n = w.unicode_len();
    if to - from != n {
        return false;
    }
    let mut i: usize = 0;
    while i < n
        invariant
            from <= to <= s@.len(),
            n == w@.len(),
            to - from == n,
            i <= n,
            forall|j: int| 0 <= j < i ==> #[trigger] fold(s@[from + j]) == fold(w@[j]),
        decreases n - i,
    {
        if fold_char(s.get_char(from + i)) != fold_char(w.get_char(i)) {
            assert(s@.subrange(from as int, to as int)[i as int] == s@[from + i]);
            return false;
        }
        i = i + 1;
    }
    assert(same_ignoring_ascii_case(s@.subrange(from as int, to as int), w@)) by {
        assert forall|j: int| 0 <= j < n implies #[trigger] fold(
            s@.subrange(from as int, to as int)[j],
        ) == fold(w@[j]) by {
            assert(s@.subrange(from as int, to as int)[j] == s@[from + j]);
        }
    }
    true
}

/// The short description of a command in the help listing.
pub open spec fn summary_of(k: Keyword) -> Seq<char> {
    match k {
        Keyword::Help => "muestra este mensaje"@,
        Keyword::Price => "precio actual en USD de una criptomoneda"@,
        Keyword::Analyze => "análisis breve del mercado de una criptomoneda con IA"@,
    }
}

/// The help line of a command: `/name — summary`.
pub open spec fn line_of(k: Keyword) -> Seq<char> {
    "/"@ + name_of(k) + " — "@ + summary_of(k)
}

/// The title above the command lines.
pub open spec fn help_title() -> Seq<char> {
    "Comandos disponibles:\n\n"@
}

/// Lines joined by a line break, none after the last.
pub open spec fn join_lines(ls: Seq<Seq<char>>) -> Seq<char>
    decreases ls.len(),
{
    if ls.len() == 0 {
        Seq::empty()
    } else if ls.len() == 1 {
        ls[0]
    } else {
        join_lines(ls.drop_last()) + "\n"@ + ls.last()
    }
}

/// The help listing: the title, then one line per command.
pub open spec fn help_text() -> Seq<char> {
    help_title() + line_of(Keyword::Help) + "\n"@ + line_of(Keyword::Price) + "\n"@ + line_of(
        Keyword::Analyze,
    )
}

fn keyword_name(k: Keyword) -> (r: &'static str)
    ensures
        r@ == name_of(k),
{
    match k {
        Keyword::Help => "help",
        Keyword::Price => "price",
        Keyword::Analyze => "analyze",
    }
}

fn keyword_summary(k: Keyword) -> (r: &'static str)
    ensures
        r@ == summary_of(k),
{
    match k {
        Keyword::Help => "muestra este mensaje",
        Keyword::Price => "precio actual en USD de una criptomoneda",
        Keyword::Analyze => "análisis breve del mercado de una criptomoneda con IA",
    }
}

/// The help line of one command.
pub fn help_line(k: Keyword) -> (r: String)
    ensures
        r@ == line_of(k),
{
    let mut r = String::from_str("/");
    r.append(keyword_name(k));
    r.append(" — ");
    r.append(keyword_summary(k));
    r
}

/// The keyword that `s[from..to]` names, up to ASCII case.
fn keyword_in(s: &str, from: usize, to: usize) -> (r: Option<Keyword>)
    requires
        from <= to <= s@.len(),
    ensures
        r == keyword_spec(s@.subrange(from as int, to as int)),
{
    if span_matches(s, from, to, keyword_name(Keyword::Help)) {
        Some(Keyword::Help)
    } else if span_matches(s, from, to, keyword_name(Keyword::Price)) {
        Some(Keyword::Price)
    } else if span_matches(s, from, to, keyword_name(Keyword::Analyze)) {
        Some(Keyword::Analyze)
    } else {
        None
    }
}

impl Command {
    /// Parses a message text addressed to the bot named `bot_name`.
    pub fn parse(text: &str, bot_name: &str) -> (r: Result<Command, ParseError>)
        ensures
            match r {
                Ok(c) => parse_spec(text@, bot_name@) == Ok::<CommandSpec, ParseError>(c@),
                Err(e) => parse_spec(text@, bot_name@) == Err::<CommandSpec, ParseError>(e),
            },
    {
        let ghost s = text@;
        let n = text.unicode_len();
        if n == 0 || text.get_char(0) != '/' {
            return Err(ParseError::NoPrefix);
        }
        let mut e: usize = 1;
        while e < n && !is_space_char(text.get_char(e))
            invariant
                1 <= e <= n,
                n == s.len(),
                s == text@,
                word_end(s, 1) == word_end(s, e as int),
            decreases n - e,
        {
            e = e + 1;
        }
        let mut m: usize = 1;
        while m < e && text.get_char(m) != '@'
            invariant
                1 <= m <= e <= n,
                n == s.len(),
                s == text@,
                e == head_end(s),
                at_sign(s, 1, e as int) == at_sign(s, m as int, e as int),
            decreases e - m,
        {
            m = m + 1;
        }
        if m < e && !span_matches(text, m + 1, e, bot_name) {
            return Err(ParseError::OtherBot);
        }
        let mut a: usize = e;
        while a < n && is_space_char(text.get_char(a))
            invariant
                e <= a <= n,
                n == s.len(),
                s == text@,
                skip_space(s, e as int) == skip_space(s, a as int),
            decreases n - a,
        {
            a = a + 1;
        }
        let mut b: usize = n;
        while b > a && is_space_char(text.get_char(b - 1))
            invariant
                a <= b <= n,
                n == s.len(),
                s == text@,
                trim_back(s, a as int, n as int) == trim_back(s, a as int, b as int),
            decreases b - a,
        {
            b = b - 1;
        }
        let no_arg = a == b;
        match keyword_in(text, 1, m) {
            None => Err(ParseError::UnknownCommand),
            Some(Keyword::Help) => {
                if no_arg {
                    Ok(Command::Help)
                } else {
                    Err(ParseError::UnexpectedArgument)
                }
            },
            Some(k) => {
                if no_arg {
                    Err(ParseError::MissingArgument)
                } else {
                    let arg = text.substring_char(a, b).to_owned();
                    if k == Keyword::Price {
                        Ok(Command::Price(arg))
                    } else {
                        Ok(Command::Analyze(arg))
                    }
                }
            },
        }
    }

    /// The help listing: a title, then one line per command.
    pub fn descriptions() -> (r: String)
        ensures
            r@ == help_text(),
    {
        let mut r = String::from_str("Comandos disponibles:\n\n");
        r.append(help_line(Keyword::Help).as_str());
        r.append("\n");
        r.append(help_line(Keyword::Price).as_str());
        r.append("\n");
        r.append(help_line(Keyword::Analyze).as_str());
        r
    }
}

} // verus!
