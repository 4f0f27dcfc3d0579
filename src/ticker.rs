use vstd::prelude::*;

use crate::parameters::TickerType;

verus! {

pub open spec fn is_upper(c: char) -> bool {
    'A' <= c && c <= 'Z'
}

pub open spec fn is_digit(c: char) -> bool {
    '0' <= c && c <= '9'
}

pub open spec fn is_upper_alnum(c: char) -> bool {
    is_upper(c) || is_digit(c)
}

/// An ASCII letter, an ASCII digit or `_`.
pub open spec fn is_word(c: char) -> bool {
    is_upper(c) || ('a' <= c && c <= 'z') || is_digit(c) || c == '_'
}

/// The characters that the Unicode `White_Space` property marks.
pub open spec fn is_space(c: char) -> bool {
    ||| '\t' <= c && c <= '\r'
    ||| c == ' '
    ||| c == '\u{85}'
    ||| c == '\u{A0}'
    ||| c == '\u{1680}'
    ||| '\u{2000}' <= c && c <= '\u{200A}'
    ||| c == '\u{2028}'
    ||| c == '\u{2029}'
    ||| c == '\u{202F}'
    ||| c == '\u{205F}'
    ||| c == '\u{3000}'
}

/// A set of characters that a pattern accepts at a position.
#[derive(Clone, Copy, Debug, PartialEq, Eq, Structural)]
pub enum CharClass {
    Upper,
    UpperAlnum,
    Digit,
    NonSpace,
    Word,
}

impl CharClass {
    pub open spec fn holds(self, c: char) -> bool {
        match self {
            CharClass::Upper => is_upper(c),
            CharClass::UpperAlnum => is_upper_alnum(c),
            CharClass::Digit => is_digit(c),
            CharClass::NonSpace => !is_space(c),
            CharClass::Word => is_word(c),
        }
    }

    pub fn contains(&self, c: char) -> (r: bool)
        ensures
            r == self.holds(c),
    {
        match self {
            CharClass::Upper => 'A' <= c && c <= 'Z',
            CharClass::UpperAlnum => ('A' <= c && c <= 'Z') || ('0' <= c && c <= '9'),
            CharClass::Digit => '0' <= c && c <= '9',
            CharClass::NonSpace => !(('\t' <= c && c <= '\r') || c == ' ' || c == '\u{85}' || c
                == '\u{A0}' || c == '\u{1680}' || ('\u{2000}' <= c && c <= '\u{200A}') || c
                == '\u{2028}' || c == '\u{2029}' || c == '\u{202F}' || c == '\u{205F}' || c
                == '\u{3000}'),
            CharClass::Word => ('A' <= c && c <= 'Z') || ('a' <= c && c <= 'z') || ('0' <= c && c
                <= '9') || c == '_',
        }
    }
}

/// Every character of `s` in `[from, to)` belongs to `class`.
pub open spec fn all_in(s: Seq<char>, from: int, to: int, class: CharClass) -> bool {
    forall|i: int| from <= i < to ==> class.holds(#[trigger] s[i])
}

/// `s` starts with the two characters `a` and `b`.
pub open spec fn has_prefix(s: Seq<char>, a: char, b: char) -> bool {
    s.len() >= 2 && s[0] == a && s[1] == b
}

/// Two digits from `01` to `12` at `at`.
pub open spec fn is_month_at(s: Seq<char>, at: int) -> bool {
    ||| s[at] == '1' && '0' <= s[at + 1] && s[at + 1] <= '2'
    ||| s[at] == '0' && '1' <= s[at + 1] && s[at + 1] <= '9'
}

/// Two digits from `01` to `31` at `at`.
pub open spec fn is_day_at(s: Seq<char>, at: int) -> bool {
    ||| s[at] == '3' && (s[at + 1] == '0' || s[at + 1] == '1')
    ||| (s[at] == '1' || s[at] == '2') && is_digit(s[at + 1])
    ||| s[at] == '0' && '1' <= s[at + 1] && s[at + 1] <= '9'
}

/// One to six upper-case letters and nothing else.
pub open spec fn is_stock_ticker(s: Seq<char>) -> bool {
    1 <= s.len() <= 6 && all_in(s, 0, s.len() as int, CharClass::Upper)
}

/// `O:`, one to four upper-case letters, a two-digit year, a month, a day,
/// `C` or `P`, and eight digits.
pub open spec fn is_option_ticker(s: Seq<char>) -> bool {
    let n = s.len() as int;
    let k = n - 17;
    &&& has_prefix(s, 'O', ':')
    &&& 1 <= k <= 4
    &&& all_in(s, 2, 2 + k, CharClass::Upper)
    &&& all_in(s, 2 + k, 4 + k, CharClass::Digit)
    &&& is_month_at(s, 4 + k)
    &&& is_day_at(s, 6 + k)
    &&& (s[8 + k] == 'C' || s[8 + k] == 'P')
    &&& all_in(s, 9 + k, n, CharClass::Digit)
}

/// `I:` and one or more upper-case letters or digits.
pub open spec fn is_index_ticker(s: Seq<char>) -> bool {
    has_prefix(s, 'I', ':') && s.len() > 2 && all_in(s, 2, s.len() as int, CharClass::UpperAlnum)
}

/// `C:` and exactly six upper-case letters.
pub open spec fn is_forex_ticker(s: Seq<char>) -> bool {
    has_prefix(s, 'C', ':') && s.len() == 8 && all_in(s, 2, 8, CharClass::Upper)
}

/// `X:` and one or more upper-case letters or digits.
pub open spec fn is_crypto_ticker(s: Seq<char>) -> bool {
    has_prefix(s, 'X', ':') && s.len() > 2 && all_in(s, 2, s.len() as int, CharClass::UpperAlnum)
}

/// `s` starts with one of the four class prefixes.
pub open spec fn has_class_prefix(s: Seq<char>) -> bool {
    ||| has_prefix(s, 'O', ':')
    ||| has_prefix(s, 'I', ':')
    ||| has_prefix(s, 'C', ':')
    ||| has_prefix(s, 'X', ':')
}

/// The class of a ticker, or `None` when it is not recognized.
pub open spec fn spec_classify(s: Seq<char>) -> Option<TickerType> {
    if has_prefix(s, 'O', ':') {
        if is_option_ticker(s) { Some(TickerType::Options) } else { None }
    } else if has_prefix(s, 'I', ':') {
        if is_index_ticker(s) { Some(TickerType::Indicies) } else { None }
    } else if has_prefix(s, 'C', ':') {
        if is_forex_ticker(s) { Some(TickerType::Forex) } else { None }
    } else if has_prefix(s, 'X', ':') {
        if is_crypto_ticker(s) { Some(TickerType::Crypto) } else { None }
    } else if is_stock_ticker(s) {
        Some(TickerType::Stocks)
    } else {
        None
    }
}

/// `YYYY-MM-DD` with a year from 1900 to 2099, a month from 01 to 12 and a
/// day from 01 to 31.
pub open spec fn is_date(s: Seq<char>) -> bool {
    &&& s.len() == 10
    &&& (s[0] == '1' && s[1] == '9' || s[0] == '2' && s[1] == '0')
    &&& all_in(s, 2, 4, CharClass::Digit)
    &&& s[4] == '-'
    &&& is_month_at(s, 5)
    &&& s[7] == '-'
    &&& is_day_at(s, 8)
}

/// Exactly 32 characters, none of them white space.
pub open spec fn is_api_key(s: Seq<char>) -> bool {
    s.len() == 32 && all_in(s, 0, 32, CharClass::NonSpace)
}

fn chars_all_in(s: &str, from: usize, to: usize, class: CharClass) -> (r: bool)
    requires
        from <= to <= s@.len(),
    ensures
        r == all_in(s@, from as int, to as int, class),
{
    let mut i = from;
    while i < to
        invariant
            from <= i <= to <= s@.len(),
            all_in(s@, from as int, i as int, class),
        decreases to - i,
    {
        if !class.contains(s.get_char(i)) {
            return false;
        }
        i = i + 1;
    }
    true
}

fn starts_with_pair(s: &str, n: usize, a: char, b: char) -> (r: bool)
    requires
        n == s@.len(),
    ensures
        r == has_prefix(s@, a, b),
{
    n >= 2 && s.get_char(0) == a && s.get_char(1) == b
}

fn month_at(s: &str, at: usize) -> (r: bool)
    requires
        at + 2 <= s@.len(),
        at <= 16,
    ensures
        r == is_month_at(s@, at as int),
{
    let c0 = s.get_char(at);
    let c1 = s.get_char(at + 1);
    (c0 == '1' && '0' <= c1 && c1 <= '2') || (c0 == '0' && '1' <= c1 && c1 <= '9')
}

fn day_at(s: &str, at: usize) -> (r: bool)
    requires
        at + 2 <= s@.len(),
        at <= 16,
    ensures
        r == is_day_at(s@, at as int),
{
    let c0 = s.get_char(at);
    let c1 = s.get_char(at + 1);
    (c0 == '3' && (c1 == '0' || c1 == '1')) || ((c0 == '1' || c0 == '2') && '0' <= c1 && c1
        <= '9') || (c0 == '0' && '1' <= c1 && c1 <= '9')
}

/// The format checks of tickers, dates and API keys.
pub struct RegexPatterns {}

impl RegexPatterns {
    /// Exactly 32 non-white-space characters.
    pub fn api_key(s: &str) -> (r: bool)
        ensures
            r == is_api_key(s@),
    {
        s.unicode_len() == 32 && chars_all_in(s, 0, 32, CharClass::NonSpace)
    }

    /// One or more word characters. Word characters are taken in their
    /// ASCII sense here: letters `A`-`Z` and `a`-`z`, digits `0`-`9`, and `_`;
    /// letters and digits of other scripts do not count.
    pub fn stocks_check(s: &str) -> (r: bool)
        ensures
            r == (s@.len() > 0 && all_in(s@, 0, s@.len() as int, CharClass::Word)),
    {
        let n = s.unicode_len();
        n > 0 && chars_all_in(s, 0, n, CharClass::Word)
    }

    /// Exactly 19 ASCII digits: a time in nanoseconds since the epoch.
    /// Digits of other scripts do not count.
    pub fn epoch_nano_date(s: &str) -> (r: bool)
        ensures
            r == (s@.len() == 19 && all_in(s@, 0, 19, CharClass::Digit)),
    {
        s.unicode_len() == 19 && chars_all_in(s, 0, 19, CharClass::Digit)
    }

    /// Starts with `O:`.
    pub fn options_check(s: &str) -> (r: bool)
        ensures
            r == has_prefix(s@, 'O', ':'),
    {
        starts_with_pair(s, s.unicode_len(), 'O', ':')
    }

    /// Starts with `I:`.
    pub fn indicies_check(s: &str) -> (r: bool)
        ensures
            r == has_prefix(s@, 'I', ':'),
    {
        starts_with_pair(s, s.unicode_len(), 'I', ':')
    }

    /// Starts with `C:`.
    pub fn forex_check(s: &str) -> (r: bool)
        ensures
            r == has_prefix(s@, 'C', ':'),
    {
        starts_with_pair(s, s.unicode_len(), 'C', ':')
    }

    /// Starts with `X:`.
    pub fn crypto_check(s: &str) -> (r: bool)
        ensures
            r == has_prefix(s@, 'X', ':'),
    {
        starts_with_pair(s, s.unicode_len(), 'X', ':')
    }

    pub fn stocks_ticker(s: &str) -> (r: bool)
        ensures
            r == is_stock_ticker(s@),
    {
        let n = s.unicode_len();
        1 <= n && n <= 6 && chars_all_in(s, 0, n, CharClass::Upper)
    }

    pub fn options_ticker(s: &str) -> (r: bool)
        ensures
            r == is_option_ticker(s@),
    {
        let n = s.unicode_len();
        if n < 18 || n > 21 || !starts_with_pair(s, n, 'O', ':') {
            return false;
        }
        let k = n - 17;
        let side = s.get_char(8 + k);
        chars_all_in(s, 2, 2 + k, CharClass::Upper) && chars_all_in(s, 2 + k, 4 + k, CharClass::Digit)
            && month_at(s, 4 + k) && day_at(s, 6 + k) && (side == 'C' || side == 'P')
            && chars_all_in(s, 9 + k, n, CharClass::Digit)
    }

    pub fn indicies_ticker(s: &str) -> (r: bool)
        ensures
            r == is_index_ticker(s@),
    {
        let n = s.unicode_len();
        starts_with_pair(s, n, 'I', ':') && n > 2 && chars_all_in(s, 2, n, CharClass::UpperAlnum)
    }

    pub fn forex_ticker(s: &str) -> (r: bool)
        ensures
            r == is_forex_ticker(s@),
    {
        let n = s.unicode_len();
        starts_with_pair(s, n, 'C', ':') && n == 8 && chars_all_in(s, 2, 8, CharClass::Upper)
    }

    pub fn crypto_ticker(s: &str) -> (r: bool)
        ensures
            r == is_crypto_ticker(s@),
    {
        let n = s.unicode_len();
        starts_with_pair(s, n, 'X', ':') && n > 2 && chars_all_in(s, 2, n, CharClass::UpperAlnum)
    }

    pub fn string_date(s: &str) -> (r: bool)
        ensures
            r == is_date(s@),
    {
        if s.unicode_len() != 10 {
            return false;
        }
        let c0 = s.get_char(0);
        let c1 = s.get_char(1);
        ((c0 == '1' && c1 == '9') || (c0 == '2' && c1 == '0')) && chars_all_in(
            s,
            2,
            4,
            CharClass::Digit,
        ) && s.get_char(4) == '-' && month_at(s, 5) && s.get_char(7) == '-' && day_at(s, 8)
    }
}

/// Classifies a ticker by its prefix and checks the format of its class.
pub fn classify(ticker: &str) -> (r: Option<TickerType>)
    ensures
        r == spec_classify(ticker@),
{
    if RegexPatterns::options_check(ticker) {
        if RegexPatterns::options_ticker(ticker) { Some(TickerType::Options) } else { None }
    } else if RegexPatterns::indicies_check(ticker) {
        if RegexPatterns::indicies_ticker(ticker) { Some(TickerType::Indicies) } else { None }
    } else if RegexPatterns::forex_check(ticker) {
        if RegexPatterns::forex_ticker(ticker) { Some(TickerType::Forex) } else { None }
    } else if RegexPatterns::crypto_check(ticker) {
        if RegexPatterns::crypto_ticker(ticker) { Some(TickerType::Crypto) } else { None }
    } else if RegexPatterns::stocks_ticker(ticker) {
        Some(TickerType::Stocks)
    } else {
        None
    }
}

/// Options are recognized exactly by their pattern, equities exactly by
/// one to six upper-case letters without a class prefix, and a string that
/// fits none of the five class patterns is unrecognized.
pub proof fn lemma_classify_cases(t: Seq<char>)
    ensures
        has_prefix(t, 'O', ':') && is_option_ticker(t) ==> spec_classify(t) == Some(
            TickerType::Options,
        ),
        !has_class_prefix(t) && is_stock_ticker(t) ==> spec_classify(t) == Some(
            TickerType::Stocks,
        ),
        !has_class_prefix(t) && !is_stock_ticker(t) ==> spec_classify(t) is None,
        has_prefix(t, 'O', ':') && !is_option_ticker(t) ==> spec_classify(t) is None,
        spec_classify(t) == Some(TickerType::Options) <==> is_option_ticker(t),
        spec_classify(t) == Some(TickerType::Stocks) <==> !has_class_prefix(t) && is_stock_ticker(t),
        spec_classify(t) is None <==> !is_option_ticker(t) && !is_index_ticker(t)
            && !is_forex_ticker(t) && !is_crypto_ticker(t) && !(!has_class_prefix(t)
            && is_stock_ticker(t)),
{
}

} // verus!
