//! The render model and the date-range formatter.
//!
//! A date token is a string `"<year>-<month>"`; both parts must parse as
//! unsigned integers. A range is rendered locale-sensitively: `"zh"` gets
//! `"<year>.<month>"` dates and a `"至今"` open-range marker, every other
//! locale gets `"<MonAbbrev> <year>"` dates and `"-- Present"`.

use vstd::prelude::*;
use vstd::string::*;

verus! {

use crate::model::Meta;

/// A template-ready document: metadata passed through, a resolved contact
/// block, and sections whose items carry their chosen anchor.
pub struct RenderCv {
    pub meta: Meta,
    pub headline: RenderHeadline,
    pub sections: Vec<RenderSection>,
}

/// The contact block as the template engine sees it.
pub struct RenderHeadline {
    pub name: String,
    pub email: String,
    pub phone: String,
    pub website: String,
    pub github: String,
}

/// A titled, ordered group of rendered items.
pub struct RenderSection {
    pub title: String,
    pub items: Vec<RenderItem>,
}

/// One rendered entry: its anchor and its converted bullets.
pub struct RenderItem {
    pub anchor: RenderAnchor,
    pub bullets: Vec<RenderItemBullet>,
}

/// The tagged choice of rendering form for an entry: a titled heading with
/// a precomputed date range, or a bare list item with no payload.
pub enum RenderAnchor {
    Heading(RenderItemHeading),
    BareItem,
}

/// The payload of a Heading anchor.
pub struct RenderItemHeading {
    pub title: String,
    pub subtitle: String,
    pub location: String,
    pub date_range: String,
}

/// One bullet after markup conversion.
pub struct RenderItemBullet {
    pub content: String,
}

/// A parsed date token: the year and month parts of `"<year>-<month>"`.
#[derive(Clone, Copy)]
pub struct YearMonth {
    pub year: u32,
    pub month: u8,
}

// ---------------------------------------------------------------------------
// Decimal digits: parsing and rendering, at the spec level.
// ---------------------------------------------------------------------------

pub open spec fn is_dec_digit(c: char) -> bool {
    48 <= c as int && c as int <= 57
}

pub open spec fn digit_val(c: char) -> int {
    c as int - 48
}

/// The digit character for a value in 0..=9.
pub open spec fn dec_digit_char(d: int) -> char {
    if d == 0 {
        '0'
    } else if d == 1 {
        '1'
    } else if d == 2 {
        '2'
    } else if d == 3 {
        '3'
    } else if d == 4 {
        '4'
    } else if d == 5 {
        '5'
    } else if d == 6 {
        '6'
    } else if d == 7 {
        '7'
    } else if d == 8 {
        '8'
    } else {
        '9'
    }
}

/// The numeric value of a sequence of decimal digit characters, most
/// significant first.
pub open spec fn dec_val(s: Seq<char>) -> int
    decreases s.len(),
{
    if s.len() == 0 {
        0
    } else {
        dec_val(s.drop_last()) * 10 + digit_val(s.last())
    }
}

pub open spec fn all_dec_digits(s: Seq<char>) -> bool {
    forall|i: int| 0 <= i < s.len() ==> is_dec_digit(#[trigger] s[i])
}

/// The digit part of an unsigned-integer token: everything after an
/// optional leading '+'.
pub open spec fn uint_digits_part(s: Seq<char>) -> Seq<char> {
    if s.len() > 0 && s[0] == '+' {
        s.subrange(1, s.len() as int)
    } else {
        s
    }
}

/// What `str::parse` accepts for an unsigned integer type whose maximum
/// value is `max`: an optional leading '+', then one or more decimal
/// digits, denoting a value that fits.
pub open spec fn parse_uint_spec(s: Seq<char>, max: int) -> Option<int> {
    let digits = uint_digits_part(s);
    if digits.len() > 0 && all_dec_digits(digits) && dec_val(digits) <= max {
        Some(dec_val(digits))
    } else {
        None
    }
}

/// The decimal rendering of `n`, most significant digit first, no sign and
/// no padding.
pub open spec fn dec_str(n: nat) -> Seq<char>
    decreases n,
{
    if n < 10 {
        seq![dec_digit_char(n as int)]
    } else {
        dec_str(n / 10).push(dec_digit_char((n % 10) as int))
    }
}

// ---------------------------------------------------------------------------
// Date-token parsing.
// ---------------------------------------------------------------------------

/// The index of the first '-' in `s`, if any: the split point that
/// `str::split_once('-')` uses.
pub open spec fn find_dash(s: Seq<char>) -> Option<int>
    decreases s.len(),
{
    if s.len() == 0 {
        None
    } else if s[0] == '-' {
        Some(0)
    } else {
        match find_dash(s.drop_first()) {
            Some(i) => Some(i + 1),
            None => None,
        }
    }
}

proof fn lemma_find_dash_at(s: Seq<char>, i: int)
    requires
        0 <= i < s.len(),
        s[i] == '-',
        forall|j: int| 0 <= j < i ==> s[j] != '-',
    ensures
        find_dash(s) == Some(i),
    decreases i,
{
    if s[0] != '-' {
        lemma_find_dash_at(s.drop_first(), i - 1);
    }
}

proof fn lemma_find_dash_absent(s: Seq<char>)
    requires
        forall|j: int| 0 <= j < s.len() ==> s[j] != '-',
    ensures
        find_dash(s) is None,
    decreases s.len(),
{
    if s.len() > 0 {
        lemma_find_dash_absent(s.drop_first());
    }
}

proof fn lemma_find_dash_bounds(s: Seq<char>, i: int)
    requires
        find_dash(s) == Some(i),
    ensures
        0 <= i < s.len(),
        s[i] == '-',
    decreases s.len(),
{
    if s.len() > 0 && s[0] != '-' {
        match find_dash(s.drop_first()) {
            Some(k) => lemma_find_dash_bounds(s.drop_first(), k),
            None => {}
        }
    }
}

/// What parsing a date token yields: split at the first '-', then parse the
/// left part as a `u32` year and the right part as a `u8` month.
pub open spec fn parse_date_spec(s: Seq<char>) -> Option<YearMonth> {
    match find_dash(s) {
        Some(i) => {
            let y = parse_uint_spec(s.subrange(0, i), u32::MAX as int);
            let m = parse_uint_spec(s.subrange(i + 1, s.len() as int), u8::MAX as int);
            match (y, m) {
                (Some(yv), Some(mv)) => Some(YearMonth { year: yv as u32, month: mv as u8 }),
                _ => None,
            }
        }
        None => None,
    }
}

// ---------------------------------------------------------------------------
// Date formatting, at the spec level.
// ---------------------------------------------------------------------------

/// The fixed English month-abbreviation table, months 1 through 12.
pub open spec fn month_abbrev(m: int) -> Seq<char> {
    if m == 1 {
        "Jan"@
    } else if m == 2 {
        "Feb"@
    } else if m == 3 {
        "Mar"@
    } else if m == 4 {
        "Apr"@
    } else if m == 5 {
        "May"@
    } else if m == 6 {
        "Jun"@
    } else if m == 7 {
        "Jul"@
    } else if m == 8 {
        "Aug"@
    } else if m == 9 {
        "Sep"@
    } else if m == 10 {
        "Oct"@
    } else if m == 11 {
        "Nov"@
    } else {
        "Dec"@
    }
}

/// How one parsed date renders: `"<year>.<month>"` under locale "zh",
/// `"<MonAbbrev> <year>"` under every other locale.
pub open spec fn format_date_spec(ym: YearMonth, lang: Seq<char>) -> Seq<char> {
    if lang == "zh"@ {
        dec_str(ym.year as nat) + "."@ + dec_str(ym.month as nat)
    } else {
        month_abbrev(ym.month as int) + " "@ + dec_str(ym.year as nat)
    }
}

/// Validity of one date token for a locale: if the token parses and the
/// locale is not "zh", the month must lie in the English table's range
/// 1..=12. A month outside it is a malformed document upstream.
pub open spec fn token_month_ok(tok: Seq<char>, lang: Seq<char>) -> bool {
    match parse_date_spec(tok) {
        Some(ym) => lang == "zh"@ || (1 <= ym.month && ym.month <= 12),
        None => true,
    }
}

/// How a whole range renders: closed if both tokens parse, open if only the
/// start does, empty if the start does not.
pub open spec fn format_range_spec(
    start: Seq<char>,
    end: Option<Seq<char>>,
    lang: Seq<char>,
) -> Seq<char> {
    let s = parse_date_spec(start);
    let e = match end {
        Some(t) => parse_date_spec(t),
        None => None,
    };
    match (s, e) {
        (Some(sd), Some(ed)) => format_date_spec(sd, lang) + " -- "@ + format_date_spec(ed, lang),
        (Some(sd), None) => if lang == "zh"@ {
            format_date_spec(sd, lang) + " 至今"@
        } else {
            format_date_spec(sd, lang) + " -- Present"@
        },
        (None, _) => Seq::<char>::empty(),
    }
}

// ---------------------------------------------------------------------------
// Executable parsing.
// ---------------------------------------------------------------------------

fn find_dash_idx(s: &str) -> (r: Option<usize>)
    ensures
        match r {
            Some(i) => find_dash(s@) == Some(i as int),
            None => find_dash(s@) is None,
        },
{
    let n = s.unicode_len();
    let mut i: usize = 0;
    while i < n
        invariant
            i <= n,
            n == s@.len(),
            forall|j: int| 0 <= j < i ==> s@[j] != '-',
        decreases n - i,
    {
        if s.get_char(i) == '-' {
            proof {
                lemma_find_dash_at(s@, i as int);
            }
            return Some(i);
        }
        i += 1;
    }
    proof {
        lemma_find_dash_absent(s@);
    }
    None
}

fn parse_uint(s: &str, max: u32) -> (r: Option<u32>)
    ensures
        match r {
            Some(v) => parse_uint_spec(s@, max as int) == Some(v as int),
            None => parse_uint_spec(s@, max as int) is None,
        },
{
    let n = s.unicode_len();
    let start: usize = if n > 0 && s.get_char(0) == '+' {
        1
    } else {
        0
    };
    let ghost digits = uint_digits_part(s@);
    proof {
        assert(digits =~= s@.subrange(start as int, n as int));
    }
    if start >= n {
        return None;
    }
    let mut i: usize = start;
    let mut value: u64 = 0;
    let mut over = false;
    while i < n
        invariant
            start <= i <= n,
            n == s@.len(),
            start < n,
            digits == uint_digits_part(s@),
            digits =~= s@.subrange(start as int, n as int),
            forall|j: int| start <= j < i ==> is_dec_digit(#[trigger] s@[j]),
            !over ==> value == dec_val(s@.subrange(start as int, i as int)) && value <= max,
            over ==> dec_val(s@.subrange(start as int, i as int)) > max,
        decreases n - i,
    {
        let c = s.get_char(i);
        let u = c as u32;
        if !(48 <= u && u <= 57) {
            proof {
                assert(!is_dec_digit(digits[i - start as int]));
            }
            return None;
        }
        let d = (u - 48) as u64;
        let ghost prefix = s@.subrange(start as int, i as int);
        let ghost prefix1 = s@.subrange(start as int, i + 1 as int);
        proof {
            assert(prefix1.drop_last() =~= prefix);
            assert(prefix1.last() == s@[i as int]);
        }
        if over {
            proof {
                assert(dec_val(prefix1) == dec_val(prefix) * 10 + digit_val(s@[i as int]));
                assert(dec_val(prefix) * 10 > max);
            }
        } else {
            let cand: u64 = value * 10 + d;
            proof {
                assert(dec_val(prefix1) == cand);
            }
            if cand > max as u64 {
                over = true;
            } else {
                value = cand;
            }
        }
        i += 1;
    }
    proof {
        assert(digits =~= s@.subrange(start as int, n as int));
        assert(all_dec_digits(digits));
        assert(digits.len() > 0);
    }
    if over {
        None
    } else {
        proof {
            assert(dec_val(digits) == value);
        }
        Some(value as u32)
    }
}

/// Parses a `"<year>-<month>"` token, as the raw document carries it.
pub fn parse_date(s: &str) -> (r: Option<YearMonth>)
    ensures
        r == parse_date_spec(s@),
{
    let n = s.unicode_len();
    match find_dash_idx(s) {
        Some(i) => {
            proof {
                lemma_find_dash_bounds(s@, i as int);
            }
            let y_part = s.substring_char(0, i);
            let m_part = s.substring_char(i + 1, n);
            match (parse_uint(y_part, u32::MAX), parse_uint(m_part, u8::MAX as u32)) {
                (Some(y), Some(m)) => Some(YearMonth { year: y, month: m as u8 }),
                _ => None,
            }
        }
        None => None,
    }
}

// ---------------------------------------------------------------------------
// Executable formatting.
// ---------------------------------------------------------------------------

fn dec_digit(d: u32) -> (r: &'static str)
    requires
        d <= 9,
    ensures
        r@ == seq![dec_digit_char(d as int)],
{
    let r: &'static str = match d {
        0 => "0",
        1 => "1",
        2 => "2",
        3 => "3",
        4 => "4",
        5 => "5",
        6 => "6",
        7 => "7",
        8 => "8",
        _ => "9",
    };
    proof {
        reveal_strlit("0");
        reveal_strlit("1");
        reveal_strlit("2");
        reveal_strlit("3");
        reveal_strlit("4");
        reveal_strlit("5");
        reveal_strlit("6");
        reveal_strlit("7");
        reveal_strlit("8");
        reveal_strlit("9");
        assert(r@ =~= seq![dec_digit_char(d as int)]);
    }
    r
}

fn u32_to_string(n: u32) -> (r: String)
    ensures
        r@ == dec_str(n as nat),
    decreases n,
{
    if n < 10 {
        String::from_str(dec_digit(n))
    } else {
        let mut r = u32_to_string(n / 10);
        r.append(dec_digit(n % 10));
        proof {
            assert(r@ =~= dec_str(n as nat));
        }
        r
    }
}

fn month_abbrev_str(m: u8) -> (r: &'static str)
    requires
        1 <= m <= 12,
    ensures
        r@ == month_abbrev(m as int),
{
    match m {
        1 => "Jan",
        2 => "Feb",
        3 => "Mar",
        4 => "Apr",
        5 => "May",
        6 => "Jun",
        7 => "Jul",
        8 => "Aug",
        9 => "Sep",
        10 => "Oct",
        11 => "Nov",
        _ => "Dec",
    }
}

pub(crate) fn lang_is_zh(lang: &str) -> (r: bool)
    ensures
        r == (lang@ == "zh"@),
{
    proof {
        reveal_strlit("zh");
    }
    let n = lang.unicode_len();
    if n == 2 {
        let eq = lang.get_char(0) == 'z' && lang.get_char(1) == 'h';
        proof {
            if eq {
                assert(lang@ =~= "zh"@);
            }
        }
        eq
    } else {
        false
    }
}

/// Renders one parsed date for a locale. A month outside 1..=12 under a
/// non-"zh" locale is out of scope: tokens are otherwise validated, so the
/// caller rules it out.
pub fn format_date(ym: &YearMonth, lang: &str) -> (r: String)
    requires
        lang@ != "zh"@ ==> 1 <= ym.month <= 12,
    ensures
        r@ == format_date_spec(*ym, lang@),
{
    if lang_is_zh(lang) {
        let mut r = u32_to_string(ym.year);
        r.append(".");
        let m = u32_to_string(ym.month as u32);
        r.append(m.as_str());
        proof {
            assert(r@ =~= format_date_spec(*ym, lang@));
        }
        r
    } else {
        let mut r = String::from_str(month_abbrev_str(ym.month));
        r.append(" ");
        let y = u32_to_string(ym.year);
        r.append(y.as_str());
        proof {
            assert(r@ =~= format_date_spec(*ym, lang@));
        }
        r
    }
}

/// Tests a date token against [`token_month_ok`], so unverified callers can
/// establish the formatter's precondition before calling it.
pub fn date_token_month_ok(tok: &str, lang: &str) -> (b: bool)
    ensures
        b == token_month_ok(tok@, lang@),
{
    match parse_date(tok) {
        Some(ym) => lang_is_zh(lang) || (1 <= ym.month && ym.month <= 12),
        None => true,
    }
}

/// Renders a date range: closed (`"<start> -- <end>"`) when both tokens
/// parse, open (locale-specific "ongoing" marker) when only the start does,
/// and the empty string when the start does not parse.
pub fn format_range(start: &str, end: Option<&str>, lang: &str) -> (r: String)
    requires
        token_month_ok(start@, lang@),
        end matches Some(e) ==> token_month_ok(e@, lang@),
    ensures
        r@ == format_range_spec(start@, end.deep_view(), lang@),
{
    let s = parse_date(start);
    let e = match end {
        Some(t) => parse_date(t),
        None => None,
    };
    match (s, e) {
        (Some(sd), Some(ed)) => {
            let mut r = format_date(&sd, lang);
            r.append(" -- ");
            let e_str = format_date(&ed, lang);
            r.append(e_str.as_str());
            proof {
                assert(r@ =~= format_range_spec(start@, end.deep_view(), lang@));
            }
            r
        }
        (Some(sd), None) => {
            let mut r = format_date(&sd, lang);
            if lang_is_zh(lang) {
                r.append(" 至今");
            } else {
                r.append(" -- Present");
            }
            proof {
                assert(r@ =~= format_range_spec(start@, end.deep_view(), lang@));
            }
            r
        }
        (None, _) => String::new(),
    }
}

// ---------------------------------------------------------------------------
// Laws of the formatter.
// ---------------------------------------------------------------------------

/// Law: under locale "zh", a range whose two tokens both parse renders as
/// `"<Y1>.<M1> -- <Y2>.<M2>"`.
pub proof fn lemma_zh_closed_range(start: Seq<char>, end: Seq<char>, sd: YearMonth, ed: YearMonth)
    requires
        parse_date_spec(start) == Some(sd),
        parse_date_spec(end) == Some(ed),
    ensures
        format_range_spec(start, Some(end), "zh"@) == dec_str(sd.year as nat) + "."@ + dec_str(
            sd.month as nat,
        ) + " -- "@ + dec_str(ed.year as nat) + "."@ + dec_str(ed.month as nat),
{
    assert(format_range_spec(start, Some(end), "zh"@) =~= dec_str(sd.year as nat) + "."@
        + dec_str(sd.month as nat) + " -- "@ + dec_str(ed.year as nat) + "."@ + dec_str(
        ed.month as nat,
    ));
}

/// Law: under locale "zh", a range whose start token parses and whose end
/// token is absent or does not parse renders as `"<Y1>.<M1> 至今"`.
pub proof fn lemma_zh_open_range(start: Seq<char>, end: Option<Seq<char>>, sd: YearMonth)
    requires
        parse_date_spec(start) == Some(sd),
        end matches Some(t) ==> parse_date_spec(t) is None,
    ensures
        format_range_spec(start, end, "zh"@) == dec_str(sd.year as nat) + "."@ + dec_str(
            sd.month as nat,
        ) + " 至今"@,
{
    assert(format_range_spec(start, end, "zh"@) =~= dec_str(sd.year as nat) + "."@ + dec_str(
        sd.month as nat,
    ) + " 至今"@);
}

/// Law: under any locale other than "zh", a range whose two tokens both
/// parse (with months in the table's range) renders as
/// `"<MonAbbrev1> <Y1> -- <MonAbbrev2> <Y2>"`.
pub proof fn lemma_other_closed_range(
    start: Seq<char>,
    end: Seq<char>,
    lang: Seq<char>,
    sd: YearMonth,
    ed: YearMonth,
)
    requires
        lang != "zh"@,
        parse_date_spec(start) == Some(sd),
        parse_date_spec(end) == Some(ed),
    ensures
        format_range_spec(start, Some(end), lang) == month_abbrev(sd.month as int) + " "@
            + dec_str(sd.year as nat) + " -- "@ + month_abbrev(ed.month as int) + " "@ + dec_str(
            ed.year as nat,
        ),
{
    assert(format_range_spec(start, Some(end), lang) =~= month_abbrev(sd.month as int) + " "@
        + dec_str(sd.year as nat) + " -- "@ + month_abbrev(ed.month as int) + " "@ + dec_str(
        ed.year as nat,
    ));
}

/// Law: under any locale other than "zh", a range whose start token parses
/// and whose end token is absent or does not parse renders as
/// `"<MonAbbrev1> <Y1> -- Present"`.
pub proof fn lemma_other_open_range(
    start: Seq<char>,
    end: Option<Seq<char>>,
    lang: Seq<char>,
    sd: YearMonth,
)
    requires
        lang != "zh"@,
        parse_date_spec(start) == Some(sd),
        end matches Some(t) ==> parse_date_spec(t) is None,
    ensures
        format_range_spec(start, end, lang) == month_abbrev(sd.month as int) + " "@ + dec_str(
            sd.year as nat,
        ) + " -- Present"@,
{
    assert(format_range_spec(start, end, lang) =~= month_abbrev(sd.month as int) + " "@ + dec_str(
        sd.year as nat,
    ) + " -- Present"@);
}

/// Law: a start token that does not parse makes the whole range render to
/// the empty string, whatever the end token and the locale.
pub proof fn lemma_malformed_start_empty(start: Seq<char>, end: Option<Seq<char>>, lang: Seq<char>)
    requires
        parse_date_spec(start) is None,
    ensures
        format_range_spec(start, end, lang) == Seq::<char>::empty(),
{
}

} // verus!
