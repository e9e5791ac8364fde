//! Reading the quality score out of the scoring run's report, and choosing
//! the report among the files of a directory.

use crate::text::{
    all_digits, chars_of, contains, digits_value, has_substring, is_digit,
    lemma_digits_value_monotone, parse_chars, parse_unsigned, split, split_fields, ParseError,
};
use regex::Regex;
use vstd::prelude::*;

verus! {

/// The pattern of the report line that holds the score.
pub const VMAF_PATTERN: &'static str = "VMAF score: (\\d+\\.\\d+)";

/// The pattern of the names of the encoder's report files.
pub const LOG_NAME_PATTERN: &'static str = "^ffmpeg.*?\\.log$";

/// The line of the report, counted from its end, that holds the score.
pub const SCORE_LINE: i32 = 3;

/// The same for VideoToolbox, which logs more after the score.
pub const SCORE_LINE_VIDEOTOOLBOX: i32 = 15;

/// A quality score in millionths of a point.
#[derive(Copy, Clone, Debug, PartialEq, Eq, Structural)]
pub struct QualityScore {
    pub micros: u64,
}

/// When a file was made: seconds since the epoch, and nanoseconds within
/// the second.
#[derive(Copy, Clone, Debug, PartialEq, Eq, Structural)]
pub struct FileStamp {
    pub seconds: i64,
    pub nanos: u32,
}

/// What the first group of `pattern` holds in its leftmost match in `text`;
/// nothing where `pattern` is no regular expression, where it matches
/// nowhere, or where the group took no part in the match.
pub uninterp spec fn group_match(text: Seq<char>, pattern: Seq<char>) -> Option<Seq<char>>;

/// Whether `pattern` matches somewhere in `text`; nothing where `pattern`
/// is no regular expression.
pub uninterp spec fn pattern_match(text: Seq<char>, pattern: Seq<char>) -> Option<bool>;

/// The text that the first group of `pattern` holds in `text`, and the
/// empty text where it holds none.
pub open spec fn first_group(text: Seq<char>, pattern: Seq<char>) -> Seq<char> {
    match group_match(text, pattern) {
        Some(found) => found,
        None => Seq::<char>::empty(),
    }
}

/// Whether `pattern` is a regular expression that matches somewhere in
/// `text`.
pub open spec fn regex_matches(text: Seq<char>, pattern: Seq<char>) -> bool {
    match pattern_match(text, pattern) {
        Some(found) => found,
        None => false,
    }
}

/// Compiles `regex` with `Regex::new`, searches `text` with
/// `Regex::captures` and reads group 1 with `Captures::get`. The contract
/// names the text that the group holds, if it holds any.
#[verifier::external_body]
fn find_group(text: &str, regex: &str) -> (r: Option<String>)
    ensures
        match r {
            Some(found) => group_match(text@, regex@) == Some(found@),
            None => group_match(text@, regex@) is None,
        },
{
    match Regex::new(regex) {
        Ok(re) => match re.captures(text) {
            Some(caps) => match caps.get(1) {
                Some(found) => Some(found.as_str().to_string()),
                None => None,
            },
            None => None,
        },
        Err(_) => None,
    }
}

/// Compiles `regex` with `Regex::new` and asks `Regex::is_match` of `text`.
/// The contract names the answer, if the pattern compiles.
#[verifier::external_body]
fn find_match(text: &str, regex: &str) -> (r: Option<bool>)
    ensures
        r == pattern_match(text@, regex@),
{
    match Regex::new(regex) {
        Ok(re) => Some(re.is_match(text)),
        Err(_) => None,
    }
}

/// The text that the first group of `regex` holds in `text`; the empty
/// text where the group holds nothing, be it for want of a match or
/// because the pattern is no regular expression.
pub fn capture_group(text: &str, regex: &str) -> (r: String)
    ensures
        r@ == first_group(text@, regex@),
{
    match find_group(text, regex) {
        Some(found) => found,
        None => String::new(),
    }
}

/// Ten to the `k`.
pub open spec fn pow10(k: nat) -> nat
    decreases k,
{
    if k == 0 {
        1
    } else {
        10 * pow10((k - 1) as nat)
    }
}

/// The millionths that the digits behind the point stand for; digits past
/// the sixth are cut off.
pub open spec fn fraction_micros(digits: Seq<char>) -> nat {
    let kept = if digits.len() > 6 {
        digits.take(6)
    } else {
        digits
    };
    digits_value(kept) * pow10((6 - kept.len()) as nat)
}

/// The score that `text` denotes, in millionths: digits, a point, digits.
pub open spec fn score_of(text: Seq<char>) -> Result<nat, ParseError> {
    let parts = split_fields(text, '.');
    if text.len() == 0 {
        Err(ParseError::Empty)
    } else if parts.len() != 2 || parts[0].len() == 0 || parts[1].len() == 0 || !all_digits(
        parts[0],
    ) || !all_digits(parts[1]) {
        Err(ParseError::InvalidDigit)
    } else if digits_value(parts[0]) * 1_000_000 + fraction_micros(parts[1]) > u64::MAX {
        Err(ParseError::Overflow)
    } else {
        Ok(digits_value(parts[0]) * 1_000_000 + fraction_micros(parts[1]))
    }
}

/// What `parse_score` and `extract_vmaf_score` return for a score text.
pub open spec fn score_result(text: Seq<char>) -> Result<QualityScore, ParseError> {
    match score_of(text) {
        Ok(micros) => Ok(QualityScore { micros: micros as u64 }),
        Err(e) => Err(e),
    }
}

fn only_digits(chars: &Vec<char>) -> (r: bool)
    ensures
        r == all_digits(chars@),
{
    let n = chars.len();
    let mut i: usize = 0;
    while i < n
        invariant
            i <= n,
            n == chars@.len(),
            forall|j: int| 0 <= j < i ==> is_digit(#[trigger] chars@[j]),
        decreases n - i,
    {
        let c = chars[i];
        if !(c >= '0' && c <= '9') {
            assert(!is_digit(chars@[i as int]));
            return false;
        }
        i += 1;
    }
    true
}

proof fn lemma_digits_below_pow10(s: Seq<char>)
    requires
        all_digits(s),
    ensures
        digits_value(s) < pow10(s.len()),
    decreases s.len(),
{
    if s.len() > 0 {
        assert(all_digits(s.drop_last())) by {
            assert forall|i: int| 0 <= i < s.drop_last().len() implies is_digit(
                #[trigger] s.drop_last()[i],
            ) by {
                assert(s.drop_last()[i] == s[i]);
            }
        }
        lemma_digits_below_pow10(s.drop_last());
        assert(is_digit(s.last()));
    }
}

fn fraction_of(digits: &Vec<char>) -> (r: u64)
    requires
        all_digits(digits@),
        digits@.len() > 0,
    ensures
        r == fraction_micros(digits@),
        r < 1_000_000,
{
    let n = digits.len();
    let kept_len: usize = if n > 6 {
        6
    } else {
        n
    };
    let ghost kept = digits@.take(kept_len as int);
    let mut value: u64 = 0;
    let mut i: usize = 0;
    proof {
        assert(all_digits(kept)) by {
            assert forall|j: int| 0 <= j < kept.len() implies is_digit(#[trigger] kept[j]) by {
                assert(kept[j] == digits@[j]);
            }
        }
        reveal_with_fuel(pow10, 7);
    }
    while i < kept_len
        invariant
            i <= kept_len <= 6,
            kept_len <= digits@.len(),
            kept == digits@.take(kept_len as int),
            all_digits(kept),
            value == digits_value(kept.take(i as int)),
            value < pow10(i as nat),
        decreases kept_len - i,
    {
        let c = digits[i];
        proof {
            assert(kept[i as int] == c);
            assert(is_digit(kept[i as int]));
            assert(kept.take(i + 1).drop_last() =~= kept.take(i as int));
            reveal_with_fuel(pow10, 7);
        }
        value = value * 10 + (c as u32 - '0' as u32) as u64;
        i += 1;
    }
    assert(kept.take(kept_len as int) =~= kept);
    assert(digits@.len() <= 6 ==> kept =~= digits@);
    let mut scale: usize = kept_len;
    let mut r: u64 = value;
    proof {
        reveal_with_fuel(pow10, 7);
        assert(pow10(0) == 1);
        assert(value * pow10((scale - kept_len) as nat) == value) by (nonlinear_arith)
            requires
                pow10((scale - kept_len) as nat) == 1,
        ;
    }
    while scale < 6
        invariant
            kept_len <= scale <= 6,
            r == value * pow10((scale - kept_len) as nat),
            value < pow10(kept_len as nat),
            r < pow10(scale as nat),
        decreases 6 - scale,
    {
        proof {
            reveal_with_fuel(pow10, 7);
            assert(value * pow10((scale + 1 - kept_len) as nat) == value * pow10(
                (scale - kept_len) as nat,
            ) * 10) by (nonlinear_arith)
                requires
                    pow10((scale + 1 - kept_len) as nat) == 10 * pow10((scale - kept_len) as nat),
            ;
        }
        r = r * 10;
        scale += 1;
    }
    proof {
        reveal_with_fuel(pow10, 7);
    }
    r
}

/// Reads a score of the form digits, point, digits.
pub fn parse_score(text: &str) -> (r: Result<QualityScore, ParseError>)
    ensures
        r == score_result(text@),
{
    let chars = chars_of(text);
    if chars.len() == 0 {
        return Err(ParseError::Empty);
    }
    let parts = split(&chars, '.');
    if parts.len() != 2 {
        return Err(ParseError::InvalidDigit);
    }
    if parts[0].len() == 0 || parts[1].len() == 0 {
        return Err(ParseError::InvalidDigit);
    }
    if !only_digits(&parts[0]) || !only_digits(&parts[1]) {
        return Err(ParseError::InvalidDigit);
    }
    let frac = fraction_of(&parts[1]);
    proof {
        assert(parts@[0]@[0] != '+');
        assert(parts@[0]@.skip(0) =~= parts@[0]@);
    }
    match parse_chars(&parts[0], 18_446_744_073_709) {
        Ok(whole) => {
            let micros: u128 = whole as u128 * 1_000_000 + frac as u128;
            if micros > u64::MAX as u128 {
                Err(ParseError::Overflow)
            } else {
                Ok(QualityScore { micros: micros as u64 })
            }
        },
        Err(e) => {
            assert(e == ParseError::Overflow);
            Err(ParseError::Overflow)
        },
    }
}

/// Reads the quality score out of a line of the scoring run's report.
pub fn extract_vmaf_score(line: &str) -> (r: Result<QualityScore, ParseError>)
    ensures
        r == score_result(first_group(line@, VMAF_PATTERN@)),
{
    let found = capture_group(line, VMAF_PATTERN);
    parse_score(found.as_str())
}

/// The line of the report, counted from its end, on which the score of an
/// encoder stands.
pub fn score_line_number(encoder: &str) -> (r: i32)
    ensures
        r == (if has_substring(encoder@, "videotoolbox"@) {
            SCORE_LINE_VIDEOTOOLBOX
        } else {
            SCORE_LINE
        }),
{
    if contains(encoder, "videotoolbox") {
        SCORE_LINE_VIDEOTOOLBOX
    } else {
        SCORE_LINE
    }
}

/// The line that stands `line_number` lines from the end, where `lines` are
/// given last line first; `None` where there are not that many.
pub fn read_last_line_at(lines: &Vec<String>, line_number: i32) -> (r: Option<String>)
    ensures
        match r {
            Some(line) => 1 <= line_number <= lines@.len() && line@ == lines@[line_number - 1]@,
            None => !(1 <= line_number <= lines@.len()),
        },
{
    if line_number < 1 || line_number as usize > lines.len() {
        return None;
    }
    Some(lines[(line_number - 1) as usize].clone())
}

/// Whether a directory entry is a report of the encoder: a file whose name
/// the report pattern matches.
pub fn is_report_file(name: &str, is_file: bool) -> (r: bool)
    ensures
        r == (is_file && regex_matches(name@, LOG_NAME_PATTERN@)),
{
    if !is_file {
        return false;
    }
    match find_match(name, LOG_NAME_PATTERN) {
        Some(found) => found,
        None => false,
    }
}

impl FileStamp {
    /// Whether `self` is later than `other`.
    pub open spec fn later_than(&self, other: &FileStamp) -> bool {
        self.seconds > other.seconds || (self.seconds == other.seconds && self.nanos
            > other.nanos)
    }

    /// The epoch itself.
    pub open spec fn zero() -> FileStamp {
        FileStamp { seconds: 0, nanos: 0 }
    }

    /// Whether `self` is later than `other`.
    pub fn is_later_than(&self, other: &FileStamp) -> (r: bool)
        ensures
            r == self.later_than(other),
    {
        self.seconds > other.seconds || (self.seconds == other.seconds && self.nanos
            > other.nanos)
    }
}

/// The place of the latest file among `stamps`: later than the epoch, no
/// file later than it, and the first of those that are as late. `None` where
/// no file is later than the epoch.
pub fn get_latest_log(stamps: &Vec<FileStamp>) -> (r: Option<usize>)
    ensures
        match r {
            Some(i) => i < stamps@.len() && stamps@[i as int].later_than(&FileStamp::zero())
                && (forall|j: int|
                0 <= j < stamps@.len() ==> !(#[trigger] stamps@[j]).later_than(&stamps@[i as int]))
                && (forall|j: int|
                0 <= j < i ==> stamps@[i as int].later_than(&#[trigger] stamps@[j])),
            None => forall|j: int|
                0 <= j < stamps@.len() ==> !(#[trigger] stamps@[j]).later_than(&FileStamp::zero()),
        },
{
    let mut best: Option<usize> = None;
    let mut latest = FileStamp { seconds: 0, nanos: 0 };
    let n = stamps.len();
    let mut k: usize = 0;
    while k < n
        invariant
            k <= n,
            n == stamps@.len(),
            match best {
                Some(i) => i < k && latest == stamps@[i as int] && latest.later_than(
                    &FileStamp::zero(),
                ) && (forall|j: int| 0 <= j < k ==> !(#[trigger] stamps@[j]).later_than(&latest))
                    && (forall|j: int| 0 <= j < i ==> latest.later_than(&#[trigger] stamps@[j])),
                None => latest == FileStamp::zero() && forall|j: int|
                    0 <= j < k ==> !(#[trigger] stamps@[j]).later_than(&FileStamp::zero()),
            },
        decreases n - k,
    {
        let stamp = stamps[k];
        if stamp.is_later_than(&latest) {
            latest = stamp;
            best = Some(k);
        }
        k += 1;
    }
    best
}

} // verus!
