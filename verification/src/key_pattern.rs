//! The filter on object keys: a regular expression that is searched for
//! anywhere in a key.
//!
//! The expressions are those of the `fancy-regex` crate, which compiles and
//! runs them. What that crate computes is not specified here; it is named, so
//! that the contracts can say which keys a pattern selects.
//!
//! Not every pattern is handed to that crate. A pattern that refers back to
//! a group, that is longer than [`MAX_PATTERN_LENGTH`] characters, or that
//! holds more than [`MAX_REPEAT_DIGITS`] digits after its first `{` is
//! refused beforehand: among these are the patterns on which that crate
//! stops the programme.

use vstd::prelude::*;

verus! {

/// A compiled regular expression of `fancy-regex`.
#[verifier::external_type_specification]
#[verifier::external_body]
pub struct ExRegex(fancy_regex::Regex);

/// The error of `fancy-regex`.
#[verifier::external_type_specification]
#[verifier::external_body]
pub struct ExRegexError(fancy_regex::Error);

/// Whether `fancy_regex::Regex::new` accepts the pattern.
pub uninterp spec fn pattern_compiles(pattern: Seq<char>) -> bool;

/// The pattern that a compiled expression was made from: what
/// `fancy_regex::Regex::as_str` returns for it.
pub uninterp spec fn regex_source(regex: fancy_regex::Regex) -> Seq<char>;

/// What `fancy_regex::Regex::find` returns on `text` for an expression that
/// was compiled from `pattern` and has the default backtracking limit: the
/// byte offset at which the first match starts, none where nothing matches,
/// or a failure where the search was given up.
pub uninterp spec fn regex_search(pattern: Seq<char>, text: Seq<char>) -> Result<Option<usize>, ()>;

/// The number of backtracking steps after which a search with the expression
/// is given up: the limit that the expression was made with.
pub uninterp spec fn regex_backtrack_limit(regex: fancy_regex::Regex) -> usize;

/// The backtracking limit of an expression that `fancy_regex::Regex::new`
/// made.
pub const DEFAULT_BACKTRACK_LIMIT: usize = 1000000;

/// The largest number of characters of a pattern that is compiled.
pub const MAX_PATTERN_LENGTH: usize = 1000;

/// The largest number of digits that a pattern that is compiled may hold
/// after its first `{`.
pub const MAX_REPEAT_DIGITS: usize = 6;

/// Whether `c` is one of the digits `0` to `9`.
pub open spec fn is_digit(c: char) -> bool {
    c == '0' || c == '1' || c == '2' || c == '3' || c == '4' || c == '5' || c == '6' || c == '7'
        || c == '8' || c == '9'
}

/// Whether what starts at place `i` of a pattern may refer back to a group:
/// a backslash before a digit or before a `k`, or the characters `?P=`.
pub open spec fn refers_back_at(pattern: Seq<char>, i: int) -> bool {
    ||| (i + 1 < pattern.len() && pattern[i] == '\\' && (is_digit(pattern[i + 1]) || pattern[i
        + 1] == 'k'))
    ||| (i + 2 < pattern.len() && pattern[i] == '?' && pattern[i + 1] == 'P' && pattern[i + 2]
        == '=')
}

/// Whether a pattern may refer back to a group somewhere.
pub open spec fn holds_back_reference(pattern: Seq<char>) -> bool {
    exists|i: int| 0 <= i < pattern.len() && refers_back_at(pattern, i)
}

/// The number of digits of a pattern that stand after its first `{`: every
/// digit of a repeat count is among them.
pub open spec fn repeat_digits(pattern: Seq<char>) -> nat
    decreases pattern.len(),
{
    if pattern.len() == 0 {
        0
    } else if is_digit(pattern.last()) && pattern.drop_last().contains('{') {
        repeat_digits(pattern.drop_last()) + 1
    } else {
        repeat_digits(pattern.drop_last())
    }
}

/// The patterns that are handed on to be compiled: those of at most
/// [`MAX_PATTERN_LENGTH`] characters that refer back to no group and hold at
/// most [`MAX_REPEAT_DIGITS`] digits after their first `{`.
pub open spec fn is_supported(pattern: Seq<char>) -> bool {
    &&& pattern.len() <= MAX_PATTERN_LENGTH
    &&& !holds_back_reference(pattern)
    &&& repeat_digits(pattern) <= MAX_REPEAT_DIGITS
}

/// Calls `fancy_regex::Regex::new`.
///
/// Trusted: on a supported pattern the call returns; it succeeds exactly on
/// the patterns that the crate accepts, and the expression it returns keeps
/// the pattern it was made from and has the default backtracking limit.
///
/// The crate sums and multiplies the least sizes of the parts of a pattern
/// in machine integers. A supported pattern has at most four thousand and
/// one parts, and the product of its repeat counts is below a million, so
/// that no such size reaches `2^32`. It names no group by number or by name
/// after a backslash or `?P=`, so that no back-reference is compiled.
#[verifier::external_body]
fn regex_new(pattern: &str) -> (r: Result<fancy_regex::Regex, fancy_regex::Error>)
    requires
        is_supported(pattern@),
    ensures
        r is Ok == pattern_compiles(pattern@),
        r matches Ok(regex) ==> regex_source(regex) == pattern@ && regex_backtrack_limit(regex)
            == DEFAULT_BACKTRACK_LIMIT,
{
    fancy_regex::Regex::new(pattern)
}

/// Calls `fancy_regex::Regex::find` and keeps the offset at which the match
/// starts.
///
/// Trusted: with an expression of a supported pattern the call returns, and
/// with the default backtracking limit its outcome is a function of the
/// pattern and of the text. An expression without a back-reference reads no
/// group's bounds while it runs.
#[verifier::external_body]
fn regex_find(regex: &fancy_regex::Regex, text: &str) -> (r: Result<
    Option<usize>,
    fancy_regex::Error,
>)
    requires
        is_supported(regex_source(*regex)),
    ensures
        regex_backtrack_limit(*regex) == DEFAULT_BACKTRACK_LIMIT ==> regex_search(
            regex_source(*regex),
            text@,
        ) == match r {
            Ok(found) => Ok::<Option<usize>, ()>(found),
            Err(_) => Err::<Option<usize>, ()>(()),
        },
{
    regex.find(text).map(|found| found.map(|m| m.start()))
}

/// Calls `fancy_regex::Regex::as_str`.
///
/// Trusted: the text is the pattern that the expression was made from.
#[verifier::external_body]
fn regex_as_str(regex: &fancy_regex::Regex) -> (pattern: &str)
    ensures
        pattern@ == regex_source(*regex),
{
    regex.as_str()
}

/// The pattern that selects every key that is not empty.
pub open spec fn default_pattern() -> Seq<char> {
    ".+"@
}

/// Why a pattern cannot be used.
#[derive(Clone, Copy, Debug, PartialEq, Eq, Structural)]
pub enum PatternError {
    /// The pattern is no regular expression.
    Invalid,
    /// The pattern is not among those that are compiled: it is too long,
    /// refers back to a group, or holds too many digits after its first `{`.
    Unsupported,
}

/// What compiling a pattern comes to: nothing stands in the way of a
/// supported pattern that is a regular expression.
pub open spec fn pattern_fault(pattern: Seq<char>) -> Option<PatternError> {
    if !is_supported(pattern) {
        Some(PatternError::Unsupported)
    } else if !pattern_compiles(pattern) {
        Some(PatternError::Invalid)
    } else {
        None
    }
}

/// Whether `pattern` is found somewhere in `key`. A search that is given up
/// counts as no match.
pub open spec fn key_matches(pattern: Seq<char>, key: Seq<char>) -> bool {
    regex_search(pattern, key) matches Ok(Some(_))
}

/// The position that [`find_regex`] reports for the outcome of a search: the
/// offset of the match, cut to 32 bits, or `-1` where there is none.
pub open spec fn reported_position(outcome: Result<Option<usize>, ()>) -> i32 {
    match outcome {
        Ok(Some(start)) => start as i32,
        _ => -1i32,
    }
}

/// Whether `c` is one of the digits `0` to `9`.
pub fn digit(c: char) -> (r: bool)
    ensures
        r == is_digit(c),
{
    c == '0' || c == '1' || c == '2' || c == '3' || c == '4' || c == '5' || c == '6' || c == '7'
        || c == '8' || c == '9'
}

/// Whether a pattern may refer back to a group somewhere.
pub fn refers_back(pattern: &str) -> (found: bool)
    ensures
        found == holds_back_reference(pattern@),
{
    let length = pattern.unicode_len();
    let mut i: usize = 0;
    while i < length
        invariant
            length == pattern@.len(),
            i <= length,
            forall|j: int| 0 <= j < i ==> !refers_back_at(pattern@, j),
        decreases length - i,
    {
        let c = pattern.get_char(i);
        if c == '\\' && i + 1 < length {
            let d = pattern.get_char(i + 1);
            if digit(d) || d == 'k' {
                assert(refers_back_at(pattern@, i as int));
                return true;
            }
        }
        if c == '?' && length - i > 2 {
            if pattern.get_char(i + 1) == 'P' && pattern.get_char(i + 2) == '=' {
                assert(refers_back_at(pattern@, i as int));
                return true;
            }
        }
        i += 1;
    }
    false
}

/// A `{` stands in a text that was lengthened by one character exactly if
/// it stood in the text before or is the new character.
proof fn lemma_brace_in_longer(text: Seq<char>)
    requires
        text.len() > 0,
    ensures
        text.contains('{') <==> (text.drop_last().contains('{') || text.last() == '{'),
{
    let shorter = text.drop_last();
    if text.contains('{') {
        let at = choose|at: int| 0 <= at < text.len() && text[at] == '{';
        if at < shorter.len() {
            assert(shorter[at] == '{');
        }
    }
    if shorter.contains('{') {
        let at = choose|at: int| 0 <= at < shorter.len() && shorter[at] == '{';
        assert(text[at] == '{');
    }
    if text.last() == '{' {
        assert(text[text.len() - 1] == '{');
    }
}

/// The number of digits of a pattern that stand after its first `{`.
pub fn count_repeat_digits(pattern: &str) -> (count: usize)
    ensures
        count == repeat_digits(pattern@),
{
    let length = pattern.unicode_len();
    let mut seen = false;
    let mut count: usize = 0;
    let mut i: usize = 0;
    assert(pattern@.take(0) =~= Seq::<char>::empty());
    while i < length
        invariant
            length == pattern@.len(),
            i <= length,
            count <= i,
            count == repeat_digits(pattern@.take(i as int)),
            seen == pattern@.take(i as int).contains('{'),
        decreases length - i,
    {
        let c = pattern.get_char(i);
        proof {
            let longer = pattern@.take(i + 1);
            assert(longer.drop_last() =~= pattern@.take(i as int));
            assert(longer.last() == c);
            lemma_brace_in_longer(longer);
        }
        if seen && digit(c) {
            count += 1;
        }
        if c == '{' {
            seen = true;
        }
        i += 1;
    }
    assert(pattern@.take(length as int) =~= pattern@);
    count
}

/// Whether a pattern is among those that are handed on to be compiled.
pub fn supported(pattern: &str) -> (r: bool)
    ensures
        r == is_supported(pattern@),
{
    pattern.unicode_len() <= MAX_PATTERN_LENGTH && !refers_back(pattern) && count_repeat_digits(
        pattern,
    ) <= MAX_REPEAT_DIGITS
}

/// A compiled filter on object keys.
pub struct KeyPattern {
    regex: fancy_regex::Regex,
}

impl View for KeyPattern {
    type V = Seq<char>;

    /// The pattern that the filter was compiled from.
    closed spec fn view(&self) -> Seq<char> {
        regex_source(self.regex)
    }
}

impl KeyPattern {
    /// A filter holds an expression of a supported pattern, made with the
    /// default backtracking limit.
    #[verifier::type_invariant]
    spec fn valid(&self) -> bool {
        &&& is_supported(regex_source(self.regex))
        &&& regex_backtrack_limit(self.regex) == DEFAULT_BACKTRACK_LIMIT
    }

    /// Compiles `pattern`. A pattern that is not supported is refused, and
    /// so is one that is no regular expression.
    pub fn new(pattern: &str) -> (r: Result<KeyPattern, PatternError>)
        ensures
            match pattern_fault(pattern@) {
                Some(fault) => r == Err::<KeyPattern, PatternError>(fault),
                None => r matches Ok(compiled) && compiled@ == pattern@,
            },
    {
        if !supported(pattern) {
            return Err(PatternError::Unsupported);
        }
        match regex_new(pattern) {
            Ok(regex) => Ok(KeyPattern { regex }),
            Err(_) => Err(PatternError::Invalid),
        }
    }

    /// The pattern that the filter was compiled from.
    pub fn as_str(&self) -> (pattern: &str)
        ensures
            pattern@ == self@,
    {
        regex_as_str(&self.regex)
    }

    /// The outcome of the search for the pattern in `text`.
    fn search(&self, text: &str) -> (r: Result<Option<usize>, fancy_regex::Error>)
        ensures
            regex_search(self@, text@) == match r {
                Ok(found) => Ok::<Option<usize>, ()>(found),
                Err(_) => Err::<Option<usize>, ()>(()),
            },
    {
        proof {
            use_type_invariant(self);
        }
        regex_find(&self.regex, text)
    }

    /// Whether the pattern is found somewhere in `key`.
    pub fn matches(&self, key: &str) -> (found: bool)
        ensures
            found == key_matches(self@, key@),
    {
        match self.search(key) {
            Ok(Some(_)) => true,
            _ => false,
        }
    }
}

/// The position at which `search_filter` first matches in `content`, or `-1`
/// where it does not match.
pub fn find_regex(content: &str, search_filter: &KeyPattern) -> (position: i32)
    ensures
        position == reported_position(regex_search(search_filter@, content@)),
{
    match search_filter.search(content) {
        Ok(found) => position_of(found),
        Err(_) => -1,
    }
}

/// The position that is reported for a search that ended: the offset of the
/// match, cut to 32 bits, or `-1` where nothing was found.
pub fn position_of(found: Option<usize>) -> (position: i32)
    ensures
        position == reported_position(Ok(found)),
{
    match found {
        Some(start) => start as i32,
        None => -1,
    }
}

/// The filter for a listing: the pattern that was asked for, or, where none
/// was, the one that selects every key that is not empty.
pub fn extract_list_regex_pattern(list_regex_pattern: Option<&str>) -> (r: Result<
    KeyPattern,
    PatternError,
>)
    ensures
        match pattern_fault(chosen_pattern(list_regex_pattern)) {
            Some(fault) => r == Err::<KeyPattern, PatternError>(fault),
            None => r matches Ok(compiled) && compiled@ == chosen_pattern(list_regex_pattern),
        },
{
    let regex = match list_regex_pattern {
        Some(re) => re,
        None => ".+",
    };
    KeyPattern::new(regex)
}

/// The pattern that [`extract_list_regex_pattern`] compiles.
pub open spec fn chosen_pattern(list_regex_pattern: Option<&str>) -> Seq<char> {
    match list_regex_pattern {
        Some(pattern) => pattern@,
        None => default_pattern(),
    }
}

} // verus!
