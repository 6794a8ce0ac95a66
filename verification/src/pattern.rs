//! The textual pattern of a colour value, matched by the `regex` crate.

use regex::Regex;
use vstd::prelude::*;

verus! {

/// The pattern a colour value has to match, from its first character to
/// its last, written for the `regex` crate in its verbose form (blanks and
/// line breaks in the pattern stand for nothing).
///
/// It accepts two forms and no other text:
/// - `rgb(R, G, B)`
/// - `rgba(R, G, B, A)`
///
/// `R`, `G` and `B` are whole numbers from 0 to 255, written with the digits
/// `0` to `9` and without leading zeros. `A` is a number from 0 to 1: `0`,
/// `1`, or a decimal fraction with at least one digit behind the point, whose
/// whole part may be left out when it is 0 (`0.5`, `.5`, `1.0`). White space
/// may stand before and after each comma, and nowhere else.
pub const RGBA_PATTERN: &'static str = r"(?x)
\A(?:
    rgb\(
        (?:25[0-5]|2[0-4][0-9]|1[0-9][0-9]|[1-9][0-9]|[0-9]) \s*,\s*
        (?:25[0-5]|2[0-4][0-9]|1[0-9][0-9]|[1-9][0-9]|[0-9]) \s*,\s*
        (?:25[0-5]|2[0-4][0-9]|1[0-9][0-9]|[1-9][0-9]|[0-9])
    \)
  |
    rgba\(
        (?:25[0-5]|2[0-4][0-9]|1[0-9][0-9]|[1-9][0-9]|[0-9]) \s*,\s*
        (?:25[0-5]|2[0-4][0-9]|1[0-9][0-9]|[1-9][0-9]|[0-9]) \s*,\s*
        (?:25[0-5]|2[0-4][0-9]|1[0-9][0-9]|[1-9][0-9]|[0-9]) \s*,\s*
        (?:0?\.[0-9]+|1\.0+|0|1)
    \)
)\z";

/// `regex::Regex`, a compiled regular expression. Nothing inside it is
/// visible to the verifier.
#[verifier::external_type_specification]
#[verifier::external_body]
pub struct ExRegex(Regex);

/// `regex::Error`, the reason a pattern could not be compiled.
#[verifier::external_type_specification]
#[verifier::external_body]
pub struct ExRegexError(regex::Error);

/// Whether the compiled expression `re` finds a match anywhere in
/// `haystack`: what `Regex::is_match` returns.
pub uninterp spec fn regex_is_match(re: &Regex, haystack: Seq<char>) -> bool;

/// Whether the expression that `Regex::new` compiles from `pattern` finds a
/// match anywhere in `haystack`.
pub uninterp spec fn pattern_matches(pattern: Seq<char>, haystack: Seq<char>) -> bool;

/// Whether `Regex::new` compiles `pattern`, with its default options and
/// limits, rather than refusing it. The limits are counted in bytes of the
/// compiled expression, so the answer is that of one build target.
pub uninterp spec fn pattern_compiles(pattern: Seq<char>) -> bool;

/// `Regex::new` compiles a pattern with the default options. Not proved:
/// in one build of the program, whether it succeeds, and what the compiled
/// expression matches when it does, are decided by the text of the pattern
/// alone. Nothing is claimed about which patterns compile.
pub assume_specification[ Regex::new ](re: &str) -> (r: Result<Regex, regex::Error>)
    ensures
        r is Ok <==> pattern_compiles(re@),
        r matches Ok(compiled) ==> forall|haystack: Seq<char>| #[trigger]
            regex_is_match(&compiled, haystack) == pattern_matches(re@, haystack),
;

/// `Regex::is_match` searches a haystack. Not proved: the answer is decided
/// by the expression and the text of the haystack alone.
pub assume_specification[ Regex::is_match ](re: &Regex, haystack: &str) -> (b: bool)
    ensures
        b == regex_is_match(re, haystack@),
;

/// Whether `value` is a colour: whether the expression compiled from
/// [`RGBA_PATTERN`] finds a match in it. The pattern is tied to both ends of
/// the text, so a match is a match of the whole value. Which texts that
/// holds of is for the engine to say; the pattern's own comment says what it
/// is written to accept.
pub open spec fn is_rgba(value: Seq<char>) -> bool {
    pattern_matches(RGBA_PATTERN@, value)
}

/// The colour pattern, compiled. A value is built once and shared by every
/// validation that needs it.
pub struct ColorPattern {
    regex: Regex,
}

impl ColorPattern {
    #[verifier::type_invariant]
    spec fn matches_colors(self) -> bool {
        forall|value: Seq<char>| #[trigger] regex_is_match(&self.regex, value) == is_rgba(value)
    }

    /// Compiles the colour pattern. There is a result exactly when the
    /// expression engine compiles [`RGBA_PATTERN`]; whether it does is for
    /// the engine to say. The result matches the colours and nothing else
    /// (see [`ColorPattern::is_match`]).
    pub fn new() -> (pattern: Option<ColorPattern>)
        ensures
            pattern is Some <==> pattern_compiles(RGBA_PATTERN@),
    {
        ColorPattern::from_compiled(Regex::new(RGBA_PATTERN))
    }

    /// Takes over what the engine made of the colour pattern: the compiled
    /// expression when there is one.
    fn from_compiled(compiled: Result<Regex, regex::Error>) -> (pattern: Option<ColorPattern>)
        requires
            compiled matches Ok(regex) ==> forall|value: Seq<char>| #[trigger]
                regex_is_match(&regex, value) == is_rgba(value),
        ensures
            pattern is Some <==> compiled is Ok,
    {
        match compiled {
            Ok(regex) => Some(ColorPattern { regex }),
            Err(_) => None,
        }
    }

    /// Whether `value`, from its first character to its last, is a colour
    /// as [`RGBA_PATTERN`] writes it down.
    pub fn is_match(&self, value: &str) -> (b: bool)
        ensures
            b == is_rgba(value@),
    {
        proof {
            use_type_invariant(self);
        }
        self.regex.is_match(value)
    }
}

} // verus!
