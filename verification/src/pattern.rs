//! Compiled regular expressions (the `regex` crate), with what their use here needs.
use vstd::prelude::*;

verus! {

/// `regex::Regex`.
#[verifier::external_type_specification]
#[verifier::external_body]
pub struct ExRegex(regex::Regex);

/// `regex::Error`.
#[verifier::external_type_specification]
#[verifier::external_body]
pub struct ExRegexError(regex::Error);

/// The pattern of identifiers: one or more ASCII letters, digits, hyphens or underscores.
pub const IDENTIFIER_PATTERN: &'static str = "^[a-zA-Z0-9\\-_]+$";

/// Whether `c` is an ASCII letter, digit, hyphen or underscore.
pub open spec fn is_identifier_char(c: char) -> bool {
    ('a' <= c && c <= 'z') || ('A' <= c && c <= 'Z') || ('0' <= c && c <= '9') || c == '-' || c
        == '_'
}

/// `s` is non-empty and made of identifier characters only.
pub open spec fn is_identifier(s: Seq<char>) -> bool {
    s.len() > 0 && forall|i: int| 0 <= i < s.len() ==> is_identifier_char(#[trigger] s[i])
}

/// Whether `regex::Regex::new` accepts `pattern`.
pub uninterp spec fn regex_compiles(pattern: Seq<char>) -> bool;

/// What `regex::Regex::is_match` answers for a regex compiled from `pattern` on `haystack`.
pub uninterp spec fn regex_is_match(pattern: Seq<char>, haystack: Seq<char>) -> bool;

/// A regex together with the pattern it was compiled from.
pub struct CompiledPattern {
    regex: regex::Regex,
    source: String,
}

impl CompiledPattern {
    /// The pattern this regex was compiled from.
    pub closed spec fn pattern(&self) -> Seq<char> {
        self.source@
    }
}

/// Compiles `pattern` with `regex::Regex::new`. Compilation fails only on an
/// invalid pattern or one over the default size limit; the identifier
/// pattern is neither.
#[verifier::external_body]
pub(crate) fn compile_pattern(pattern: &str) -> (r: Result<CompiledPattern, regex::Error>)
    ensures
        r is Ok <==> regex_compiles(pattern@),
        r matches Ok(c) ==> c.pattern() == pattern@,
        pattern@ == IDENTIFIER_PATTERN@ ==> r is Ok,
{
    match regex::Regex::new(pattern) {
        Ok(regex) => Ok(CompiledPattern { regex, source: String::from(pattern) }),
        Err(e) => Err(e),
    }
}

/// `regex::Regex::is_match`: whether the regex matches somewhere in `haystack`.
/// For the anchored identifier pattern that is: `haystack` is non-empty and
/// all its characters are identifier characters.
#[verifier::external_body]
pub(crate) fn pattern_is_match(p: &CompiledPattern, haystack: &str) -> (b: bool)
    ensures
        b == regex_is_match(p.pattern(), haystack@),
        p.pattern() == IDENTIFIER_PATTERN@ ==> (b <==> is_identifier(haystack@)),
{
    p.regex.is_match(haystack)
}

} // verus!
