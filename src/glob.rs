//! Shell-style glob patterns (`*`, `?`, character classes, alternations)
//! compiled once and matched against secret paths.

use vstd::prelude::*;

use fnmatch_regex::glob_to_regex;
use fnmatch_regex::error::Error as GlobError;
use regex::Regex;

verus! {

#[verifier::external_type_specification]
#[verifier::external_body]
pub struct ExRegex(Regex);

#[verifier::external_type_specification]
#[verifier::external_body]
pub struct ExGlobError(GlobError);

/// Names whether `fnmatch_regex::glob_to_regex` accepts the pattern.
pub uninterp spec fn glob_compiles(pattern: Seq<char>) -> bool;

/// Names whether the expression that `fnmatch_regex::glob_to_regex` builds
/// from the pattern matches the text.
pub uninterp spec fn glob_matches(pattern: Seq<char>, text: Seq<char>) -> bool;

/// The characters that a glob treats specially.
pub open spec fn glob_special(c: char) -> bool {
    c == '\\' || c == '[' || c == '{' || c == '?' || c == '*'
}

/// A short pattern made of literal characters followed by one `*`.
pub open spec fn is_prefix_glob(pattern: Seq<char>) -> bool {
    &&& 1 <= pattern.len() <= 256
    &&& pattern.last() == '*'
    &&& forall|i: int| 0 <= i < pattern.len() - 1 ==> !glob_special(#[trigger] pattern[i])
}

/// What a prefix glob matches: the text starts with the literal part and
/// the rest holds no line break (`*` becomes `.*`, and `.` stops at `\n`).
pub open spec fn prefix_glob_matches(pattern: Seq<char>, text: Seq<char>) -> bool {
    let n = pattern.len() - 1;
    &&& n <= text.len()
    &&& text.subrange(0, n) == pattern.subrange(0, n)
    &&& forall|i: int| n <= i < text.len() ==> #[trigger] text[i] != '\n'
}

/// A compiled glob pattern.
pub struct GlobMatcher {
    pattern: String,
    regex: Regex,
}

impl GlobMatcher {
    /// The pattern this matcher was compiled from.
    pub closed spec fn pattern(&self) -> Seq<char> {
        self.pattern@
    }

    /// Compiles a glob pattern.
    ///
    /// Relies on `fnmatch_regex::glob_to_regex`, which builds `^...$` with
    /// `.*` for each `*` and every character other than `\`, `[`, `{` and `?`
    /// escaped as a literal; a short such pattern always compiles.
    #[verifier::external_body]
    pub(crate) fn compile(pattern: &str) -> (r: Result<GlobMatcher, GlobError>)
        ensures
            match r {
                Ok(m) => m.pattern() == pattern@ && glob_compiles(pattern@),
                Err(_) => !glob_compiles(pattern@),
            },
            is_prefix_glob(pattern@) ==> r is Ok,
            is_prefix_glob(pattern@) && r is Ok ==> forall|t: Seq<char>|
                #[trigger] glob_matches(pattern@, t) == prefix_glob_matches(pattern@, t),
    {
        match glob_to_regex(pattern) {
            Ok(regex) => Ok(GlobMatcher { pattern: pattern.to_string(), regex }),
            Err(error) => Err(error),
        }
    }

    /// Relies on `regex::Regex::is_match` of the compiled pattern.
    #[verifier::external_body]
    pub(crate) fn is_match(&self, text: &str) -> (r: bool)
        ensures
            r == glob_matches(self.pattern(), text@),
    {
        self.regex.is_match(text)
    }
}

} // verus!
