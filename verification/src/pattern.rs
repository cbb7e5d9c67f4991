//! Regular expressions, compiled and run by the `regex` crate.
use vstd::prelude::*;

verus! {

#[verifier::external_type_specification]
#[verifier::external_body]
pub struct ExRegex(regex::Regex);

/// A compiled regular expression together with the text it was compiled
/// from. It can only be made by compiling that text.
pub struct Pattern {
    source: String,
    regex: regex::Regex,
}

impl View for Pattern {
    type V = Seq<char>;

    /// The source text of the expression.
    closed spec fn view(&self) -> Seq<char> {
        self.source@
    }
}

/// What `regex::Regex::new` reports for `pattern`: `None` when it compiles,
/// else the text of its error.
pub uninterp spec fn regex_compile_error(pattern: Seq<char>) -> Option<Seq<char>>;

/// Whether the expression `pattern` matches anywhere in `haystack`
/// (`regex::Regex::is_match`).
pub uninterp spec fn regex_is_match(pattern: Seq<char>, haystack: Seq<char>) -> bool;

/// The text that capture group `group` of the first match of `pattern` in
/// `haystack` matched, if there is a match and the group took part in it
/// (`regex::Regex::captures`, then `Captures::get`).
pub uninterp spec fn regex_capture(pattern: Seq<char>, haystack: Seq<char>, group: nat) -> Option<
    Seq<char>,
>;

/// Compiles `source` with `regex::Regex::new`. The contract claims that the
/// result keeps `source` as its text when compilation succeeds, and that
/// success and the error text are what the crate reports for `source`.
#[verifier::external_body]
pub(crate) fn compile_pattern(source: &str) -> (r: Result<Pattern, String>)
    ensures
        match r {
            Ok(p) => p@ == source@ && regex_compile_error(source@) is None,
            Err(e) => regex_compile_error(source@) == Some(e@),
        },
{
    match regex::Regex::new(source) {
        Ok(regex) => Ok(Pattern { source: source.to_string(), regex }),
        Err(e) => Err(e.to_string()),
    }
}

impl Pattern {
    /// Runs `regex::Regex::is_match`; the contract names its answer.
    #[verifier::external_body]
    pub(crate) fn is_match(&self, haystack: &str) -> (b: bool)
        ensures
            b == regex_is_match(self@, haystack@),
    {
        self.regex.is_match(haystack)
    }

    /// Runs `regex::Regex::captures` and takes group `group` of the match.
    /// The contract names the answer and adds what the crate documents of
    /// it: the text it returns is a substring of `haystack`.
    #[verifier::external_body]
    pub(crate) fn capture(&self, haystack: &str, group: usize) -> (r: Option<String>)
        ensures
            match r {
                Some(s) => {
                    &&& regex_capture(self@, haystack@, group as nat) == Some(s@)
                    &&& exists|i: int, j: int|
                        0 <= i <= j <= haystack@.len() && s@ == haystack@.subrange(i, j)
                },
                None => regex_capture(self@, haystack@, group as nat) is None,
            },
    {
        match self.regex.captures(haystack) {
            Some(caps) => match caps.get(group) {
                Some(m) => Some(m.as_str().to_string()),
                None => None,
            },
            None => None,
        }
    }
}

} // verus!
