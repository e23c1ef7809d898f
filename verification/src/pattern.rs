use vstd::prelude::*;

verus! {

#[verifier::external_type_specification]
#[verifier::external_body]
pub struct ExRegex(regex::Regex);

/// The text (`Display`) of the error with which `regex::Regex::new` refuses the pattern;
/// `None` where it accepts it.
pub uninterp spec fn regex_refusal(pattern: Seq<char>) -> Option<Seq<char>>;

/// Whether the regular expression `pattern` matches somewhere in `text`
/// (`regex::Regex::is_match`).
pub uninterp spec fn regex_matches(pattern: Seq<char>, text: Seq<char>) -> bool;

/// A compiled regular expression beside the pattern it was compiled from.
#[derive(Debug)]
pub struct Pattern {
    regex: regex::Regex,
    source: String,
}

impl View for Pattern {
    type V = Seq<char>;

    closed spec fn view(&self) -> Seq<char> {
        self.source@
    }
}

/// Compiles a pattern with `regex::Regex::new`; a refusal, and its text (the error's
/// `Display`), is named by `regex_refusal`, and the pattern kept is `Regex::as_str` of the
/// result, which the crate documents as the original string.
#[verifier::external_body]
pub(crate) fn compile_pattern(pattern: &str) -> (r: Result<Pattern, String>)
    ensures
        r is Ok <==> regex_refusal(pattern@) is None,
        r matches Ok(p) ==> p@ == pattern@,
        r matches Err(t) ==> regex_refusal(pattern@) == Some(t@),
{
    match regex::Regex::new(pattern) {
        Ok(regex) => {
            let source = regex.as_str().to_string();
            Ok(Pattern { regex, source })
        },
        Err(e) => Err(e.to_string()),
    }
}

/// Whether the compiled pattern matches in `text`, by `regex::Regex::is_match`; a `Pattern` is
/// only made by `compile_pattern`, so its regex is the one compiled from its source.
#[verifier::external_body]
fn pattern_is_match(p: &Pattern, text: &str) -> (r: bool)
    ensures
        r == regex_matches(p@, text@),
{
    p.regex.is_match(text)
}

impl Pattern {
    /// The pattern as written.
    pub fn as_str(&self) -> (r: &str)
        ensures
            r@ == self@,
    {
        self.source.as_str()
    }

    /// Whether the pattern matches somewhere in `text`.
    pub fn is_match(&self, text: &str) -> (r: bool)
        ensures
            r == regex_matches(self@, text@),
    {
        pattern_is_match(self, text)
    }
}

} // verus!
