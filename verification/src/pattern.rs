use vstd::prelude::*;

verus! {

/// Declares `regex::Regex` to Verus; its contents stay hidden.
#[verifier::external_type_specification]
#[verifier::external_body]
pub struct ExRegex(regex::Regex);

/// What `regex::Regex::new` says of a pattern: no error, or the `Display` text of its error.
pub uninterp spec fn regex_compile_error(pattern: Seq<char>) -> Option<Seq<char>>;

/// `regex::Regex::new` accepts the pattern.
pub open spec fn regex_valid(pattern: Seq<char>) -> bool {
    regex_compile_error(pattern) is None
}

/// What `regex::Regex::is_match` says of a text, for the regex compiled from the pattern.
pub uninterp spec fn regex_is_match(pattern: Seq<char>, text: Seq<char>) -> bool;

/// What `regex::Regex::replace_all` gives for a text and a replacement (with `$` group
/// references expanded), for the regex compiled from the pattern.
pub uninterp spec fn regex_replace_all(pattern: Seq<char>, text: Seq<char>, replacement: Seq<char>) -> Seq<char>;

/// A compiled regular expression together with the pattern it was compiled from.
pub struct CompiledPattern {
    source: String,
    regex: regex::Regex,
}

impl CompiledPattern {
    /// The pattern the expression was compiled from.
    pub closed spec fn source(self) -> Seq<char> {
        self.source@
    }
}

/// Calls `regex::Regex::new`: claims that whether it fails, and the text of its error, are a
/// function of the pattern, and that a success is kept with the pattern it compiled.
#[verifier::external_body]
pub(crate) fn compile(pattern: &str) -> (r: Result<CompiledPattern, String>)
    ensures
        match r {
            Ok(c) => regex_compile_error(pattern@) is None && c.source() == pattern@,
            Err(e) => regex_compile_error(pattern@) == Some(e@),
        },
{
    match regex::Regex::new(pattern) {
        Ok(regex) => Ok(CompiledPattern { source: pattern.to_string(), regex }),
        Err(e) => Err(e.to_string()),
    }
}

/// Calls `regex::Regex::is_match`: claims the answer is a function of the pattern and the text.
#[verifier::external_body]
pub(crate) fn is_match(c: &CompiledPattern, text: &str) -> (r: bool)
    ensures
        r == regex_is_match(c.source(), text@),
{
    c.regex.is_match(text)
}

/// Calls `regex::Regex::replace_all`: claims the result is a function of the pattern, the text
/// and the replacement, and, as its documentation says, that a text without a match comes back
/// unchanged.
#[verifier::external_body]
pub(crate) fn replace_all(c: &CompiledPattern, text: &str, replacement: &str) -> (r: String)
    ensures
        r@ == regex_replace_all(c.source(), text@, replacement@),
        !regex_is_match(c.source(), text@) ==> r@ == text@,
{
    c.regex.replace_all(text, replacement).into_owned()
}

} // verus!
