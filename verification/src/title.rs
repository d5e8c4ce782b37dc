use vstd::prelude::*;

verus! {

#[verifier::external_type_specification]
#[verifier::external_body]
pub struct ExRegexError(regex::Error);

/// Whether `regex::Regex::new` accepts `pattern`.
pub uninterp spec fn regex_compiles(pattern: Seq<char>) -> bool;

/// The text of capture group `group` in the leftmost-first match of the compiled `pattern`
/// in `haystack` (`Regex::captures`, then `Captures::get`), or `None` when there is no
/// match or the group took no part in it.
pub uninterp spec fn regex_capture_group(
    pattern: Seq<char>,
    haystack: Seq<char>,
    group: nat,
) -> Option<Seq<char>>;

/// The views of an optional string.
pub open spec fn option_text(o: Option<String>) -> Option<Seq<char>> {
    match o {
        Some(s) => Some(s@),
        None => None,
    }
}

/// `regex::Regex::new(pattern)` and, when it compiles, `Regex::captures(haystack)` and
/// `Captures::get(group)`, the match turned into an owned string. The contract only names
/// both results: `Err` exactly when the pattern does not compile, else the captured text.
#[verifier::external_body]
fn regex_capture(pattern: &str, haystack: &str, group: usize) -> (r: Result<
    Option<String>,
    regex::Error,
>)
    ensures
        match r {
            Ok(found) => regex_compiles(pattern@) && option_text(found) == regex_capture_group(
                pattern@,
                haystack@,
                group as nat,
            ),
            Err(_) => !regex_compiles(pattern@),
        },
{
    let re = match regex::Regex::new(pattern) {
        Ok(re) => re,
        Err(e) => return Err(e),
    };
    let found = match re.captures(haystack) {
        Some(caps) => caps.get(group),
        None => None,
    };
    Ok(
        match found {
            Some(m) => Some(m.as_str().to_string()),
            None => None,
        },
    )
}

/// The pattern of an HTML title element: case-insensitive tags, the shortest text between
/// them.
pub open spec fn title_pattern() -> Seq<char> {
    "(?i)<title>(.*?)</title>"@
}

/// The text inside the first `<title>...</title>` element of `html` (tags in any case, the
/// text on one line), or `None` when there is none.
pub fn extract_title(html: &str) -> (r: Option<String>)
    ensures
        regex_compiles(title_pattern()) ==> option_text(r) == regex_capture_group(
            title_pattern(),
            html@,
            1,
        ),
        !regex_compiles(title_pattern()) ==> r is None,
{
    match regex_capture("(?i)<title>(.*?)</title>", html, 1) {
        Ok(found) => found,
        Err(_) => None,
    }
}

/// The title is looked for with the pattern `(?i)<title>(.*?)</title>`: tags in any case
/// and the shortest text between them, of any characters but a newline.
pub proof fn law_title_pattern()
    ensures
        title_pattern() == "(?i)<title>(.*?)</title>"@,
{
}

} // verus!
