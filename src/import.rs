use vstd::prelude::*;

verus! {

/// Whether `pattern` compiles with `regex::Regex::new` (`None` if it does
/// not) and, if it does, whether it matches somewhere in `text`.
pub uninterp spec fn regex_match_of(pattern: Seq<char>, text: Seq<char>) -> Option<bool>;

/// The pattern of an import that names a remote resource by URL.
pub open spec fn url_pattern() -> Seq<char> {
    "^(https?|ftp)://[^\\s/$.?#].[^\\s]*$"@
}

/// Relies on `regex::Regex::new` to compile `pattern` and `Regex::is_match`
/// to search `text` with it; the outcome depends on the two texts alone.
#[verifier::external_body]
fn regex_is_match(pattern: &str, text: &str) -> (r: Option<bool>)
    ensures
        r == regex_match_of(pattern@, text@),
{
    match regex::Regex::new(pattern) {
        Ok(re) => Some(re.is_match(text)),
        Err(_) => None,
    }
}

/// Relies on `std::path::Path::is_absolute`; its documentation makes the
/// answer depend on the platform, and an empty path is never absolute.
#[verifier::external_body]
fn path_is_absolute(path: &str) -> (r: bool)
    ensures
        path@.len() == 0 ==> !r,
{
    std::path::Path::new(path).is_absolute()
}

/// Relies on `std::path::Path::parent`: whether the path has a parent, which
/// the documentation denies to an empty path and to one that ends in a root
/// or prefix.
#[verifier::external_body]
fn path_has_parent(path: &str) -> (r: bool)
    ensures
        path@.len() == 0 ==> !r,
{
    std::path::Path::new(path).parent().is_some()
}

/// The verdict on an import from what was found out about it: it is valid
/// when it is not empty and either matches the URL pattern or reads as a
/// path that is absolute or has a parent.
pub fn classify_import(
    is_empty: bool,
    url_match: Option<bool>,
    is_absolute: bool,
    has_parent: bool,
) -> (r: bool)
    ensures
        r == (!is_empty && (url_match == Some(true) || is_absolute || has_parent)),
{
    if is_empty {
        return false;
    }
    if let Some(true) = url_match {
        return true;
    }
    is_absolute || has_parent
}

/// Validation of the imports of external style sheets.
pub trait NenyrImportValidator {
    /// Whether `import` is a usable import: not empty, and either a URL with
    /// an `http`, `https` or `ftp` scheme, or a path with a parent directory or
    /// an absolute one.
    fn is_valid_import(&self, import: &str) -> (r: bool)
        ensures
            import@.len() == 0 ==> !r,
            import@.len() > 0 && regex_match_of(url_pattern(), import@) == Some(true) ==> r,
    {
        let url_match = regex_is_match("^(https?|ftp)://[^\\s/$.?#].[^\\s]*$", import);
        let is_absolute = path_is_absolute(import);
        let has_parent = path_has_parent(import);
        classify_import(import.is_empty(), url_match, is_absolute, has_parent)
    }
}

} // verus!
