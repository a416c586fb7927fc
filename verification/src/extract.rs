use vstd::prelude::*;
use vstd::string::*;

verus! {

/// Name of the capture group that holds the token where `name` stands before `value`.
pub const NAME_FIRST_GROUP: &'static str = "token1";

/// Name of the capture group that holds the token where `value` stands before `name`.
pub const VALUE_FIRST_GROUP: &'static str = "token2";

/// How a document answers a search for a form field.
#[derive(Debug)]
pub enum Extraction {
    /// The value of the field.
    Found(String),
    /// A tag for the field was found, but neither ordering gave a value.
    NoValue,
    /// The document holds no tag for the field.
    NotFound,
    /// The field's name does not make a valid search pattern.
    BadField,
}

/// An [`Extraction`] as specifications see it.
pub enum ExtractionView {
    Found(Seq<char>),
    NoValue,
    NotFound,
    BadField,
}

impl View for Extraction {
    type V = ExtractionView;

    open spec fn view(&self) -> ExtractionView {
        match self {
            Extraction::Found(token) => ExtractionView::Found(token@),
            Extraction::NoValue => ExtractionView::NoValue,
            Extraction::NotFound => ExtractionView::NotFound,
            Extraction::BadField => ExtractionView::BadField,
        }
    }
}

/// What the `regex` crate finds when it searches `haystack` for the first
/// match of `pattern`, told by the two capture groups named `first` and
/// `second`.
///
/// `None` where the crate refuses the pattern, `Some(None)` where nothing
/// matches; else for each of the two groups the text it matched, if it took
/// part in the match.
pub uninterp spec fn pattern_captures(
    pattern: Seq<char>,
    haystack: Seq<char>,
    first: Seq<char>,
    second: Seq<char>,
) -> Option<Option<(Option<Seq<char>>, Option<Seq<char>>)>>;

/// Compiles `pattern` with `regex::Regex::new`, searches `haystack` with
/// `Regex::captures` and reads the two named groups with `Captures::name`.
/// Nothing is claimed of the outcome but that it is the same for the same
/// four texts.
#[verifier::external_body]
fn search(pattern: &str, haystack: &str, first: &str, second: &str) -> (found: Option<
    Option<(Option<String>, Option<String>)>,
>)
    ensures
        found.deep_view() == pattern_captures(pattern@, haystack@, first@, second@),
{
    match regex::Regex::new(pattern) {
        Err(_) => None,
        Ok(compiled) => Some(
            compiled.captures(haystack).map(
                |groups|
                    (
                        groups.name(first).map(|token| token.as_str().to_owned()),
                        groups.name(second).map(|token| token.as_str().to_owned()),
                    ),
            ),
        ),
    }
}

/// The pattern up to the first place of the field's name: the opening of the
/// tag and the `name` attribute of the name-first branch.
pub const PATTERN_OPENING: &'static str = r#"<input[^>]+?(name=("|')"#;

/// The pattern between the two places of the field's name: the `value`
/// attribute of the name-first branch as `token1`, then the value-first
/// branch with its `value` attribute as `token2`.
pub const PATTERN_MIDDLE: &'static str =
    r#"("|')[^>]+?value=("|')(?<token1>[^"']+)("|'))|(value=("|')(?<token2>[^"']+)("|')[^>]+?name=("|')"#;

/// The pattern after the second place of the field's name: the rest of the
/// tag.
pub const PATTERN_CLOSING: &'static str = r#"("|'))[^>]*?>"#;

/// The pattern that finds the `input` tag of the field named `field`.
///
/// It has two branches, one for each order of the attributes. The first
/// starts at `<input`, takes `name` and then `value`, and captures the value
/// as `token1`; the second takes `value` and then `name`, up to the end of
/// the tag, and captures the value as `token2`. Either attribute may be
/// quoted with `"` or with `'`.
pub open spec fn field_pattern(field: Seq<char>) -> Seq<char> {
    PATTERN_OPENING@ + field + PATTERN_MIDDLE@ + field + PATTERN_CLOSING@
}

/// Writes out the pattern that finds the `input` tag of the field named `field`.
pub fn pattern_for(field: &str) -> (pattern: String)
    ensures
        pattern@ == field_pattern(field@),
{
    let mut pattern = String::from_str(PATTERN_OPENING);
    pattern.append(field);
    pattern.append(PATTERN_MIDDLE);
    pattern.append(field);
    pattern.append(PATTERN_CLOSING);
    pattern
}

/// What a search says of a field: the group of the first branch where it
/// took part in the match, else that of the second.
pub open spec fn selected(
    found: Option<Option<(Option<Seq<char>>, Option<Seq<char>>)>>,
) -> ExtractionView {
    match found {
        None => ExtractionView::BadField,
        Some(None) => ExtractionView::NotFound,
        Some(Some((Some(token), _))) => ExtractionView::Found(token),
        Some(Some((None, Some(token)))) => ExtractionView::Found(token),
        Some(Some((None, None))) => ExtractionView::NoValue,
    }
}

/// Reads the outcome of a search: the token of whichever ordering matched,
/// the name-first group before the value-first one.
pub fn select(found: Option<Option<(Option<String>, Option<String>)>>) -> (extraction: Extraction)
    ensures
        extraction@ == selected(found.deep_view()),
{
    match found {
        None => Extraction::BadField,
        Some(None) => Extraction::NotFound,
        Some(Some((Some(token), _))) => Extraction::Found(token),
        Some(Some((None, Some(token)))) => Extraction::Found(token),
        Some(Some((None, None))) => Extraction::NoValue,
    }
}

/// What `html` holds for the form field named `field`.
pub open spec fn extracted(html: Seq<char>, field: Seq<char>) -> ExtractionView {
    selected(pattern_captures(field_pattern(field), html, NAME_FIRST_GROUP@, VALUE_FIRST_GROUP@))
}

/// Finds in `html` the first `input` tag of the field named `field` and
/// returns the value of its `value` attribute, whichever of `name` and
/// `value` the tag gives first.
pub fn extract(html: &str, field: &str) -> (extraction: Extraction)
    ensures
        extraction@ == extracted(html@, field@),
{
    let pattern = pattern_for(field);
    select(search(pattern.as_str(), html, NAME_FIRST_GROUP, VALUE_FIRST_GROUP))
}

} // verus!
