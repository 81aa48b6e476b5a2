use vstd::prelude::*;

use crate::error::AuthError;
use crate::text::{local_part, local_part_of, texts};

verus! {

/// The cells of the staff table that hold a member of staff's mail address.
pub const STAFF_CELL_SELECTOR: &'static str = "div > table > tbody > tr > td.email > a";

/// What a CSS selector query gives on a page: the inner markup of each
/// matching element, in the order the HTML parser created the elements, or
/// `None` when the selector is invalid.
pub uninterp spec fn selected_inner_html(page: Seq<char>, selector: Seq<char>) -> Option<
    Seq<Seq<char>>,
>;

pub open spec fn option_texts(r: Option<Vec<String>>) -> Option<Seq<Seq<char>>> {
    match r {
        Some(v) => Some(texts(v@)),
        None => None,
    }
}

pub open spec fn result_texts(r: Result<Vec<String>, AuthError>) -> Result<Seq<Seq<char>>, AuthError> {
    match r {
        Ok(v) => Ok(texts(v@)),
        Err(e) => Err(e),
    }
}

/// Relies on scraper: `Html::parse_document` reads the page, `Selector::parse`
/// reads the selector (an error gives `None`), and `Html::select` followed by
/// `ElementRef::inner_html` gives the markup inside every matching element, in
/// the order the parser created the elements. With scraper's `deterministic`
/// feature, which Cargo.toml turns on, attributes are serialised in source
/// order rather than in the order of a randomly seeded hash map, so the result
/// is a function of the two texts.
#[verifier::external_body]
fn select_inner_html(page: &str, selector: &str) -> (r: Option<Vec<String>>)
    ensures
        option_texts(r) == selected_inner_html(page@, selector@),
{
    let selector = scraper::Selector::parse(selector).ok()?;
    let document = scraper::Html::parse_document(page);
    Some(document.select(&selector).map(|e| e.inner_html()).collect())
}

/// The staff identifiers that a directory page lists: the local part of the
/// address in each staff cell. A page without staff cells is malformed.
pub open spec fn staff_ids_of(page: Seq<char>) -> Result<Seq<Seq<char>>, AuthError> {
    match selected_inner_html(page, STAFF_CELL_SELECTOR@) {
        None => Err(AuthError::DirectoryParseError),
        Some(cells) => if cells.len() == 0 {
            Err(AuthError::DirectoryParseError)
        } else {
            Ok(cells.map_values(|c: Seq<char>| local_part_of(c)))
        },
    }
}

/// Extracts the staff identifiers from the text of the directory page.
pub fn staff_ids_from_page(page: &str) -> (r: Result<Vec<String>, AuthError>)
    ensures
        result_texts(r) == staff_ids_of(page@),
{
    let cells = match select_inner_html(page, STAFF_CELL_SELECTOR) {
        Some(cells) => cells,
        None => {
            return Err(AuthError::DirectoryParseError);
        },
    };
    if cells.len() == 0 {
        return Err(AuthError::DirectoryParseError);
    }
    let mut ids: Vec<String> = Vec::new();
    let mut i: usize = 0;
    while i < cells.len()
        invariant
            i <= cells@.len(),
            ids@.len() == i,
            forall|j: int| 0 <= j < i ==> ids@[j]@ == local_part_of(#[trigger] cells@[j]@),
        decreases cells@.len() - i,
    {
        let id = local_part(cells[i].as_str());
        ids.push(id);
        i = i + 1;
    }
    assert(texts(ids@) =~= texts(cells@).map_values(|c: Seq<char>| local_part_of(c)));
    Ok(ids)
}

/// The staff identifiers from a fetch of the directory page: `None` stands
/// for a fetch that failed.
pub fn resolve_staff_ids(page: Option<&str>) -> (r: Result<Vec<String>, AuthError>)
    ensures
        page.is_none() ==> r == Err::<Vec<String>, AuthError>(AuthError::DirectoryUnavailable),
        page.is_some() ==> result_texts(r) == staff_ids_of(page.unwrap()@),
{
    match page {
        None => Err(AuthError::DirectoryUnavailable),
        Some(p) => staff_ids_from_page(p),
    }
}

} // verus!
