//! Links from the gallery's labels to the documentation on docs.rs.
use vstd::prelude::*;

verus! {

/// The docs.rs search for `search_term` in the documentation of the crate `crate_name`:
/// `https://docs.rs/{crate_name}?search={search_term}`.
pub open spec fn doc_link_spec(crate_name: Seq<char>, search_term: Seq<char>) -> Seq<char> {
    "https://docs.rs/"@ + crate_name + "?search="@ + search_term
}

/// The docs.rs search for `search_term` in the documentation of the crate `crate_name`.
pub fn doc_link_url_with_crate(crate_name: &str, search_term: &str) -> (r: String)
    ensures
        r@ == doc_link_spec(crate_name@, search_term@),
        r@ == "https://docs.rs/"@ + crate_name@ + "?search="@ + search_term@,
{
    let mut url = "https://docs.rs/".to_owned();
    url.append(crate_name);
    url.append("?search=");
    url.append(search_term);
    url
}

/// The docs.rs search for `search_term` in egui's documentation.
pub fn doc_link_url(search_term: &str) -> (r: String)
    ensures
        r@ == doc_link_spec("egui"@, search_term@),
        r@ == "https://docs.rs/"@ + "egui"@ + "?search="@ + search_term@,
{
    doc_link_url_with_crate("egui", search_term)
}

} // verus!
