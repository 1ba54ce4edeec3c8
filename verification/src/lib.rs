//! Verified core of the kenja tools: documents of an anime catalogue, the rules
//! that filter and flatten them into search documents, and the paging of the
//! catalogue's web API.

pub mod anime_text;
pub mod api;
pub mod collect;
pub mod data;
pub mod documents;
pub mod flatten;
pub mod json;
pub mod lookup;
pub mod text;

use vstd::prelude::*;

verus! {

/// Whether a media type is kept: "TV", "Movie", "OVA" or "ONA", exactly (as
/// `data::is_expected_media_type`).
pub fn is_expected_media_type(media_type: &str) -> (r: bool)
    ensures
        r == data::spec_is_expected_media_type(media_type@),
{
    data::is_expected_media_type(media_type)
}

} // verus!
