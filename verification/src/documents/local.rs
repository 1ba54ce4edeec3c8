//! Records of images kept on the local disk.

use crate::documents::id::ItemId;
use vstd::prelude::*;

verus! {

/// An image of an item and, once it has been stored, its path on disk.
#[derive(Clone, Debug)]
pub struct Img {
    pub item_id: ItemId,
    pub img: String,
    pub path: Option<String>,
}

} // verus!
