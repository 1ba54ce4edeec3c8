//! Identities of items across the databases.

use vstd::prelude::*;

verus! {

/// The kind of an identified item. Stored as a number: 1 for `Anime`, 2 for
/// `Character`.
#[derive(Clone, Copy, Debug, PartialEq, Eq, Structural)]
pub enum ItemType {
    Anime,
    Character,
}

impl ItemType {
    /// The number a kind is stored as.
    pub open spec fn spec_code(self) -> i32 {
        match self {
            ItemType::Anime => 1,
            ItemType::Character => 2,
        }
    }

    /// The number the kind is stored as.
    pub fn to_i32(&self) -> (r: i32)
        ensures
            r == self.spec_code(),
    {
        match self {
            ItemType::Anime => 1,
            ItemType::Character => 2,
        }
    }

    /// The kind stored as `code`, if any.
    pub open spec fn spec_from_code(code: i32) -> Option<ItemType> {
        if code == 1 {
            Some(ItemType::Anime)
        } else if code == 2 {
            Some(ItemType::Character)
        } else {
            None
        }
    }

    /// Reading back the number a kind is stored as gives the kind again, and
    /// a number read as a kind is that kind's number.
    pub proof fn lemma_code_round_trip(t: ItemType, code: i32)
        ensures
            Self::spec_from_code(t.spec_code()) == Some(t),
            Self::spec_from_code(code) matches Some(u) ==> u.spec_code() == code,
    {
    }

    /// The kind stored as `code`, if any.
    pub fn from_i32(code: i32) -> (r: Option<ItemType>)
        ensures
            r == Self::spec_from_code(code),
    {
        if code == 1 {
            Some(ItemType::Anime)
        } else if code == 2 {
            Some(ItemType::Character)
        } else {
            None
        }
    }
}

/// An item: its catalogue id and its kind.
#[derive(Clone, Copy, Debug, PartialEq, Eq, Structural)]
pub struct ItemId {
    pub id: i64,
    pub item_type: ItemType,
}

/// `bson::oid::ObjectId`, the database's own key of a stored document.
#[verifier::external_type_specification]
#[verifier::external_body]
pub struct ExObjectId(mongodb::bson::oid::ObjectId);

/// A stored item with its database key.
#[derive(Debug)]
pub struct Ids {
    pub _id: mongodb::bson::oid::ObjectId,
    pub item_id: ItemId,
}

} // verus!
