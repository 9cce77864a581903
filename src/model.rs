//! The records that the state store keeps.

use vstd::prelude::*;

verus! {

/// A point in time, as seconds and nanoseconds since the Unix epoch.
#[derive(Debug, Clone, Copy, PartialEq, Eq, Structural)]
pub struct Timestamp {
    pub seconds: i64,
    pub nanos: i32,
}

/// One deployed edition, as the state store keeps it.
#[derive(Debug)]
pub struct CollectionModel {
    pub id: u128,
    pub edition_id: i32,
    pub fee_receiver: String,
    pub owner: String,
    pub creator: String,
    pub uri: String,
    pub name: String,
    pub description: String,
    pub image_uri: String,
    pub created_at: Timestamp,
}

/// One minted quantity of an edition, as the state store keeps it.
#[derive(Debug)]
pub struct MintModel {
    pub id: u128,
    pub collection_id: u128,
    pub owner: String,
    pub amount: i32,
    pub created_at: Timestamp,
}

/// The metadata fields of a collection, the only ones that an update may change.
#[derive(Debug)]
pub struct CollectionMetadata {
    pub description: String,
    pub name: String,
    pub image_uri: String,
    pub uri: String,
    pub creator: String,
}

impl CollectionModel {
    pub fn duplicate(&self) -> (r: CollectionModel)
        ensures
            r == *self,
    {
        CollectionModel {
            id: self.id,
            edition_id: self.edition_id,
            fee_receiver: self.fee_receiver.clone(),
            owner: self.owner.clone(),
            creator: self.creator.clone(),
            uri: self.uri.clone(),
            name: self.name.clone(),
            description: self.description.clone(),
            image_uri: self.image_uri.clone(),
            created_at: self.created_at,
        }
    }
}

impl MintModel {
    pub fn duplicate(&self) -> (r: MintModel)
        ensures
            r == *self,
    {
        MintModel {
            id: self.id,
            collection_id: self.collection_id,
            owner: self.owner.clone(),
            amount: self.amount,
            created_at: self.created_at,
        }
    }
}

} // verus!
