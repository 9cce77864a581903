//! Inbound and outbound event messages, as plain values.

use vstd::prelude::*;

use crate::model::Timestamp;

verus! {

/// The routing key of a message: the logical subject that it concerns.
#[derive(Debug)]
pub struct EventKey {
    pub id: String,
    pub user_id: String,
    pub project_id: String,
}

/// Descriptive metadata of an edition.
#[derive(Debug)]
pub struct EditionInfo {
    pub description: String,
    pub image_uri: String,
    pub collection: String,
    pub uri: String,
    pub creator: String,
}

/// Payload of a drop creation, or of its retry.
#[derive(Debug)]
pub struct CreateEditionTransaction {
    pub edition_info: Option<EditionInfo>,
    pub fee_receiver: String,
    pub fee_numerator: u32,
    pub receiver: String,
    pub amount: u64,
}

/// Payload of a mint, or of its retry.
#[derive(Debug)]
pub struct MintEditionTransaction {
    pub receiver: String,
    pub amount: u64,
    pub collection_id: String,
}

/// Payload of a metadata update of a drop.
#[derive(Debug)]
pub struct UpdateEditionTransaction {
    pub edition_info: Option<EditionInfo>,
}

/// Payload of a request to move a minted asset to another holder.
#[derive(Debug)]
pub struct TransferPolygonAsset {
    pub collection_mint_id: String,
    pub owner_address: String,
    pub recipient_address: String,
    pub amount: u64,
}

/// The components of an ECDSA signature.
#[derive(Debug)]
pub struct EcdsaSignature {
    pub r: Vec<u8>,
    pub s: Vec<u8>,
    pub v: u64,
}

/// The custody service's signature over a transfer permit, with the permit's arguments.
#[derive(Debug)]
pub struct PolygonPermitHashSignature {
    pub signature: Option<EcdsaSignature>,
    pub owner: String,
    pub spender: String,
    pub recipient: String,
    pub edition_id: i32,
    pub amount: u64,
}

/// The variants of the drop-lifecycle stream.
#[derive(Debug)]
pub enum DropEvent {
    CreateDrop(CreateEditionTransaction),
    RetryDrop(CreateEditionTransaction),
    MintDrop(MintEditionTransaction),
    UpdateDrop(UpdateEditionTransaction),
    RetryMintDrop(MintEditionTransaction),
    TransferAsset(TransferPolygonAsset),
}

/// The variants of the custody stream that this service acts on; `Other` stands for the rest.
#[derive(Debug)]
pub enum TreasuryEvent {
    PolygonPermitTransferTokenHashSigned(PolygonPermitHashSignature),
    Other,
}

/// An unsigned contract call, ready for submission.
#[derive(Debug)]
pub struct PolygonTransaction {
    pub data: Vec<u8>,
    pub contract_address: String,
    pub edition_id: i32,
}

/// The digest that the custody service must sign, with the permit's arguments.
#[derive(Debug)]
pub struct PermitArgsHash {
    pub data: Vec<u8>,
    pub owner: String,
    pub spender: String,
    pub recipient: String,
    pub edition_id: i32,
    pub amount: u64,
}

/// The permit call and the transfer call, to be submitted in that order.
#[derive(Debug)]
pub struct PolygonTokenTransferTxns {
    pub permit_token_transfer_txn: Option<PolygonTransaction>,
    pub safe_transfer_from_txn: Option<PolygonTransaction>,
}

/// Mints that changed hands on chain.
#[derive(Debug)]
pub struct MintedTokensOwnershipUpdate {
    pub mint_ids: Vec<String>,
    pub new_owner: String,
    pub timestamp: Option<Timestamp>,
    pub transaction_hash: String,
}

/// The variants of the outbound stream.
#[derive(Debug)]
pub enum PolygonNftEvent {
    SubmitCreateDropTxn(PolygonTransaction),
    SubmitRetryCreateDropTxn(PolygonTransaction),
    SubmitMintDropTxn(PolygonTransaction),
    SubmitRetryMintDropTxn(PolygonTransaction),
    SubmitUpdateDropTxn(PolygonTransaction),
    SignPermitTokenTransferHash(PermitArgsHash),
    SubmitTransferAssetTxns(PolygonTokenTransferTxns),
    UpdateMintsOwner(MintedTokensOwnershipUpdate),
}

/// An outbound event with its routing key.
#[derive(Debug)]
pub struct OutboundMessage {
    pub key: EventKey,
    pub event: PolygonNftEvent,
}

impl EventKey {
    pub fn duplicate(&self) -> (r: EventKey)
        ensures
            r == *self,
    {
        EventKey {
            id: self.id.clone(),
            user_id: self.user_id.clone(),
            project_id: self.project_id.clone(),
        }
    }
}

impl EditionInfo {
    pub fn duplicate(&self) -> (r: EditionInfo)
        ensures
            r == *self,
    {
        EditionInfo {
            description: self.description.clone(),
            image_uri: self.image_uri.clone(),
            collection: self.collection.clone(),
            uri: self.uri.clone(),
            creator: self.creator.clone(),
        }
    }
}

} // verus!
