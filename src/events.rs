//! The saga processor: what each inbound drop or treasury event does to the store, and
//! which contract call the chain client must build for it.

use vstd::prelude::*;

use crate::ids::{parse_uuid, uuid_of};
use crate::model::{CollectionMetadata, CollectionModel, MintModel, Timestamp};
use crate::proto::{
    CreateEditionTransaction, DropEvent, EditionInfo, EventKey, MintEditionTransaction,
    OutboundMessage, PermitArgsHash, PolygonNftEvent, PolygonPermitHashSignature,
    PolygonTokenTransferTxns, PolygonTransaction, TransferPolygonAsset, TreasuryEvent,
    UpdateEditionTransaction,
};
use crate::services::Services;
use crate::store::{
    apply_metadata, lemma_lookup_collection_at, lemma_max_edition_id_bounds, lookup_collection,
    lookup_mint, max_edition_id, store_wf, Collection, DbErr, Mint, Store, StoreView,
};

verus! {

/// Why an inbound event could not be handled.
#[derive(Debug, Clone, Copy, PartialEq, Eq, Structural)]
pub enum ProcessError {
    /// The payload carries no edition metadata.
    MissingEditionInfo,
    /// An identifier is not a UUID.
    InvalidId,
    /// No collection has the identifier that the event names.
    CollectionNotFound,
    /// No mint has the identifier that the event names.
    MintNotFound,
    /// The amount does not fit the mint record.
    AmountOutOfRange,
    /// The next edition id would not fit an `i32`.
    EditionIdOverflow,
    /// The signed permit carries no signature.
    MissingSignature,
    /// The signature's recovery id does not fit a byte.
    InvalidRecoveryId,
    /// The signature's `r` component is not 32 bytes long.
    InvalidSignatureR,
    /// The signature's `s` component is not 32 bytes long.
    InvalidSignatureS,
    /// The state store refused a write.
    Store(DbErr),
    /// The chain client built a call without payload data.
    NoTransactionData,
    /// The chain client built the permit call without payload data.
    NoPermitData,
    /// The chain client built the transfer call without payload data.
    NoTransferData,
}

/// The deadline of a transfer permit. Both phases of the permit handshake use the same one.
#[derive(Debug, Clone, Copy, PartialEq, Eq, Structural)]
pub enum Deadline {
    /// No deadline: the largest 256-bit value.
    Unlimited,
}

/// A contract call that the chain client is asked to build.
#[derive(Debug)]
pub enum ChainCall {
    CreateEdition {
        edition_id: i32,
        info: EditionInfo,
        receiver: String,
        amount: u64,
        fee_receiver: String,
        fee_numerator: u32,
    },
    SafeTransferFrom { from: String, to: String, edition_id: i32, amount: u64 },
    EditEdition { edition_id: i32, info: EditionInfo },
    Permit {
        owner: String,
        spender: String,
        edition_id: i32,
        amount: u64,
        deadline: Deadline,
        v: u8,
        r: Vec<u8>,
        s: Vec<u8>,
    },
}

/// Which outbound event a built call is submitted as.
#[derive(Debug, Clone, Copy, PartialEq, Eq, Structural)]
pub enum TxnKind {
    CreateDrop,
    RetryCreateDrop,
    MintDrop,
    RetryMintDrop,
    UpdateDrop,
}

/// A call to build, and how to announce it once built.
#[derive(Debug)]
pub struct PendingTxn {
    pub key: EventKey,
    pub kind: TxnKind,
    pub edition_id: i32,
    pub call: ChainCall,
}

/// A permit digest to compute, and the request it answers.
#[derive(Debug)]
pub struct PendingHash {
    pub key: EventKey,
    pub owner: String,
    pub spender: String,
    pub recipient: String,
    pub edition_id: i32,
    pub amount: u64,
    pub deadline: Deadline,
}

/// The permit call and the transfer call to build for a signed permit.
#[derive(Debug)]
pub struct PendingTransfer {
    pub key: EventKey,
    pub edition_id: i32,
    pub permit: ChainCall,
    pub transfer: ChainCall,
}

/// What the chain client must do next for an inbound event.
#[derive(Debug)]
pub enum Action {
    /// The event needs nothing.
    Nothing,
    /// Build one call, then hand its data to `Processor::complete_txn`.
    BuildTxn(PendingTxn),
    /// Compute a permit digest, then hand it to `Processor::complete_hash`.
    HashPermit(PendingHash),
    /// Build both calls, then hand their data to `Processor::complete_transfer`.
    BuildTransfer(PendingTransfer),
}

pub open spec fn metadata_of(info: EditionInfo) -> CollectionMetadata {
    CollectionMetadata {
        description: info.description,
        name: info.collection,
        image_uri: info.image_uri,
        uri: info.uri,
        creator: info.creator,
    }
}

/// The edition metadata that a stored collection was deployed with.
pub open spec fn info_of(c: CollectionModel) -> EditionInfo {
    EditionInfo {
        description: c.description,
        image_uri: c.image_uri,
        collection: c.name,
        uri: c.uri,
        creator: c.creator,
    }
}

/// The edition id that the next created drop gets: one above the largest, or 1.
pub open spec fn next_edition_id(cs: Seq<CollectionModel>) -> Option<i32> {
    match max_edition_id(cs) {
        None => Some(1),
        Some(m) => if m < i32::MAX {
            Some((m + 1) as i32)
        } else {
            None
        },
    }
}

/// Creating a drop: a new collection with the next edition id, owned by the deployer, and the
/// creation call for the payload's receiver, amount, fee receiver and fee rate.
pub open spec fn create_drop_outcome(
    v: StoreView,
    key: EventKey,
    p: CreateEditionTransaction,
    deployer: String,
    now: Timestamp,
) -> (StoreView, Result<PendingTxn, ProcessError>) {
    match p.edition_info {
        None => (v, Err(ProcessError::MissingEditionInfo)),
        Some(info) => match next_edition_id(v.collections) {
            None => (v, Err(ProcessError::EditionIdOverflow)),
            Some(e) => match uuid_of(key.id@) {
                None => (v, Err(ProcessError::InvalidId)),
                Some(id) => if lookup_collection(v.collections, id) is Some {
                    (v, Err(ProcessError::Store(DbErr::DuplicateKey)))
                } else {
                    let model = CollectionModel {
                        id,
                        edition_id: e,
                        fee_receiver: p.fee_receiver,
                        owner: deployer,
                        creator: info.creator,
                        uri: info.uri,
                        name: info.collection,
                        description: info.description,
                        image_uri: info.image_uri,
                        created_at: now,
                    };
                    (
                        StoreView { collections: v.collections.push(model), mints: v.mints },
                        Ok(
                            PendingTxn {
                                key,
                                kind: TxnKind::CreateDrop,
                                edition_id: e,
                                call: ChainCall::CreateEdition {
                                    edition_id: e,
                                    info,
                                    receiver: p.receiver,
                                    amount: p.amount,
                                    fee_receiver: p.fee_receiver,
                                    fee_numerator: p.fee_numerator,
                                },
                            },
                        ),
                    )
                },
            },
        },
    }
}

/// Retrying a drop: the same call again, from the stored collection and its edition id.
pub open spec fn retry_drop_outcome(v: StoreView, key: EventKey, p: CreateEditionTransaction) -> Result<
    PendingTxn,
    ProcessError,
> {
    match uuid_of(key.id@) {
        None => Err(ProcessError::InvalidId),
        Some(id) => match lookup_collection(v.collections, id) {
            None => Err(ProcessError::CollectionNotFound),
            Some(c) => Ok(
                PendingTxn {
                    key,
                    kind: TxnKind::RetryCreateDrop,
                    edition_id: c.edition_id,
                    call: ChainCall::CreateEdition {
                        edition_id: c.edition_id,
                        info: info_of(c),
                        receiver: p.receiver,
                        amount: p.amount,
                        fee_receiver: p.fee_receiver,
                        fee_numerator: p.fee_numerator,
                    },
                },
            ),
        },
    }
}

/// Minting: a new mint record owned by the receiver, then a transfer from the collection's owner.
pub open spec fn mint_drop_outcome(
    v: StoreView,
    key: EventKey,
    p: MintEditionTransaction,
    now: Timestamp,
) -> (StoreView, Result<PendingTxn, ProcessError>) {
    match uuid_of(p.collection_id@) {
        None => (v, Err(ProcessError::InvalidId)),
        Some(cid) => match lookup_collection(v.collections, cid) {
            None => (v, Err(ProcessError::CollectionNotFound)),
            Some(c) => match uuid_of(key.id@) {
                None => (v, Err(ProcessError::InvalidId)),
                Some(id) => if p.amount > i32::MAX {
                    (v, Err(ProcessError::AmountOutOfRange))
                } else if lookup_mint(v.mints, id) is Some {
                    (v, Err(ProcessError::Store(DbErr::DuplicateKey)))
                } else {
                    let model = MintModel {
                        id,
                        collection_id: c.id,
                        owner: p.receiver,
                        amount: p.amount as i32,
                        created_at: now,
                    };
                    (
                        StoreView { collections: v.collections, mints: v.mints.push(model) },
                        Ok(
                            PendingTxn {
                                key,
                                kind: TxnKind::MintDrop,
                                edition_id: c.edition_id,
                                call: ChainCall::SafeTransferFrom {
                                    from: c.owner,
                                    to: p.receiver,
                                    edition_id: c.edition_id,
                                    amount: p.amount,
                                },
                            },
                        ),
                    )
                },
            },
        },
    }
}

/// Retrying a mint: the mint must exist; the same transfer is rebuilt, from the collection's owner.
pub open spec fn retry_mint_outcome(v: StoreView, key: EventKey, p: MintEditionTransaction) -> Result<
    PendingTxn,
    ProcessError,
> {
    match uuid_of(p.collection_id@) {
        None => Err(ProcessError::InvalidId),
        Some(cid) => match lookup_collection(v.collections, cid) {
            None => Err(ProcessError::CollectionNotFound),
            Some(c) => match uuid_of(key.id@) {
                None => Err(ProcessError::InvalidId),
                Some(id) => if lookup_mint(v.mints, id) is None {
                    Err(ProcessError::MintNotFound)
                } else {
                    Ok(
                        PendingTxn {
                            key,
                            kind: TxnKind::RetryMintDrop,
                            edition_id: c.edition_id,
                            call: ChainCall::SafeTransferFrom {
                                from: c.owner,
                                to: p.receiver,
                                edition_id: c.edition_id,
                                amount: p.amount,
                            },
                        },
                    )
                },
            },
        },
    }
}

/// Updating a drop: the metadata fields of the collection are replaced, then the edition is edited.
pub open spec fn update_drop_outcome(v: StoreView, key: EventKey, p: UpdateEditionTransaction) -> (
    StoreView,
    Result<PendingTxn, ProcessError>,
) {
    match p.edition_info {
        None => (v, Err(ProcessError::MissingEditionInfo)),
        Some(info) => match uuid_of(key.id@) {
            None => (v, Err(ProcessError::InvalidId)),
            Some(id) => match lookup_collection(v.collections, id) {
                None => (v, Err(ProcessError::CollectionNotFound)),
                Some(c) => (
                    StoreView {
                        collections: v.collections.map_values(
                            |x: CollectionModel|
                                if x.id == id {
                                    apply_metadata(x, metadata_of(info))
                                } else {
                                    x
                                },
                        ),
                        mints: v.mints,
                    },
                    Ok(
                        PendingTxn {
                            key,
                            kind: TxnKind::UpdateDrop,
                            edition_id: c.edition_id,
                            call: ChainCall::EditEdition { edition_id: c.edition_id, info },
                        },
                    ),
                ),
            },
        },
    }
}

/// Requesting a transfer: the permit digest over the owner, the collection's owner as spender,
/// the edition id and the amount.
pub open spec fn transfer_asset_outcome(v: StoreView, key: EventKey, p: TransferPolygonAsset) -> Result<
    PendingHash,
    ProcessError,
> {
    match uuid_of(p.collection_mint_id@) {
        None => Err(ProcessError::InvalidId),
        Some(mid) => match lookup_mint(v.mints, mid) {
            None => Err(ProcessError::MintNotFound),
            Some(m) => match lookup_collection(v.collections, m.collection_id) {
                None => Err(ProcessError::CollectionNotFound),
                Some(c) => Ok(
                    PendingHash {
                        key,
                        owner: p.owner_address,
                        spender: c.owner,
                        recipient: p.recipient_address,
                        edition_id: c.edition_id,
                        amount: p.amount,
                        deadline: Deadline::Unlimited,
                    },
                ),
            },
        },
    }
}

/// A signed permit: the permit call with the signature, and the transfer from the spender.
pub open spec fn permit_signed_outcome(key: EventKey, p: PolygonPermitHashSignature) -> Result<
    PendingTransfer,
    ProcessError,
> {
    match p.signature {
        None => Err(ProcessError::MissingSignature),
        Some(sig) => if sig.v > 255 {
            Err(ProcessError::InvalidRecoveryId)
        } else if sig.r@.len() != 32 {
            Err(ProcessError::InvalidSignatureR)
        } else if sig.s@.len() != 32 {
            Err(ProcessError::InvalidSignatureS)
        } else {
            Ok(
                PendingTransfer {
                    key,
                    edition_id: p.edition_id,
                    permit: ChainCall::Permit {
                        owner: p.owner,
                        spender: p.spender,
                        edition_id: p.edition_id,
                        amount: p.amount,
                        deadline: Deadline::Unlimited,
                        v: sig.v as u8,
                        r: sig.r,
                        s: sig.s,
                    },
                    transfer: ChainCall::SafeTransferFrom {
                        from: p.spender,
                        to: p.recipient,
                        edition_id: p.edition_id,
                        amount: p.amount,
                    },
                },
            )
        },
    }
}

pub open spec fn as_build(r: Result<PendingTxn, ProcessError>) -> Result<Action, ProcessError> {
    match r {
        Ok(t) => Ok(Action::BuildTxn(t)),
        Err(e) => Err(e),
    }
}

pub open spec fn as_hash(r: Result<PendingHash, ProcessError>) -> Result<Action, ProcessError> {
    match r {
        Ok(h) => Ok(Action::HashPermit(h)),
        Err(e) => Err(e),
    }
}

pub open spec fn as_transfer(r: Result<PendingTransfer, ProcessError>) -> Result<
    Action,
    ProcessError,
> {
    match r {
        Ok(t) => Ok(Action::BuildTransfer(t)),
        Err(e) => Err(e),
    }
}

/// The events whose handling reads the contract's current owner.
pub open spec fn needs_deployer(msg: Services) -> bool {
    msg matches Services::Nfts(_, Some(e)) && e is CreateDrop
}

/// What handling an inbound message does to the store, and what it asks of the chain client.
pub open spec fn process_outcome(
    v: StoreView,
    msg: Services,
    deployer: Option<String>,
    now: Timestamp,
) -> (StoreView, Result<Action, ProcessError>) {
    match msg {
        Services::Nfts(key, e) => match e {
            None => (v, Ok(Action::Nothing)),
            Some(DropEvent::CreateDrop(p)) => {
                let (w, r) = create_drop_outcome(v, key, p, deployer.unwrap(), now);
                (w, as_build(r))
            },
            Some(DropEvent::RetryDrop(p)) => (v, as_build(retry_drop_outcome(v, key, p))),
            Some(DropEvent::MintDrop(p)) => {
                let (w, r) = mint_drop_outcome(v, key, p, now);
                (w, as_build(r))
            },
            Some(DropEvent::UpdateDrop(p)) => {
                let (w, r) = update_drop_outcome(v, key, p);
                (w, as_build(r))
            },
            Some(DropEvent::RetryMintDrop(p)) => (
                v,
                as_build(retry_mint_outcome(v, key, p)),
            ),
            Some(DropEvent::TransferAsset(p)) => (v, as_hash(transfer_asset_outcome(v, key, p))),
        },
        Services::Treasuries(key, e) => match e {
            Some(TreasuryEvent::PolygonPermitTransferTokenHashSigned(p)) => (
                v,
                as_transfer(permit_signed_outcome(key, p)),
            ),
            _ => (v, Ok(Action::Nothing)),
        },
    }
}

/// The outbound event that announces a built call of the given kind.
pub open spec fn txn_event(kind: TxnKind, t: PolygonTransaction) -> PolygonNftEvent {
    match kind {
        TxnKind::CreateDrop => PolygonNftEvent::SubmitCreateDropTxn(t),
        TxnKind::RetryCreateDrop => PolygonNftEvent::SubmitRetryCreateDropTxn(t),
        TxnKind::MintDrop => PolygonNftEvent::SubmitMintDropTxn(t),
        TxnKind::RetryMintDrop => PolygonNftEvent::SubmitRetryMintDropTxn(t),
        TxnKind::UpdateDrop => PolygonNftEvent::SubmitUpdateDropTxn(t),
    }
}

/// Decides, for each inbound event, what changes in the store and what the chain client must do.
#[derive(Debug)]
pub struct Processor {
    /// The address of the edition contract, as announced with every built call.
    pub contract_address: String,
}

impl Processor {
    pub fn new(contract_address: String) -> (r: Processor)
        ensures
            r.contract_address == contract_address,
    {
        Processor { contract_address }
    }

    /// Whether handling `msg` reads the contract's current owner, which the caller then supplies.
    pub fn needs_deployer(msg: &Services) -> (r: bool)
        ensures
            r == needs_deployer(*msg),
    {
        match msg {
            Services::Nfts(_, Some(DropEvent::CreateDrop(_))) => true,
            _ => false,
        }
    }

    /// Handles one inbound message; `deployer` is the contract's current owner, `now` the time.
    pub fn process(
        &self,
        db: &mut Store,
        msg: Services,
        deployer: Option<String>,
        now: Timestamp,
    ) -> (r: Result<Action, ProcessError>)
        requires
            old(db).wf(),
            needs_deployer(msg) ==> deployer is Some,
        ensures
            final(db).wf(),
            (final(db)@, r) == process_outcome(old(db)@, msg, deployer, now),
    {
        match msg {
            Services::Nfts(key, e) => match e {
                None => Ok(Action::Nothing),
                Some(DropEvent::CreateDrop(p)) => {
                    let d = deployer.unwrap();
                    match self.create_polygon_edition(db, key, p, d, now) {
                        Ok(t) => Ok(Action::BuildTxn(t)),
                        Err(err) => Err(err),
                    }
                },
                Some(DropEvent::RetryDrop(p)) => match self.retry_drop(db, key, p) {
                    Ok(t) => Ok(Action::BuildTxn(t)),
                    Err(err) => Err(err),
                },
                Some(DropEvent::MintDrop(p)) => match self.mint_drop(db, key, p, now) {
                    Ok(t) => Ok(Action::BuildTxn(t)),
                    Err(err) => Err(err),
                },
                Some(DropEvent::UpdateDrop(p)) => match self.update_drop(db, key, p) {
                    Ok(t) => Ok(Action::BuildTxn(t)),
                    Err(err) => Err(err),
                },
                Some(DropEvent::RetryMintDrop(p)) => match self.retry_mint(db, key, p) {
                    Ok(t) => Ok(Action::BuildTxn(t)),
                    Err(err) => Err(err),
                },
                Some(DropEvent::TransferAsset(p)) => match self.sign_permit_token_transfer_hash(
                    db,
                    key,
                    p,
                ) {
                    Ok(h) => Ok(Action::HashPermit(h)),
                    Err(err) => Err(err),
                },
            },
            Services::Treasuries(key, e) => match e {
                Some(TreasuryEvent::PolygonPermitTransferTokenHashSigned(p)) => {
                    match self.send_transfer_asset_txns(key, p) {
                        Ok(t) => Ok(Action::BuildTransfer(t)),
                        Err(err) => Err(err),
                    }
                },
                _ => Ok(Action::Nothing),
            },
        }
    }

    /// Allocates the next edition id, stores the new collection, and asks for the creation call.
    pub fn create_polygon_edition(
        &self,
        db: &mut Store,
        key: EventKey,
        payload: CreateEditionTransaction,
        deployer: String,
        now: Timestamp,
    ) -> (r: Result<PendingTxn, ProcessError>)
        requires
            old(db).wf(),
        ensures
            final(db).wf(),
            (final(db)@, r) == create_drop_outcome(old(db)@, key, payload, deployer, now),
    {
        let info = match payload.edition_info {
            None => return Err(ProcessError::MissingEditionInfo),
            Some(i) => i,
        };
        let edition_id: i32 = match Collection::find_max_edition_id(db) {
            None => 1,
            Some(m) => if m < i32::MAX {
                m + 1
            } else {
                return Err(ProcessError::EditionIdOverflow);
            },
        };
        let id = match parse_uuid(&key.id) {
            None => return Err(ProcessError::InvalidId),
            Some(u) => u,
        };
        proof {
            lemma_max_edition_id_bounds(db@.collections);
        }
        let model = CollectionModel {
            id,
            edition_id,
            fee_receiver: payload.fee_receiver.clone(),
            owner: deployer.clone(),
            creator: info.creator.clone(),
            uri: info.uri.clone(),
            name: info.collection.clone(),
            description: info.description.clone(),
            image_uri: info.image_uri.clone(),
            created_at: now,
        };
        match Collection::create(db, model) {
            Err(e) => return Err(ProcessError::Store(e)),
            Ok(_) => {},
        }
        Ok(
            PendingTxn {
                key,
                kind: TxnKind::CreateDrop,
                edition_id,
                call: ChainCall::CreateEdition {
                    edition_id,
                    info,
                    receiver: payload.receiver,
                    amount: payload.amount,
                    fee_receiver: payload.fee_receiver,
                    fee_numerator: payload.fee_numerator,
                },
            },
        )
    }

    /// Rebuilds the creation call of an existing collection, with its original edition id.
    pub fn retry_drop(&self, db: &Store, key: EventKey, payload: CreateEditionTransaction) -> (r:
        Result<PendingTxn, ProcessError>)
        requires
            db.wf(),
        ensures
            r == retry_drop_outcome(db@, key, payload),
    {
        let id = match parse_uuid(&key.id) {
            None => return Err(ProcessError::InvalidId),
            Some(u) => u,
        };
        let c = match Collection::find_by_id(db, id) {
            None => return Err(ProcessError::CollectionNotFound),
            Some(c) => c,
        };
        let info = EditionInfo {
            description: c.description,
            image_uri: c.image_uri,
            collection: c.name,
            uri: c.uri,
            creator: c.creator,
        };
        Ok(
            PendingTxn {
                key,
                kind: TxnKind::RetryCreateDrop,
                edition_id: c.edition_id,
                call: ChainCall::CreateEdition {
                    edition_id: c.edition_id,
                    info,
                    receiver: payload.receiver,
                    amount: payload.amount,
                    fee_receiver: payload.fee_receiver,
                    fee_numerator: payload.fee_numerator,
                },
            },
        )
    }

    /// Rebuilds the transfer of an existing mint, from the collection's owner, as minting built it.
    pub fn retry_mint(
        &self,
        db: &Store,
        key: EventKey,
        payload: MintEditionTransaction,
    ) -> (r: Result<PendingTxn, ProcessError>)
        requires
            db.wf(),
        ensures
            r == retry_mint_outcome(db@, key, payload),
    {
        let cid = match parse_uuid(&payload.collection_id) {
            None => return Err(ProcessError::InvalidId),
            Some(u) => u,
        };
        let c = match Collection::find_by_id(db, cid) {
            None => return Err(ProcessError::CollectionNotFound),
            Some(c) => c,
        };
        let id = match parse_uuid(&key.id) {
            None => return Err(ProcessError::InvalidId),
            Some(u) => u,
        };
        if Mint::find_by_id(db, id).is_none() {
            return Err(ProcessError::MintNotFound);
        }
        Ok(
            PendingTxn {
                key,
                kind: TxnKind::RetryMintDrop,
                edition_id: c.edition_id,
                call: ChainCall::SafeTransferFrom {
                    from: c.owner,
                    to: payload.receiver,
                    edition_id: c.edition_id,
                    amount: payload.amount,
                },
            },
        )
    }

    /// Stores the new mint, then asks for the transfer from the collection's owner.
    pub fn mint_drop(
        &self,
        db: &mut Store,
        key: EventKey,
        payload: MintEditionTransaction,
        now: Timestamp,
    ) -> (r: Result<PendingTxn, ProcessError>)
        requires
            old(db).wf(),
        ensures
            final(db).wf(),
            (final(db)@, r) == mint_drop_outcome(old(db)@, key, payload, now),
    {
        let cid = match parse_uuid(&payload.collection_id) {
            None => return Err(ProcessError::InvalidId),
            Some(u) => u,
        };
        let c = match Collection::find_by_id(db, cid) {
            None => return Err(ProcessError::CollectionNotFound),
            Some(c) => c,
        };
        let id = match parse_uuid(&key.id) {
            None => return Err(ProcessError::InvalidId),
            Some(u) => u,
        };
        if payload.amount > i32::MAX as u64 {
            return Err(ProcessError::AmountOutOfRange);
        }
        let model = MintModel {
            id,
            collection_id: c.id,
            owner: payload.receiver.clone(),
            amount: payload.amount as i32,
            created_at: now,
        };
        proof {
            assert(lookup_collection(db@.collections, c.id) == Some(c));
        }
        match Mint::create(db, model) {
            Err(e) => return Err(ProcessError::Store(e)),
            Ok(_) => {},
        }
        Ok(
            PendingTxn {
                key,
                kind: TxnKind::MintDrop,
                edition_id: c.edition_id,
                call: ChainCall::SafeTransferFrom {
                    from: c.owner,
                    to: payload.receiver,
                    edition_id: c.edition_id,
                    amount: payload.amount,
                },
            },
        )
    }

    /// Replaces the collection's metadata fields, then asks for the edit call.
    pub fn update_drop(&self, db: &mut Store, key: EventKey, payload: UpdateEditionTransaction) -> (r:
        Result<PendingTxn, ProcessError>)
        requires
            old(db).wf(),
        ensures
            final(db).wf(),
            (final(db)@, r) == update_drop_outcome(old(db)@, key, payload),
    {
        let info = match payload.edition_info {
            None => return Err(ProcessError::MissingEditionInfo),
            Some(i) => i,
        };
        let id = match parse_uuid(&key.id) {
            None => return Err(ProcessError::InvalidId),
            Some(u) => u,
        };
        let meta = CollectionMetadata {
            description: info.description.clone(),
            name: info.collection.clone(),
            image_uri: info.image_uri.clone(),
            uri: info.uri.clone(),
            creator: info.creator.clone(),
        };
        let c = match Collection::update(db, id, meta) {
            Err(_) => return Err(ProcessError::CollectionNotFound),
            Ok(c) => c,
        };
        Ok(
            PendingTxn {
                key,
                kind: TxnKind::UpdateDrop,
                edition_id: c.edition_id,
                call: ChainCall::EditEdition { edition_id: c.edition_id, info },
            },
        )
    }

    /// Looks up the mint and its collection and asks for the permit digest to be signed.
    pub fn sign_permit_token_transfer_hash(
        &self,
        db: &Store,
        key: EventKey,
        payload: TransferPolygonAsset,
    ) -> (r: Result<PendingHash, ProcessError>)
        requires
            db.wf(),
        ensures
            r == transfer_asset_outcome(db@, key, payload),
    {
        let mid = match parse_uuid(&payload.collection_mint_id) {
            None => return Err(ProcessError::InvalidId),
            Some(u) => u,
        };
        let c = match Mint::find_with_collection(db, mid) {
            Err(_) => return Err(ProcessError::MintNotFound),
            Ok((_, None)) => return Err(ProcessError::CollectionNotFound),
            Ok((_, Some(c))) => c,
        };
        Ok(
            PendingHash {
                key,
                owner: payload.owner_address,
                spender: c.owner,
                recipient: payload.recipient_address,
                edition_id: c.edition_id,
                amount: payload.amount,
                deadline: Deadline::Unlimited,
            },
        )
    }

    /// Checks the custody service's signature and asks for the permit and the transfer calls.
    pub fn send_transfer_asset_txns(&self, key: EventKey, payload: PolygonPermitHashSignature) -> (r:
        Result<PendingTransfer, ProcessError>)
        ensures
            r == permit_signed_outcome(key, payload),
    {
        let sig = match payload.signature {
            None => return Err(ProcessError::MissingSignature),
            Some(s) => s,
        };
        if sig.v > 255 {
            return Err(ProcessError::InvalidRecoveryId);
        }
        if sig.r.len() != 32 {
            return Err(ProcessError::InvalidSignatureR);
        }
        if sig.s.len() != 32 {
            return Err(ProcessError::InvalidSignatureS);
        }
        Ok(
            PendingTransfer {
                key,
                edition_id: payload.edition_id,
                permit: ChainCall::Permit {
                    owner: payload.owner,
                    spender: payload.spender.clone(),
                    edition_id: payload.edition_id,
                    amount: payload.amount,
                    deadline: Deadline::Unlimited,
                    v: sig.v as u8,
                    r: sig.r,
                    s: sig.s,
                },
                transfer: ChainCall::SafeTransferFrom {
                    from: payload.spender,
                    to: payload.recipient,
                    edition_id: payload.edition_id,
                    amount: payload.amount,
                },
            },
        )
    }

    /// Announces a built call; a call without payload data is a fatal build error.
    pub fn complete_txn(&self, pending: PendingTxn, data: Option<Vec<u8>>) -> (r: Result<
        OutboundMessage,
        ProcessError,
    >)
        ensures
            match data {
                None => r == Err::<OutboundMessage, ProcessError>(ProcessError::NoTransactionData),
                Some(d) => r == Ok::<OutboundMessage, ProcessError>(
                    OutboundMessage {
                        key: pending.key,
                        event: txn_event(
                            pending.kind,
                            PolygonTransaction {
                                data: d,
                                contract_address: self.contract_address,
                                edition_id: pending.edition_id,
                            },
                        ),
                    },
                ),
            },
    {
        let d = match data {
            None => return Err(ProcessError::NoTransactionData),
            Some(d) => d,
        };
        let t = PolygonTransaction {
            data: d,
            contract_address: self.contract_address.clone(),
            edition_id: pending.edition_id,
        };
        let event = match pending.kind {
            TxnKind::CreateDrop => PolygonNftEvent::SubmitCreateDropTxn(t),
            TxnKind::RetryCreateDrop => PolygonNftEvent::SubmitRetryCreateDropTxn(t),
            TxnKind::MintDrop => PolygonNftEvent::SubmitMintDropTxn(t),
            TxnKind::RetryMintDrop => PolygonNftEvent::SubmitRetryMintDropTxn(t),
            TxnKind::UpdateDrop => PolygonNftEvent::SubmitUpdateDropTxn(t),
        };
        Ok(OutboundMessage { key: pending.key, event })
    }

    /// Announces the permit digest to the custody service.
    pub fn complete_hash(&self, pending: PendingHash, hash: Vec<u8>) -> (r: OutboundMessage)
        ensures
            r == (OutboundMessage {
                key: pending.key,
                event: PolygonNftEvent::SignPermitTokenTransferHash(
                    PermitArgsHash {
                        data: hash,
                        owner: pending.owner,
                        spender: pending.spender,
                        recipient: pending.recipient,
                        edition_id: pending.edition_id,
                        amount: pending.amount,
                    },
                ),
            }),
    {
        OutboundMessage {
            key: pending.key,
            event: PolygonNftEvent::SignPermitTokenTransferHash(
                PermitArgsHash {
                    data: hash,
                    owner: pending.owner,
                    spender: pending.spender,
                    recipient: pending.recipient,
                    edition_id: pending.edition_id,
                    amount: pending.amount,
                },
            ),
        }
    }

    /// Announces the permit and the transfer together; both must carry payload data.
    pub fn complete_transfer(
        &self,
        pending: PendingTransfer,
        permit_data: Option<Vec<u8>>,
        transfer_data: Option<Vec<u8>>,
    ) -> (r: Result<OutboundMessage, ProcessError>)
        ensures
            permit_data is None ==> r == Err::<OutboundMessage, ProcessError>(
                ProcessError::NoPermitData,
            ),
            permit_data is Some && transfer_data is None ==> r == Err::<
                OutboundMessage,
                ProcessError,
            >(ProcessError::NoTransferData),
            permit_data is Some && transfer_data is Some ==> r == Ok::<
                OutboundMessage,
                ProcessError,
            >(
                OutboundMessage {
                    key: pending.key,
                    event: PolygonNftEvent::SubmitTransferAssetTxns(
                        PolygonTokenTransferTxns {
                            permit_token_transfer_txn: Some(
                                PolygonTransaction {
                                    data: permit_data.unwrap(),
                                    contract_address: self.contract_address,
                                    edition_id: pending.edition_id,
                                },
                            ),
                            safe_transfer_from_txn: Some(
                                PolygonTransaction {
                                    data: transfer_data.unwrap(),
                                    contract_address: self.contract_address,
                                    edition_id: pending.edition_id,
                                },
                            ),
                        },
                    ),
                },
            ),
    {
        let p = match permit_data {
            None => return Err(ProcessError::NoPermitData),
            Some(p) => p,
        };
        let t = match transfer_data {
            None => return Err(ProcessError::NoTransferData),
            Some(t) => t,
        };
        Ok(
            OutboundMessage {
                key: pending.key,
                event: PolygonNftEvent::SubmitTransferAssetTxns(
                    PolygonTokenTransferTxns {
                        permit_token_transfer_txn: Some(
                            PolygonTransaction {
                                data: p,
                                contract_address: self.contract_address.clone(),
                                edition_id: pending.edition_id,
                            },
                        ),
                        safe_transfer_from_txn: Some(
                            PolygonTransaction {
                                data: t,
                                contract_address: self.contract_address.clone(),
                                edition_id: pending.edition_id,
                            },
                        ),
                    },
                ),
            },
        )
    }
}

/// Edition ids run 1, 2, 3, ... in the order the collections were created, with no gap.
pub open spec fn editions_dense(cs: Seq<CollectionModel>) -> bool {
    forall|i: int| 0 <= i < cs.len() ==> #[trigger] cs[i].edition_id == i + 1
}

proof fn lemma_dense_max(cs: Seq<CollectionModel>)
    requires
        editions_dense(cs),
    ensures
        max_edition_id(cs) == (if cs.len() == 0 {
            None
        } else {
            Some(cs.len() as i32)
        }),
    decreases cs.len(),
{
    if cs.len() > 0 {
        let d = cs.drop_last();
        assert forall|i: int| 0 <= i < d.len() implies #[trigger] d[i].edition_id == i + 1 by {
            assert(d[i] == cs[i]);
        }
        lemma_dense_max(d);
        assert(cs.last().edition_id == cs.len());
    }
}

/// Creating drops hands out edition ids 1, 2, 3, ... with no gap: a created drop gets the
/// number of collections before it plus one, and the ids stay dense.
pub proof fn create_drop_edition_ids_dense(
    v: StoreView,
    key: EventKey,
    p: CreateEditionTransaction,
    deployer: String,
    now: Timestamp,
)
    requires
        editions_dense(v.collections),
    ensures
        ({
            let (w, r) = create_drop_outcome(v, key, p, deployer, now);
            &&& editions_dense(w.collections)
            &&& (r matches Ok(t) ==> t.edition_id == v.collections.len() + 1 && w.collections.len()
                == v.collections.len() + 1)
        }),
{
    lemma_dense_max(v.collections);
    let (w, r) = create_drop_outcome(v, key, p, deployer, now);
    if r is Ok {
        assert forall|i: int| 0 <= i < w.collections.len() implies #[trigger] w.collections[i].edition_id
            == i + 1 by {
            if i < v.collections.len() {
                assert(w.collections[i] == v.collections[i]);
            }
        }
    }
}

/// Whatever inbound message is handled, edition ids that were dense stay dense: no event
/// but a drop creation adds a collection, and none changes an edition id.
pub proof fn process_keeps_edition_ids_dense(
    v: StoreView,
    msg: Services,
    deployer: Option<String>,
    now: Timestamp,
)
    requires
        editions_dense(v.collections),
        needs_deployer(msg) ==> deployer is Some,
    ensures
        editions_dense(process_outcome(v, msg, deployer, now).0.collections),
{
    match msg {
        Services::Nfts(key, Some(DropEvent::CreateDrop(p))) => {
            create_drop_edition_ids_dense(v, key, p, deployer.unwrap(), now);
        },
        Services::Nfts(key, Some(DropEvent::UpdateDrop(p))) => {
            let w = process_outcome(v, msg, deployer, now).0;
            assert forall|i: int| 0 <= i < w.collections.len() implies #[trigger] w.collections[i].edition_id
                == i + 1 by {
                assert(w.collections[i].edition_id == v.collections[i].edition_id);
            }
        },
        _ => {},
    }
}

/// Retrying a drop rebuilds the call with the edition id that its collection already has.
pub proof fn retry_drop_reuses_edition_id(
    v: StoreView,
    key: EventKey,
    p: CreateEditionTransaction,
    id: u128,
    c: CollectionModel,
)
    requires
        uuid_of(key.id@) == Some(id),
        lookup_collection(v.collections, id) == Some(c),
    ensures
        retry_drop_outcome(v, key, p) matches Ok(t) && {
            &&& t.edition_id == c.edition_id
            &&& t.call matches ChainCall::CreateEdition { edition_id, .. } && edition_id
                == c.edition_id
        },
{
}

/// A drop that was created and then retried is rebuilt with the edition id it was created with.
pub proof fn create_then_retry_drop_same_edition_id(
    v: StoreView,
    key: EventKey,
    p: CreateEditionTransaction,
    deployer: String,
    now: Timestamp,
    retry: CreateEditionTransaction,
)
    requires
        store_wf(v),
        create_drop_outcome(v, key, p, deployer, now).1 is Ok,
    ensures
        ({
            let (w, created) = create_drop_outcome(v, key, p, deployer, now);
            retry_drop_outcome(w, key, retry) matches Ok(t) && t.edition_id
                == created->Ok_0.edition_id
        }),
{
    let (w, created) = create_drop_outcome(v, key, p, deployer, now);
    let id = uuid_of(key.id@).unwrap();
    let k = v.collections.len() as int;
    assert(w.collections[k].id == id);
    assert forall|i: int, j: int|
        0 <= i < w.collections.len() && 0 <= j < w.collections.len() && i != j implies #[trigger] w.collections[i].id
        != #[trigger] w.collections[j].id by {
        if i == k && w.collections[j].id == id {
            assert(v.collections[j].id == id);
        } else if j == k && w.collections[i].id == id {
            assert(v.collections[i].id == id);
        }
    }
    lemma_lookup_collection_at(w.collections, k);
}

/// A mint followed at once by its retry yields the same call twice: same sender, receiver,
/// edition id and amount.
pub proof fn mint_then_retry_same_call(
    v: StoreView,
    key: EventKey,
    p: MintEditionTransaction,
    now: Timestamp,
)
    requires
        store_wf(v),
        mint_drop_outcome(v, key, p, now).1 is Ok,
    ensures
        ({
            let (w, minted) = mint_drop_outcome(v, key, p, now);
            let retried = retry_mint_outcome(w, key, p);
            &&& retried is Ok
            &&& minted->Ok_0.call == retried->Ok_0.call
            &&& minted->Ok_0.edition_id == retried->Ok_0.edition_id
            &&& minted->Ok_0.call matches ChainCall::SafeTransferFrom { edition_id: e1, amount: a1, .. }
            &&& retried->Ok_0.call matches ChainCall::SafeTransferFrom { edition_id: e2, amount: a2, .. }
            &&& e1 == e2 && a1 == a2
        }),
{
    let (w, minted) = mint_drop_outcome(v, key, p, now);
    let id = uuid_of(key.id@).unwrap();
    let k = v.mints.len() as int;
    assert(w.mints[k].id == id);
    assert(exists|i: int| 0 <= i < w.mints.len() && w.mints[i].id == id);
}

/// Updating a drop changes only its metadata: identifier, edition id, owner, fee receiver and
/// creation time of every collection stay as they were.
pub proof fn update_drop_keeps_identity(v: StoreView, key: EventKey, p: UpdateEditionTransaction)
    ensures
        ({
            let w = update_drop_outcome(v, key, p).0;
            &&& w.mints == v.mints
            &&& w.collections.len() == v.collections.len()
            &&& forall|i: int|
                0 <= i < v.collections.len() ==> {
                    let (a, b) = (#[trigger] w.collections[i], v.collections[i]);
                    &&& a.id == b.id
                    &&& a.edition_id == b.edition_id
                    &&& a.owner == b.owner
                    &&& a.fee_receiver == b.fee_receiver
                    &&& a.created_at == b.created_at
                }
        }),
{
}

/// Drop creations handled one after another, each on the store that the previous one left.
pub open spec fn create_drops(
    v: StoreView,
    reqs: Seq<(EventKey, CreateEditionTransaction)>,
    deployer: String,
    now: Timestamp,
) -> (StoreView, Seq<Result<PendingTxn, ProcessError>>)
    decreases reqs.len(),
{
    if reqs.len() == 0 {
        (v, Seq::empty())
    } else {
        let (w, rs) = create_drops(v, reqs.drop_last(), deployer, now);
        let (w2, r) = create_drop_outcome(w, reqs.last().0, reqs.last().1, deployer, now);
        (w2, rs.push(r))
    }
}

proof fn lemma_create_drops_len(
    v: StoreView,
    reqs: Seq<(EventKey, CreateEditionTransaction)>,
    deployer: String,
    now: Timestamp,
)
    ensures
        create_drops(v, reqs, deployer, now).1.len() == reqs.len(),
    decreases reqs.len(),
{
    if reqs.len() > 0 {
        lemma_create_drops_len(v, reqs.drop_last(), deployer, now);
    }
}

/// A run of drop creations that all succeed hands out the edition ids that follow the stored
/// ones, in call order, with no gap: from an empty store, exactly 1, 2, ..., n.
pub proof fn created_edition_ids_count_up(
    v: StoreView,
    reqs: Seq<(EventKey, CreateEditionTransaction)>,
    deployer: String,
    now: Timestamp,
)
    requires
        editions_dense(v.collections),
        forall|i: int|
            0 <= i < reqs.len() ==> (#[trigger] create_drops(v, reqs, deployer, now).1[i]) is Ok,
    ensures
        ({
            let (w, rs) = create_drops(v, reqs, deployer, now);
            &&& rs.len() == reqs.len()
            &&& forall|i: int|
                0 <= i < rs.len() ==> (#[trigger] rs[i])->Ok_0.edition_id == v.collections.len()
                    + i + 1
            &&& editions_dense(w.collections)
            &&& w.collections.len() == v.collections.len() + reqs.len()
        }),
    decreases reqs.len(),
{
    if reqs.len() > 0 {
        let shorter = reqs.drop_last();
        lemma_create_drops_len(v, shorter, deployer, now);
        let (w, rs) = create_drops(v, shorter, deployer, now);
        let full = create_drops(v, reqs, deployer, now).1;
        assert(full == rs.push(create_drop_outcome(w, reqs.last().0, reqs.last().1, deployer, now).1));
        assert forall|i: int| 0 <= i < shorter.len() implies (#[trigger] create_drops(
            v,
            shorter,
            deployer,
            now,
        ).1[i]) is Ok by {
            assert(full[i] == rs[i]);
        }
        created_edition_ids_count_up(v, shorter, deployer, now);
        assert(full[reqs.len() - 1] is Ok);
        create_drop_edition_ids_dense(w, reqs.last().0, reqs.last().1, deployer, now);
        assert forall|i: int| 0 <= i < full.len() implies (#[trigger] full[i])->Ok_0.edition_id
            == v.collections.len() + i + 1 by {
            if i < rs.len() {
                assert(full[i] == rs[i]);
            }
        }
    }
}

} // verus!
