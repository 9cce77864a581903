//! Saga processing and webhook reconciliation for edition drops on Polygon.
//!
//! The library decides what happens to each inbound drop or treasury event,
//! keeps the collection and mint records consistent, and reconciles pushed
//! on-chain transfer activity back into mint ownership.

pub mod auth;
pub mod events;
pub mod hexnum;
pub mod ids;
pub mod model;
pub mod proto;
pub mod services;
pub mod store;
pub mod webhook;

pub use auth::{hex_decoded, hmac_sha256, Error, PayloadBytes, Signature};
pub use events::{
    Action, ChainCall, Deadline, PendingHash, PendingTransfer, PendingTxn, ProcessError,
    Processor, TxnKind,
};
pub use hexnum::{strip_prefix, HexNumberError};
pub use ids::{parsed_timestamp, uuid_of, uuid_text};
pub use model::{CollectionMetadata, CollectionModel, MintModel, Timestamp};
pub use proto::{
    CreateEditionTransaction, DropEvent, EcdsaSignature, EditionInfo, EventKey,
    MintEditionTransaction, MintedTokensOwnershipUpdate, OutboundMessage, PermitArgsHash,
    PolygonNftEvent, PolygonPermitHashSignature, PolygonTokenTransferTxns, PolygonTransaction,
    TransferPolygonAsset, TreasuryEvent, UpdateEditionTransaction,
};
pub use services::{RawMessage, RecvError, Services, Topic, NFTS_TOPIC, TREASURIES_TOPIC};
pub use store::{Collection, DbErr, Mint, Store};
pub use webhook::{
    ActivityPayload, ERC1155Metadata, EventPayload, EventType, NftActivityController, Payload,
    ReconcileError, TokenStandard, NULL_ADDRESS,
};
