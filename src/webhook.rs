//! The reconciliation engine: pushed on-chain transfers update mint ownership.

use vstd::prelude::*;

use crate::auth::{hmac_sha256, PayloadBytes, Signature};
use crate::hexnum::{prefixed_hex_u64, strip_prefix};
use crate::ids::{is_timestamp_complete, parse_timestamp, read_timestamp, uuid_string, uuid_text};
use crate::model::{MintModel, Timestamp};
use crate::proto::{EventKey, MintedTokensOwnershipUpdate, OutboundMessage, PolygonNftEvent};
use crate::store::{
    listed, matching_mints, mint_matches, mints_for_edition, transfer_listed, Mint, Store, StoreView,
};

verus! {

/// The address that mints and burns come from.
pub const NULL_ADDRESS: &'static str = "0x0000000000000000000000000000000000000000";

/// The kind of a webhook notification; kinds not known here read as `Unknown`.
#[derive(Debug, Clone, Copy, PartialEq, Eq, Structural)]
pub enum EventType {
    Graphql,
    AddressActivity,
    MinedTransaction,
    DroppedTransaction,
    NftMetadataUpdate,
    NftActivity,
    Unknown,
}

/// The token standard of a transfer.
#[derive(Debug, Clone, Copy, PartialEq, Eq, Structural)]
pub enum TokenStandard {
    Erc1155,
    Erc721,
}

/// One token entry of a multi-token transfer: a hex token id and a hex quantity.
#[derive(Debug)]
pub struct ERC1155Metadata {
    pub token_id: String,
    pub value: String,
}

/// One transfer that the provider observed on chain.
#[derive(Debug)]
pub struct ActivityPayload {
    pub from_address: String,
    pub to_address: String,
    pub contract_address: String,
    pub hash: String,
    pub category: TokenStandard,
    pub erc1155_metadata: Option<Vec<ERC1155Metadata>>,
    pub erc721_token_id: Option<String>,
}

/// The network and the transfers of a notification.
#[derive(Debug)]
pub struct EventPayload {
    pub network: String,
    pub activity: Vec<ActivityPayload>,
}

/// A webhook notification.
#[derive(Debug)]
pub struct Payload {
    pub webhook_id: String,
    pub id: String,
    pub created_at: String,
    pub ty: EventType,
    pub event: EventPayload,
}

/// Why a webhook delivery, or one of its entries, was not applied.
#[derive(Debug, Clone, Copy, PartialEq, Eq, Structural)]
pub enum ReconcileError {
    /// The body does not carry the signature that the header gives.
    InvalidSignature,
    /// The body is not a notification.
    MalformedPayload,
    /// The notification's time is not a timestamp.
    MalformedTimestamp,
    /// A transfer carries no multi-token entries.
    MissingErc1155Metadata,
    /// A token id is not a `0x`-prefixed hexadecimal number.
    InvalidTokenId,
    /// A quantity is not a `0x`-prefixed hexadecimal number.
    InvalidQuantity,
    /// The stored mints of the sender disagree with the notified quantity.
    MintCountMismatch { expected: u64, found: u64 },
    /// An entry names no mint at all.
    NoMints,
}

impl ReconcileError {
    /// The HTTP status that the delivery is answered with: 400 for a bad signature, 500 otherwise.
    pub fn status(&self) -> (r: u16)
        ensures
            r == (if *self == ReconcileError::InvalidSignature {
                400u16
            } else {
                500u16
            }),
    {
        match self {
            ReconcileError::InvalidSignature => 400,
            _ => 500,
        }
    }
}

/// The mints that one token entry moves, or why it moves none.
pub open spec fn token_entry_result(v: StoreView, from: Seq<char>, token: ERC1155Metadata) -> Result<
    Seq<MintModel>,
    ReconcileError,
> {
    match prefixed_hex_u64(token.token_id@) {
        None => Err(ReconcileError::InvalidTokenId),
        Some(e) => match prefixed_hex_u64(token.value@) {
            None => Err(ReconcileError::InvalidQuantity),
            Some(q) => {
                let ms = mints_for_edition(v, from, e as int, q as int);
                if ms.len() != q {
                    Err(ReconcileError::MintCountMismatch { expected: q, found: ms.len() as u64 })
                } else if q == 0 {
                    Err(ReconcileError::NoMints)
                } else {
                    Ok(ms)
                }
            },
        },
    }
}

/// `msg` announces that `mints` now belong to `to`, by the transaction `hash` at time `ts`.
pub open spec fn announces(
    msg: OutboundMessage,
    mints: Seq<MintModel>,
    to: String,
    ts: Timestamp,
    hash: String,
) -> bool {
    &&& mints.len() > 0
    &&& msg.key.id@ == uuid_text(mints[0].collection_id)
    &&& msg.key.user_id@.len() == 0
    &&& msg.key.project_id@.len() == 0
    &&& msg.event matches PolygonNftEvent::UpdateMintsOwner(u) && {
        &&& u.mint_ids@.len() == mints.len()
        &&& forall|i: int| 0 <= i < mints.len() ==> (#[trigger] u.mint_ids@[i])@ == uuid_text(mints[i].id)
        &&& u.new_owner == to
        &&& u.timestamp == Some(ts)
        &&& u.transaction_hash == hash
    }
}

/// A group of mints that changed hands.
pub ghost struct Transfer {
    pub mints: Seq<MintModel>,
    pub to: String,
    pub hash: String,
}

/// The store after a run of entries, the transfers made, and the first failure, if any.
pub ghost struct Reconciled {
    pub store: StoreView,
    pub transfers: Seq<Transfer>,
    pub error: Option<ReconcileError>,
}

/// Token entries are applied one by one, each on its own: a failed one changes nothing,
/// and does not keep the later ones from being applied.
pub open spec fn apply_tokens(
    v: StoreView,
    from: Seq<char>,
    to: String,
    hash: String,
    tokens: Seq<ERC1155Metadata>,
) -> Reconciled
    decreases tokens.len(),
{
    if tokens.len() == 0 {
        Reconciled { store: v, transfers: Seq::empty(), error: None }
    } else {
        let prev = apply_tokens(v, from, to, hash, tokens.drop_last());
        match token_entry_result(prev.store, from, tokens.last()) {
            Err(e) => Reconciled {
                store: prev.store,
                transfers: prev.transfers,
                error: if prev.error is Some {
                    prev.error
                } else {
                    Some(e)
                },
            },
            Ok(ms) => Reconciled {
                store: StoreView {
                    collections: prev.store.collections,
                    mints: transfer_listed(prev.store.mints, ms, to),
                },
                transfers: prev.transfers.push(Transfer { mints: ms, to, hash }),
                error: prev.error,
            },
        }
    }
}

/// A transfer from the null address or the deployer is not an organic transfer.
pub open spec fn ignored_sender(from: Seq<char>, deployer: Seq<char>) -> bool {
    from == deployer || from == NULL_ADDRESS@
}

/// What one observed transfer does.
pub open spec fn activity_result(v: StoreView, deployer: Seq<char>, a: ActivityPayload) -> Reconciled {
    if ignored_sender(a.from_address@, deployer) {
        Reconciled { store: v, transfers: Seq::empty(), error: None }
    } else {
        match a.erc1155_metadata {
            None => Reconciled {
                store: v,
                transfers: Seq::empty(),
                error: Some(ReconcileError::MissingErc1155Metadata),
            },
            Some(tokens) => apply_tokens(v, a.from_address@, a.to_address, a.hash, tokens@),
        }
    }
}

/// Transfers are applied in order, each on its own: a failed one does not keep the later ones
/// from being applied, and the first failure is the one reported.
pub open spec fn apply_activities(v: StoreView, deployer: Seq<char>, acts: Seq<ActivityPayload>) -> Reconciled
    decreases acts.len(),
{
    if acts.len() == 0 {
        Reconciled { store: v, transfers: Seq::empty(), error: None }
    } else {
        let prev = apply_activities(v, deployer, acts.drop_last());
        let r = activity_result(prev.store, deployer, acts.last());
        Reconciled {
            store: r.store,
            transfers: prev.transfers + r.transfers,
            error: if prev.error is Some {
                prev.error
            } else {
                r.error
            },
        }
    }
}

/// The events in `out` past `start` announce `transfers`, one each, in order.
pub open spec fn announces_all(
    out: Seq<OutboundMessage>,
    start: int,
    transfers: Seq<Transfer>,
    ts: Timestamp,
) -> bool {
    &&& out.len() == start + transfers.len()
    &&& forall|i: int|
        0 <= i < transfers.len() ==> announces(
            #[trigger] out[start + i],
            transfers[i].mints,
            transfers[i].to,
            ts,
            transfers[i].hash,
        )
}

/// Verifies pushed on-chain activity and reconciles mint ownership with it.
#[derive(Debug)]
pub struct NftActivityController {
    /// The deployer's address: transfers from it are not organic.
    pub deployer_addr: String,
    /// The secret that deliveries are signed with.
    pub signing_key: Vec<u8>,
}

pub open spec fn outcome_of(e: Option<ReconcileError>) -> Result<(), ReconcileError> {
    match e {
        None => Ok(()),
        Some(x) => Err(x),
    }
}

impl NftActivityController {
    pub fn new(deployer_addr: String, signing_key: Vec<u8>) -> (r: NftActivityController)
        ensures
            r.deployer_addr == deployer_addr,
            r.signing_key == signing_key,
    {
        NftActivityController { deployer_addr, signing_key }
    }

    /// Whether transfers from `from` are left alone.
    pub fn is_ignored_sender(&self, from: &String) -> (r: bool)
        ensures
            r == ignored_sender(from@, self.deployer_addr@),
    {
        let null = String::from_str(NULL_ADDRESS);
        *from == self.deployer_addr || *from == null
    }

    /// The event that announces the new owner of `mints`, keyed by their collection.
    fn emit_event(&self, mints: &Vec<MintModel>, new_owner: &String, ts: Timestamp, hash: &String) -> (r:
        OutboundMessage)
        requires
            mints@.len() > 0,
        ensures
            announces(r, mints@, *new_owner, ts, *hash),
    {
        let collection_id = uuid_string(mints[0].collection_id);
        let mut mint_ids: Vec<String> = Vec::new();
        let mut i: usize = 0;
        while i < mints.len()
            invariant
                i <= mints@.len(),
                mint_ids@.len() == i,
                forall|j: int| 0 <= j < i ==> (#[trigger] mint_ids@[j])@ == uuid_text(mints@[j].id),
            decreases mints@.len() - i,
        {
            mint_ids.push(uuid_string(mints[i].id));
            i = i + 1;
        }
        OutboundMessage {
            key: EventKey { id: collection_id, user_id: String::new(), project_id: String::new() },
            event: PolygonNftEvent::UpdateMintsOwner(
                MintedTokensOwnershipUpdate {
                    mint_ids,
                    new_owner: new_owner.clone(),
                    timestamp: Some(ts),
                    transaction_hash: hash.clone(),
                },
            ),
        }
    }

    /// Applies one token entry of a transfer from `from` to `to`, entirely or not at all.
    pub fn process_token(
        &self,
        db: &mut Store,
        from: &String,
        to: &String,
        hash: &String,
        token: &ERC1155Metadata,
        ts: Timestamp,
    ) -> (r: Result<OutboundMessage, ReconcileError>)
        requires
            old(db).wf(),
        ensures
            final(db).wf(),
            match token_entry_result(old(db)@, from@, *token) {
                Err(e) => r == Err::<OutboundMessage, ReconcileError>(e) && final(db)@ == old(db)@,
                Ok(ms) => {
                    &&& final(db)@ == (StoreView {
                        collections: old(db)@.collections,
                        mints: transfer_listed(old(db)@.mints, ms, *to),
                    })
                    &&& r matches Ok(msg) && announces(msg, ms, *to, ts, *hash)
                },
            },
    {
        let edition_id = match strip_prefix(&token.token_id) {
            Ok(e) => e,
            Err(_) => return Err(ReconcileError::InvalidTokenId),
        };
        let value = match strip_prefix(&token.value) {
            Ok(q) => q,
            Err(_) => return Err(ReconcileError::InvalidQuantity),
        };
        let mints = Mint::get_mints_for_edition(db, from, edition_id, value);
        if mints.len() as u64 != value {
            return Err(
                ReconcileError::MintCountMismatch { expected: value, found: mints.len() as u64 },
            );
        }
        if value == 0 {
            return Err(ReconcileError::NoMints);
        }
        Mint::update_owners(db, &mints, to);
        Ok(self.emit_event(&mints, to, ts, hash))
    }

    /// Applies every token entry of one observed transfer; the events of the entries that
    /// were applied are appended to `out`, and the first failure, if any, is returned.
    pub fn process_nft_activity(
        &self,
        db: &mut Store,
        event: &ActivityPayload,
        ts: Timestamp,
        out: &mut Vec<OutboundMessage>,
    ) -> (r: Result<(), ReconcileError>)
        requires
            old(db).wf(),
        ensures
            final(db).wf(),
            ({
                let res = activity_result(old(db)@, self.deployer_addr@, *event);
                &&& final(db)@ == res.store
                &&& r == outcome_of(res.error)
                &&& final(out)@.take(old(out)@.len() as int) == old(out)@
                &&& announces_all(final(out)@, old(out)@.len() as int, res.transfers, ts)
            }),
    {
        let ghost start = out@.len() as int;
        if self.is_ignored_sender(&event.from_address) {
            assert(out@.take(start) =~= out@);
            return Ok(());
        }
        let tokens = match &event.erc1155_metadata {
            None => {
                assert(out@.take(start) =~= out@);
                return Err(ReconcileError::MissingErc1155Metadata);
            },
            Some(t) => t,
        };
        let ghost v0 = db@;
        let ghost from = event.from_address@;
        let ghost to = event.to_address;
        let ghost hash = event.hash;
        let ghost prefix = out@;
        let mut first: Option<ReconcileError> = None;
        let mut i: usize = 0;
        while i < tokens.len()
            invariant
                i <= tokens@.len(),
                db.wf(),
                from == event.from_address@,
                to == event.to_address,
                hash == event.hash,
                start == prefix.len(),
                ({
                    let res = apply_tokens(v0, from, to, hash, tokens@.take(i as int));
                    &&& db@ == res.store
                    &&& first == res.error
                    &&& out@.take(start) == prefix
                    &&& announces_all(out@, start, res.transfers, ts)
                }),
            decreases tokens@.len() - i,
        {
            let ghost before = out@;
            assert(tokens@.take(i + 1).drop_last() =~= tokens@.take(i as int));
            match self.process_token(db, &event.from_address, &event.to_address, &event.hash, &tokens[i], ts) {
                Ok(msg) => {
                    out.push(msg);
                    proof {
                        assert(out@.take(start) =~= before.take(start));
                        let res = apply_tokens(v0, from, to, hash, tokens@.take(i + 1));
                        assert forall|k: int| 0 <= k < res.transfers.len() implies announces(
                            #[trigger] out@[start + k],
                            res.transfers[k].mints,
                            res.transfers[k].to,
                            ts,
                            res.transfers[k].hash,
                        ) by {
                            if k < res.transfers.len() - 1 {
                                assert(out@[start + k] == before[start + k]);
                            }
                        }
                    }
                },
                Err(e) => {
                    if first.is_none() {
                        first = Some(e);
                    }
                },
            }
            i = i + 1;
        }
        assert(tokens@.take(tokens@.len() as int) =~= tokens@);
        match first {
            None => Ok(()),
            Some(e) => Err(e),
        }
    }

    /// Handles one webhook delivery: the body's signature first, then its time, then every
    /// transfer of an NFT activity notification, in order; the first failure is reported.
    ///
    /// `payload` is the body read as a notification, or `None` where it does not read as one.
    /// The events of the entries that were applied are appended to `out`.
    pub fn process_payload(
        &self,
        db: &mut Store,
        signature: &Signature,
        bytes: &PayloadBytes,
        payload: Option<Payload>,
        out: &mut Vec<OutboundMessage>,
    ) -> (r: Result<(), ReconcileError>)
        requires
            old(db).wf(),
        ensures
            final(db).wf(),
            signature@ != hmac_sha256(self.signing_key@, bytes@) ==> r == Err::<(), ReconcileError>(
                ReconcileError::InvalidSignature,
            ) && final(db)@ == old(db)@ && final(out)@ == old(out)@,
            signature@ == hmac_sha256(self.signing_key@, bytes@) ==> match payload {
                None => r == Err::<(), ReconcileError>(ReconcileError::MalformedPayload)
                    && final(db)@ == old(db)@ && final(out)@ == old(out)@,
                Some(p) => match read_timestamp(p.created_at@) {
                    None => r == Err::<(), ReconcileError>(ReconcileError::MalformedTimestamp)
                        && final(db)@ == old(db)@ && final(out)@ == old(out)@,
                    Some((seconds, nanos)) => if p.ty != EventType::NftActivity {
                        r == Ok::<(), ReconcileError>(()) && final(db)@ == old(db)@ && final(out)@
                            == old(out)@
                    } else {
                        let res = apply_activities(old(db)@, self.deployer_addr@, p.event.activity@);
                        &&& final(db)@ == res.store
                        &&& r == outcome_of(res.error)
                        &&& final(out)@.take(old(out)@.len() as int) == old(out)@
                        &&& announces_all(
                            final(out)@,
                            old(out)@.len() as int,
                            res.transfers,
                            Timestamp { seconds, nanos },
                        )
                    },
                },
            },
    {
        if !bytes.verify(signature, self.signing_key.as_slice()) {
            return Err(ReconcileError::InvalidSignature);
        }
        let p = match payload {
            None => return Err(ReconcileError::MalformedPayload),
            Some(p) => p,
        };
        if !is_timestamp_complete(&p.created_at) {
            return Err(ReconcileError::MalformedTimestamp);
        }
        let ts = match parse_timestamp(&p.created_at) {
            None => return Err(ReconcileError::MalformedTimestamp),
            Some(t) => t,
        };
        if p.ty != EventType::NftActivity {
            return Ok(());
        }
        self.process_activities(db, &p.event.activity, ts, out)
    }

    /// Applies every transfer in order and reports the first failure, if any.
    fn process_activities(
        &self,
        db: &mut Store,
        acts: &Vec<ActivityPayload>,
        ts: Timestamp,
        out: &mut Vec<OutboundMessage>,
    ) -> (r: Result<(), ReconcileError>)
        requires
            old(db).wf(),
        ensures
            final(db).wf(),
            ({
                let res = apply_activities(old(db)@, self.deployer_addr@, acts@);
                &&& final(db)@ == res.store
                &&& r == outcome_of(res.error)
                &&& final(out)@.take(old(out)@.len() as int) == old(out)@
                &&& announces_all(final(out)@, old(out)@.len() as int, res.transfers, ts)
            }),
    {
        let ghost v0 = db@;
        let ghost deployer = self.deployer_addr@;
        let ghost prefix = out@;
        let ghost start = out@.len() as int;
        let mut first: Option<ReconcileError> = None;
        let mut i: usize = 0;
        assert(out@.take(start) =~= out@);
        while i < acts.len()
            invariant
                i <= acts@.len(),
                db.wf(),
                deployer == self.deployer_addr@,
                v0 == old(db)@,
                prefix == old(out)@,
                start == prefix.len(),
                ({
                    let res = apply_activities(v0, deployer, acts@.take(i as int));
                    &&& first == res.error
                    &&& db@ == res.store
                    &&& out@.take(start) == prefix
                    &&& announces_all(out@, start, res.transfers, ts)
                }),
            decreases acts@.len() - i,
        {
            let ghost before = out@;
            let ghost prev = apply_activities(v0, deployer, acts@.take(i as int));
            assert(acts@.take(i + 1).drop_last() =~= acts@.take(i as int));
            let r = self.process_nft_activity(db, &acts[i], ts, out);
            proof {
                let act = activity_result(prev.store, deployer, acts@[i as int]);
                let res = apply_activities(v0, deployer, acts@.take(i + 1));
                assert(acts@.take(i + 1).last() == acts@[i as int]);
                assert(res.store == act.store);
                assert(out@.take(start) =~= before.take(start)) by {
                    assert(out@.take(before.len() as int) == before);
                    assert forall|k: int| 0 <= k < start implies out@.take(start)[k]
                        == before.take(start)[k] by {
                        assert(out@.take(before.len() as int)[k] == before[k]);
                    }
                }
                assert forall|k: int| 0 <= k < res.transfers.len() implies announces(
                    #[trigger] out@[start + k],
                    res.transfers[k].mints,
                    res.transfers[k].to,
                    ts,
                    res.transfers[k].hash,
                ) by {
                    if k < prev.transfers.len() {
                        assert(out@.take(before.len() as int)[start + k] == before[start + k]);
                        assert(res.transfers[k] == prev.transfers[k]);
                    } else {
                        let m = k - prev.transfers.len();
                        assert(res.transfers[k] == act.transfers[m]);
                        assert(out@[before.len() + m] == out@[start + k]);
                    }
                }
            }
            if first.is_none() {
                match r {
                    Err(e) => {
                        first = Some(e);
                    },
                    Ok(()) => {},
                }
            }
            i = i + 1;
        }
        assert(acts@.take(acts@.len() as int) =~= acts@);
        match first {
            None => Ok(()),
            Some(e) => Err(e),
        }
    }
}

/// A transfer from the null address or from the deployer changes no mint and announces nothing.
pub proof fn ignored_sender_changes_nothing(v: StoreView, deployer: Seq<char>, a: ActivityPayload)
    requires
        ignored_sender(a.from_address@, deployer),
    ensures
        activity_result(v, deployer, a) == (Reconciled {
            store: v,
            transfers: Seq::empty(),
            error: None,
        }),
{
}

proof fn lemma_matching_listed(v: StoreView, from: Seq<char>, e: int, n: int, k: int)
    requires
        0 <= k < n <= v.mints.len(),
        mint_matches(v.collections, v.mints[k], from, e),
    ensures
        listed(matching_mints(v, from, e, n), v.mints[k].id),
    decreases n,
{
    let all = matching_mints(v, from, e, n);
    if k == n - 1 {
        assert(all[all.len() - 1] == v.mints[k]);
    } else {
        lemma_matching_listed(v, from, e, n - 1, k);
        let prev = matching_mints(v, from, e, n - 1);
        let j = choose|j: int| 0 <= j < prev.len() && prev[j].id == v.mints[k].id;
        assert(all[j] == prev[j]);
    }
}

/// Once every mint of the edition that `from` held is listed and given to another address,
/// no mint of that edition is left to `from`: a query for them finds nothing.
pub proof fn no_sender_mints_left_after_transfer(
    v: StoreView,
    from: Seq<char>,
    e: int,
    ms: Seq<MintModel>,
    to: String,
    n: int,
)
    requires
        0 <= n <= v.mints.len(),
        to@ != from,
        forall|k: int|
            0 <= k < v.mints.len() && mint_matches(v.collections, #[trigger] v.mints[k], from, e)
                ==> listed(ms, v.mints[k].id),
    ensures
        matching_mints(
            StoreView { collections: v.collections, mints: transfer_listed(v.mints, ms, to) },
            from,
            e,
            n,
        ).len() == 0,
    decreases n,
{
    if n > 0 {
        no_sender_mints_left_after_transfer(v, from, e, ms, to, n - 1);
        let m = v.mints[n - 1];
        if mint_matches(v.collections, m, from, e) {
            assert(listed(ms, m.id));
        }
    }
}

/// Replaying an applied token entry fails and moves nothing more, where the sender held no
/// more mints of the edition than the entry's quantity and the recipient is another address.
pub proof fn replayed_entry_fails(v: StoreView, from: Seq<char>, to: String, token: ERC1155Metadata)
    requires
        to@ != from,
        token_entry_result(v, from, token) is Ok,
        prefixed_hex_u64(token.token_id@) matches Some(e) && matching_mints(
            v,
            from,
            e as int,
            v.mints.len() as int,
        ).len() == token_entry_result(v, from, token)->Ok_0.len(),
    ensures
        ({
            let ms = token_entry_result(v, from, token)->Ok_0;
            let w = StoreView { collections: v.collections, mints: transfer_listed(v.mints, ms, to) };
            token_entry_result(w, from, token) == Err::<Seq<MintModel>, ReconcileError>(
                ReconcileError::MintCountMismatch { expected: ms.len() as u64, found: 0 },
            )
        }),
{
    let e = prefixed_hex_u64(token.token_id@).unwrap() as int;
    let q = prefixed_hex_u64(token.value@).unwrap();
    let ms = token_entry_result(v, from, token)->Ok_0;
    let all = matching_mints(v, from, e, v.mints.len() as int);
    assert(ms == all);
    assert forall|k: int|
        0 <= k < v.mints.len() && mint_matches(v.collections, #[trigger] v.mints[k], from, e)
            implies listed(ms, v.mints[k].id) by {
        lemma_matching_listed(v, from, e, v.mints.len() as int, k);
    }
    no_sender_mints_left_after_transfer(v, from, e, ms, to, v.mints.len() as int);
    let w = StoreView { collections: v.collections, mints: transfer_listed(v.mints, ms, to) };
    assert(matching_mints(w, from, e, w.mints.len() as int).len() == 0);
}

/// Replaying a delivery of one transfer with one token entry, once it was applied, fails and
/// leaves the store as the first delivery left it, with nothing announced; where the sender
/// held no more mints of the edition than the entry's quantity and the recipient is another
/// address.
pub proof fn replayed_delivery_fails(v: StoreView, deployer: Seq<char>, a: ActivityPayload)
    requires
        !ignored_sender(a.from_address@, deployer),
        a.to_address@ != a.from_address@,
        a.erc1155_metadata matches Some(tokens) && {
            &&& tokens@.len() == 1
            &&& token_entry_result(v, a.from_address@, tokens@[0]) is Ok
            &&& prefixed_hex_u64(tokens@[0].token_id@) matches Some(e) && matching_mints(
                v,
                a.from_address@,
                e as int,
                v.mints.len() as int,
            ).len() == token_entry_result(v, a.from_address@, tokens@[0])->Ok_0.len()
        },
    ensures
        ({
            let once = apply_activities(v, deployer, seq![a]);
            let twice = apply_activities(once.store, deployer, seq![a]);
            &&& once.error is None
            &&& once.transfers.len() == 1
            &&& twice.error is Some
            &&& twice.store == once.store
            &&& twice.transfers.len() == 0
        }),
{
    let tokens = a.erc1155_metadata.unwrap();
    let from = a.from_address@;
    let one = seq![a];
    assert(one.drop_last() =~= Seq::<ActivityPayload>::empty());
    assert(one.last() == a);
    assert(tokens@.drop_last() =~= Seq::<ERC1155Metadata>::empty());
    assert(tokens@.last() == tokens@[0]);
    let empty = Reconciled { store: v, transfers: Seq::empty(), error: None };
    assert(apply_activities(v, deployer, one.drop_last()) == empty);
    assert(apply_tokens(v, from, a.to_address, a.hash, tokens@.drop_last()) == empty);
    let once = apply_activities(v, deployer, one);
    let ms = token_entry_result(v, from, tokens@[0])->Ok_0;
    replayed_entry_fails(v, from, a.to_address, tokens@[0]);
    let w = StoreView { collections: v.collections, mints: transfer_listed(v.mints, ms, a.to_address) };
    assert(activity_result(v, deployer, a).store == w);
    assert(once.store == w);
    let base = Reconciled { store: w, transfers: Seq::empty(), error: None };
    assert(apply_activities(w, deployer, one.drop_last()) == base);
    assert(apply_tokens(w, from, a.to_address, a.hash, tokens@.drop_last()) == base);
    assert(token_entry_result(w, from, tokens@[0]) is Err);
    assert(activity_result(w, deployer, a).store == w);
}

} // verus!
