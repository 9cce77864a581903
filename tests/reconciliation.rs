use hmac::Mac;
use hub_nfts_polygon::{
    ActivityPayload, Collection, CollectionModel, ERC1155Metadata, EventPayload, EventType, Mint,
    MintModel, NftActivityController, OutboundMessage, Payload, PayloadBytes, PolygonNftEvent,
    ReconcileError, Signature, Store, Timestamp, TokenStandard, NULL_ADDRESS,
};

const KEY: &[u8] = b"SECRET-REDACTED";
const DEPLOYER: &str = "0x00000000000000000000000000000000000000d1";
const SENDER: &str = "0xA";
const RECIPIENT: &str = "0xB";
const COLLECTION: u128 = 0x0123456789abcdef0123456789abcdef;

fn at() -> Timestamp {
    Timestamp { seconds: 0, nanos: 0 }
}

fn collection(id: u128, edition_id: i32) -> CollectionModel {
    CollectionModel {
        id,
        edition_id,
        fee_receiver: String::new(),
        owner: DEPLOYER.to_string(),
        creator: String::new(),
        uri: String::new(),
        name: format!("edition {edition_id}"),
        description: String::new(),
        image_uri: String::new(),
        created_at: at(),
    }
}

fn mint_id(n: u128) -> u128 {
    0xaaaa0000_0000_0000_0000_000000000000 + n
}

fn store_with(owned_by_sender: u128) -> Store {
    let mut db = Store::new();
    Collection::create(&mut db, collection(COLLECTION, 42)).unwrap();
    Collection::create(&mut db, collection(7, 41)).unwrap();
    // a mint of another edition, and one of this edition held by someone else
    Mint::create(&mut db, MintModel { id: mint_id(100), collection_id: 7, owner: SENDER.to_string(), amount: 1, created_at: at() }).unwrap();
    Mint::create(&mut db, MintModel { id: mint_id(101), collection_id: COLLECTION, owner: "0xC".to_string(), amount: 1, created_at: at() }).unwrap();
    for n in 0..owned_by_sender {
        Mint::create(
            &mut db,
            MintModel { id: mint_id(n), collection_id: COLLECTION, owner: SENDER.to_string(), amount: 1, created_at: at() },
        )
        .unwrap();
    }
    db
}

fn owner_of(db: &Store, id: u128) -> String {
    Mint::find_by_id(db, id).unwrap().owner
}

fn activity(from: &str, tokens: Option<Vec<(&str, &str)>>) -> ActivityPayload {
    ActivityPayload {
        from_address: from.to_string(),
        to_address: RECIPIENT.to_string(),
        contract_address: "0x00000000000000000000000000000000000000ed".to_string(),
        hash: "0xhash".to_string(),
        category: TokenStandard::Erc1155,
        erc1155_metadata: tokens.map(|ts| {
            ts.into_iter()
                .map(|(t, v)| ERC1155Metadata { token_id: t.to_string(), value: v.to_string() })
                .collect()
        }),
        erc721_token_id: None,
    }
}

fn payload(ty: EventType, created_at: &str, acts: Vec<ActivityPayload>) -> Payload {
    Payload {
        webhook_id: "wh".to_string(),
        id: "delivery".to_string(),
        created_at: created_at.to_string(),
        ty,
        event: EventPayload { network: "MATIC_MAINNET".to_string(), activity: acts },
    }
}

fn signed(body: &[u8]) -> Signature {
    let mut mac = hmac::Hmac::<sha2::Sha256>::new_from_slice(KEY).unwrap();
    mac.update(body);
    let header = hex::encode(mac.finalize().into_bytes());
    Signature::from_header(Some(header.into_bytes())).unwrap()
}

fn controller() -> NftActivityController {
    NftActivityController::new(DEPLOYER.to_string(), KEY.to_vec())
}

fn deliver(db: &mut Store, p: Payload, out: &mut Vec<OutboundMessage>) -> Result<(), ReconcileError> {
    let body = b"{\"type\":\"NFT_ACTIVITY\"}".to_vec();
    let sig = signed(&body);
    controller().process_payload(db, &sig, &PayloadBytes::new(body), Some(p), out)
}

fn transfer_of_three(from: &str) -> Payload {
    payload(EventType::NftActivity, "2023-06-08T11:04:20Z", vec![activity(from, Some(vec![("0x2a", "0x3")]))])
}

#[test]
fn three_matching_mints_move_together() {
    let mut db = store_with(3);
    let mut out = Vec::new();
    deliver(&mut db, transfer_of_three(SENDER), &mut out).unwrap();
    for n in 0..3 {
        assert_eq!(owner_of(&db, mint_id(n)), RECIPIENT);
    }
    assert_eq!(owner_of(&db, mint_id(100)), SENDER);
    assert_eq!(owner_of(&db, mint_id(101)), "0xC");
    assert_eq!(out.len(), 1);
    assert_eq!(out[0].key.id, "01234567-89ab-cdef-0123-456789abcdef");
    assert_eq!(out[0].key.user_id, "");
    match &out[0].event {
        PolygonNftEvent::UpdateMintsOwner(u) => {
            assert_eq!(
                u.mint_ids,
                vec![
                    "aaaa0000-0000-0000-0000-000000000000".to_string(),
                    "aaaa0000-0000-0000-0000-000000000001".to_string(),
                    "aaaa0000-0000-0000-0000-000000000002".to_string(),
                ]
            );
            assert_eq!(u.new_owner, RECIPIENT);
            assert_eq!(u.timestamp, Some(Timestamp { seconds: 1_686_222_260, nanos: 0 }));
            assert_eq!(u.transaction_hash, "0xhash");
        },
        other => panic!("unexpected {:?}", other),
    }
}

#[test]
fn too_few_mints_update_nothing() {
    let mut db = store_with(2);
    let mut out = Vec::new();
    let r = deliver(&mut db, transfer_of_three(SENDER), &mut out);
    assert_eq!(r, Err(ReconcileError::MintCountMismatch { expected: 3, found: 2 }));
    assert_eq!(r.unwrap_err().status(), 500);
    assert_eq!(owner_of(&db, mint_id(0)), SENDER);
    assert_eq!(owner_of(&db, mint_id(1)), SENDER);
    assert!(out.is_empty());
}

#[test]
fn replayed_delivery_fails_without_changes() {
    let mut db = store_with(3);
    let mut out = Vec::new();
    deliver(&mut db, transfer_of_three(SENDER), &mut out).unwrap();
    let r = deliver(&mut db, transfer_of_three(SENDER), &mut out);
    assert_eq!(r, Err(ReconcileError::MintCountMismatch { expected: 3, found: 0 }));
    for n in 0..3 {
        assert_eq!(owner_of(&db, mint_id(n)), RECIPIENT);
    }
    assert_eq!(out.len(), 1);
}

#[test]
fn tampered_body_is_rejected() {
    let mut db = store_with(3);
    let mut out = Vec::new();
    let body = b"{\"type\":\"NFT_ACTIVITY\"}".to_vec();
    let sig = signed(&body);
    let mut tampered = body.clone();
    tampered[2] = b'T';
    let r = controller().process_payload(&mut db, &sig, &PayloadBytes::new(tampered), Some(transfer_of_three(SENDER)), &mut out);
    assert_eq!(r, Err(ReconcileError::InvalidSignature));
    assert_eq!(r.unwrap_err().status(), 400);
    for n in 0..3 {
        assert_eq!(owner_of(&db, mint_id(n)), SENDER);
    }
    assert!(out.is_empty());
}

#[test]
fn null_and_deployer_senders_are_ignored() {
    for from in [NULL_ADDRESS, DEPLOYER] {
        let mut db = Store::new();
        Collection::create(&mut db, collection(COLLECTION, 42)).unwrap();
        Mint::create(&mut db, MintModel { id: mint_id(0), collection_id: COLLECTION, owner: from.to_string(), amount: 1, created_at: at() }).unwrap();
        let mut out = Vec::new();
        let p = payload(EventType::NftActivity, "2023-06-08T11:04:20Z", vec![activity(from, Some(vec![("0x2a", "0x1")]))]);
        deliver(&mut db, p, &mut out).unwrap();
        assert_eq!(owner_of(&db, mint_id(0)), from);
        assert!(out.is_empty());
    }
    assert!(controller().is_ignored_sender(&NULL_ADDRESS.to_string()));
    assert!(!controller().is_ignored_sender(&SENDER.to_string()));
}

#[test]
fn other_notification_types_do_nothing() {
    let mut db = store_with(3);
    let mut out = Vec::new();
    let p = payload(EventType::Unknown, "2023-06-08T11:04:20Z", vec![activity(SENDER, Some(vec![("0x2a", "0x3")]))]);
    deliver(&mut db, p, &mut out).unwrap();
    assert_eq!(owner_of(&db, mint_id(0)), SENDER);
    assert!(out.is_empty());
}

#[test]
fn malformed_deliveries_fail() {
    let mut db = store_with(3);
    let mut out = Vec::new();
    let p = payload(EventType::NftActivity, "yesterday", vec![]);
    assert_eq!(deliver(&mut db, p, &mut out), Err(ReconcileError::MalformedTimestamp));
    let body = b"not json".to_vec();
    let sig = signed(&body);
    let r = controller().process_payload(&mut db, &sig, &PayloadBytes::new(body), None, &mut out);
    assert_eq!(r, Err(ReconcileError::MalformedPayload));
    let p = payload(EventType::NftActivity, "2023-06-08T11:04:20Z", vec![activity(SENDER, None)]);
    assert_eq!(deliver(&mut db, p, &mut out), Err(ReconcileError::MissingErc1155Metadata));
    let p = payload(EventType::NftActivity, "2023-06-08T11:04:20Z", vec![activity(SENDER, Some(vec![("2a", "0x3")]))]);
    assert_eq!(deliver(&mut db, p, &mut out), Err(ReconcileError::InvalidTokenId));
    let p = payload(EventType::NftActivity, "2023-06-08T11:04:20Z", vec![activity(SENDER, Some(vec![("0x2a", "three")]))]);
    assert_eq!(deliver(&mut db, p, &mut out), Err(ReconcileError::InvalidQuantity));
    let p = payload(EventType::NftActivity, "2023-06-08T11:04:20Z", vec![activity(SENDER, Some(vec![("0x2a", "0x0")]))]);
    assert_eq!(deliver(&mut db, p, &mut out), Err(ReconcileError::NoMints));
    assert_eq!(owner_of(&db, mint_id(0)), SENDER);
    assert!(out.is_empty());
}

#[test]
fn failed_entry_does_not_hold_back_the_others() {
    let mut db = store_with(3);
    let mut out = Vec::new();
    let p = payload(
        EventType::NftActivity,
        "2023-06-08T11:04:20.5Z",
        vec![activity(SENDER, Some(vec![("0x29", "0x5"), ("0x2a", "0x2")]))],
    );
    let r = deliver(&mut db, p, &mut out);
    assert_eq!(r, Err(ReconcileError::MintCountMismatch { expected: 5, found: 1 }));
    assert_eq!(owner_of(&db, mint_id(100)), SENDER);
    assert_eq!(owner_of(&db, mint_id(0)), RECIPIENT);
    assert_eq!(owner_of(&db, mint_id(1)), RECIPIENT);
    assert_eq!(owner_of(&db, mint_id(2)), SENDER);
    assert_eq!(out.len(), 1);
    match &out[0].event {
        PolygonNftEvent::UpdateMintsOwner(u) => {
            assert_eq!(u.mint_ids.len(), 2);
            assert_eq!(u.timestamp, Some(Timestamp { seconds: 1_686_222_260, nanos: 500_000_000 }));
        },
        other => panic!("unexpected {:?}", other),
    }
}

#[test]
fn incomplete_timestamps_are_refused() {
    for text in ["2023-01-01T1", "2023-01-01T00:00:00+1", "+123456789-", "2023-06-08T11:04:20.Z", "2023-06-08T11:04:20.1234567890Z", "2023-6-08"] {
        let mut db = store_with(3);
        let mut out = Vec::new();
        let p = payload(EventType::NftActivity, text, vec![activity(SENDER, Some(vec![("0x2a", "0x3")]))]);
        assert_eq!(deliver(&mut db, p, &mut out), Err(ReconcileError::MalformedTimestamp), "{text}");
        assert_eq!(owner_of(&db, mint_id(0)), SENDER);
        assert!(out.is_empty());
    }
}

fn delivered_time(text: &str) -> Option<Timestamp> {
    let mut db = store_with(1);
    let mut out = Vec::new();
    let p = payload(EventType::NftActivity, text, vec![activity(SENDER, Some(vec![("0x2a", "0x1")]))]);
    deliver(&mut db, p, &mut out).unwrap();
    match &out[0].event {
        PolygonNftEvent::UpdateMintsOwner(u) => u.timestamp,
        _ => None,
    }
}

#[test]
fn timestamp_forms_are_read() {
    assert_eq!(delivered_time("2023-06-08"), Some(Timestamp { seconds: 1_686_182_400, nanos: 0 }));
    assert_eq!(
        delivered_time("2023-06-08 11:04:20+01:00"),
        Some(Timestamp { seconds: 1_686_218_660, nanos: 0 })
    );
    assert_eq!(
        delivered_time("2023-06-08t11:04:20.123456789z"),
        Some(Timestamp { seconds: 1_686_222_260, nanos: 123_456_789 })
    );
    assert_eq!(delivered_time("2023-06-08T11:04:20-0130"), Some(Timestamp { seconds: 1_686_227_660, nanos: 0 }));
    assert_eq!(delivered_time("2023-06-08T11:04:20 Z"), Some(Timestamp { seconds: 1_686_222_260, nanos: 0 }));
    assert_eq!(delivered_time("+12345-01-01T00:00:00Z"), Some(Timestamp { seconds: YEAR_12345, nanos: 0 }));
}

const YEAR_12345: i64 = 327_403_382_400;

#[test]
fn other_notification_with_spaced_zone_is_accepted() {
    let mut db = store_with(3);
    let mut out = Vec::new();
    let p = payload(EventType::MinedTransaction, "2023-06-08T11:04:20 Z", vec![activity(SENDER, Some(vec![("0x2a", "0x3")]))]);
    assert_eq!(deliver(&mut db, p, &mut out), Ok(()));
    assert_eq!(owner_of(&db, mint_id(0)), SENDER);
    assert!(out.is_empty());
}

#[test]
fn failed_transfer_does_not_hold_back_later_ones() {
    let mut db = store_with(3);
    let mut out = Vec::new();
    let p = payload(
        EventType::NftActivity,
        "2023-06-08T11:04:20Z",
        vec![activity(SENDER, None), activity(SENDER, Some(vec![("0x2a", "0x3")]))],
    );
    assert_eq!(deliver(&mut db, p, &mut out), Err(ReconcileError::MissingErc1155Metadata));
    for n in 0..3 {
        assert_eq!(owner_of(&db, mint_id(n)), RECIPIENT);
    }
    assert_eq!(out.len(), 1);
}
