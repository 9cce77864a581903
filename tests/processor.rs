use hub_nfts_polygon::{
    Action, ChainCall, Collection, Deadline, CreateEditionTransaction, DbErr, DropEvent, EcdsaSignature,
    EditionInfo, EventKey, Mint, MintEditionTransaction, PendingTxn, PolygonNftEvent,
    PolygonPermitHashSignature, ProcessError, Processor, Services, Store, Timestamp,
    TransferPolygonAsset, TreasuryEvent, TxnKind, UpdateEditionTransaction,
};

const DEPLOYER: &str = "0x00000000000000000000000000000000000000d1";
const COLLECTION_A: &str = "11111111-1111-1111-1111-111111111111";
const COLLECTION_B: &str = "22222222-2222-2222-2222-222222222222";
const COLLECTION_C: &str = "33333333-3333-3333-3333-333333333333";
const MINT_1: &str = "44444444-4444-4444-4444-444444444444";

fn now() -> Timestamp {
    Timestamp { seconds: 1_686_222_260, nanos: 0 }
}

fn key(id: &str) -> EventKey {
    EventKey { id: id.to_string(), user_id: "user".to_string(), project_id: "project".to_string() }
}

fn info(name: &str) -> EditionInfo {
    EditionInfo {
        description: format!("{name} description"),
        image_uri: format!("https://img/{name}"),
        collection: name.to_string(),
        uri: format!("https://meta/{name}"),
        creator: "0x00000000000000000000000000000000000000c0".to_string(),
    }
}

fn create_payload(name: &str) -> CreateEditionTransaction {
    CreateEditionTransaction {
        edition_info: Some(info(name)),
        fee_receiver: "0x00000000000000000000000000000000000000fe".to_string(),
        fee_numerator: 500,
        receiver: "0x00000000000000000000000000000000000000aa".to_string(),
        amount: 10,
    }
}

fn mint_payload(collection: &str, amount: u64) -> MintEditionTransaction {
    MintEditionTransaction {
        receiver: "0x00000000000000000000000000000000000000bb".to_string(),
        amount,
        collection_id: collection.to_string(),
    }
}

fn create(p: &Processor, db: &mut Store, id: &str, name: &str) -> PendingTxn {
    let msg = Services::Nfts(key(id), Some(DropEvent::CreateDrop(create_payload(name))));
    assert!(Processor::needs_deployer(&msg));
    match p.process(db, msg, Some(DEPLOYER.to_string()), now()) {
        Ok(Action::BuildTxn(t)) => t,
        other => panic!("unexpected {:?}", other),
    }
}

fn processor() -> Processor {
    Processor::new("0x00000000000000000000000000000000000000ed".to_string())
}

#[test]
fn created_edition_ids_count_up_from_one() {
    let p = processor();
    let mut db = Store::new();
    let ids: Vec<i32> = [COLLECTION_A, COLLECTION_B, COLLECTION_C]
        .iter()
        .enumerate()
        .map(|(i, id)| create(&p, &mut db, id, &format!("drop{i}")).edition_id)
        .collect();
    assert_eq!(ids, vec![1, 2, 3]);
    assert_eq!(Collection::find_max_edition_id(&db), Some(3));
}

#[test]
fn create_drop_stores_collection_and_asks_for_call() {
    let p = processor();
    let mut db = Store::new();
    let t = create(&p, &mut db, COLLECTION_A, "alpha");
    assert_eq!(t.kind, TxnKind::CreateDrop);
    match &t.call {
        ChainCall::CreateEdition { edition_id, info, receiver, amount, fee_receiver, fee_numerator } => {
            assert_eq!(*edition_id, 1);
            assert_eq!(info.collection, "alpha");
            assert_eq!(receiver, "0x00000000000000000000000000000000000000aa");
            assert_eq!(*amount, 10);
            assert_eq!(fee_receiver, "0x00000000000000000000000000000000000000fe");
            assert_eq!(*fee_numerator, 500);
        },
        other => panic!("unexpected {:?}", other),
    }
    let id = 0x11111111_1111_1111_1111_111111111111u128;
    let c = Collection::find_by_id(&db, id).unwrap();
    assert_eq!(c.edition_id, 1);
    assert_eq!(c.owner, DEPLOYER);
    assert_eq!(c.name, "alpha");
    assert_eq!(c.description, "alpha description");
    assert_eq!(c.created_at, now());
    let out = p.complete_txn(t, Some(vec![1, 2, 3])).unwrap();
    assert_eq!(out.key.id, COLLECTION_A);
    assert_eq!(out.key.user_id, "user");
    match out.event {
        PolygonNftEvent::SubmitCreateDropTxn(tx) => {
            assert_eq!(tx.data, vec![1, 2, 3]);
            assert_eq!(tx.edition_id, 1);
            assert_eq!(tx.contract_address, "0x00000000000000000000000000000000000000ed");
        },
        other => panic!("unexpected {:?}", other),
    }
}

#[test]
fn create_drop_errors() {
    let p = processor();
    let mut db = Store::new();
    let mut no_info = create_payload("x");
    no_info.edition_info = None;
    let r = p.create_polygon_edition(&mut db, key(COLLECTION_A), no_info, DEPLOYER.to_string(), now());
    assert_eq!(r.unwrap_err(), ProcessError::MissingEditionInfo);
    let r = p.create_polygon_edition(&mut db, key("not-a-uuid"), create_payload("x"), DEPLOYER.to_string(), now());
    assert_eq!(r.unwrap_err(), ProcessError::InvalidId);
    assert_eq!(Collection::find_max_edition_id(&db), None);
    create(&p, &mut db, COLLECTION_A, "a");
    let r = p.create_polygon_edition(&mut db, key(COLLECTION_A), create_payload("again"), DEPLOYER.to_string(), now());
    assert_eq!(r.unwrap_err(), ProcessError::Store(DbErr::DuplicateKey));
    assert_eq!(Collection::find_max_edition_id(&db), Some(1));
}

#[test]
fn call_without_data_is_fatal() {
    let p = processor();
    let mut db = Store::new();
    let t = create(&p, &mut db, COLLECTION_A, "a");
    assert_eq!(p.complete_txn(t, None).unwrap_err(), ProcessError::NoTransactionData);
}

#[test]
fn retry_drop_reuses_original_edition_id() {
    let p = processor();
    let mut db = Store::new();
    create(&p, &mut db, COLLECTION_A, "a");
    create(&p, &mut db, COLLECTION_B, "b");
    let mut retry = create_payload("ignored");
    retry.edition_info = None;
    let t = match p.process(&mut db, Services::Nfts(key(COLLECTION_A), Some(DropEvent::RetryDrop(retry))), None, now()) {
        Ok(Action::BuildTxn(t)) => t,
        other => panic!("unexpected {:?}", other),
    };
    assert_eq!(t.kind, TxnKind::RetryCreateDrop);
    assert_eq!(t.edition_id, 1);
    match &t.call {
        ChainCall::CreateEdition { edition_id, info, receiver, .. } => {
            assert_eq!(*edition_id, 1);
            assert_eq!(info.collection, "a");
            assert_eq!(info.description, "a description");
            assert_eq!(receiver, "0x00000000000000000000000000000000000000aa");
        },
        other => panic!("unexpected {:?}", other),
    }
    assert_eq!(Collection::find_max_edition_id(&db), Some(2));
    let out = p.complete_txn(t, Some(vec![9])).unwrap();
    assert!(matches!(out.event, PolygonNftEvent::SubmitRetryCreateDropTxn(_)));
    let missing = p.retry_drop(&db, key(COLLECTION_C), create_payload("c"));
    assert_eq!(missing.unwrap_err(), ProcessError::CollectionNotFound);
}

#[test]
fn mint_then_retry_mint_same_edition_and_amount() {
    let p = processor();
    let mut db = Store::new();
    create(&p, &mut db, COLLECTION_A, "a");
    create(&p, &mut db, COLLECTION_B, "b");
    let minted = p.mint_drop(&mut db, key(MINT_1), mint_payload(COLLECTION_B, 7), now()).unwrap();
    let m = Mint::find_by_id(&db, 0x44444444_4444_4444_4444_444444444444u128).unwrap();
    assert_eq!(m.owner, "0x00000000000000000000000000000000000000bb");
    assert_eq!(m.amount, 7);
    assert_eq!(m.collection_id, 0x22222222_2222_2222_2222_222222222222u128);
    let msg = Services::Nfts(key(MINT_1), Some(DropEvent::RetryMintDrop(mint_payload(COLLECTION_B, 7))));
    assert!(!Processor::needs_deployer(&msg));
    let retried = match p.process(&mut db, msg, None, now()) {
        Ok(Action::BuildTxn(t)) => t,
        other => panic!("unexpected {:?}", other),
    };
    assert_eq!(minted.edition_id, 2);
    assert_eq!(retried.edition_id, 2);
    match (&minted.call, &retried.call) {
        (
            ChainCall::SafeTransferFrom { from: f1, to: t1, edition_id: e1, amount: a1 },
            ChainCall::SafeTransferFrom { from: f2, to: t2, edition_id: e2, amount: a2 },
        ) => {
            assert_eq!((e1, a1), (e2, a2));
            assert_eq!(f1, f2);
            assert_eq!(*a1, 7);
            assert_eq!(f1, DEPLOYER);
            assert_eq!(f2, DEPLOYER);
            assert_eq!(t1, t2);
        },
        other => panic!("unexpected {:?}", other),
    }
    assert_eq!(minted.kind, TxnKind::MintDrop);
    assert_eq!(retried.kind, TxnKind::RetryMintDrop);
}

#[test]
fn mint_errors() {
    let p = processor();
    let mut db = Store::new();
    let r = p.mint_drop(&mut db, key(MINT_1), mint_payload(COLLECTION_A, 1), now());
    assert_eq!(r.unwrap_err(), ProcessError::CollectionNotFound);
    create(&p, &mut db, COLLECTION_A, "a");
    let r = p.mint_drop(&mut db, key(MINT_1), mint_payload(COLLECTION_A, 1 << 31), now());
    assert_eq!(r.unwrap_err(), ProcessError::AmountOutOfRange);
    let r = p.retry_mint(&db, key(MINT_1), mint_payload(COLLECTION_A, 1));
    assert_eq!(r.unwrap_err(), ProcessError::MintNotFound);
    p.mint_drop(&mut db, key(MINT_1), mint_payload(COLLECTION_A, 1), now()).unwrap();
    let r = p.mint_drop(&mut db, key(MINT_1), mint_payload(COLLECTION_A, 1), now());
    assert_eq!(r.unwrap_err(), ProcessError::Store(DbErr::DuplicateKey));
    let r = p.mint_drop(&mut db, key(MINT_1), mint_payload("bad", 1), now());
    assert_eq!(r.unwrap_err(), ProcessError::InvalidId);
}

#[test]
fn update_drop_changes_metadata_only() {
    let p = processor();
    let mut db = Store::new();
    create(&p, &mut db, COLLECTION_A, "a");
    let id = 0x11111111_1111_1111_1111_111111111111u128;
    let before = Collection::find_by_id(&db, id).unwrap();
    let update = UpdateEditionTransaction { edition_info: Some(info("renamed")) };
    let t = match p.process(&mut db, Services::Nfts(key(COLLECTION_A), Some(DropEvent::UpdateDrop(update))), None, now()) {
        Ok(Action::BuildTxn(t)) => t,
        other => panic!("unexpected {:?}", other),
    };
    assert_eq!(t.kind, TxnKind::UpdateDrop);
    assert!(matches!(t.call, ChainCall::EditEdition { edition_id: 1, .. }));
    let after = Collection::find_by_id(&db, id).unwrap();
    assert_eq!(after.name, "renamed");
    assert_eq!(after.description, "renamed description");
    assert_eq!(after.uri, "https://meta/renamed");
    assert_eq!(after.image_uri, "https://img/renamed");
    assert_eq!(after.id, before.id);
    assert_eq!(after.edition_id, before.edition_id);
    assert_eq!(after.owner, before.owner);
    assert_eq!(after.fee_receiver, before.fee_receiver);
    assert_eq!(after.created_at, before.created_at);
    let r = p.update_drop(&mut db, key(COLLECTION_B), UpdateEditionTransaction { edition_info: Some(info("x")) });
    assert_eq!(r.unwrap_err(), ProcessError::CollectionNotFound);
    let r = p.update_drop(&mut db, key(COLLECTION_A), UpdateEditionTransaction { edition_info: None });
    assert_eq!(r.unwrap_err(), ProcessError::MissingEditionInfo);
}

#[test]
fn transfer_asset_asks_for_permit_hash() {
    let p = processor();
    let mut db = Store::new();
    create(&p, &mut db, COLLECTION_A, "a");
    p.mint_drop(&mut db, key(MINT_1), mint_payload(COLLECTION_A, 3), now()).unwrap();
    let req = TransferPolygonAsset {
        collection_mint_id: MINT_1.to_string(),
        owner_address: "0x00000000000000000000000000000000000000bb".to_string(),
        recipient_address: "0x00000000000000000000000000000000000000cc".to_string(),
        amount: 2,
    };
    let msg = Services::Nfts(key("transfer"), Some(DropEvent::TransferAsset(req)));
    assert!(!Processor::needs_deployer(&msg));
    let h = match p.process(&mut db, msg, None, now()) {
        Ok(Action::HashPermit(h)) => h,
        other => panic!("unexpected {:?}", other),
    };
    assert_eq!(h.spender, DEPLOYER);
    assert_eq!(h.deadline, Deadline::Unlimited);
    assert_eq!(h.edition_id, 1);
    let out = p.complete_hash(h, vec![0xab; 32]);
    assert_eq!(out.key.id, "transfer");
    match out.event {
        PolygonNftEvent::SignPermitTokenTransferHash(a) => {
            assert_eq!(a.data, vec![0xab; 32]);
            assert_eq!(a.owner, "0x00000000000000000000000000000000000000bb");
            assert_eq!(a.spender, DEPLOYER);
            assert_eq!(a.recipient, "0x00000000000000000000000000000000000000cc");
            assert_eq!(a.edition_id, 1);
            assert_eq!(a.amount, 2);
        },
        other => panic!("unexpected {:?}", other),
    }
    let unknown = TransferPolygonAsset {
        collection_mint_id: COLLECTION_C.to_string(),
        owner_address: String::new(),
        recipient_address: String::new(),
        amount: 1,
    };
    assert_eq!(
        p.sign_permit_token_transfer_hash(&db, key("t"), unknown).unwrap_err(),
        ProcessError::MintNotFound
    );
}

fn signed(sig: Option<EcdsaSignature>) -> PolygonPermitHashSignature {
    PolygonPermitHashSignature {
        signature: sig,
        owner: "0x00000000000000000000000000000000000000bb".to_string(),
        spender: DEPLOYER.to_string(),
        recipient: "0x00000000000000000000000000000000000000cc".to_string(),
        edition_id: 4,
        amount: 2,
    }
}

#[test]
fn signed_permit_builds_both_calls() {
    let p = processor();
    let mut db = Store::new();
    let sig = EcdsaSignature { r: vec![1; 32], s: vec![2; 32], v: 27 };
    let msg = Services::Treasuries(
        key("treasury"),
        Some(TreasuryEvent::PolygonPermitTransferTokenHashSigned(signed(Some(sig)))),
    );
    let t = match p.process(&mut db, msg, None, now()) {
        Ok(Action::BuildTransfer(t)) => t,
        other => panic!("unexpected {:?}", other),
    };
    match &t.permit {
        ChainCall::Permit { owner, spender, edition_id, amount, deadline, v, r, s } => {
            assert_eq!(*deadline, Deadline::Unlimited);
            assert_eq!(owner, "0x00000000000000000000000000000000000000bb");
            assert_eq!(spender, DEPLOYER);
            assert_eq!((*edition_id, *amount, *v), (4, 2, 27));
            assert_eq!(r, &vec![1; 32]);
            assert_eq!(s, &vec![2; 32]);
        },
        other => panic!("unexpected {:?}", other),
    }
    match &t.transfer {
        ChainCall::SafeTransferFrom { from, to, edition_id, amount } => {
            assert_eq!(from, DEPLOYER);
            assert_eq!(to, "0x00000000000000000000000000000000000000cc");
            assert_eq!((*edition_id, *amount), (4, 2));
        },
        other => panic!("unexpected {:?}", other),
    }
    let out = p.complete_transfer(t, Some(vec![7]), Some(vec![8])).unwrap();
    assert_eq!(out.key.id, "treasury");
    match out.event {
        PolygonNftEvent::SubmitTransferAssetTxns(txns) => {
            let permit = txns.permit_token_transfer_txn.unwrap();
            let transfer = txns.safe_transfer_from_txn.unwrap();
            assert_eq!(permit.data, vec![7]);
            assert_eq!(transfer.data, vec![8]);
            assert_eq!(permit.edition_id, 4);
            assert_eq!(transfer.contract_address, "0x00000000000000000000000000000000000000ed");
        },
        other => panic!("unexpected {:?}", other),
    }
}

#[test]
fn signed_permit_errors() {
    let p = processor();
    let k = || key("treasury");
    assert_eq!(p.send_transfer_asset_txns(k(), signed(None)).unwrap_err(), ProcessError::MissingSignature);
    let bad_v = EcdsaSignature { r: vec![1; 32], s: vec![2; 32], v: 256 };
    assert_eq!(p.send_transfer_asset_txns(k(), signed(Some(bad_v))).unwrap_err(), ProcessError::InvalidRecoveryId);
    let bad_r = EcdsaSignature { r: vec![1; 31], s: vec![2; 32], v: 27 };
    assert_eq!(p.send_transfer_asset_txns(k(), signed(Some(bad_r))).unwrap_err(), ProcessError::InvalidSignatureR);
    let bad_s = EcdsaSignature { r: vec![1; 32], s: vec![2; 33], v: 27 };
    assert_eq!(p.send_transfer_asset_txns(k(), signed(Some(bad_s))).unwrap_err(), ProcessError::InvalidSignatureS);
    let ok = EcdsaSignature { r: vec![1; 32], s: vec![2; 32], v: 28 };
    let t = p.send_transfer_asset_txns(k(), signed(Some(ok))).unwrap();
    assert_eq!(p.complete_transfer(t, None, Some(vec![1])).unwrap_err(), ProcessError::NoPermitData);
    let ok = EcdsaSignature { r: vec![1; 32], s: vec![2; 32], v: 28 };
    let t = p.send_transfer_asset_txns(k(), signed(Some(ok))).unwrap();
    assert_eq!(p.complete_transfer(t, Some(vec![1]), None).unwrap_err(), ProcessError::NoTransferData);
}

#[test]
fn events_without_variant_do_nothing() {
    let p = processor();
    let mut db = Store::new();
    assert!(matches!(p.process(&mut db, Services::Nfts(key("x"), None), None, now()), Ok(Action::Nothing)));
    assert!(matches!(
        p.process(&mut db, Services::Treasuries(key("x"), Some(TreasuryEvent::Other)), None, now()),
        Ok(Action::Nothing)
    ));
}
