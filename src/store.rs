//! The state store: collections and mints, with their repository operations.

use vstd::prelude::*;

use crate::model::{CollectionMetadata, CollectionModel, MintModel};

verus! {

/// What the state store holds: collections and mints, in the order they were written.
pub ghost struct StoreView {
    pub collections: Seq<CollectionModel>,
    pub mints: Seq<MintModel>,
}

/// Why the state store refused a write.
#[derive(Debug, Clone, Copy, PartialEq, Eq, Structural)]
pub enum DbErr {
    /// A record with the same identifier (or a collection with the same edition id) exists.
    DuplicateKey,
    /// The mint refers to a collection that does not exist.
    MissingCollection,
    /// No record has the identifier that was asked for.
    RecordNotFound,
}

/// Identifiers and edition ids are unique, and every mint belongs to a stored collection.
pub open spec fn store_wf(v: StoreView) -> bool {
    &&& forall|i: int, j: int|
        0 <= i < v.collections.len() && 0 <= j < v.collections.len() && i != j
            ==> #[trigger] v.collections[i].id != #[trigger] v.collections[j].id
                && v.collections[i].edition_id != v.collections[j].edition_id
    &&& forall|i: int, j: int|
        0 <= i < v.mints.len() && 0 <= j < v.mints.len() && i != j
            ==> #[trigger] v.mints[i].id != #[trigger] v.mints[j].id
    &&& forall|i: int|
        0 <= i < v.mints.len() ==> (#[trigger] lookup_collection(
            v.collections,
            v.mints[i].collection_id,
        )) is Some
}

/// The collection with identifier `id`, if there is one.
pub open spec fn lookup_collection(cs: Seq<CollectionModel>, id: u128) -> Option<CollectionModel> {
    if exists|i: int| 0 <= i < cs.len() && cs[i].id == id {
        Some(cs[choose|i: int| 0 <= i < cs.len() && cs[i].id == id])
    } else {
        None
    }
}

/// The mint with identifier `id`, if there is one.
pub open spec fn lookup_mint(ms: Seq<MintModel>, id: u128) -> Option<MintModel> {
    if exists|i: int| 0 <= i < ms.len() && ms[i].id == id {
        Some(ms[choose|i: int| 0 <= i < ms.len() && ms[i].id == id])
    } else {
        None
    }
}

/// The largest edition id among the collections, if there are any.
pub open spec fn max_edition_id(cs: Seq<CollectionModel>) -> Option<i32>
    decreases cs.len(),
{
    if cs.len() == 0 {
        None
    } else {
        let e = cs.last().edition_id;
        match max_edition_id(cs.drop_last()) {
            None => Some(e),
            Some(m) => Some(
                if m >= e {
                    m
                } else {
                    e
                },
            ),
        }
    }
}

/// The collection after its metadata fields were replaced.
pub open spec fn apply_metadata(c: CollectionModel, m: CollectionMetadata) -> CollectionModel {
    CollectionModel {
        id: c.id,
        edition_id: c.edition_id,
        fee_receiver: c.fee_receiver,
        owner: c.owner,
        creator: m.creator,
        uri: m.uri,
        name: m.name,
        description: m.description,
        image_uri: m.image_uri,
        created_at: c.created_at,
    }
}

/// The mint after its owner was replaced.
pub open spec fn with_owner(m: MintModel, owner: String) -> MintModel {
    MintModel {
        id: m.id,
        collection_id: m.collection_id,
        owner: owner,
        amount: m.amount,
        created_at: m.created_at,
    }
}

/// The mint is owned by `owner` and belongs to the collection with edition id `edition_id`.
pub open spec fn mint_matches(
    cs: Seq<CollectionModel>,
    m: MintModel,
    owner: Seq<char>,
    edition_id: int,
) -> bool {
    &&& m.owner@ == owner
    &&& lookup_collection(cs, m.collection_id) matches Some(c) && c.edition_id == edition_id
}

/// The matching mints among the first `n` mints, in store order.
pub open spec fn matching_mints(v: StoreView, owner: Seq<char>, edition_id: int, n: int) -> Seq<
    MintModel,
>
    decreases n,
{
    if n <= 0 {
        Seq::empty()
    } else {
        let prev = matching_mints(v, owner, edition_id, n - 1);
        if mint_matches(v.collections, v.mints[n - 1], owner, edition_id) {
            prev.push(v.mints[n - 1])
        } else {
            prev
        }
    }
}

/// At most `limit` mints of edition `edition_id` owned by `owner`, in store order.
pub open spec fn mints_for_edition(v: StoreView, owner: Seq<char>, edition_id: int, limit: int) -> Seq<
    MintModel,
> {
    let all = matching_mints(v, owner, edition_id, v.mints.len() as int);
    if all.len() <= limit {
        all
    } else {
        all.take(limit)
    }
}

/// Some mint of `ms` has identifier `id`.
pub open spec fn listed(ms: Seq<MintModel>, id: u128) -> bool {
    exists|j: int| 0 <= j < ms.len() && ms[j].id == id
}

/// The mints after every one listed in `chosen` was given to `owner`.
pub open spec fn transfer_listed(ms: Seq<MintModel>, chosen: Seq<MintModel>, owner: String) -> Seq<
    MintModel,
> {
    ms.map_values(
        |m: MintModel|
            if listed(chosen, m.id) {
                with_owner(m, owner)
            } else {
                m
            },
    )
}

pub proof fn lemma_lookup_collection_at(cs: Seq<CollectionModel>, k: int)
    requires
        0 <= k < cs.len(),
        forall|i: int, j: int|
            0 <= i < cs.len() && 0 <= j < cs.len() && i != j ==> #[trigger] cs[i].id
                != #[trigger] cs[j].id,
    ensures
        lookup_collection(cs, cs[k].id) == Some(cs[k]),
{
    let id = cs[k].id;
    assert(exists|i: int| 0 <= i < cs.len() && cs[i].id == id);
    let j = choose|i: int| 0 <= i < cs.len() && cs[i].id == id;
    assert(j == k);
}

pub proof fn lemma_lookup_mint_at(ms: Seq<MintModel>, k: int)
    requires
        0 <= k < ms.len(),
        forall|i: int, j: int|
            0 <= i < ms.len() && 0 <= j < ms.len() && i != j ==> #[trigger] ms[i].id
                != #[trigger] ms[j].id,
    ensures
        lookup_mint(ms, ms[k].id) == Some(ms[k]),
{
    let id = ms[k].id;
    assert(exists|i: int| 0 <= i < ms.len() && ms[i].id == id);
    let j = choose|i: int| 0 <= i < ms.len() && ms[i].id == id;
    assert(j == k);
}

pub proof fn lemma_max_edition_id_bounds(cs: Seq<CollectionModel>)
    ensures
        max_edition_id(cs) is None <==> cs.len() == 0,
        max_edition_id(cs) matches Some(m) ==> forall|i: int|
            0 <= i < cs.len() ==> #[trigger] cs[i].edition_id <= m,
    decreases cs.len(),
{
    if cs.len() > 0 {
        lemma_max_edition_id_bounds(cs.drop_last());
        assert forall|i: int| 0 <= i < cs.len() - 1 implies #[trigger] cs[i].edition_id
            == cs.drop_last()[i].edition_id by {}
    }
}

/// An in-memory state store of collections and mints.
pub struct Store {
    collections: Vec<CollectionModel>,
    mints: Vec<MintModel>,
}

impl View for Store {
    type V = StoreView;

    closed spec fn view(&self) -> StoreView {
        StoreView { collections: self.collections@, mints: self.mints@ }
    }
}

impl Store {
    pub open spec fn wf(&self) -> bool {
        store_wf(self@)
    }

    /// An empty store.
    pub fn new() -> (r: Store)
        ensures
            r@.collections.len() == 0,
            r@.mints.len() == 0,
            r.wf(),
    {
        Store { collections: Vec::new(), mints: Vec::new() }
    }

    fn collection_index(&self, id: u128) -> (r: Option<usize>)
        requires
            self.wf(),
        ensures
            match r {
                Some(k) => k < self@.collections.len() && self@.collections[k as int].id == id
                    && lookup_collection(self@.collections, id) == Some(
                    self@.collections[k as int],
                ),
                None => lookup_collection(self@.collections, id) is None,
            },
    {
        let mut i: usize = 0;
        while i < self.collections.len()
            invariant
                i <= self.collections@.len(),
                self.wf(),
                forall|j: int| 0 <= j < i ==> #[trigger] self.collections@[j].id != id,
            decreases self.collections@.len() - i,
        {
            if self.collections[i].id == id {
                proof {
                    lemma_lookup_collection_at(self@.collections, i as int);
                }
                return Some(i);
            }
            i = i + 1;
        }
        None
    }

    fn mint_index(&self, id: u128) -> (r: Option<usize>)
        requires
            self.wf(),
        ensures
            match r {
                Some(k) => k < self@.mints.len() && self@.mints[k as int].id == id && lookup_mint(
                    self@.mints,
                    id,
                ) == Some(self@.mints[k as int]),
                None => lookup_mint(self@.mints, id) is None,
            },
    {
        let mut i: usize = 0;
        while i < self.mints.len()
            invariant
                i <= self.mints@.len(),
                self.wf(),
                forall|j: int| 0 <= j < i ==> #[trigger] self.mints@[j].id != id,
            decreases self.mints@.len() - i,
        {
            if self.mints[i].id == id {
                proof {
                    lemma_lookup_mint_at(self@.mints, i as int);
                }
                return Some(i);
            }
            i = i + 1;
        }
        None
    }
}

/// The repository of collections.
pub struct Collection;

impl Collection {
    /// Stores a new collection; its identifier and its edition id must both be new.
    pub fn create(db: &mut Store, model: CollectionModel) -> (r: Result<CollectionModel, DbErr>)
        requires
            old(db).wf(),
        ensures
            final(db).wf(),
            r is Ok <==> (lookup_collection(old(db)@.collections, model.id) is None && forall|
                i: int,
            |
                0 <= i < old(db)@.collections.len() ==> #[trigger] old(
                    db,
                )@.collections[i].edition_id != model.edition_id),
            r is Ok ==> r == Ok::<CollectionModel, DbErr>(model) && final(db)@ == (StoreView {
                collections: old(db)@.collections.push(model),
                mints: old(db)@.mints,
            }),
            r is Err ==> r == Err::<CollectionModel, DbErr>(DbErr::DuplicateKey) && final(db)@
                == old(db)@,
    {
        if db.collection_index(model.id).is_some() {
            return Err(DbErr::DuplicateKey);
        }
        let mut i: usize = 0;
        while i < db.collections.len()
            invariant
                i <= db.collections@.len(),
                db.wf(),
                db@ == old(db)@,
                lookup_collection(db@.collections, model.id) is None,
                forall|j: int| 0 <= j < i ==> #[trigger] db.collections@[j].edition_id
                    != model.edition_id,
            decreases db.collections@.len() - i,
        {
            if db.collections[i].edition_id == model.edition_id {
                return Err(DbErr::DuplicateKey);
            }
            i = i + 1;
        }
        let ghost before = db@;
        let copy = model.duplicate();
        db.collections.push(model);
        proof {
            let cs = db@.collections;
            assert forall|a: int, b: int|
                0 <= a < cs.len() && 0 <= b < cs.len() && a != b implies #[trigger] cs[a].id
                != #[trigger] cs[b].id && cs[a].edition_id != cs[b].edition_id by {
                if a == cs.len() - 1 {
                    assert(cs[b] == before.collections[b]);
                    if cs[b].id == model.id {
                        assert(0 <= b < before.collections.len() && before.collections[b].id
                            == model.id);
                    }
                } else if b == cs.len() - 1 {
                    assert(cs[a] == before.collections[a]);
                    if cs[a].id == model.id {
                        assert(0 <= a < before.collections.len() && before.collections[a].id
                            == model.id);
                    }
                }
            }
            assert forall|k: int| 0 <= k < db@.mints.len() implies (#[trigger] lookup_collection(
                cs,
                db@.mints[k].collection_id,
            )) is Some by {
                let cid = db@.mints[k].collection_id;
                assert(lookup_collection(before.collections, cid) is Some);
                let w = choose|x: int|
                    0 <= x < before.collections.len() && before.collections[x].id == cid;
                assert(cs[w].id == cid);
            }
        }
        Ok(copy)
    }

    /// Replaces the metadata fields of the collection with identifier `id`; nothing else changes.
    pub fn update(db: &mut Store, id: u128, meta: CollectionMetadata) -> (r: Result<
        CollectionModel,
        DbErr,
    >)
        requires
            old(db).wf(),
        ensures
            final(db).wf(),
            final(db)@.mints == old(db)@.mints,
            match lookup_collection(old(db)@.collections, id) {
                None => r == Err::<CollectionModel, DbErr>(DbErr::RecordNotFound) && final(db)@
                    == old(db)@,
                Some(c) => r == Ok::<CollectionModel, DbErr>(apply_metadata(c, meta))
                    && final(db)@.collections == old(db)@.collections.map_values(
                    |x: CollectionModel|
                        if x.id == id {
                            apply_metadata(x, meta)
                        } else {
                            x
                        },
                ),
            },
    {
        match db.collection_index(id) {
            None => Err(DbErr::RecordNotFound),
            Some(k) => {
                let ghost before = db@;
                let c = &db.collections[k];
                let updated = CollectionModel {
                    id: c.id,
                    edition_id: c.edition_id,
                    fee_receiver: c.fee_receiver.clone(),
                    owner: c.owner.clone(),
                    creator: meta.creator,
                    uri: meta.uri,
                    name: meta.name,
                    description: meta.description,
                    image_uri: meta.image_uri,
                    created_at: c.created_at,
                };
                let copy = updated.duplicate();
                db.collections.set(k, updated);
                proof {
                    let cs = db@.collections;
                    assert(cs =~= before.collections.map_values(
                        |x: CollectionModel|
                            if x.id == id {
                                apply_metadata(x, meta)
                            } else {
                                x
                            },
                    ));
                    assert forall|m: int| 0 <= m < db@.mints.len() implies (#[trigger] lookup_collection(
                        cs,
                        db@.mints[m].collection_id,
                    )) is Some by {
                        let cid = db@.mints[m].collection_id;
                        assert(lookup_collection(before.collections, cid) is Some);
                        let w = choose|x: int|
                            0 <= x < before.collections.len() && before.collections[x].id == cid;
                        assert(cs[w].id == cid);
                    }
                }
                Ok(copy)
            },
        }
    }

    /// The collection with identifier `id`, if there is one.
    pub fn find_by_id(db: &Store, id: u128) -> (r: Option<CollectionModel>)
        requires
            db.wf(),
        ensures
            r == lookup_collection(db@.collections, id),
    {
        match db.collection_index(id) {
            None => None,
            Some(k) => Some(db.collections[k].duplicate()),
        }
    }

    /// The largest edition id in the store, if there is any collection.
    pub fn find_max_edition_id(db: &Store) -> (r: Option<i32>)
        ensures
            r == max_edition_id(db@.collections),
    {
        let mut best: Option<i32> = None;
        let mut i: usize = 0;
        while i < db.collections.len()
            invariant
                i <= db.collections@.len(),
                best == max_edition_id(db.collections@.take(i as int)),
            decreases db.collections@.len() - i,
        {
            let e = db.collections[i].edition_id;
            assert(db.collections@.take(i + 1).drop_last() =~= db.collections@.take(i as int));
            best = match best {
                None => Some(e),
                Some(m) => Some(
                    if m >= e {
                        m
                    } else {
                        e
                    },
                ),
            };
            i = i + 1;
        }
        assert(db.collections@.take(i as int) =~= db.collections@);
        best
    }

    /// The collection that the mint with identifier `mint_id` belongs to.
    pub fn find_by_mint_id(db: &Store, mint_id: u128) -> (r: Option<CollectionModel>)
        requires
            db.wf(),
        ensures
            r == match lookup_mint(db@.mints, mint_id) {
                None => None,
                Some(m) => lookup_collection(db@.collections, m.collection_id),
            },
    {
        match db.mint_index(mint_id) {
            None => None,
            Some(k) => Collection::find_by_id(db, db.mints[k].collection_id),
        }
    }
}

/// The repository of mints.
pub struct Mint;

impl Mint {
    /// Stores a new mint; its identifier must be new and its collection must exist.
    pub fn create(db: &mut Store, model: MintModel) -> (r: Result<MintModel, DbErr>)
        requires
            old(db).wf(),
        ensures
            final(db).wf(),
            lookup_mint(old(db)@.mints, model.id) is Some ==> r == Err::<MintModel, DbErr>(
                DbErr::DuplicateKey,
            ),
            lookup_mint(old(db)@.mints, model.id) is None && lookup_collection(
                old(db)@.collections,
                model.collection_id,
            ) is None ==> r == Err::<MintModel, DbErr>(DbErr::MissingCollection),
            r is Ok ==> r == Ok::<MintModel, DbErr>(model) && final(db)@ == (StoreView {
                collections: old(db)@.collections,
                mints: old(db)@.mints.push(model),
            }),
            r is Ok <==> lookup_mint(old(db)@.mints, model.id) is None && lookup_collection(
                old(db)@.collections,
                model.collection_id,
            ) is Some,
            r is Err ==> final(db)@ == old(db)@,
    {
        if db.mint_index(model.id).is_some() {
            return Err(DbErr::DuplicateKey);
        }
        if db.collection_index(model.collection_id).is_none() {
            return Err(DbErr::MissingCollection);
        }
        let ghost before = db@;
        let copy = model.duplicate();
        db.mints.push(model);
        proof {
            let ms = db@.mints;
            assert forall|i: int, j: int|
                0 <= i < ms.len() && 0 <= j < ms.len() && i != j implies #[trigger] ms[i].id
                != #[trigger] ms[j].id by {
                if i == ms.len() - 1 {
                    assert(ms[j] == before.mints[j]);
                } else if j == ms.len() - 1 {
                    assert(ms[i] == before.mints[i]);
                }
            }
            assert forall|k: int| 0 <= k < ms.len() implies (#[trigger] lookup_collection(
                db@.collections,
                ms[k].collection_id,
            )) is Some by {
                if k < ms.len() - 1 {
                    assert(ms[k] == before.mints[k]);
                }
            }
        }
        Ok(copy)
    }

    /// The mint with identifier `id`, if there is one.
    pub fn find_by_id(db: &Store, id: u128) -> (r: Option<MintModel>)
        requires
            db.wf(),
        ensures
            r == lookup_mint(db@.mints, id),
    {
        match db.mint_index(id) {
            None => None,
            Some(k) => Some(db.mints[k].duplicate()),
        }
    }

    /// The mint with identifier `id` and the collection it belongs to.
    pub fn find_with_collection(db: &Store, id: u128) -> (r: Result<
        (MintModel, Option<CollectionModel>),
        DbErr,
    >)
        requires
            db.wf(),
        ensures
            match lookup_mint(db@.mints, id) {
                None => r == Err::<(MintModel, Option<CollectionModel>), DbErr>(
                    DbErr::RecordNotFound,
                ),
                Some(m) => r == Ok::<(MintModel, Option<CollectionModel>), DbErr>(
                    (m, lookup_collection(db@.collections, m.collection_id)),
                ),
            },
    {
        match db.mint_index(id) {
            None => Err(DbErr::RecordNotFound),
            Some(k) => {
                let m = db.mints[k].duplicate();
                let c = Collection::find_by_id(db, m.collection_id);
                Ok((m, c))
            },
        }
    }
    /// At most `value` mints of the edition `edition_id` that `owner` holds, in store order.
    pub fn get_mints_for_edition(db: &Store, owner: &String, edition_id: u64, value: u64) -> (r: Vec<
        MintModel,
    >)
        requires
            db.wf(),
        ensures
            r@ == mints_for_edition(db@, owner@, edition_id as int, value as int),
    {
        let mut found: Vec<MintModel> = Vec::new();
        let mut i: usize = 0;
        while i < db.mints.len()
            invariant
                i <= db.mints@.len(),
                db.wf(),
                ({
                    let all = matching_mints(db@, owner@, edition_id as int, i as int);
                    found@ == if all.len() <= value as int {
                        all
                    } else {
                        all.take(value as int)
                    }
                }),
            decreases db.mints@.len() - i,
        {
            let ghost prev = matching_mints(db@, owner@, edition_id as int, i as int);
            let m = &db.mints[i];
            let mut hit = false;
            if m.owner == *owner {
                match db.collection_index(m.collection_id) {
                    Some(k) => {
                        let e = db.collections[k].edition_id;
                        hit = e >= 0 && e as u64 == edition_id;
                    },
                    None => {},
                }
            }
            assert(hit == mint_matches(db@.collections, db@.mints[i as int], owner@, edition_id as int));
            if hit && (found.len() as u64) < value {
                found.push(m.duplicate());
            }
            proof {
                let next = matching_mints(db@, owner@, edition_id as int, i + 1);
                if hit && prev.len() >= value as int {
                    assert(next.take(value as int) =~= prev.take(value as int));
                }
            }
            i = i + 1;
        }
        found
    }

    /// Gives every mint listed in `mints` to `new_owner`, all at once.
    pub fn update_owners(db: &mut Store, mints: &Vec<MintModel>, new_owner: &String)
        requires
            old(db).wf(),
        ensures
            final(db).wf(),
            final(db)@.collections == old(db)@.collections,
            final(db)@.mints == transfer_listed(old(db)@.mints, mints@, *new_owner),
    {
        let ghost before = db@;
        let ghost target = transfer_listed(before.mints, mints@, *new_owner);
        let mut i: usize = 0;
        while i < db.mints.len()
            invariant
                i <= db.mints@.len(),
                db.mints@.len() == before.mints.len(),
                db@.collections == before.collections,
                target == transfer_listed(before.mints, mints@, *new_owner),
                forall|j: int| 0 <= j < i ==> db.mints@[j] == #[trigger] target[j],
                forall|j: int| i <= j < db.mints@.len() ==> db.mints@[j] == #[trigger] before.mints[j],
            decreases db.mints@.len() - i,
        {
            let id = db.mints[i].id;
            let mut chosen = false;
            let mut k: usize = 0;
            while k < mints.len()
                invariant
                    k <= mints@.len(),
                    chosen == exists|j: int| 0 <= j < k && mints@[j].id == id,
                decreases mints@.len() - k,
            {
                if mints[k].id == id {
                    chosen = true;
                }
                k = k + 1;
            }
            assert(chosen == listed(mints@, id));
            if chosen {
                let m = &db.mints[i];
                let updated = MintModel {
                    id: m.id,
                    collection_id: m.collection_id,
                    owner: new_owner.clone(),
                    amount: m.amount,
                    created_at: m.created_at,
                };
                db.mints.set(i, updated);
            }
            assert(db.mints@[i as int] == target[i as int]);
            i = i + 1;
        }
        proof {
            assert(db@.mints =~= target);
            let ms = db@.mints;
            assert forall|a: int, b: int|
                0 <= a < ms.len() && 0 <= b < ms.len() && a != b implies #[trigger] ms[a].id
                != #[trigger] ms[b].id by {
                assert(ms[a].id == before.mints[a].id);
                assert(ms[b].id == before.mints[b].id);
            }
            assert forall|k: int| 0 <= k < ms.len() implies (#[trigger] lookup_collection(
                db@.collections,
                ms[k].collection_id,
            )) is Some by {
                assert(ms[k].collection_id == before.mints[k].collection_id);
            }
        }
    }
}

} // verus!
