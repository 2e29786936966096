use vstd::prelude::*;
use crate::records::{
    ExportInside, ExportInsideView, ExportOutside, ExportOutsideView, Inside, InsideView, Outside,
    OutsideView, insides_view, outside_with_id, outsides_view, strip_inside, strip_outside,
};

verus! {

/// What the two storage keys hold: each collection, or nothing where the key
/// was never written.
pub struct LocalStore {
    pub outside: Option<Vec<Outside>>,
    pub inside: Option<Vec<Inside>>,
}

pub ghost struct StoreView {
    pub outside: Option<Seq<OutsideView>>,
    pub inside: Option<Seq<InsideView>>,
}

impl View for LocalStore {
    type V = StoreView;

    open spec fn view(&self) -> StoreView {
        StoreView {
            outside: match self.outside {
                Some(v) => Some(outsides_view(v@)),
                None => None,
            },
            inside: match self.inside {
                Some(v) => Some(insides_view(v@)),
                None => None,
            },
        }
    }
}

/// Why a store operation failed.
#[derive(Debug, Clone, PartialEq, Eq)]
pub enum StoreError {
    /// No record has the identifier asked for.
    NotFound,
    /// The text is not JSON, or not a document of the expected shape; with
    /// the diagnostic.
    Parse(String),
    /// The storage medium refused a write; with its diagnostic.
    Write(String),
}

/// Both collections at once.
#[derive(Debug, Clone)]
pub struct StorageData {
    pub outside: Vec<Outside>,
    pub inside: Vec<Inside>,
}

/// Relies on uuid::Uuid::new_v4, a random identifier, in its hyphenated text
/// form of 36 characters.
#[verifier::external_body]
pub(crate) fn fresh_id() -> (r: String)
    ensures
        r@.len() == 36,
{
    uuid::Uuid::new_v4().to_string()
}

/// The sample outside record that a new store starts with.
pub open spec fn default_outside() -> ExportOutsideView {
    ExportOutsideView {
        name: "Rust Programming Language"@,
        context: "A systems programming language focused on safety, speed, and concurrency. Rust prevents common bugs like null pointer dereferences and buffer overflows through its ownership system, making it ideal for building reliable software without sacrificing performance."@,
        url: "https://www.rust-lang.org/"@,
        percentage: 90,
    }
}

/// The sample inside record that a new store starts with.
pub open spec fn default_inside() -> ExportInsideView {
    ExportInsideView {
        date: "2024-01-01 10:00:00"@,
        context: "Finally learned how to use cargo! Running 'cargo new my_project' creates such a clean project structure. I love how it automatically sets up the Cargo.toml and src/main.rs. The fact that it initializes a git repo by default is really thoughtful. This feels so much more organized than other languages I've tried."@,
    }
}

/// An identifier the store generated: a random uuid in its hyphenated form,
/// 36 characters. Which one is drawn is up to chance.
pub open spec fn minted_id(id: Seq<char>) -> bool {
    id.len() == 36
}

pub open spec fn outside_ids_minted(s: Seq<OutsideView>) -> bool {
    forall|k: int| 0 <= k < s.len() ==> minted_id(#[trigger] s[k].uuid)
}

pub open spec fn inside_ids_minted(s: Seq<InsideView>) -> bool {
    forall|k: int| 0 <= k < s.len() ==> minted_id(#[trigger] s[k].uuid)
}

/// The default outside collection: the sample record, under a generated
/// identifier.
pub open spec fn is_default_outsides(s: Seq<OutsideView>) -> bool {
    s.len() == 1 && strip_outside(s[0]) == default_outside() && minted_id(s[0].uuid)
}

/// The default inside collection: the sample record, under a generated
/// identifier.
pub open spec fn is_default_insides(s: Seq<InsideView>) -> bool {
    s.len() == 1 && strip_inside(s[0]) == default_inside() && minted_id(s[0].uuid)
}

/// What reading a slot yields: what it holds, or the defaults where it is
/// empty.
pub open spec fn loaded_outsides(slot: Option<Seq<OutsideView>>, s: Seq<OutsideView>) -> bool {
    match slot {
        Some(held) => s == held,
        None => is_default_outsides(s),
    }
}

/// What reading a slot yields: what it holds, or the defaults where it is
/// empty.
pub open spec fn loaded_insides(slot: Option<Seq<InsideView>>, s: Seq<InsideView>) -> bool {
    match slot {
        Some(held) => s == held,
        None => is_default_insides(s),
    }
}

/// A read of the outside collection: it returns `r`, and an empty slot is
/// filled with what was returned.
pub open spec fn read_outsides(pre: StoreView, post: StoreView, r: Seq<OutsideView>) -> bool {
    &&& loaded_outsides(pre.outside, r)
    &&& post.outside == Some(r)
    &&& post.inside == pre.inside
}

/// A read of the inside collection: it returns `r`, and an empty slot is
/// filled with what was returned.
pub open spec fn read_insides(pre: StoreView, post: StoreView, r: Seq<InsideView>) -> bool {
    &&& loaded_insides(pre.inside, r)
    &&& post.inside == Some(r)
    &&& post.outside == pre.outside
}

fn default_outside_record() -> (r: Outside)
    ensures
        strip_outside(r@) == default_outside(),
        minted_id(r@.uuid),
{
    ExportOutside {
        name: "Rust Programming Language".to_owned(),
        context: "A systems programming language focused on safety, speed, and concurrency. Rust prevents common bugs like null pointer dereferences and buffer overflows through its ownership system, making it ideal for building reliable software without sacrificing performance.".to_owned(),
        url: "https://www.rust-lang.org/".to_owned(),
        percentage: 90,
    }.with_id(fresh_id())
}

fn default_inside_record() -> (r: Inside)
    ensures
        strip_inside(r@) == default_inside(),
        minted_id(r@.uuid),
{
    ExportInside {
        date: "2024-01-01 10:00:00".to_owned(),
        context: "Finally learned how to use cargo! Running 'cargo new my_project' creates such a clean project structure. I love how it automatically sets up the Cargo.toml and src/main.rs. The fact that it initializes a git repo by default is really thoughtful. This feels so much more organized than other languages I've tried.".to_owned(),
    }.with_id(fresh_id())
}

impl Default for StorageData {
    /// The sample content: one record in each collection, each under a fresh
    /// identifier.
    fn default() -> (r: StorageData)
        ensures
            is_default_outsides(outsides_view(r.outside@)),
            is_default_insides(insides_view(r.inside@)),
    {
        let outside = vec![default_outside_record()];
        let inside = vec![default_inside_record()];
        StorageData { outside, inside }
    }
}

fn copy_outsides(v: &Vec<Outside>) -> (r: Vec<Outside>)
    ensures
        outsides_view(r@) == outsides_view(v@),
{
    let mut out: Vec<Outside> = Vec::new();
    let mut i: usize = 0;
    while i < v.len()
        invariant
            i <= v.len(),
            out@.len() == i,
            forall|k: int| 0 <= k < i ==> (#[trigger] out@[k])@ == v@[k]@,
        decreases v.len() - i,
    {
        out.push(v[i].duplicate());
        i = i + 1;
    }
    assert(outsides_view(out@) =~= outsides_view(v@));
    out
}

fn copy_insides(v: &Vec<Inside>) -> (r: Vec<Inside>)
    ensures
        insides_view(r@) == insides_view(v@),
{
    let mut out: Vec<Inside> = Vec::new();
    let mut i: usize = 0;
    while i < v.len()
        invariant
            i <= v.len(),
            out@.len() == i,
            forall|k: int| 0 <= k < i ==> (#[trigger] out@[k])@ == v@[k]@,
        decreases v.len() - i,
    {
        out.push(v[i].duplicate());
        i = i + 1;
    }
    assert(insides_view(out@) =~= insides_view(v@));
    out
}

impl LocalStore {
    /// A store whose keys were never written.
    pub fn new() -> (r: LocalStore)
        ensures
            r@.outside is None,
            r@.inside is None,
    {
        LocalStore { outside: None, inside: None }
    }
}

/// The outside collection as stored; where nothing is stored yet, the
/// default collection, which is stored first.
pub fn get_outsides(store: &mut LocalStore) -> (r: Vec<Outside>)
    ensures
        read_outsides(old(store)@, final(store)@, outsides_view(r@)),
{
    match &store.outside {
        Some(v) => copy_outsides(v),
        None => {
            let d = StorageData::default();
            store.outside = Some(copy_outsides(&d.outside));
            d.outside
        },
    }
}

/// The inside collection as stored; where nothing is stored yet, the
/// default collection, which is stored first.
pub fn get_insides(store: &mut LocalStore) -> (r: Vec<Inside>)
    ensures
        read_insides(old(store)@, final(store)@, insides_view(r@)),
{
    match &store.inside {
        Some(v) => copy_insides(v),
        None => {
            let d = StorageData::default();
            store.inside = Some(copy_insides(&d.inside));
            d.inside
        },
    }
}

/// Stores the whole outside collection.
pub fn save_outsides(store: &mut LocalStore, outsides: &Vec<Outside>) -> (r: Result<(), StoreError>)
    ensures
        r is Ok,
        final(store)@.outside == Some(outsides_view(outsides@)),
        final(store)@.inside == old(store)@.inside,
{
    store.outside = Some(copy_outsides(outsides));
    Ok(())
}

/// Stores the whole inside collection.
pub fn save_insides(store: &mut LocalStore, insides: &Vec<Inside>) -> (r: Result<(), StoreError>)
    ensures
        r is Ok,
        final(store)@.inside == Some(insides_view(insides@)),
        final(store)@.outside == old(store)@.outside,
{
    store.inside = Some(copy_insides(insides));
    Ok(())
}

pub open spec fn outside_ids(s: Seq<OutsideView>) -> Seq<Seq<char>> {
    s.map_values(|o: OutsideView| o.uuid)
}

pub open spec fn inside_ids(s: Seq<InsideView>) -> Seq<Seq<char>> {
    s.map_values(|i: InsideView| i.uuid)
}

/// An add: the collection as read, then the new record at its end under a
/// new identifier.
pub open spec fn added_outside(pre: StoreView, post: StoreView, e: ExportOutsideView) -> bool {
    &&& post.inside == pre.inside
    &&& post.outside is Some
    &&& post.outside.unwrap().len() > 0
    &&& loaded_outsides(pre.outside, post.outside.unwrap().drop_last())
    &&& strip_outside(post.outside.unwrap().last()) == e
    &&& minted_id(post.outside.unwrap().last().uuid)
}

/// An add: the collection as read, then the new record at its end under a
/// new identifier.
pub open spec fn added_inside(pre: StoreView, post: StoreView, e: ExportInsideView) -> bool {
    &&& post.outside == pre.outside
    &&& post.inside is Some
    &&& post.inside.unwrap().len() > 0
    &&& loaded_insides(pre.inside, post.inside.unwrap().drop_last())
    &&& strip_inside(post.inside.unwrap().last()) == e
    &&& minted_id(post.inside.unwrap().last().uuid)
}

/// The collection with the first record of identifier `id` given the fields
/// `e`, if there is such a record.
pub open spec fn outsides_updated(s: Seq<OutsideView>, id: Seq<char>, e: ExportOutsideView) -> Option<
    Seq<OutsideView>,
> {
    match outside_ids(s).index_of_first(id) {
        Some(k) => Some(s.update(k, outside_with_id(id, e))),
        None => None,
    }
}

/// The collection with the first record of identifier `id` given the
/// context `context`, its date kept, if there is such a record.
pub open spec fn insides_updated(s: Seq<InsideView>, id: Seq<char>, context: Seq<char>) -> Option<
    Seq<InsideView>,
> {
    match inside_ids(s).index_of_first(id) {
        Some(k) => Some(s.update(k, InsideView { uuid: id, date: s[k].date, context })),
        None => None,
    }
}

pub open spec fn outsides_without(s: Seq<OutsideView>, id: Seq<char>) -> Seq<OutsideView> {
    s.filter(|o: OutsideView| o.uuid != id)
}

pub open spec fn insides_without(s: Seq<InsideView>, id: Seq<char>) -> Seq<InsideView> {
    s.filter(|i: InsideView| i.uuid != id)
}

/// Adds a record at the end of the outside collection, under a new
/// identifier.
pub fn add_outside(store: &mut LocalStore, outside: ExportOutside) -> (r: Result<(), StoreError>)
    ensures
        r is Ok,
        added_outside(old(store)@, final(store)@, outside@),
{
    let mut outsides = get_outsides(store);
    let ghost base = outsides_view(outsides@);
    outsides.push(outside.with_id(fresh_id()));
    assert(outsides_view(outsides@).drop_last() =~= base);
    save_outsides(store, &outsides)
}

/// Adds a record at the end of the inside collection, under a new
/// identifier.
pub fn add_inside(store: &mut LocalStore, inside: ExportInside) -> (r: Result<(), StoreError>)
    ensures
        r is Ok,
        added_inside(old(store)@, final(store)@, inside@),
{
    let mut insides = get_insides(store);
    let ghost base = insides_view(insides@);
    insides.push(inside.with_id(fresh_id()));
    assert(insides_view(insides@).drop_last() =~= base);
    save_insides(store, &insides)
}

fn position_of_outside(v: &Vec<Outside>, id: &String) -> (r: Option<usize>)
    ensures
        r matches Some(k) ==> k < v.len() && outside_ids(outsides_view(v@)).index_of_first(id@)
            == Some(k as int),
        r is None ==> outside_ids(outsides_view(v@)).index_of_first(id@) is None,
{
    let ghost ids = outside_ids(outsides_view(v@));
    let mut i: usize = 0;
    while i < v.len()
        invariant
            i <= v.len(),
            ids == outside_ids(outsides_view(v@)),
            forall|k: int| 0 <= k < i ==> ids[k] != id@,
        decreases v.len() - i,
    {
        if v[i].uuid == *id {
            assert(ids[i as int] == id@);
            assert(ids.contains(id@));
            proof {
                ids.index_of_first_ensures(id@);
                let idx = ids.index_of_first(id@).unwrap();
                if (i as int) < idx {
                    assert(ids[i as int] != id@);
                }
            }
            return Some(i);
        }
        i = i + 1;
    }
    proof {
        ids.index_of_first_ensures(id@);
    }
    None
}

fn position_of_inside(v: &Vec<Inside>, id: &String) -> (r: Option<usize>)
    ensures
        r matches Some(k) ==> k < v.len() && inside_ids(insides_view(v@)).index_of_first(id@) == Some(
            k as int,
        ),
        r is None ==> inside_ids(insides_view(v@)).index_of_first(id@) is None,
{
    let ghost ids = inside_ids(insides_view(v@));
    let mut i: usize = 0;
    while i < v.len()
        invariant
            i <= v.len(),
            ids == inside_ids(insides_view(v@)),
            forall|k: int| 0 <= k < i ==> ids[k] != id@,
        decreases v.len() - i,
    {
        if v[i].uuid == *id {
            assert(ids[i as int] == id@);
            assert(ids.contains(id@));
            proof {
                ids.index_of_first_ensures(id@);
                let idx = ids.index_of_first(id@).unwrap();
                if (i as int) < idx {
                    assert(ids[i as int] != id@);
                }
            }
            return Some(i);
        }
        i = i + 1;
    }
    proof {
        ids.index_of_first_ensures(id@);
    }
    None
}

/// An update of an outside record: on the collection as read, the first
/// record with identifier `id` takes the fields `e`; where there is none,
/// `NotFound` and nothing more is written.
pub open spec fn updated_outside(
    pre: StoreView,
    post: StoreView,
    id: Seq<char>,
    e: ExportOutsideView,
    r: Result<(), StoreError>,
) -> bool {
    &&& post.inside == pre.inside
    &&& match pre.outside {
        Some(held) => match outsides_updated(held, id, e) {
            Some(changed) => r is Ok && post.outside == Some(changed),
            None => r == Err::<(), StoreError>(StoreError::NotFound) && post.outside == Some(held),
        },
        None => match r {
            Ok(_) => post.outside == Some(seq![outside_with_id(id, e)]),
            Err(err) => err == StoreError::NotFound && post.outside is Some && is_default_outsides(
                post.outside.unwrap(),
            ),
        },
    }
}

/// An update of an inside record: on the collection as read, the first
/// record with identifier `id` takes the context `context` and keeps its
/// date; where there is none, `NotFound` and nothing more is written.
pub open spec fn updated_inside(
    pre: StoreView,
    post: StoreView,
    id: Seq<char>,
    context: Seq<char>,
    r: Result<(), StoreError>,
) -> bool {
    &&& post.outside == pre.outside
    &&& match pre.inside {
        Some(held) => match insides_updated(held, id, context) {
            Some(changed) => r is Ok && post.inside == Some(changed),
            None => r == Err::<(), StoreError>(StoreError::NotFound) && post.inside == Some(held),
        },
        None => match r {
            Ok(_) => post.inside == Some(
                seq![InsideView { uuid: id, date: default_inside().date, context }],
            ),
            Err(err) => err == StoreError::NotFound && post.inside is Some && is_default_insides(
                post.inside.unwrap(),
            ),
        },
    }
}

/// A delete: the collection as read, without the records of identifier
/// `id`.
pub open spec fn deleted_outside(pre: StoreView, post: StoreView, id: Seq<char>) -> bool {
    &&& post.inside == pre.inside
    &&& match pre.outside {
        Some(held) => post.outside == Some(outsides_without(held, id)),
        None => post.outside is Some && (post.outside.unwrap().len() == 0 || (is_default_outsides(
            post.outside.unwrap(),
        ) && post.outside.unwrap()[0].uuid != id)),
    }
}

/// A delete: the collection as read, without the records of identifier
/// `id`.
pub open spec fn deleted_inside(pre: StoreView, post: StoreView, id: Seq<char>) -> bool {
    &&& post.outside == pre.outside
    &&& match pre.inside {
        Some(held) => post.inside == Some(insides_without(held, id)),
        None => post.inside is Some && (post.inside.unwrap().len() == 0 || (is_default_insides(
            post.inside.unwrap(),
        ) && post.inside.unwrap()[0].uuid != id)),
    }
}

/// Gives the first outside record of identifier `uuid` the fields of
/// `updated`; its identifier stays.
pub fn update_outside(store: &mut LocalStore, uuid: &str, updated: ExportOutside) -> (r: Result<
    (),
    StoreError,
>)
    ensures
        updated_outside(old(store)@, final(store)@, uuid@, updated@, r),
{
    let mut outsides = get_outsides(store);
    let ghost base = outsides_view(outsides@);
    let id = uuid.to_owned();
    match position_of_outside(&outsides, &id) {
        Some(k) => {
            outsides[k] = updated.with_id(id);
            assert(outsides_view(outsides@) =~= base.update(k as int, outside_with_id(uuid@, updated@)));
            assert(base.len() == 1 ==> base.update(k as int, outside_with_id(uuid@, updated@)) =~= seq![
                outside_with_id(uuid@, updated@),
            ]);
            save_outsides(store, &outsides)
        },
        None => Err(StoreError::NotFound),
    }
}

/// Gives the first inside record of identifier `uuid` the context of
/// `updated`; its identifier and its date stay, whatever date `updated`
/// holds.
pub fn update_inside(store: &mut LocalStore, uuid: &str, updated: ExportInside) -> (r: Result<
    (),
    StoreError,
>)
    ensures
        updated_inside(old(store)@, final(store)@, uuid@, updated.context@, r),
{
    let mut insides = get_insides(store);
    let ghost base = insides_view(insides@);
    let id = uuid.to_owned();
    match position_of_inside(&insides, &id) {
        Some(k) => {
            let date = insides[k].date.clone();
            insides[k] = Inside { uuid: id, date, context: updated.context };
            assert(insides_view(insides@) =~= base.update(
                k as int,
                InsideView { uuid: uuid@, date: base[k as int].date, context: updated.context@ },
            ));
            assert(base.len() == 1 ==> insides_view(insides@) =~= seq![
                InsideView { uuid: uuid@, date: base[0].date, context: updated.context@ },
            ]);
            save_insides(store, &insides)
        },
        None => Err(StoreError::NotFound),
    }
}

fn outsides_filtered(v: &Vec<Outside>, id: &String) -> (r: Vec<Outside>)
    ensures
        outsides_view(r@) == outsides_without(outsides_view(v@), id@),
{
    let ghost s = outsides_view(v@);
    let mut out: Vec<Outside> = Vec::new();
    let mut i: usize = 0;
    while i < v.len()
        invariant
            i <= v.len(),
            s == outsides_view(v@),
            outsides_view(out@) == outsides_without(s.take(i as int), id@),
        decreases v.len() - i,
    {
        reveal(Seq::filter);
        assert(s.take(i + 1).drop_last() =~= s.take(i as int));
        if v[i].uuid != *id {
            out.push(v[i].duplicate());
            assert(outsides_view(out@) =~= outsides_without(s.take(i as int), id@).push(s[i as int]));
        }
        i = i + 1;
    }
    assert(s.take(v.len() as int) =~= s);
    out
}

fn insides_filtered(v: &Vec<Inside>, id: &String) -> (r: Vec<Inside>)
    ensures
        insides_view(r@) == insides_without(insides_view(v@), id@),
{
    let ghost s = insides_view(v@);
    let mut out: Vec<Inside> = Vec::new();
    let mut i: usize = 0;
    while i < v.len()
        invariant
            i <= v.len(),
            s == insides_view(v@),
            insides_view(out@) == insides_without(s.take(i as int), id@),
        decreases v.len() - i,
    {
        reveal(Seq::filter);
        assert(s.take(i + 1).drop_last() =~= s.take(i as int));
        if v[i].uuid != *id {
            out.push(v[i].duplicate());
            assert(insides_view(out@) =~= insides_without(s.take(i as int), id@).push(s[i as int]));
        }
        i = i + 1;
    }
    assert(s.take(v.len() as int) =~= s);
    out
}

/// Removes every outside record of identifier `uuid`; none is no error.
pub fn delete_outside(store: &mut LocalStore, uuid: &str) -> (r: Result<(), StoreError>)
    ensures
        r is Ok,
        deleted_outside(old(store)@, final(store)@, uuid@),
{
    let outsides = get_outsides(store);
    let id = uuid.to_owned();
    let kept = outsides_filtered(&outsides, &id);
    proof {
        reveal_with_fuel(Seq::filter, 2);
    }
    save_outsides(store, &kept)
}

/// Removes every inside record of identifier `uuid`; none is no error.
pub fn delete_inside(store: &mut LocalStore, uuid: &str) -> (r: Result<(), StoreError>)
    ensures
        r is Ok,
        deleted_inside(old(store)@, final(store)@, uuid@),
{
    let insides = get_insides(store);
    let id = uuid.to_owned();
    let kept = insides_filtered(&insides, &id);
    proof {
        reveal_with_fuel(Seq::filter, 2);
    }
    save_insides(store, &kept)
}

/// Writes the sample content over both collections, each record under a
/// fresh identifier.
pub fn reset_to_defaults(store: &mut LocalStore) -> (r: Result<(), StoreError>)
    ensures
        r is Ok,
        final(store)@.outside matches Some(o) && is_default_outsides(o),
        final(store)@.inside matches Some(i) && is_default_insides(i),
{
    let default_data = StorageData::default();
    save_outsides(store, &default_data.outside)?;
    save_insides(store, &default_data.inside)?;
    Ok(())
}

/// Reading an empty slot twice in a row returns the same default collection
/// both times, and the second read writes nothing.
pub proof fn lemma_bootstrap_idempotent(
    s0: StoreView,
    s1: StoreView,
    r1: Seq<OutsideView>,
    s2: StoreView,
    r2: Seq<OutsideView>,
    t1: StoreView,
    q1: Seq<InsideView>,
    t2: StoreView,
    q2: Seq<InsideView>,
)
    requires
        s0.outside is None,
        read_outsides(s0, s1, r1),
        read_outsides(s1, s2, r2),
        s0.inside is None,
        read_insides(s0, t1, q1),
        read_insides(t1, t2, q2),
    ensures
        is_default_outsides(r1),
        r2 == r1,
        s2 == s1,
        is_default_insides(q1),
        q2 == q1,
        t2 == t1,
{
}

pub open spec fn ids_distinct(ids: Seq<Seq<char>>) -> bool {
    forall|i: int, j: int| 0 <= i < j < ids.len() ==> ids[i] != ids[j]
}

/// An add keeps the identifiers of the outside collection distinct, where the
/// identifier drawn for the new record is not one already in use.
pub proof fn lemma_add_outside_keeps_ids_distinct(pre: StoreView, post: StoreView, e: ExportOutsideView)
    requires
        added_outside(pre, post, e),
        ids_distinct(outside_ids(post.outside.unwrap().drop_last())),
        !outside_ids(post.outside.unwrap().drop_last()).contains(post.outside.unwrap().last().uuid),
    ensures
        ids_distinct(outside_ids(post.outside.unwrap())),
{
    let s = post.outside.unwrap();
    let d = s.drop_last();
    assert forall|i: int, j: int| 0 <= i < j < s.len() implies outside_ids(s)[i] != outside_ids(s)[j] by {
        if j == s.len() - 1 {
            assert(outside_ids(d)[i] == outside_ids(s)[i]);
        } else {
            assert(outside_ids(d)[i] == outside_ids(s)[i]);
            assert(outside_ids(d)[j] == outside_ids(s)[j]);
        }
    }
}

/// An add keeps the identifiers of the inside collection distinct, where the
/// identifier drawn for the new record is not one already in use.
pub proof fn lemma_add_inside_keeps_ids_distinct(pre: StoreView, post: StoreView, e: ExportInsideView)
    requires
        added_inside(pre, post, e),
        ids_distinct(inside_ids(post.inside.unwrap().drop_last())),
        !inside_ids(post.inside.unwrap().drop_last()).contains(post.inside.unwrap().last().uuid),
    ensures
        ids_distinct(inside_ids(post.inside.unwrap())),
{
    let s = post.inside.unwrap();
    let d = s.drop_last();
    assert forall|i: int, j: int| 0 <= i < j < s.len() implies inside_ids(s)[i] != inside_ids(s)[j] by {
        if j == s.len() - 1 {
            assert(inside_ids(d)[i] == inside_ids(s)[i]);
        } else {
            assert(inside_ids(d)[i] == inside_ids(s)[i]);
            assert(inside_ids(d)[j] == inside_ids(s)[j]);
        }
    }
}

proof fn lemma_filter_keeps_all<T>(s: Seq<T>, pred: spec_fn(T) -> bool)
    requires
        forall|k: int| 0 <= k < s.len() ==> pred(#[trigger] s[k]),
    ensures
        s.filter(pred) == s,
    decreases s.len(),
{
    reveal(Seq::filter);
    if s.len() > 0 {
        let d = s.drop_last();
        assert forall|k: int| 0 <= k < d.len() implies pred(#[trigger] d[k]) by {
            assert(d[k] == s[k]);
        }
        lemma_filter_keeps_all(d, pred);
        assert(pred(s[s.len() - 1]));
        assert(d.push(s.last()) =~= s);
    }
}

/// Deleting an identifier that no stored record has succeeds and leaves the
/// stored collections as they were.
pub proof fn lemma_delete_absent(pre: StoreView, post: StoreView, post2: StoreView, id: Seq<char>)
    requires
        pre.outside is Some,
        !outside_ids(pre.outside.unwrap()).contains(id),
        deleted_outside(pre, post, id),
        pre.inside is Some,
        !inside_ids(pre.inside.unwrap()).contains(id),
        deleted_inside(pre, post2, id),
    ensures
        post == pre,
        post2 == pre,
{
    let o = pre.outside.unwrap();
    let i = pre.inside.unwrap();
    assert forall|k: int| 0 <= k < o.len() implies (|x: OutsideView| x.uuid != id)(#[trigger] o[k]) by {
        assert(outside_ids(o)[k] == o[k].uuid);
    }
    assert forall|k: int| 0 <= k < i.len() implies (|x: InsideView| x.uuid != id)(#[trigger] i[k]) by {
        assert(inside_ids(i)[k] == i[k].uuid);
    }
    lemma_filter_keeps_all(o, |x: OutsideView| x.uuid != id);
    lemma_filter_keeps_all(i, |x: InsideView| x.uuid != id);
}

} // verus!
