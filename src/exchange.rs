use vstd::prelude::*;
use crate::codec::{
    ExportData, ExportDataView, InsideOnlyData, OutsideOnlyData, decode_export_data,
    decode_inside_only, decode_outside_only, encode_export_data, export_doc, export_json,
    inside_list, outside_list,
};
use crate::json::{parse_json, parsed_json, pretty_text, render_pretty};
use crate::order::{by_date, by_percentage, sort_insides, sort_outsides, stable_sort};
use crate::records::{
    ExportInside, ExportInsideView, ExportOutside, ExportOutsideView, Inside, InsideView, Outside,
    OutsideView, export_insides_view, export_outsides_view, insides_view, outsides_view,
    strip_insides, strip_outsides,
};
use crate::store::{
    LocalStore, StoreError, StoreView, fresh_id, get_insides, get_outsides, loaded_insides,
    loaded_outsides, save_insides, save_outsides, minted_id, outside_ids_minted, inside_ids_minted,
};

verus! {

/// The document that a store exports: both collections without identifiers,
/// outside records by percentage, highest first, inside records by date,
/// latest first.
pub open spec fn export_view(s: StoreView) -> ExportDataView {
    ExportDataView {
        outside: stable_sort(strip_outsides(s.outside.unwrap()), by_percentage()),
        inside: stable_sort(strip_insides(s.inside.unwrap()), by_date()),
    }
}

/// An export: both collections are read, and the document is made of what
/// was read.
pub open spec fn exported(pre: StoreView, post: StoreView, d: ExportDataView) -> bool {
    &&& post.outside is Some
    &&& post.inside is Some
    &&& loaded_outsides(pre.outside, post.outside.unwrap())
    &&& loaded_insides(pre.inside, post.inside.unwrap())
    &&& d == export_view(post)
}

/// The collection that replaces another: the records given, each under a new
/// identifier.
pub open spec fn replaced_outsides(after: Option<Seq<OutsideView>>, given: Seq<ExportOutsideView>) -> bool {
    after is Some && strip_outsides(after.unwrap()) == given && outside_ids_minted(after.unwrap())
}

/// The collection that replaces another: the records given, each under a new
/// identifier.
pub open spec fn replaced_insides(after: Option<Seq<InsideView>>, given: Seq<ExportInsideView>) -> bool {
    after is Some && strip_insides(after.unwrap()) == given && inside_ids_minted(after.unwrap())
}

/// A collection extended: the collection as read, then the records given,
/// each under a new identifier.
pub open spec fn appended_outsides(
    slot: Option<Seq<OutsideView>>,
    after: Option<Seq<OutsideView>>,
    given: Seq<ExportOutsideView>,
) -> bool {
    &&& after is Some
    &&& after.unwrap().len() >= given.len()
    &&& loaded_outsides(slot, after.unwrap().take(after.unwrap().len() - given.len()))
    &&& strip_outsides(after.unwrap().skip(after.unwrap().len() - given.len())) == given
    &&& outside_ids_minted(after.unwrap().skip(after.unwrap().len() - given.len()))
}

/// A collection extended: the collection as read, then the records given,
/// each under a new identifier.
pub open spec fn appended_insides(
    slot: Option<Seq<InsideView>>,
    after: Option<Seq<InsideView>>,
    given: Seq<ExportInsideView>,
) -> bool {
    &&& after is Some
    &&& after.unwrap().len() >= given.len()
    &&& loaded_insides(slot, after.unwrap().take(after.unwrap().len() - given.len()))
    &&& strip_insides(after.unwrap().skip(after.unwrap().len() - given.len())) == given
    &&& inside_ids_minted(after.unwrap().skip(after.unwrap().len() - given.len()))
}

/// The full document that a text holds, if it is one.
pub open spec fn full_document(text: Seq<char>) -> Option<ExportDataView> {
    match parsed_json(text) {
        Some(m) => export_doc(m),
        None => None,
    }
}

/// The outside records that a text holds, if it is such a document.
pub open spec fn outside_document(text: Seq<char>) -> Option<Seq<ExportOutsideView>> {
    match parsed_json(text) {
        Some(m) => outside_list(m),
        None => None,
    }
}

/// The inside records that a text holds, if it is such a document.
pub open spec fn inside_document(text: Seq<char>) -> Option<Seq<ExportInsideView>> {
    match parsed_json(text) {
        Some(m) => inside_list(m),
        None => None,
    }
}

fn strip_all_outsides(v: &Vec<Outside>) -> (r: Vec<ExportOutside>)
    ensures
        export_outsides_view(r@) == strip_outsides(outsides_view(v@)),
{
    let mut out: Vec<ExportOutside> = Vec::new();
    let mut i: usize = 0;
    while i < v.len()
        invariant
            i <= v.len(),
            out@.len() == i,
            forall|k: int| 0 <= k < i ==> (#[trigger] out@[k])@ == crate::records::strip_outside(v@[k]@),
        decreases v.len() - i,
    {
        out.push(v[i].to_export());
        i = i + 1;
    }
    assert(export_outsides_view(out@) =~= strip_outsides(outsides_view(v@)));
    out
}

fn strip_all_insides(v: &Vec<Inside>) -> (r: Vec<ExportInside>)
    ensures
        export_insides_view(r@) == strip_insides(insides_view(v@)),
{
    let mut out: Vec<ExportInside> = Vec::new();
    let mut i: usize = 0;
    while i < v.len()
        invariant
            i <= v.len(),
            out@.len() == i,
            forall|k: int| 0 <= k < i ==> (#[trigger] out@[k])@ == crate::records::strip_inside(v@[k]@),
        decreases v.len() - i,
    {
        out.push(v[i].to_export());
        i = i + 1;
    }
    assert(export_insides_view(out@) =~= strip_insides(insides_view(v@)));
    out
}

fn identify_outsides(v: &Vec<ExportOutside>) -> (r: Vec<Outside>)
    ensures
        strip_outsides(outsides_view(r@)) == export_outsides_view(v@),
        outside_ids_minted(outsides_view(r@)),
{
    let mut out: Vec<Outside> = Vec::new();
    let mut i: usize = 0;
    while i < v.len()
        invariant
            i <= v.len(),
            out@.len() == i,
            forall|k: int| 0 <= k < i ==> crate::records::strip_outside((#[trigger] out@[k])@) == v@[k]@,
            forall|k: int| 0 <= k < i ==> minted_id((#[trigger] out@[k])@.uuid),
        decreases v.len() - i,
    {
        out.push(v[i].duplicate().with_id(fresh_id()));
        i = i + 1;
    }
    assert(strip_outsides(outsides_view(out@)) =~= export_outsides_view(v@));
    assert(forall|k: int| 0 <= k < out@.len() ==> #[trigger] outsides_view(out@)[k] == out@[k]@);
    out
}

fn identify_insides(v: &Vec<ExportInside>) -> (r: Vec<Inside>)
    ensures
        strip_insides(insides_view(r@)) == export_insides_view(v@),
        inside_ids_minted(insides_view(r@)),
{
    let mut out: Vec<Inside> = Vec::new();
    let mut i: usize = 0;
    while i < v.len()
        invariant
            i <= v.len(),
            out@.len() == i,
            forall|k: int| 0 <= k < i ==> crate::records::strip_inside((#[trigger] out@[k])@) == v@[k]@,
            forall|k: int| 0 <= k < i ==> minted_id((#[trigger] out@[k])@.uuid),
        decreases v.len() - i,
    {
        out.push(v[i].duplicate().with_id(fresh_id()));
        i = i + 1;
    }
    assert(strip_insides(insides_view(out@)) =~= export_insides_view(v@));
    assert(forall|k: int| 0 <= k < out@.len() ==> #[trigger] insides_view(out@)[k] == out@[k]@);
    out
}

/// The document to export: both collections as read, without identifiers,
/// outside records by percentage, highest first, inside records by date,
/// latest first.
pub fn export_data(store: &mut LocalStore) -> (r: ExportData)
    ensures
        exported(old(store)@, final(store)@, r@),
{
    let outsides = get_outsides(store);
    let insides = get_insides(store);
    let outside = sort_outsides(&strip_all_outsides(&outsides));
    let inside = sort_insides(&strip_all_insides(&insides));
    ExportData { outside, inside }
}

/// The exported document as indented JSON text. Were rendering ever to
/// fail, the text would be `{}`.
pub fn export_to_json(store: &mut LocalStore) -> (r: String)
    ensures
        exported(old(store)@, final(store)@, export_view(final(store)@)),
        r@ == pretty_text(export_json(export_view(final(store)@))),
{
    let data = export_data(store);
    let doc = encode_export_data(&data);
    match render_pretty(&doc) {
        Some(text) => text,
        None => "{}".to_owned(),
    }
}

/// Replaces both collections with the document's records, each under a new
/// identifier.
pub fn import_data(store: &mut LocalStore, data: &ExportData) -> (r: Result<(), StoreError>)
    ensures
        r is Ok,
        replaced_outsides(final(store)@.outside, data@.outside),
        replaced_insides(final(store)@.inside, data@.inside),
{
    let outsides = identify_outsides(&data.outside);
    let insides = identify_insides(&data.inside);
    save_outsides(store, &outsides)?;
    save_insides(store, &insides)?;
    Ok(())
}

/// Replaces the outside collection with the document's records, each under
/// a new identifier; the inside collection stays.
pub fn import_outside_data(store: &mut LocalStore, data: &OutsideOnlyData) -> (r: Result<(), StoreError>)
    ensures
        r is Ok,
        replaced_outsides(final(store)@.outside, data@),
        final(store)@.inside == old(store)@.inside,
{
    let outsides = identify_outsides(&data.outside);
    save_outsides(store, &outsides)
}

/// Replaces the inside collection with the document's records, each under a
/// new identifier; the outside collection stays.
pub fn import_inside_data(store: &mut LocalStore, data: &InsideOnlyData) -> (r: Result<(), StoreError>)
    ensures
        r is Ok,
        replaced_insides(final(store)@.inside, data@),
        final(store)@.outside == old(store)@.outside,
{
    let insides = identify_insides(&data.inside);
    save_insides(store, &insides)
}

/// Extends both collections, as read, with the document's records, each under
/// a new identifier.
pub fn append_data(store: &mut LocalStore, data: &ExportData) -> (r: Result<(), StoreError>)
    ensures
        r is Ok,
        appended_outsides(old(store)@.outside, final(store)@.outside, data@.outside),
        appended_insides(old(store)@.inside, final(store)@.inside, data@.inside),
{
    let mut existing_outsides = get_outsides(store);
    let mut existing_insides = get_insides(store);
    let ghost outs0 = outsides_view(existing_outsides@);
    let ghost ins0 = insides_view(existing_insides@);
    let mut new_outsides = identify_outsides(&data.outside);
    let mut new_insides = identify_insides(&data.inside);
    let ghost outs1 = outsides_view(new_outsides@);
    let ghost ins1 = insides_view(new_insides@);
    existing_outsides.append(&mut new_outsides);
    existing_insides.append(&mut new_insides);
    assert(outsides_view(existing_outsides@) =~= outs0 + outs1);
    assert((outs0 + outs1).take(outs0.len() as int) =~= outs0);
    assert((outs0 + outs1).skip(outs0.len() as int) =~= outs1);
    assert(insides_view(existing_insides@) =~= ins0 + ins1);
    assert((ins0 + ins1).take(ins0.len() as int) =~= ins0);
    assert((ins0 + ins1).skip(ins0.len() as int) =~= ins1);
    save_outsides(store, &existing_outsides)?;
    save_insides(store, &existing_insides)?;
    Ok(())
}

/// Extends the outside collection, as read, with the document's records,
/// each under a new identifier; the inside collection stays.
pub fn append_outside_data(store: &mut LocalStore, data: &OutsideOnlyData) -> (r: Result<(), StoreError>)
    ensures
        r is Ok,
        appended_outsides(old(store)@.outside, final(store)@.outside, data@),
        final(store)@.inside == old(store)@.inside,
{
    let mut existing_outsides = get_outsides(store);
    let ghost outs0 = outsides_view(existing_outsides@);
    let mut new_outsides = identify_outsides(&data.outside);
    let ghost outs1 = outsides_view(new_outsides@);
    existing_outsides.append(&mut new_outsides);
    assert(outsides_view(existing_outsides@) =~= outs0 + outs1);
    assert((outs0 + outs1).take(outs0.len() as int) =~= outs0);
    assert((outs0 + outs1).skip(outs0.len() as int) =~= outs1);
    save_outsides(store, &existing_outsides)
}

/// Extends the inside collection, as read, with the document's records, each
/// under a new identifier; the outside collection stays.
pub fn append_inside_data(store: &mut LocalStore, data: &InsideOnlyData) -> (r: Result<(), StoreError>)
    ensures
        r is Ok,
        appended_insides(old(store)@.inside, final(store)@.inside, data@),
        final(store)@.outside == old(store)@.outside,
{
    let mut existing_insides = get_insides(store);
    let ghost ins0 = insides_view(existing_insides@);
    let mut new_insides = identify_insides(&data.inside);
    let ghost ins1 = insides_view(new_insides@);
    existing_insides.append(&mut new_insides);
    assert(insides_view(existing_insides@) =~= ins0 + ins1);
    assert((ins0 + ins1).take(ins0.len() as int) =~= ins0);
    assert((ins0 + ins1).skip(ins0.len() as int) =~= ins1);
    save_insides(store, &existing_insides)
}

fn read_full(json_str: &str) -> (r: Result<ExportData, StoreError>)
    ensures
        r is Ok <==> full_document(json_str@) is Some,
        r matches Ok(d) ==> full_document(json_str@) == Some(d@),
        r matches Err(e) ==> e is Parse,
{
    let doc = match parse_json(json_str) {
        Ok(doc) => doc,
        Err(diagnostic) => return Err(StoreError::Parse(diagnostic)),
    };
    match decode_export_data(&doc) {
        Some(data) => Ok(data),
        None => Err(StoreError::Parse("expected an object with arrays `outside` and `inside` of records".to_owned())),
    }
}

fn read_outside_only(json_str: &str) -> (r: Result<OutsideOnlyData, StoreError>)
    ensures
        r is Ok <==> outside_document(json_str@) is Some,
        r matches Ok(d) ==> outside_document(json_str@) == Some(d@),
        r matches Err(e) ==> e is Parse,
{
    let doc = match parse_json(json_str) {
        Ok(doc) => doc,
        Err(diagnostic) => return Err(StoreError::Parse(diagnostic)),
    };
    match decode_outside_only(&doc) {
        Some(data) => Ok(data),
        None => Err(StoreError::Parse("expected an object with an array `outside` of records".to_owned())),
    }
}

fn read_inside_only(json_str: &str) -> (r: Result<InsideOnlyData, StoreError>)
    ensures
        r is Ok <==> inside_document(json_str@) is Some,
        r matches Ok(d) ==> inside_document(json_str@) == Some(d@),
        r matches Err(e) ==> e is Parse,
{
    let doc = match parse_json(json_str) {
        Ok(doc) => doc,
        Err(diagnostic) => return Err(StoreError::Parse(diagnostic)),
    };
    match decode_inside_only(&doc) {
        Some(data) => Ok(data),
        None => Err(StoreError::Parse("expected an object with an array `inside` of records".to_owned())),
    }
}

/// Replaces both collections with the records of a full JSON document, each
/// under a new identifier; where the text is no such document, a parse error
/// and the store stays as it was.
pub fn import_from_json(store: &mut LocalStore, json_str: &str) -> (r: Result<(), StoreError>)
    ensures
        match full_document(json_str@) {
            Some(d) => r is Ok && replaced_outsides(final(store)@.outside, d.outside)
                && replaced_insides(final(store)@.inside, d.inside),
            None => r matches Err(e) && e is Parse && final(store)@ == old(store)@,
        },
{
    match read_full(json_str) {
        Ok(data) => import_data(store, &data),
        Err(e) => Err(e),
    }
}

/// Replaces the outside collection with the records of a JSON document's
/// `outside` array, each under a new identifier; where the text is no such
/// document, a parse error and the store stays as it was.
pub fn import_outside_from_json(store: &mut LocalStore, json_str: &str) -> (r: Result<(), StoreError>)
    ensures
        final(store)@.inside == old(store)@.inside,
        match outside_document(json_str@) {
            Some(o) => r is Ok && replaced_outsides(final(store)@.outside, o),
            None => r matches Err(e) && e is Parse && final(store)@ == old(store)@,
        },
{
    match read_outside_only(json_str) {
        Ok(data) => import_outside_data(store, &data),
        Err(e) => Err(e),
    }
}

/// Replaces the inside collection with the records of a JSON document's
/// `inside` array, each under a new identifier; where the text is no such
/// document, a parse error and the store stays as it was.
pub fn import_inside_from_json(store: &mut LocalStore, json_str: &str) -> (r: Result<(), StoreError>)
    ensures
        final(store)@.outside == old(store)@.outside,
        match inside_document(json_str@) {
            Some(i) => r is Ok && replaced_insides(final(store)@.inside, i),
            None => r matches Err(e) && e is Parse && final(store)@ == old(store)@,
        },
{
    match read_inside_only(json_str) {
        Ok(data) => import_inside_data(store, &data),
        Err(e) => Err(e),
    }
}

/// Extends both collections, as read, with the records of a full JSON
/// document, each under a new identifier; where the text is no such document,
/// a parse error and the store stays as it was.
pub fn append_from_json(store: &mut LocalStore, json_str: &str) -> (r: Result<(), StoreError>)
    ensures
        match full_document(json_str@) {
            Some(d) => r is Ok && appended_outsides(old(store)@.outside, final(store)@.outside, d.outside)
                && appended_insides(old(store)@.inside, final(store)@.inside, d.inside),
            None => r matches Err(e) && e is Parse && final(store)@ == old(store)@,
        },
{
    match read_full(json_str) {
        Ok(data) => append_data(store, &data),
        Err(e) => Err(e),
    }
}

/// Extends the outside collection, as read, with the records of a JSON
/// document's `outside` array, each under a new identifier; where the text is
/// no such document, a parse error and the store stays as it was.
pub fn append_outside_from_json(store: &mut LocalStore, json_str: &str) -> (r: Result<(), StoreError>)
    ensures
        final(store)@.inside == old(store)@.inside,
        match outside_document(json_str@) {
            Some(o) => r is Ok && appended_outsides(old(store)@.outside, final(store)@.outside, o),
            None => r matches Err(e) && e is Parse && final(store)@ == old(store)@,
        },
{
    match read_outside_only(json_str) {
        Ok(data) => append_outside_data(store, &data),
        Err(e) => Err(e),
    }
}

/// Extends the inside collection, as read, with the records of a JSON
/// document's `inside` array, each under a new identifier; where the text is
/// no such document, a parse error and the store stays as it was.
pub fn append_inside_from_json(store: &mut LocalStore, json_str: &str) -> (r: Result<(), StoreError>)
    ensures
        final(store)@.outside == old(store)@.outside,
        match inside_document(json_str@) {
            Some(i) => r is Ok && appended_insides(old(store)@.inside, final(store)@.inside, i),
            None => r matches Err(e) && e is Parse && final(store)@ == old(store)@,
        },
{
    match read_inside_only(json_str) {
        Ok(data) => append_inside_data(store, &data),
        Err(e) => Err(e),
    }
}

/// Exporting and importing the document back keeps the content of both
/// collections: the same records without identifiers, as often each, in
/// export order. The document's JSON form reads back as the document. A
/// second round gives the same document and leaves the content as the first
/// round left it.
pub proof fn lemma_round_trip(
    s0: StoreView,
    s1: StoreView,
    d1: ExportDataView,
    s2: StoreView,
    s3: StoreView,
    d2: ExportDataView,
    s4: StoreView,
)
    requires
        exported(s0, s1, d1),
        replaced_outsides(s2.outside, d1.outside),
        replaced_insides(s2.inside, d1.inside),
        exported(s2, s3, d2),
        replaced_outsides(s4.outside, d2.outside),
        replaced_insides(s4.inside, d2.inside),
    ensures
        export_doc(export_json(d1)) == Some(d1),
        strip_outsides(s2.outside.unwrap()).to_multiset() == strip_outsides(
            s1.outside.unwrap(),
        ).to_multiset(),
        strip_insides(s2.inside.unwrap()).to_multiset() == strip_insides(
            s1.inside.unwrap(),
        ).to_multiset(),
        s2.outside.unwrap().len() == s1.outside.unwrap().len(),
        s2.inside.unwrap().len() == s1.inside.unwrap().len(),
        d2 == d1,
        strip_outsides(s4.outside.unwrap()) == strip_outsides(s2.outside.unwrap()),
        strip_insides(s4.inside.unwrap()) == strip_insides(s2.inside.unwrap()),
{
    crate::codec::lemma_decode_encode(d1);
    let o1 = strip_outsides(s1.outside.unwrap());
    let i1 = strip_insides(s1.inside.unwrap());
    crate::order::lemma_sort_permutes(o1, by_percentage());
    crate::order::lemma_sort_permutes(i1, by_date());
    crate::order::lemma_by_percentage_total();
    crate::order::lemma_by_date_total();
    crate::order::lemma_sort_ranked(o1, by_percentage());
    crate::order::lemma_sort_ranked(i1, by_date());
    crate::order::lemma_sort_of_ranked(d1.outside, by_percentage());
    crate::order::lemma_sort_of_ranked(d1.inside, by_date());
    assert(s2.outside.unwrap().len() == strip_outsides(s2.outside.unwrap()).len());
    assert(s2.inside.unwrap().len() == strip_insides(s2.inside.unwrap()).len());
}

/// Appending a document to collections of `N` outside and `M` inside records
/// gives `N + P` and `M + Q` records, where the document has `P` and `Q`; the
/// records that were there stay, in their places.
pub proof fn lemma_append_additive(pre: StoreView, post: StoreView, d: ExportDataView)
    requires
        pre.outside is Some,
        pre.inside is Some,
        appended_outsides(pre.outside, post.outside, d.outside),
        appended_insides(pre.inside, post.inside, d.inside),
    ensures
        post.outside.unwrap().len() == pre.outside.unwrap().len() + d.outside.len(),
        post.inside.unwrap().len() == pre.inside.unwrap().len() + d.inside.len(),
        post.outside.unwrap().take(pre.outside.unwrap().len() as int) == pre.outside.unwrap(),
        post.inside.unwrap().take(pre.inside.unwrap().len() as int) == pre.inside.unwrap(),
{
}

} // verus!
