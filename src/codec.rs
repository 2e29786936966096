use vstd::prelude::*;
use crate::json::{
    lookup,    keys_distinct, array_value, get_member, int_value, json_content, member, contents, object_value,
    member_contents, text_value, JsonModel,
};
use crate::records::{
    ExportInside, ExportInsideView, ExportOutside, ExportOutsideView, export_insides_view,
    export_outsides_view,
};

verus! {

/// The interchange document: both collections, without identifiers.
#[derive(Debug, Clone)]
pub struct ExportData {
    pub outside: Vec<ExportOutside>,
    pub inside: Vec<ExportInside>,
}

/// The interchange document that carries outside records alone.
#[derive(Debug, Clone)]
pub struct OutsideOnlyData {
    pub outside: Vec<ExportOutside>,
}

/// The interchange document that carries inside records alone.
#[derive(Debug, Clone)]
pub struct InsideOnlyData {
    pub inside: Vec<ExportInside>,
}

pub ghost struct ExportDataView {
    pub outside: Seq<ExportOutsideView>,
    pub inside: Seq<ExportInsideView>,
}

impl View for ExportData {
    type V = ExportDataView;

    open spec fn view(&self) -> ExportDataView {
        ExportDataView {
            outside: export_outsides_view(self.outside@),
            inside: export_insides_view(self.inside@),
        }
    }
}

impl View for OutsideOnlyData {
    type V = Seq<ExportOutsideView>;

    open spec fn view(&self) -> Seq<ExportOutsideView> {
        export_outsides_view(self.outside@)
    }
}

impl View for InsideOnlyData {
    type V = Seq<ExportInsideView>;

    open spec fn view(&self) -> Seq<ExportInsideView> {
        export_insides_view(self.inside@)
    }
}

/// The text held by member `key` of `m`.
pub open spec fn text_member(m: JsonModel, key: Seq<char>) -> Option<Seq<char>> {
    match member(m, key) {
        Some(JsonModel::Str(s)) => Some(s),
        _ => None,
    }
}

/// The integer held by member `key` of `m`, where it fits in `i32`.
pub open spec fn i32_member(m: JsonModel, key: Seq<char>) -> Option<i32> {
    match member(m, key) {
        Some(JsonModel::Int(n)) => if i32::MIN <= n <= i32::MAX {
            Some(n as i32)
        } else {
            None
        },
        _ => None,
    }
}

/// An outside entry: an object with texts `name`, `context`, `url` and an
/// `i32` `percentage`; other members are ignored.
pub open spec fn outside_entry(m: JsonModel) -> Option<ExportOutsideView> {
    match (
        text_member(m, "name"@),
        text_member(m, "context"@),
        text_member(m, "url"@),
        i32_member(m, "percentage"@),
    ) {
        (Some(name), Some(context), Some(url), Some(percentage)) => Some(
            ExportOutsideView { name, context, url, percentage },
        ),
        _ => None,
    }
}

/// An inside entry: an object with texts `date` and `context`.
pub open spec fn inside_entry(m: JsonModel) -> Option<ExportInsideView> {
    match (text_member(m, "date"@), text_member(m, "context"@)) {
        (Some(date), Some(context)) => Some(ExportInsideView { date, context }),
        _ => None,
    }
}

/// Every item read as an outside entry, where each of them is one.
pub open spec fn outside_entries(items: Seq<JsonModel>) -> Option<Seq<ExportOutsideView>> {
    if forall|k: int| 0 <= k < items.len() ==> (#[trigger] outside_entry(items[k])) is Some {
        Some(items.map_values(|m: JsonModel| outside_entry(m).unwrap()))
    } else {
        None
    }
}

/// Every item read as an inside entry, where each of them is one.
pub open spec fn inside_entries(items: Seq<JsonModel>) -> Option<Seq<ExportInsideView>> {
    if forall|k: int| 0 <= k < items.len() ==> (#[trigger] inside_entry(items[k])) is Some {
        Some(items.map_values(|m: JsonModel| inside_entry(m).unwrap()))
    } else {
        None
    }
}

/// The outside records of a document: its member `outside`, an array of
/// outside entries.
pub open spec fn outside_list(doc: JsonModel) -> Option<Seq<ExportOutsideView>> {
    match member(doc, "outside"@) {
        Some(JsonModel::Array(items)) => outside_entries(items),
        _ => None,
    }
}

/// The inside records of a document: its member `inside`, an array of
/// inside entries.
pub open spec fn inside_list(doc: JsonModel) -> Option<Seq<ExportInsideView>> {
    match member(doc, "inside"@) {
        Some(JsonModel::Array(items)) => inside_entries(items),
        _ => None,
    }
}

/// A full document: both lists present and well-formed.
pub open spec fn export_doc(doc: JsonModel) -> Option<ExportDataView> {
    match (outside_list(doc), inside_list(doc)) {
        (Some(outside), Some(inside)) => Some(ExportDataView { outside, inside }),
        _ => None,
    }
}

pub open spec fn outside_json(e: ExportOutsideView) -> JsonModel {
    JsonModel::Object(
        seq![
            ("name"@, JsonModel::Str(e.name)),
            ("context"@, JsonModel::Str(e.context)),
            ("url"@, JsonModel::Str(e.url)),
            ("percentage"@, JsonModel::Int(e.percentage as int)),
        ],
    )
}

pub open spec fn inside_json(e: ExportInsideView) -> JsonModel {
    JsonModel::Object(seq![("date"@, JsonModel::Str(e.date)), ("context"@, JsonModel::Str(e.context))])
}

/// The JSON form of a document: `outside` first, then `inside`.
pub open spec fn export_json(d: ExportDataView) -> JsonModel {
    JsonModel::Object(
        seq![
            ("outside"@, JsonModel::Array(d.outside.map_values(|e| outside_json(e)))),
            ("inside"@, JsonModel::Array(d.inside.map_values(|e| inside_json(e)))),
        ],
    )
}

fn text_at(v: &serde_json::Value, key: &str) -> (r: Option<String>)
    ensures
        r is Some <==> text_member(json_content(*v), key@) is Some,
        r matches Some(s) ==> text_member(json_content(*v), key@) == Some(s@),
{
    match get_member(v, key) {
        Some(x) => match x.as_str() {
            Some(s) => Some(s.to_owned()),
            None => None,
        },
        None => None,
    }
}

fn i32_at(v: &serde_json::Value, key: &str) -> (r: Option<i32>)
    ensures
        r == i32_member(json_content(*v), key@),
{
    match get_member(v, key) {
        Some(x) => match x.as_i64() {
            Some(n) => if i32::MIN as i64 <= n && n <= i32::MAX as i64 {
                Some(n as i32)
            } else {
                None
            },
            None => None,
        },
        None => None,
    }
}

fn decode_outside(v: &serde_json::Value) -> (r: Option<ExportOutside>)
    ensures
        r is Some <==> outside_entry(json_content(*v)) is Some,
        r matches Some(e) ==> outside_entry(json_content(*v)) == Some(e@),
{
    let name = match text_at(v, "name") {
        Some(s) => s,
        None => return None,
    };
    let context = match text_at(v, "context") {
        Some(s) => s,
        None => return None,
    };
    let url = match text_at(v, "url") {
        Some(s) => s,
        None => return None,
    };
    let percentage = match i32_at(v, "percentage") {
        Some(p) => p,
        None => return None,
    };
    Some(ExportOutside { name, context, url, percentage })
}

fn decode_inside(v: &serde_json::Value) -> (r: Option<ExportInside>)
    ensures
        r is Some <==> inside_entry(json_content(*v)) is Some,
        r matches Some(e) ==> inside_entry(json_content(*v)) == Some(e@),
{
    let date = match text_at(v, "date") {
        Some(s) => s,
        None => return None,
    };
    let context = match text_at(v, "context") {
        Some(s) => s,
        None => return None,
    };
    Some(ExportInside { date, context })
}

fn decode_outsides(items: &Vec<serde_json::Value>) -> (r: Option<Vec<ExportOutside>>)
    ensures
        r is Some <==> outside_entries(contents(items@)) is Some,
        r matches Some(out) ==> outside_entries(contents(items@)) == Some(
            export_outsides_view(out@),
        ),
{
    let ghost models = contents(items@);
    let mut out: Vec<ExportOutside> = Vec::new();
    let mut i: usize = 0;
    while i < items.len()
        invariant
            models == contents(items@),
            i <= items.len(),
            out@.len() == i,
            forall|k: int| 0 <= k < i ==> outside_entry(#[trigger] models[k]) == Some(out@[k]@),
        decreases items.len() - i,
    {
        match decode_outside(&items[i]) {
            Some(e) => out.push(e),
            None => {
                assert(outside_entry(models[i as int]) is None);
                return None;
            },
        }
        i = i + 1;
    }
    assert(export_outsides_view(out@) =~= models.map_values(
        |m: JsonModel| outside_entry(m).unwrap(),
    ));
    Some(out)
}

fn decode_insides(items: &Vec<serde_json::Value>) -> (r: Option<Vec<ExportInside>>)
    ensures
        r is Some <==> inside_entries(contents(items@)) is Some,
        r matches Some(out) ==> inside_entries(contents(items@)) == Some(
            export_insides_view(out@),
        ),
{
    let ghost models = contents(items@);
    let mut out: Vec<ExportInside> = Vec::new();
    let mut i: usize = 0;
    while i < items.len()
        invariant
            models == contents(items@),
            i <= items.len(),
            out@.len() == i,
            forall|k: int| 0 <= k < i ==> inside_entry(#[trigger] models[k]) == Some(out@[k]@),
        decreases items.len() - i,
    {
        match decode_inside(&items[i]) {
            Some(e) => out.push(e),
            None => {
                assert(inside_entry(models[i as int]) is None);
                return None;
            },
        }
        i = i + 1;
    }
    assert(export_insides_view(out@) =~= models.map_values(
        |m: JsonModel| inside_entry(m).unwrap(),
    ));
    Some(out)
}

/// Reads the outside records of a document.
pub fn decode_outside_only(doc: &serde_json::Value) -> (r: Option<OutsideOnlyData>)
    ensures
        r is Some <==> outside_list(json_content(*doc)) is Some,
        r matches Some(d) ==> outside_list(json_content(*doc)) == Some(d@),
{
    match get_member(doc, "outside") {
        Some(x) => match x.as_array() {
            Some(items) => match decode_outsides(items) {
                Some(outside) => Some(OutsideOnlyData { outside }),
                None => None,
            },
            None => None,
        },
        None => None,
    }
}

/// Reads the inside records of a document.
pub fn decode_inside_only(doc: &serde_json::Value) -> (r: Option<InsideOnlyData>)
    ensures
        r is Some <==> inside_list(json_content(*doc)) is Some,
        r matches Some(d) ==> inside_list(json_content(*doc)) == Some(d@),
{
    match get_member(doc, "inside") {
        Some(x) => match x.as_array() {
            Some(items) => match decode_insides(items) {
                Some(inside) => Some(InsideOnlyData { inside }),
                None => None,
            },
            None => None,
        },
        None => None,
    }
}

/// Reads a full document: both of its lists.
pub fn decode_export_data(doc: &serde_json::Value) -> (r: Option<ExportData>)
    ensures
        r is Some <==> export_doc(json_content(*doc)) is Some,
        r matches Some(d) ==> export_doc(json_content(*doc)) == Some(d@),
{
    let outside = match decode_outside_only(doc) {
        Some(d) => d.outside,
        None => return None,
    };
    let inside = match decode_inside_only(doc) {
        Some(d) => d.inside,
        None => return None,
    };
    Some(ExportData { outside, inside })
}

fn encode_outside(e: &ExportOutside) -> (r: serde_json::Value)
    ensures
        json_content(r) == outside_json(e@),
{
    let fields: Vec<(String, serde_json::Value)> = vec![
        ("name".to_owned(), text_value(e.name.clone())),
        ("context".to_owned(), text_value(e.context.clone())),
        ("url".to_owned(), text_value(e.url.clone())),
        ("percentage".to_owned(), int_value(e.percentage)),
    ];
    proof {
        reveal_strlit("name");
        reveal_strlit("context");
        reveal_strlit("url");
        reveal_strlit("percentage");
        assert(member_contents(fields@) =~= seq![
            ("name"@, JsonModel::Str(e.name@)),
            ("context"@, JsonModel::Str(e.context@)),
            ("url"@, JsonModel::Str(e.url@)),
            ("percentage"@, JsonModel::Int(e.percentage as int)),
        ]);
        assert(keys_distinct(member_contents(fields@))) by {
            assert("name"@.len() == 4 && "context"@.len() == 7);
            assert("url"@.len() == 3 && "percentage"@.len() == 10);
        }
    }
    object_value(fields)
}

fn encode_inside(e: &ExportInside) -> (r: serde_json::Value)
    ensures
        json_content(r) == inside_json(e@),
{
    let fields: Vec<(String, serde_json::Value)> = vec![
        ("date".to_owned(), text_value(e.date.clone())),
        ("context".to_owned(), text_value(e.context.clone())),
    ];
    proof {
        reveal_strlit("date");
        reveal_strlit("context");
        assert(member_contents(fields@) =~= seq![
            ("date"@, JsonModel::Str(e.date@)),
            ("context"@, JsonModel::Str(e.context@)),
        ]);
        assert(keys_distinct(member_contents(fields@))) by {
            assert("date"@.len() == 4 && "context"@.len() == 7);
        }
    }
    object_value(fields)
}

/// The JSON form of a full document.
pub fn encode_export_data(d: &ExportData) -> (r: serde_json::Value)
    ensures
        json_content(r) == export_json(d@),
{
    let mut outs: Vec<serde_json::Value> = Vec::new();
    let mut i: usize = 0;
    while i < d.outside.len()
        invariant
            i <= d.outside.len(),
            outs@.len() == i,
            forall|k: int| 0 <= k < i ==> json_content(#[trigger] outs@[k]) == outside_json(d.outside@[k]@),
        decreases d.outside.len() - i,
    {
        outs.push(encode_outside(&d.outside[i]));
        i = i + 1;
    }
    let mut ins: Vec<serde_json::Value> = Vec::new();
    let mut j: usize = 0;
    while j < d.inside.len()
        invariant
            j <= d.inside.len(),
            ins@.len() == j,
            forall|k: int| 0 <= k < j ==> json_content(#[trigger] ins@[k]) == inside_json(d.inside@[k]@),
        decreases d.inside.len() - j,
    {
        ins.push(encode_inside(&d.inside[j]));
        j = j + 1;
    }
    assert(contents(outs@) =~= d@.outside.map_values(|e| outside_json(e)));
    assert(contents(ins@) =~= d@.inside.map_values(|e| inside_json(e)));
    let outs_value = array_value(outs);
    let ins_value = array_value(ins);
    let fields: Vec<(String, serde_json::Value)> = vec![
        ("outside".to_owned(), outs_value),
        ("inside".to_owned(), ins_value),
    ];
    proof {
        reveal_strlit("outside");
        reveal_strlit("inside");
        assert(member_contents(fields@) =~= seq![
            ("outside"@, JsonModel::Array(d@.outside.map_values(|e| outside_json(e)))),
            ("inside"@, JsonModel::Array(d@.inside.map_values(|e| inside_json(e)))),
        ]);
        assert(keys_distinct(member_contents(fields@))) by {
            assert("outside"@.len() == 7 && "inside"@.len() == 6);
        }
    }
    object_value(fields)
}

proof fn lemma_outside_entry_of_json(e: ExportOutsideView)
    ensures
        outside_entry(outside_json(e)) == Some(e),
{
    reveal_strlit("name");
    reveal_strlit("context");
    reveal_strlit("url");
    reveal_strlit("percentage");
    reveal_with_fuel(lookup, 5);
    assert("name"@.len() == 4 && "context"@.len() == 7);
    assert("url"@.len() == 3 && "percentage"@.len() == 10);
}

proof fn lemma_inside_entry_of_json(e: ExportInsideView)
    ensures
        inside_entry(inside_json(e)) == Some(e),
{
    reveal_strlit("date");
    reveal_strlit("context");
    reveal_with_fuel(lookup, 3);
    assert("date"@.len() == 4 && "context"@.len() == 7);
}

/// Reading back the JSON form of a document gives the document itself.
pub proof fn lemma_decode_encode(d: ExportDataView)
    ensures
        export_doc(export_json(d)) == Some(d),
        outside_list(export_json(d)) == Some(d.outside),
        inside_list(export_json(d)) == Some(d.inside),
{
    reveal_strlit("outside");
    reveal_strlit("inside");
    reveal_with_fuel(lookup, 3);
    assert("outside"@.len() == 7 && "inside"@.len() == 6);
    let outs = d.outside.map_values(|e| outside_json(e));
    let ins = d.inside.map_values(|e| inside_json(e));
    assert forall|k: int| 0 <= k < outs.len() implies outside_entry(#[trigger] outs[k]) == Some(
        d.outside[k],
    ) by {
        lemma_outside_entry_of_json(d.outside[k]);
    }
    assert forall|k: int| 0 <= k < ins.len() implies inside_entry(#[trigger] ins[k]) == Some(
        d.inside[k],
    ) by {
        lemma_inside_entry_of_json(d.inside[k]);
    }
    assert(outs.map_values(|m: JsonModel| outside_entry(m).unwrap()) =~= d.outside);
    assert(ins.map_values(|m: JsonModel| inside_entry(m).unwrap()) =~= d.inside);
}

} // verus!
