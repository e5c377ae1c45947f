//! The boundary to the platform's JSON response bodies. One trusted
//! wrapper parses a body into the library's own model of the document —
//! a flat shape holding, as plain values, exactly what the engine reads:
//! the top-level fields, one nested object level, and arrays of flat
//! objects. Everything after that boundary is verified: each response
//! parser's result is fixed as a function of the document model.

use vstd::prelude::*;
use crate::errors::SyncError;
use crate::directory::{DirectoryEntry, ListResponse};
use crate::export::ExportItem;
use crate::text::{all_digits, dec_value, eq_exact, parse_u64};

verus! {

/// A JSON scalar as the engine reads it. Numbers outside the unsigned
/// range and any nesting deeper than the model are opaque: the engine
/// never reads them, only their being ill-typed matters.
pub enum JsonPrim {
    Null,
    Bool(bool),
    Uint(u64),
    Text(String),
    Other,
}

/// One JSON object, flattened to its scalar fields.
pub struct JsonObj {
    pub fields: Vec<(String, JsonPrim)>,
}

/// The value of one top-level document field: a scalar, an object, or an
/// array of objects.
pub enum JsonNode {
    Prim(JsonPrim),
    Obj(JsonObj),
    Array(Vec<JsonObj>),
}

/// The mathematical shape of a scalar.
pub enum JsonPrimV {
    Null,
    Bool(bool),
    Uint(u64),
    Text(Seq<char>),
    Other,
}

/// The mathematical shape of a flat object.
pub struct JsonObjV {
    pub fields: Seq<(Seq<char>, JsonPrimV)>,
}

/// The mathematical shape of a top-level field's value.
pub enum JsonNodeV {
    Prim(JsonPrimV),
    Obj(JsonObjV),
    Array(Seq<JsonObjV>),
}

impl View for JsonPrim {
    type V = JsonPrimV;

    open spec fn view(&self) -> JsonPrimV {
        match self {
            JsonPrim::Null => JsonPrimV::Null,
            JsonPrim::Bool(b) => JsonPrimV::Bool(*b),
            JsonPrim::Uint(n) => JsonPrimV::Uint(*n),
            JsonPrim::Text(s) => JsonPrimV::Text(s@),
            JsonPrim::Other => JsonPrimV::Other,
        }
    }
}

/// The views of an object's field list.
pub open spec fn obj_fields_v(fields: Seq<(String, JsonPrim)>) -> Seq<(Seq<char>, JsonPrimV)> {
    fields.map_values(|p: (String, JsonPrim)| (p.0@, p.1@))
}

impl View for JsonObj {
    type V = JsonObjV;

    open spec fn view(&self) -> JsonObjV {
        JsonObjV { fields: obj_fields_v(self.fields@) }
    }
}

/// The views of an array of flat objects.
pub open spec fn objs_v(objs: Seq<JsonObj>) -> Seq<JsonObjV> {
    objs.map_values(|o: JsonObj| o@)
}

impl View for JsonNode {
    type V = JsonNodeV;

    open spec fn view(&self) -> JsonNodeV {
        match self {
            JsonNode::Prim(p) => JsonNodeV::Prim(p@),
            JsonNode::Obj(o) => JsonNodeV::Obj(o@),
            JsonNode::Array(items) => JsonNodeV::Array(objs_v(items@)),
        }
    }
}

/// The views of a document's top-level field list.
pub open spec fn doc_fields_v(fields: Seq<(String, JsonNode)>) -> Seq<(Seq<char>, JsonNodeV)> {
    fields.map_values(|p: (String, JsonNode)| (p.0@, p.1@))
}

/// The document model of a body text: nothing when the text is not JSON,
/// else the model of what parsing it yields (an empty field list when the
/// document is not an object). A function of the text alone.
pub uninterp spec fn json_doc_of(text: Seq<char>) -> Option<Seq<(Seq<char>, JsonNodeV)>>;

#[verifier::external_type_specification]
#[verifier::external_body]
pub struct ExValue(serde_json::Value);

/// Converts one JSON scalar to the library's shape, variant by variant;
/// numbers outside the unsigned range, and any nesting, become the opaque
/// variant. Part of the parse_json_doc boundary.
#[verifier::external_body]
fn convert_prim(v: serde_json::Value) -> JsonPrim {
    match v {
        serde_json::Value::Null => JsonPrim::Null,
        serde_json::Value::Bool(b) => JsonPrim::Bool(b),
        serde_json::Value::Number(n) => match n.as_u64() {
            Some(u) => JsonPrim::Uint(u),
            None => JsonPrim::Other,
        },
        serde_json::Value::String(s) => JsonPrim::Text(s),
        _ => JsonPrim::Other,
    }
}

/// Converts one JSON value to a flat object: an object's fields, each as
/// a scalar; anything else has no fields. Part of the parse_json_doc
/// boundary.
#[verifier::external_body]
fn convert_obj(v: serde_json::Value) -> JsonObj {
    let mut fields = Vec::new();
    if let serde_json::Value::Object(map) = v {
        for (k, val) in map {
            fields.push((k, convert_prim(val)));
        }
    }
    JsonObj { fields }
}

/// Converts one top-level field's value: an array becomes its elements as
/// flat objects, an object a flat object, anything else a scalar. Part of
/// the parse_json_doc boundary.
#[verifier::external_body]
fn convert_node(v: serde_json::Value) -> JsonNode {
    match v {
        serde_json::Value::Array(items) => JsonNode::Array(
            items.into_iter().map(convert_obj).collect(),
        ),
        serde_json::Value::Object(_) => JsonNode::Obj(convert_obj(v)),
        other => JsonNode::Prim(convert_prim(other)),
    }
}

/// Relies on serde_json::from_str, together with the conversions above:
/// parses a body into the library's document model, or nothing when the
/// text is not JSON. The model is a function of the text alone: the same
/// body always parses to the same document.
#[verifier::external_body]
fn parse_json_doc(text: &str) -> (r: Option<Vec<(String, JsonNode)>>)
    ensures
        match r {
            Some(d) => json_doc_of(text@) == Some(doc_fields_v(d@)),
            None => json_doc_of(text@) is None,
        },
{
    match serde_json::from_str::<serde_json::Value>(text) {
        Ok(serde_json::Value::Object(map)) => Some(
            map.into_iter().map(|(k, v)| (k, convert_node(v))).collect(),
        ),
        Ok(_) => Some(Vec::new()),
        Err(_) => None,
    }
}

/// The node filed under a key of a document.
pub open spec fn doc_get_v(doc: Seq<(Seq<char>, JsonNodeV)>, key: Seq<char>) -> Option<JsonNodeV>
    decreases doc.len(),
{
    if doc.len() == 0 {
        None
    } else if doc[0].0 == key {
        Some(doc[0].1)
    } else {
        doc_get_v(doc.drop_first(), key)
    }
}

/// The scalar filed under a key of a flat object.
pub open spec fn obj_get_v(fields: Seq<(Seq<char>, JsonPrimV)>, key: Seq<char>) -> Option<
    JsonPrimV,
>
    decreases fields.len(),
{
    if fields.len() == 0 {
        None
    } else if fields[0].0 == key {
        Some(fields[0].1)
    } else {
        obj_get_v(fields.drop_first(), key)
    }
}

fn doc_get<'a>(fields: &'a Vec<(String, JsonNode)>, key: &str) -> (r: Option<&'a JsonNode>)
    ensures
        match r {
            Some(n) => doc_get_v(doc_fields_v(fields@), key@) == Some(n@),
            None => doc_get_v(doc_fields_v(fields@), key@) is None,
        },
{
    let ghost fv = doc_fields_v(fields@);
    let mut i: usize = 0;
    proof {
        assert(fv.skip(0) =~= fv);
    }
    while i < fields.len()
        invariant
            i <= fields@.len(),
            fv == doc_fields_v(fields@),
            fv.len() == fields@.len(),
            doc_get_v(fv, key@) == doc_get_v(fv.skip(i as int), key@),
        decreases fields@.len() - i,
    {
        proof {
            assert(fv[i as int] == (fields@[i as int].0@, fields@[i as int].1@));
            assert(fv.skip(i as int)[0] == fv[i as int]);
        }
        if eq_exact(fields[i].0.as_str(), key) {
            return Some(&fields[i].1);
        }
        proof {
            assert(fv.skip(i as int).drop_first() =~= fv.skip(i + 1));
        }
        i += 1;
    }
    proof {
        assert(fv.skip(i as int) =~= Seq::<(Seq<char>, JsonNodeV)>::empty());
    }
    None
}

fn obj_get<'a>(fields: &'a Vec<(String, JsonPrim)>, key: &str) -> (r: Option<&'a JsonPrim>)
    ensures
        match r {
            Some(p) => obj_get_v(obj_fields_v(fields@), key@) == Some(p@),
            None => obj_get_v(obj_fields_v(fields@), key@) is None,
        },
{
    let ghost fv = obj_fields_v(fields@);
    let mut i: usize = 0;
    proof {
        assert(fv.skip(0) =~= fv);
    }
    while i < fields.len()
        invariant
            i <= fields@.len(),
            fv == obj_fields_v(fields@),
            fv.len() == fields@.len(),
            obj_get_v(fv, key@) == obj_get_v(fv.skip(i as int), key@),
        decreases fields@.len() - i,
    {
        proof {
            assert(fv[i as int] == (fields@[i as int].0@, fields@[i as int].1@));
            assert(fv.skip(i as int)[0] == fv[i as int]);
        }
        if eq_exact(fields[i].0.as_str(), key) {
            return Some(&fields[i].1);
        }
        proof {
            assert(fv.skip(i as int).drop_first() =~= fv.skip(i + 1));
        }
        i += 1;
    }
    proof {
        assert(fv.skip(i as int) =~= Seq::<(Seq<char>, JsonPrimV)>::empty());
    }
    None
}

/// The integer a scalar encodes: an unsigned number, or a non-empty
/// string of digits whose value fits.
pub open spec fn prim_id(p: JsonPrimV) -> Option<u64> {
    match p {
        JsonPrimV::Uint(n) => Some(n),
        JsonPrimV::Text(s) => if s.len() > 0 && all_digits(s) && dec_value(s) <= u64::MAX {
            Some(dec_value(s) as u64)
        } else {
            None
        },
        _ => None,
    }
}

fn prim_id_exec(p: &JsonPrim) -> (r: Option<u64>)
    ensures
        r == prim_id(p@),
{
    match p {
        JsonPrim::Uint(n) => Some(*n),
        JsonPrim::Text(s) => parse_u64(s.as_str()),
        _ => None,
    }
}

/// The text under a key, when the field is a string.
pub open spec fn doc_text_v(doc: Seq<(Seq<char>, JsonNodeV)>, key: Seq<char>) -> Option<Seq<char>> {
    match doc_get_v(doc, key) {
        Some(JsonNodeV::Prim(JsonPrimV::Text(s))) => Some(s),
        _ => None,
    }
}

fn doc_text(fields: &Vec<(String, JsonNode)>, key: &str) -> (r: Option<String>)
    ensures
        match r {
            Some(s) => doc_text_v(doc_fields_v(fields@), key@) == Some(s@),
            None => doc_text_v(doc_fields_v(fields@), key@) is None,
        },
{
    match doc_get(fields, key) {
        Some(JsonNode::Prim(JsonPrim::Text(s))) => Some(s.clone()),
        _ => None,
    }
}

/// The done flag of an operation document: false when absent, its value
/// when boolean; a present non-boolean is ill-typed (nothing).
pub open spec fn done_flag_v(doc: Seq<(Seq<char>, JsonNodeV)>) -> Option<bool> {
    match doc_get_v(doc, "done"@) {
        None => Some(false),
        Some(JsonNodeV::Prim(JsonPrimV::Bool(b))) => Some(b),
        Some(_) => None,
    }
}

fn done_flag(fields: &Vec<(String, JsonNode)>) -> (r: Option<bool>)
    ensures
        r == done_flag_v(doc_fields_v(fields@)),
{
    match doc_get(fields, "done") {
        None => Some(false),
        Some(JsonNode::Prim(JsonPrim::Bool(b))) => Some(*b),
        Some(_) => None,
    }
}

/// The asset identifier under response.assetId: absent when the response
/// object or the field is missing, its integer reading when present, and
/// ill-typed (nothing) when present but not numeric.
pub open spec fn asset_id_v(doc: Seq<(Seq<char>, JsonNodeV)>) -> Option<Option<u64>> {
    match doc_get_v(doc, "response"@) {
        None => Some(None),
        Some(JsonNodeV::Obj(o)) => match obj_get_v(o.fields, "assetId"@) {
            None => Some(None),
            Some(p) => match prim_id(p) {
                Some(id) => Some(Some(id)),
                None => None,
            },
        },
        Some(_) => Some(None),
    }
}

fn asset_id_field(fields: &Vec<(String, JsonNode)>) -> (r: Result<Option<u64>, SyncError>)
    ensures
        match asset_id_v(doc_fields_v(fields@)) {
            Some(a) => r == Ok::<Option<u64>, SyncError>(a),
            None => r matches Err(e) && e is ParseError,
        },
{
    match doc_get(fields, "response") {
        None => Ok(None),
        Some(JsonNode::Obj(o)) => match obj_get(&o.fields, "assetId") {
            None => Ok(None),
            Some(p) => match prim_id_exec(p) {
                Some(id) => Ok(Some(id)),
                None => Err(parse_error("the asset identifier is not numeric")),
            },
        },
        Some(_) => Ok(None),
    }
}

fn parse_error(msg: &str) -> (r: SyncError)
    ensures
        r matches SyncError::ParseError(m) && m@ == msg@,
{
    SyncError::ParseError(String::from_str(msg))
}

/// One listed resource: required name and identifier.
pub open spec fn item_entry_v(o: JsonObjV) -> Option<(u64, Seq<char>)> {
    match obj_get_v(o.fields, "name"@) {
        Some(JsonPrimV::Text(nm)) => match obj_get_v(o.fields, "id"@) {
            Some(p) => match prim_id(p) {
                Some(id) => Some((id, nm)),
                None => None,
            },
            None => None,
        },
        _ => None,
    }
}

fn item_entry(o: &JsonObj) -> (r: Option<DirectoryEntry>)
    ensures
        match r {
            Some(e) => item_entry_v(o@) == Some((e.id, e.name@)),
            None => item_entry_v(o@) is None,
        },
{
    let name_prim = match obj_get(&o.fields, "name") {
        Some(p) => p,
        None => {
            return None;
        },
    };
    let name = match name_prim {
        JsonPrim::Text(s) => s.clone(),
        _ => {
            return None;
        },
    };
    let id_prim = match obj_get(&o.fields, "id") {
        Some(p) => p,
        None => {
            return None;
        },
    };
    let id = match prim_id_exec(id_prim) {
        Some(n) => n,
        None => {
            return None;
        },
    };
    Some(DirectoryEntry { id, name })
}

/// The listed items of a page: the array under whichever key the
/// category's endpoint uses, tried in a fixed order.
pub open spec fn items_objs_v(doc: Seq<(Seq<char>, JsonNodeV)>) -> Option<Seq<JsonObjV>> {
    let node = match doc_get_v(doc, "data"@) {
        Some(n) => Some(n),
        None => match doc_get_v(doc, "gamePasses"@) {
            Some(n) => Some(n),
            None => match doc_get_v(doc, "developerProducts"@) {
                Some(n) => Some(n),
                None => doc_get_v(doc, "badges"@),
            },
        },
    };
    match node {
        Some(JsonNodeV::Array(objs)) => Some(objs),
        _ => None,
    }
}

/// Whether every listed item carries a name and an identifier.
pub open spec fn all_items_good(objs: Seq<JsonObjV>) -> bool {
    forall|i: int| 0 <= i < objs.len() ==> item_entry_v(#[trigger] objs[i]) is Some
}

/// The cursor of the next page, under either cursor key.
pub open spec fn cursor_v(doc: Seq<(Seq<char>, JsonNodeV)>) -> Option<Seq<char>> {
    match doc_text_v(doc, "nextPageCursor"@) {
        Some(c) => Some(c),
        None => doc_text_v(doc, "nextPageToken"@),
    }
}

fn items_array<'a>(doc: &'a Vec<(String, JsonNode)>) -> (r: Result<&'a Vec<JsonObj>, SyncError>)
    ensures
        match r {
            Ok(objs) => items_objs_v(doc_fields_v(doc@)) == Some(objs_v(objs@)),
            Err(e) => items_objs_v(doc_fields_v(doc@)) is None && e is ParseError,
        },
{
    let node = match doc_get(doc, "data") {
        Some(n) => Some(n),
        None => match doc_get(doc, "gamePasses") {
            Some(n) => Some(n),
            None => match doc_get(doc, "developerProducts") {
                Some(n) => Some(n),
                None => doc_get(doc, "badges"),
            },
        },
    };
    match node {
        Some(JsonNode::Array(objs)) => Ok(objs),
        Some(_) => Err(parse_error("listing items are not an array")),
        None => Err(parse_error("listing response has no item array")),
    }
}

/// One page of a listing response: every item's identifier and name, and
/// the next page's cursor, exactly as the document model holds them; a
/// parse error when the body is not JSON, no item array is present, or an
/// item lacks its name or identifier.
pub fn parse_list_page(text: &str) -> (r: Result<ListResponse<DirectoryEntry>, SyncError>)
    ensures
        match json_doc_of(text@) {
            None => r matches Err(e) && e is ParseError,
            Some(doc) => match items_objs_v(doc) {
                None => r matches Err(e) && e is ParseError,
                Some(objs) => if all_items_good(objs) {
                    &&& r matches Ok(page)
                    &&& page.data@.len() == objs.len()
                    &&& (forall|i: int|
                        0 <= i < objs.len() ==> item_entry_v(#[trigger] objs[i]) == Some(
                            (page.data@[i].id, page.data@[i].name@),
                        ))
                    &&& (match cursor_v(doc) {
                        Some(c) => page.next_page_cursor matches Some(s) && s@ == c,
                        None => page.next_page_cursor is None,
                    })
                } else {
                    r matches Err(e) && e is ParseError
                },
            },
        },
{
    let doc = match parse_json_doc(text) {
        Some(d) => d,
        None => {
            return Err(parse_error("response is not valid JSON"));
        },
    };
    let objs = match items_array(&doc) {
        Ok(objs) => objs,
        Err(e) => {
            return Err(e);
        },
    };
    let ghost ov = objs_v(objs@);
    let mut data: Vec<DirectoryEntry> = Vec::new();
    let mut i: usize = 0;
    while i < objs.len()
        invariant
            json_doc_of(text@) == Some(doc_fields_v(doc@)),
            items_objs_v(doc_fields_v(doc@)) == Some(ov),
            i <= objs@.len(),
            ov == objs_v(objs@),
            ov.len() == objs@.len(),
            data@.len() == i,
            forall|j: int|
                0 <= j < i ==> item_entry_v(#[trigger] ov[j]) == Some(
                    (data@[j].id, data@[j].name@),
                ),
        decreases objs@.len() - i,
    {
        proof {
            assert(ov[i as int] == objs@[i as int]@);
        }
        match item_entry(&objs[i]) {
            Some(e) => data.push(e),
            None => {
                proof {
                    assert(item_entry_v(ov[i as int]) is None);
                    assert(!all_items_good(ov));
                }
                return Err(parse_error("a listed resource lacks its name or identifier"));
            },
        }
        i += 1;
    }
    assert(all_items_good(ov));
    let next_page_cursor = match doc_text(&doc, "nextPageCursor") {
        Some(c) => Some(c),
        None => doc_text(&doc, "nextPageToken"),
    };
    Ok(ListResponse { data, next_page_cursor })
}

/// One listed resource as the export shows it: required name and
/// identifier, and the price when the listing carries one as a number.
pub open spec fn item_export_v(o: JsonObjV) -> Option<(u64, Seq<char>, Option<u64>)> {
    match item_entry_v(o) {
        Some(p) => Some(
            (
                p.0,
                p.1,
                match obj_get_v(o.fields, "price"@) {
                    Some(JsonPrimV::Uint(n)) => Some(n),
                    _ => None,
                },
            ),
        ),
        None => None,
    }
}

fn item_export(o: &JsonObj) -> (r: Option<ExportItem>)
    ensures
        match r {
            Some(e) => item_export_v(o@) == Some((e.id, e.name@, e.price)),
            None => item_export_v(o@) is None,
        },
{
    let base = match item_entry(o) {
        Some(e) => e,
        None => {
            return None;
        },
    };
    let price = match obj_get(&o.fields, "price") {
        Some(JsonPrim::Uint(n)) => Some(*n),
        _ => None,
    };
    Some(ExportItem { name: base.name, id: base.id, price })
}

/// One page of a listing response, read for the export snapshot: like
/// parse_list_page, with each item's price carried along when present.
pub fn parse_export_page(text: &str) -> (r: Result<ListResponse<ExportItem>, SyncError>)
    ensures
        match json_doc_of(text@) {
            None => r matches Err(e) && e is ParseError,
            Some(doc) => match items_objs_v(doc) {
                None => r matches Err(e) && e is ParseError,
                Some(objs) => if all_items_good(objs) {
                    &&& r matches Ok(page)
                    &&& page.data@.len() == objs.len()
                    &&& (forall|i: int|
                        0 <= i < objs.len() ==> item_export_v(#[trigger] objs[i]) == Some(
                            (page.data@[i].id, page.data@[i].name@, page.data@[i].price),
                        ))
                    &&& (match cursor_v(doc) {
                        Some(c) => page.next_page_cursor matches Some(s) && s@ == c,
                        None => page.next_page_cursor is None,
                    })
                } else {
                    r matches Err(e) && e is ParseError
                },
            },
        },
{
    let doc = match parse_json_doc(text) {
        Some(d) => d,
        None => {
            return Err(parse_error("response is not valid JSON"));
        },
    };
    let objs = match items_array(&doc) {
        Ok(objs) => objs,
        Err(e) => {
            return Err(e);
        },
    };
    let ghost ov = objs_v(objs@);
    let mut data: Vec<ExportItem> = Vec::new();
    let mut i: usize = 0;
    while i < objs.len()
        invariant
            json_doc_of(text@) == Some(doc_fields_v(doc@)),
            items_objs_v(doc_fields_v(doc@)) == Some(ov),
            i <= objs@.len(),
            ov == objs_v(objs@),
            ov.len() == objs@.len(),
            data@.len() == i,
            forall|j: int|
                0 <= j < i ==> item_export_v(#[trigger] ov[j]) == Some(
                    (data@[j].id, data@[j].name@, data@[j].price),
                ),
        decreases objs@.len() - i,
    {
        proof {
            assert(ov[i as int] == objs@[i as int]@);
        }
        match item_export(&objs[i]) {
            Some(e) => data.push(e),
            None => {
                proof {
                    assert(item_entry_v(ov[i as int]) is None);
                    assert(!all_items_good(ov));
                }
                return Err(parse_error("a listed resource lacks its name or identifier"));
            },
        }
        i += 1;
    }
    assert(all_items_good(ov));
    let next_page_cursor = match doc_text(&doc, "nextPageCursor") {
        Some(c) => Some(c),
        None => doc_text(&doc, "nextPageToken"),
    };
    Ok(ListResponse { data, next_page_cursor })
}

/// The identifier of a just-created resource.
pub open spec fn created_id_v(doc: Seq<(Seq<char>, JsonNodeV)>) -> Option<u64> {
    match doc_get_v(doc, "id"@) {
        Some(JsonNodeV::Prim(p)) => prim_id(p),
        _ => None,
    }
}

/// The identifier of a just-created resource: its integer reading from
/// the document's id field, numeric or a string of digits; a parse error
/// exactly when the body is not JSON or carries no readable identifier —
/// without one the core cannot track the resource.
pub fn parse_created_id(text: &str) -> (r: Result<u64, SyncError>)
    ensures
        match json_doc_of(text@) {
            None => r matches Err(e) && e is ParseError,
            Some(doc) => match created_id_v(doc) {
                Some(id) => r == Ok::<u64, SyncError>(id),
                None => r matches Err(e) && e is ParseError,
            },
        },
{
    let doc = match parse_json_doc(text) {
        Some(d) => d,
        None => {
            return Err(parse_error("response is not valid JSON"));
        },
    };
    let id_node = match doc_get(&doc, "id") {
        Some(n) => n,
        None => {
            return Err(parse_error("created resource has no identifier"));
        },
    };
    let id_prim = match id_node {
        JsonNode::Prim(p) => p,
        _ => {
            return Err(parse_error("created resource has no identifier"));
        },
    };
    match prim_id_exec(id_prim) {
        Some(id) => Ok(id),
        None => Err(parse_error("created resource has no identifier")),
    }
}

/// What an upload submission came back with: a finished asset, or an
/// operation handle to poll.
pub enum UploadStart {
    /// The platform short-circuited: the asset identifier was embedded in
    /// the submission response.
    Completed(u64),
    /// The platform returned an operation to poll until it completes.
    Pending(String),
}

/// The expected reading of a submission that must carry an operation
/// path: pending with that path, else a parse error.
pub open spec fn pending_result(
    doc: Seq<(Seq<char>, JsonNodeV)>,
    r: Result<UploadStart, SyncError>,
) -> bool {
    match doc_text_v(doc, "path"@) {
        Some(p) => r matches Ok(UploadStart::Pending(h)) && h@ == p,
        None => r matches Err(e) && e is ParseError,
    }
}

/// An upload submission response: the embedded asset identifier exactly
/// when the document says done with a readable asset identifier; else the
/// operation path to poll; a parse error when the body is not JSON, a
/// flag or identifier is ill-typed, or no path is present to poll.
pub fn parse_upload_submit(text: &str) -> (r: Result<UploadStart, SyncError>)
    ensures
        match json_doc_of(text@) {
            None => r matches Err(e) && e is ParseError,
            Some(doc) => match done_flag_v(doc) {
                None => r matches Err(e) && e is ParseError,
                Some(done) => if done {
                    match asset_id_v(doc) {
                        None => r matches Err(e) && e is ParseError,
                        Some(Some(id)) => r == Ok::<UploadStart, SyncError>(
                            UploadStart::Completed(id),
                        ),
                        Some(None) => pending_result(doc, r),
                    }
                } else {
                    pending_result(doc, r)
                },
            },
        },
{
    let doc = match parse_json_doc(text) {
        Some(d) => d,
        None => {
            return Err(parse_error("response is not valid JSON"));
        },
    };
    let done = match done_flag(&doc) {
        Some(b) => b,
        None => {
            return Err(parse_error("the done field is not a boolean"));
        },
    };
    if done {
        match asset_id_field(&doc) {
            Err(e) => {
                return Err(e);
            },
            Ok(Some(id)) => {
                return Ok(UploadStart::Completed(id));
            },
            Ok(None) => {},
        }
    }
    match doc_text(&doc, "path") {
        Some(path) => Ok(UploadStart::Pending(path)),
        None => Err(parse_error("operation response has no path to poll")),
    }
}

/// The terminal facts of one poll response: whether the operation is done,
/// the asset identifier if one was reported, and the error message if the
/// operation failed.
pub struct PollRaw {
    pub done: bool,
    pub asset_id: Option<u64>,
    pub error_message: Option<String>,
}

/// The reported failure of an operation document: the error's message
/// when the error field carries one, a fixed text when it is present in
/// any other shape, nothing when it is absent.
pub open spec fn poll_error_v(doc: Seq<(Seq<char>, JsonNodeV)>) -> Option<Seq<char>> {
    match doc_get_v(doc, "error"@) {
        None => None,
        Some(JsonNodeV::Obj(o)) => match obj_get_v(o.fields, "message"@) {
            Some(JsonPrimV::Text(s)) => Some(s),
            _ => Some("unknown error"@),
        },
        Some(_) => Some("unknown error"@),
    }
}

/// One poll response of an asset operation: the done flag, asset
/// identifier and error message exactly as the document model holds them;
/// a parse error when the body is not JSON or a flag or identifier is
/// ill-typed.
pub fn parse_poll(text: &str) -> (r: Result<PollRaw, SyncError>)
    ensures
        match json_doc_of(text@) {
            None => r matches Err(e) && e is ParseError,
            Some(doc) => match done_flag_v(doc) {
                None => r matches Err(e) && e is ParseError,
                Some(done) => match asset_id_v(doc) {
                    None => r matches Err(e) && e is ParseError,
                    Some(aid) => {
                        &&& r matches Ok(p)
                        &&& p.done == done
                        &&& p.asset_id == aid
                        &&& (match poll_error_v(doc) {
                            Some(m) => p.error_message matches Some(s) && s@ == m,
                            None => p.error_message is None,
                        })
                    },
                },
            },
        },
{
    let doc = match parse_json_doc(text) {
        Some(d) => d,
        None => {
            return Err(parse_error("response is not valid JSON"));
        },
    };
    let done = match done_flag(&doc) {
        Some(b) => b,
        None => {
            return Err(parse_error("the done field is not a boolean"));
        },
    };
    let asset_id = match asset_id_field(&doc) {
        Ok(a) => a,
        Err(e) => {
            return Err(e);
        },
    };
    let error_message = match doc_get(&doc, "error") {
        None => None,
        Some(JsonNode::Obj(o)) => match obj_get(&o.fields, "message") {
            Some(JsonPrim::Text(s)) => Some(s.clone()),
            _ => Some(String::from_str("unknown error")),
        },
        Some(_) => Some(String::from_str("unknown error")),
    };
    Ok(PollRaw { done, asset_id, error_message })
}

} // verus!
