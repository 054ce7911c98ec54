use vstd::prelude::*;

use crate::json::arr_view;
use crate::json::obj_view;
use crate::json::JsonValue;
use crate::json::SpecJson;
use crate::model::ExportOptions;
use crate::model::FetchError;
use crate::model::FileDetails;
use crate::model::FileInfo;
use crate::model::LayerDetails;
use crate::model::PageDetails;
use crate::model::ProjectDetails;
use crate::model::SpecExportOptions;
use crate::model::SpecFileDetails;
use crate::model::SpecFileInfo;
use crate::model::SpecLayerDetails;
use crate::model::SpecPageDetails;
use crate::model::SpecProjectDetails;

verus! {

// ---------------------------------------------------------------------------
// Reading fields out of a JSON object.
// ---------------------------------------------------------------------------

/// The value of the first field named `key`, or `None` when no field
/// carries that name. Objects keep source order, so on duplicate keys the
/// first occurrence wins.
pub open spec fn lookup(fields: Seq<(Seq<char>, SpecJson)>, key: Seq<char>) -> Option<SpecJson>
    decreases fields.len(),
{
    if fields.len() == 0 {
        None
    } else if fields[0].0 == key {
        Some(fields[0].1)
    } else {
        lookup(fields.subrange(1, fields.len() as int), key)
    }
}

/// A required string field: present and a JSON string, else the read fails.
pub open spec fn req_text(fields: Seq<(Seq<char>, SpecJson)>, key: Seq<char>) -> Option<
    Seq<char>,
> {
    match lookup(fields, key) {
        Some(SpecJson::Text(s)) => Some(s),
        _ => None,
    }
}

/// An optional string field: a missing field and JSON null both mean
/// absent; any other non-string value is a shape failure. The outer
/// `Option` is success, the inner one presence.
pub open spec fn opt_text(fields: Seq<(Seq<char>, SpecJson)>, key: Seq<char>) -> Option<
    Option<Seq<char>>,
> {
    match lookup(fields, key) {
        None => Some(None),
        Some(SpecJson::Null) => Some(None),
        Some(SpecJson::Text(s)) => Some(Some(s)),
        Some(_) => None,
    }
}

/// An optional unsigned field that must fit the narrower machine type.
pub open spec fn opt_u32(fields: Seq<(Seq<char>, SpecJson)>, key: Seq<char>) -> Option<
    Option<u32>,
> {
    match lookup(fields, key) {
        None => Some(None),
        Some(SpecJson::Null) => Some(None),
        Some(SpecJson::UInt(n)) => if n <= u32::MAX as u64 {
            Some(Some(n as u32))
        } else {
            None
        },
        Some(_) => None,
    }
}

/// An optional boolean field.
pub open spec fn opt_bool(fields: Seq<(Seq<char>, SpecJson)>, key: Seq<char>) -> Option<
    Option<bool>,
> {
    match lookup(fields, key) {
        None => Some(None),
        Some(SpecJson::Null) => Some(None),
        Some(SpecJson::Bool(b)) => Some(Some(b)),
        Some(_) => None,
    }
}

/// Decode every element of an array of layer values; the whole array
/// decodes exactly when every element does, keeping order.
pub open spec fn decode_layers_all(items: Seq<SpecJson>) -> Option<Seq<SpecLayerDetails>> {
    if forall|i: int| #![trigger items[i]] 0 <= i < items.len() ==> spec_decode_layer(items[i])
        is Some {
        Some(Seq::new(items.len(), |i: int| spec_decode_layer(items[i]).unwrap()))
    } else {
        None
    }
}

/// Decode every element of an array of page values, keeping order.
pub open spec fn decode_pages_all(items: Seq<SpecJson>) -> Option<Seq<SpecPageDetails>> {
    if forall|i: int| #![trigger items[i]] 0 <= i < items.len() ==> spec_decode_page(items[i])
        is Some {
        Some(Seq::new(items.len(), |i: int| spec_decode_page(items[i]).unwrap()))
    } else {
        None
    }
}

/// Decode every element of an array of file summaries, keeping order.
pub open spec fn decode_files_all(items: Seq<SpecJson>) -> Option<Seq<SpecFileInfo>> {
    if forall|i: int| #![trigger items[i]] 0 <= i < items.len() ==> spec_decode_file_info(items[i])
        is Some {
        Some(Seq::new(items.len(), |i: int| spec_decode_file_info(items[i]).unwrap()))
    } else {
        None
    }
}

/// The optional `layers` field: missing and null both mean absent (the
/// defaulting rule), an array decodes element-wise, anything else fails.
pub open spec fn opt_layers(fields: Seq<(Seq<char>, SpecJson)>) -> Option<
    Option<Seq<SpecLayerDetails>>,
> {
    match lookup(fields, "layers"@) {
        None => Some(None),
        Some(SpecJson::Null) => Some(None),
        Some(SpecJson::Array(items)) => match decode_layers_all(items) {
            Some(ts) => Some(Some(ts)),
            None => None,
        },
        Some(_) => None,
    }
}

/// The optional `pages` field, under the same defaulting rule as `layers`.
pub open spec fn opt_pages(fields: Seq<(Seq<char>, SpecJson)>) -> Option<
    Option<Seq<SpecPageDetails>>,
> {
    match lookup(fields, "pages"@) {
        None => Some(None),
        Some(SpecJson::Null) => Some(None),
        Some(SpecJson::Array(items)) => match decode_pages_all(items) {
            Some(ts) => Some(Some(ts)),
            None => None,
        },
        Some(_) => None,
    }
}

// ---------------------------------------------------------------------------
// What each resource means as a JSON value: the decoded result, or `None`
// where the value does not match the schema.
// ---------------------------------------------------------------------------

pub open spec fn spec_decode_layer(j: SpecJson) -> Option<SpecLayerDetails> {
    match j {
        SpecJson::Object(fields) => if req_text(fields, "id"@) is Some && opt_text(fields, "name"@)
            is Some && opt_text(fields, "imageUrl"@) is Some {
            Some(
                SpecLayerDetails {
                    id: req_text(fields, "id"@).unwrap(),
                    name: opt_text(fields, "name"@).unwrap(),
                    image_url: opt_text(fields, "imageUrl"@).unwrap(),
                },
            )
        } else {
            None
        },
        _ => None,
    }
}

pub open spec fn spec_decode_page(j: SpecJson) -> Option<SpecPageDetails> {
    match j {
        SpecJson::Object(fields) => {
            let id = req_text(fields, "id"@);
            let name = req_text(fields, "name"@);
            let layers = opt_layers(fields);
            if id is Some && name is Some && layers is Some {
                Some(
                    SpecPageDetails {
                        id: id.unwrap(),
                        name: name.unwrap(),
                        layers: layers.unwrap(),
                    },
                )
            } else {
                None
            }
        },
        _ => None,
    }
}

pub open spec fn spec_decode_file_details(j: SpecJson) -> Option<SpecFileDetails> {
    match j {
        SpecJson::Object(fields) => {
            let key = req_text(fields, "key"@);
            let name = req_text(fields, "name"@);
            let pages = opt_pages(fields);
            if key is Some && name is Some && pages is Some {
                Some(
                    SpecFileDetails {
                        key: key.unwrap(),
                        name: name.unwrap(),
                        pages: pages.unwrap(),
                    },
                )
            } else {
                None
            }
        },
        _ => None,
    }
}

pub open spec fn spec_decode_file_info(j: SpecJson) -> Option<SpecFileInfo> {
    match j {
        SpecJson::Object(fields) => if req_text(fields, "key"@) is Some && req_text(fields, "name"@)
            is Some && opt_text(fields, "thumbnailUrl"@) is Some && req_text(
            fields,
            "lastModified"@,
        ) is Some {
            Some(
                SpecFileInfo {
                    key: req_text(fields, "key"@).unwrap(),
                    name: req_text(fields, "name"@).unwrap(),
                    thumbnail_url: opt_text(fields, "thumbnailUrl"@).unwrap(),
                    last_modified: req_text(fields, "lastModified"@).unwrap(),
                },
            )
        } else {
            None
        },
        _ => None,
    }
}

pub open spec fn spec_decode_project(j: SpecJson) -> Option<SpecProjectDetails> {
    match j {
        SpecJson::Object(fields) => {
            let name = req_text(fields, "name"@);
            let files = match lookup(fields, "files"@) {
                Some(SpecJson::Array(items)) => decode_files_all(items),
                _ => None,
            };
            if name is Some && files is Some {
                Some(SpecProjectDetails { name: name.unwrap(), files: files.unwrap() })
            } else {
                None
            }
        },
        _ => None,
    }
}

pub open spec fn spec_decode_export_options(j: SpecJson) -> Option<SpecExportOptions> {
    match j {
        SpecJson::Object(fields) => if opt_text(fields, "directory"@) is Some && opt_text(
            fields,
            "format"@,
        ) is Some && opt_u32(fields, "scale"@) is Some && opt_bool(fields, "firstPageOnly"@)
            is Some {
            Some(
                SpecExportOptions {
                    directory: opt_text(fields, "directory"@).unwrap(),
                    format: opt_text(fields, "format"@).unwrap(),
                    scale: opt_u32(fields, "scale"@).unwrap(),
                    first_page_only: opt_bool(fields, "firstPageOnly"@).unwrap(),
                },
            )
        } else {
            None
        },
        _ => None,
    }
}

// ---------------------------------------------------------------------------
// Executable decoding. Each decoder returns exactly what its spec-level
// counterpart denotes: `Ok` when the value matches the schema, and
// `SchemaMismatch` precisely when it does not.
// ---------------------------------------------------------------------------

/// `lookup` finds the first field with the sought key.
proof fn lemma_lookup_at(fields: Seq<(Seq<char>, SpecJson)>, key: Seq<char>, i: int)
    requires
        0 <= i < fields.len(),
        forall|k: int| 0 <= k < i ==> (#[trigger] fields[k]).0 != key,
        fields[i].0 == key,
    ensures
        lookup(fields, key) == Some(fields[i].1),
    decreases i,
{
    if i > 0 {
        lemma_lookup_at(fields.subrange(1, fields.len() as int), key, i - 1);
    }
}

/// `lookup` misses exactly when no field carries the sought key.
proof fn lemma_lookup_absent(fields: Seq<(Seq<char>, SpecJson)>, key: Seq<char>)
    requires
        forall|k: int| 0 <= k < fields.len() ==> (#[trigger] fields[k]).0 != key,
    ensures
        lookup(fields, key) is None,
    decreases fields.len(),
{
    if fields.len() > 0 {
        lemma_lookup_absent(fields.subrange(1, fields.len() as int), key);
    }
}

/// First field with the given name, if any; the executable side of `lookup`.
fn lookup_field<'a>(fields: &'a Vec<(String, JsonValue)>, key: &String) -> (r: Option<
    &'a JsonValue,
>)
    ensures
        match r {
            Some(v) => lookup(obj_view(fields@), key@) == Some(v@),
            None => lookup(obj_view(fields@), key@) is None,
        },
{
    let mut idx: usize = 0;
    while idx < fields.len()
        invariant
            idx <= fields@.len(),
            forall|k: int| 0 <= k < idx ==> (#[trigger] obj_view(fields@)[k]).0 != key@,
        decreases fields@.len() - idx,
    {
        if fields[idx].0 == *key {
            proof {
                lemma_lookup_at(obj_view(fields@), key@, idx as int);
            }
            return Some(&fields[idx].1);
        }
        proof {
            assert(obj_view(fields@)[idx as int].0 == fields@[idx as int].0@);
        }
        idx += 1;
    }
    proof {
        lemma_lookup_absent(obj_view(fields@), key@);
    }
    None
}

/// A required string field, cloned out; `SchemaMismatch` when absent or of
/// another JSON type.
fn get_req_text(fields: &Vec<(String, JsonValue)>, key: &String) -> (r: Result<String, FetchError>)
    ensures
        match r {
            Ok(s) => req_text(obj_view(fields@), key@) == Some(s@),
            Err(e) => e == FetchError::SchemaMismatch && req_text(obj_view(fields@), key@)
                is None,
        },
{
    match lookup_field(fields, key) {
        Some(v) => match v {
            JsonValue::Text(s) => Ok(s.clone()),
            _ => Err(FetchError::SchemaMismatch),
        },
        None => Err(FetchError::SchemaMismatch),
    }
}

/// An optional string field: missing or null is `None`, a string is cloned
/// out, any other JSON type is `SchemaMismatch`.
fn get_opt_text(fields: &Vec<(String, JsonValue)>, key: &String) -> (r: Result<
    Option<String>,
    FetchError,
>)
    ensures
        match r {
            Ok(o) => opt_text(obj_view(fields@), key@) == Some(
                match o {
                    Some(s) => Some(s@),
                    None => None::<Seq<char>>,
                },
            ),
            Err(e) => e == FetchError::SchemaMismatch && opt_text(obj_view(fields@), key@)
                is None,
        },
{
    match lookup_field(fields, key) {
        Some(v) => match v {
            JsonValue::Null => Ok(None),
            JsonValue::Text(s) => Ok(Some(s.clone())),
            _ => Err(FetchError::SchemaMismatch),
        },
        None => Ok(None),
    }
}

/// An optional unsigned field that must fit in 32 bits.
fn get_opt_u32(fields: &Vec<(String, JsonValue)>, key: &String) -> (r: Result<
    Option<u32>,
    FetchError,
>)
    ensures
        match r {
            Ok(o) => opt_u32(obj_view(fields@), key@) == Some(o),
            Err(e) => e == FetchError::SchemaMismatch && opt_u32(obj_view(fields@), key@) is None,
        },
{
    match lookup_field(fields, key) {
        Some(v) => match v {
            JsonValue::Null => Ok(None),
            JsonValue::UInt(n) => if *n <= u32::MAX as u64 {
                Ok(Some(*n as u32))
            } else {
                Err(FetchError::SchemaMismatch)
            },
            _ => Err(FetchError::SchemaMismatch),
        },
        None => Ok(None),
    }
}

/// An optional boolean field.
fn get_opt_bool(fields: &Vec<(String, JsonValue)>, key: &String) -> (r: Result<
    Option<bool>,
    FetchError,
>)
    ensures
        match r {
            Ok(o) => opt_bool(obj_view(fields@), key@) == Some(o),
            Err(e) => e == FetchError::SchemaMismatch && opt_bool(obj_view(fields@), key@) is None,
        },
{
    match lookup_field(fields, key) {
        Some(v) => match v {
            JsonValue::Null => Ok(None),
            JsonValue::Bool(b) => Ok(Some(*b)),
            _ => Err(FetchError::SchemaMismatch),
        },
        None => Ok(None),
    }
}

/// Decode one layer object.
pub fn decode_layer(j: &JsonValue) -> (r: Result<LayerDetails, FetchError>)
    ensures
        match r {
            Ok(l) => spec_decode_layer(j@) == Some(l@),
            Err(e) => e == FetchError::SchemaMismatch && spec_decode_layer(j@) is None,
        },
{
    match j {
        JsonValue::Object(fields) => {
            let id = match get_req_text(fields, &"id".to_owned()) {
                Ok(s) => s,
                Err(e) => {
                    return Err(e);
                },
            };
            let name = match get_opt_text(fields, &"name".to_owned()) {
                Ok(o) => o,
                Err(e) => {
                    return Err(e);
                },
            };
            let image_url = match get_opt_text(fields, &"imageUrl".to_owned()) {
                Ok(o) => o,
                Err(e) => {
                    return Err(e);
                },
            };
            Ok(LayerDetails { id, name, image_url })
        },
        _ => Err(FetchError::SchemaMismatch),
    }
}

/// Decode every element of an array of layer objects, keeping order.
pub fn decode_layers(items: &Vec<JsonValue>) -> (r: Result<Vec<LayerDetails>, FetchError>)
    ensures
        match r {
            Ok(ls) => ls@.len() == items@.len() && forall|i: int|
                0 <= i < items@.len() ==> #[trigger] spec_decode_layer(arr_view(items@)[i])
                    == Some(ls@[i]@),
            Err(e) => e == FetchError::SchemaMismatch && exists|i: int|
                0 <= i < items@.len() && spec_decode_layer(#[trigger] arr_view(items@)[i])
                    is None,
        },
{
    let mut out: Vec<LayerDetails> = Vec::new();
    let mut idx: usize = 0;
    while idx < items.len()
        invariant
            idx <= items@.len(),
            out@.len() == idx,
            forall|i: int|
                0 <= i < idx ==> #[trigger] spec_decode_layer(arr_view(items@)[i]) == Some(
                    out@[i]@,
                ),
        decreases items@.len() - idx,
    {
        match decode_layer(&items[idx]) {
            Ok(l) => {
                out.push(l);
            },
            Err(e) => {
                proof {
                    assert(spec_decode_layer(arr_view(items@)[idx as int]) is None);
                }
                return Err(e);
            },
        }
        idx += 1;
    }
    Ok(out)
}

/// Decode one page object. A missing or null `layers` field becomes the
/// absent default, never a failure.
pub fn decode_page(j: &JsonValue) -> (r: Result<PageDetails, FetchError>)
    ensures
        match r {
            Ok(p) => spec_decode_page(j@) == Some(p@),
            Err(e) => e == FetchError::SchemaMismatch && spec_decode_page(j@) is None,
        },
{
    match j {
        JsonValue::Object(fields) => {
            let id = match get_req_text(fields, &"id".to_owned()) {
                Ok(s) => s,
                Err(e) => {
                    return Err(e);
                },
            };
            let name = match get_req_text(fields, &"name".to_owned()) {
                Ok(s) => s,
                Err(e) => {
                    return Err(e);
                },
            };
            let layers: Option<Vec<LayerDetails>> = match lookup_field(
                fields,
                &"layers".to_owned(),
            ) {
                None => crate::model::default_layers(),
                Some(v) => match v {
                    JsonValue::Null => crate::model::default_layers(),
                    JsonValue::Array(items) => match decode_layers(items) {
                        Ok(ls) => Some(ls),
                        Err(e) => {
                            return Err(e);
                        },
                    },
                    _ => {
                        return Err(FetchError::SchemaMismatch);
                    },
                },
            };
            let page = PageDetails { id, name, layers };
            Ok(page)
        },
        _ => Err(FetchError::SchemaMismatch),
    }
}

/// Decode every element of an array of page objects, keeping order.
pub fn decode_pages(items: &Vec<JsonValue>) -> (r: Result<Vec<PageDetails>, FetchError>)
    ensures
        match r {
            Ok(ps) => ps@.len() == items@.len() && forall|i: int|
                0 <= i < items@.len() ==> #[trigger] spec_decode_page(arr_view(items@)[i]) == Some(
                    ps@[i]@,
                ),
            Err(e) => e == FetchError::SchemaMismatch && exists|i: int|
                0 <= i < items@.len() && spec_decode_page(#[trigger] arr_view(items@)[i]) is None,
        },
{
    let mut out: Vec<PageDetails> = Vec::new();
    let mut idx: usize = 0;
    while idx < items.len()
        invariant
            idx <= items@.len(),
            out@.len() == idx,
            forall|i: int|
                0 <= i < idx ==> #[trigger] spec_decode_page(arr_view(items@)[i]) == Some(
                    out@[i]@,
                ),
        decreases items@.len() - idx,
    {
        match decode_page(&items[idx]) {
            Ok(p) => {
                out.push(p);
            },
            Err(e) => {
                proof {
                    assert(spec_decode_page(arr_view(items@)[idx as int]) is None);
                }
                return Err(e);
            },
        }
        idx += 1;
    }
    Ok(out)
}

/// Decode one full file record; `pages` falls under the same defaulting
/// rule as `layers`.
pub fn decode_file_details(j: &JsonValue) -> (r: Result<FileDetails, FetchError>)
    ensures
        match r {
            Ok(f) => spec_decode_file_details(j@) == Some(f@),
            Err(e) => e == FetchError::SchemaMismatch && spec_decode_file_details(j@) is None,
        },
{
    match j {
        JsonValue::Object(fields) => {
            let key = match get_req_text(fields, &"key".to_owned()) {
                Ok(s) => s,
                Err(e) => {
                    return Err(e);
                },
            };
            let name = match get_req_text(fields, &"name".to_owned()) {
                Ok(s) => s,
                Err(e) => {
                    return Err(e);
                },
            };
            let pages: Option<Vec<PageDetails>> = match lookup_field(fields, &"pages".to_owned()) {
                None => None,
                Some(v) => match v {
                    JsonValue::Null => None,
                    JsonValue::Array(items) => match decode_pages(items) {
                        Ok(ps) => Some(ps),
                        Err(e) => {
                            return Err(e);
                        },
                    },
                    _ => {
                        return Err(FetchError::SchemaMismatch);
                    },
                },
            };
            let file = FileDetails { key, name, pages };
            Ok(file)
        },
        _ => Err(FetchError::SchemaMismatch),
    }
}

/// Decode one file summary record.
pub fn decode_file_info(j: &JsonValue) -> (r: Result<FileInfo, FetchError>)
    ensures
        match r {
            Ok(f) => spec_decode_file_info(j@) == Some(f@),
            Err(e) => e == FetchError::SchemaMismatch && spec_decode_file_info(j@) is None,
        },
{
    match j {
        JsonValue::Object(fields) => {
            let key = match get_req_text(fields, &"key".to_owned()) {
                Ok(s) => s,
                Err(e) => {
                    return Err(e);
                },
            };
            let name = match get_req_text(fields, &"name".to_owned()) {
                Ok(s) => s,
                Err(e) => {
                    return Err(e);
                },
            };
            let thumbnail_url = match get_opt_text(fields, &"thumbnailUrl".to_owned()) {
                Ok(o) => o,
                Err(e) => {
                    return Err(e);
                },
            };
            let last_modified = match get_req_text(fields, &"lastModified".to_owned()) {
                Ok(s) => s,
                Err(e) => {
                    return Err(e);
                },
            };
            Ok(FileInfo { key, name, thumbnail_url, last_modified })
        },
        _ => Err(FetchError::SchemaMismatch),
    }
}

/// Decode every element of the file listing, keeping server order.
pub fn decode_files(items: &Vec<JsonValue>) -> (r: Result<Vec<FileInfo>, FetchError>)
    ensures
        match r {
            Ok(fs) => fs@.len() == items@.len() && forall|i: int|
                0 <= i < items@.len() ==> #[trigger] spec_decode_file_info(arr_view(items@)[i])
                    == Some(fs@[i]@),
            Err(e) => e == FetchError::SchemaMismatch && exists|i: int|
                0 <= i < items@.len() && spec_decode_file_info(#[trigger] arr_view(items@)[i])
                    is None,
        },
{
    let mut out: Vec<FileInfo> = Vec::new();
    let mut idx: usize = 0;
    while idx < items.len()
        invariant
            idx <= items@.len(),
            out@.len() == idx,
            forall|i: int|
                0 <= i < idx ==> #[trigger] spec_decode_file_info(arr_view(items@)[i]) == Some(
                    out@[i]@,
                ),
        decreases items@.len() - idx,
    {
        match decode_file_info(&items[idx]) {
            Ok(f) => {
                out.push(f);
            },
            Err(e) => {
                proof {
                    assert(spec_decode_file_info(arr_view(items@)[idx as int]) is None);
                }
                return Err(e);
            },
        }
        idx += 1;
    }
    Ok(out)
}

/// Decode the top-level response of the project-files endpoint. `name` and
/// `files` are both required; the file order of the body is kept.
pub fn decode_project(j: &JsonValue) -> (r: Result<ProjectDetails, FetchError>)
    ensures
        match r {
            Ok(p) => spec_decode_project(j@) == Some(p@),
            Err(e) => e == FetchError::SchemaMismatch && spec_decode_project(j@) is None,
        },
{
    match j {
        JsonValue::Object(fields) => {
            let name = match get_req_text(fields, &"name".to_owned()) {
                Ok(s) => s,
                Err(e) => {
                    return Err(e);
                },
            };
            let files: Vec<FileInfo> = match lookup_field(fields, &"files".to_owned()) {
                Some(v) => match v {
                    JsonValue::Array(items) => match decode_files(items) {
                        Ok(fs) => fs,
                        Err(e) => {
                            return Err(e);
                        },
                    },
                    _ => {
                        return Err(FetchError::SchemaMismatch);
                    },
                },
                None => {
                    return Err(FetchError::SchemaMismatch);
                },
            };
            let project = ProjectDetails { name, files };
            Ok(project)
        },
        _ => Err(FetchError::SchemaMismatch),
    }
}

/// Decode a client-side export configuration; every field is optional.
pub fn decode_export_options(j: &JsonValue) -> (r: Result<ExportOptions, FetchError>)
    ensures
        match r {
            Ok(e) => spec_decode_export_options(j@) == Some(e@),
            Err(e) => e == FetchError::SchemaMismatch && spec_decode_export_options(j@) is None,
        },
{
    match j {
        JsonValue::Object(fields) => {
            let directory = match get_opt_text(fields, &"directory".to_owned()) {
                Ok(o) => o,
                Err(e) => {
                    return Err(e);
                },
            };
            let format = match get_opt_text(fields, &"format".to_owned()) {
                Ok(o) => o,
                Err(e) => {
                    return Err(e);
                },
            };
            let scale = match get_opt_u32(fields, &"scale".to_owned()) {
                Ok(o) => o,
                Err(e) => {
                    return Err(e);
                },
            };
            let first_page_only = match get_opt_bool(fields, &"firstPageOnly".to_owned()) {
                Ok(o) => o,
                Err(e) => {
                    return Err(e);
                },
            };
            Ok(ExportOptions { directory, format, scale, first_page_only })
        },
        _ => Err(FetchError::SchemaMismatch),
    }
}

// ---------------------------------------------------------------------------
// What each resource writes back: the canonical JSON value, every schema
// field present, absent options written as null.
// ---------------------------------------------------------------------------

pub open spec fn enc_opt_text(o: Option<Seq<char>>) -> SpecJson {
    match o {
        Some(s) => SpecJson::Text(s),
        None => SpecJson::Null,
    }
}

pub open spec fn spec_encode_layer(l: SpecLayerDetails) -> SpecJson {
    SpecJson::Object(
        seq![
            ("id"@, SpecJson::Text(l.id)),
            ("name"@, enc_opt_text(l.name)),
            ("imageUrl"@, enc_opt_text(l.image_url)),
        ],
    )
}

/// Write a list of layers element-wise, keeping order.
pub open spec fn enc_layers_seq(ls: Seq<SpecLayerDetails>) -> Seq<SpecJson> {
    Seq::new(ls.len(), |i: int| spec_encode_layer(ls[i]))
}

/// Write an optional list of layers: absent becomes null.
pub open spec fn enc_opt_layers(o: Option<Seq<SpecLayerDetails>>) -> SpecJson {
    match o {
        Some(ls) => SpecJson::Array(enc_layers_seq(ls)),
        None => SpecJson::Null,
    }
}

pub open spec fn spec_encode_page(p: SpecPageDetails) -> SpecJson {
    SpecJson::Object(
        seq![
            ("id"@, SpecJson::Text(p.id)),
            ("name"@, SpecJson::Text(p.name)),
            ("layers"@, enc_opt_layers(p.layers)),
        ],
    )
}

/// Write a list of pages element-wise, keeping order.
pub open spec fn enc_pages_seq(ps: Seq<SpecPageDetails>) -> Seq<SpecJson> {
    Seq::new(ps.len(), |i: int| spec_encode_page(ps[i]))
}

/// Write an optional list of pages: absent becomes null.
pub open spec fn enc_opt_pages(o: Option<Seq<SpecPageDetails>>) -> SpecJson {
    match o {
        Some(ps) => SpecJson::Array(enc_pages_seq(ps)),
        None => SpecJson::Null,
    }
}

pub open spec fn spec_encode_file_details(f: SpecFileDetails) -> SpecJson {
    SpecJson::Object(
        seq![
            ("key"@, SpecJson::Text(f.key)),
            ("name"@, SpecJson::Text(f.name)),
            ("pages"@, enc_opt_pages(f.pages)),
        ],
    )
}

pub open spec fn spec_encode_file_info(f: SpecFileInfo) -> SpecJson {
    SpecJson::Object(
        seq![
            ("key"@, SpecJson::Text(f.key)),
            ("name"@, SpecJson::Text(f.name)),
            ("thumbnailUrl"@, enc_opt_text(f.thumbnail_url)),
            ("lastModified"@, SpecJson::Text(f.last_modified)),
        ],
    )
}

/// Write the file listing element-wise, keeping order.
pub open spec fn enc_files_seq(fs: Seq<SpecFileInfo>) -> Seq<SpecJson> {
    Seq::new(fs.len(), |i: int| spec_encode_file_info(fs[i]))
}

pub open spec fn spec_encode_project(p: SpecProjectDetails) -> SpecJson {
    SpecJson::Object(
        seq![("name"@, SpecJson::Text(p.name)), ("files"@, SpecJson::Array(enc_files_seq(p.files)))],
    )
}

pub open spec fn spec_encode_export_options(e: SpecExportOptions) -> SpecJson {
    SpecJson::Object(
        seq![
            ("directory"@, enc_opt_text(e.directory)),
            ("format"@, enc_opt_text(e.format)),
            (
                "scale"@,
                match e.scale {
                    Some(n) => SpecJson::UInt(n as u64),
                    None => SpecJson::Null,
                },
            ),
            (
                "firstPageOnly"@,
                match e.first_page_only {
                    Some(b) => SpecJson::Bool(b),
                    None => SpecJson::Null,
                },
            ),
        ],
    )
}

/// Write an optional string as itself or as null.
fn encode_opt_text(o: &Option<String>) -> (r: JsonValue)
    ensures
        r@ == enc_opt_text(
            match o {
                Some(s) => Some(s@),
                None => None::<Seq<char>>,
            },
        ),
{
    match o {
        Some(s) => JsonValue::Text(s.clone()),
        None => JsonValue::Null,
    }
}

/// Write one layer back as its canonical JSON object.
pub fn encode_layer(l: &LayerDetails) -> (r: JsonValue)
    ensures
        r@ == spec_encode_layer(l@),
{
    let mut fields: Vec<(String, JsonValue)> = Vec::new();
    fields.push(("id".to_owned(), JsonValue::Text(l.id.clone())));
    fields.push(("name".to_owned(), encode_opt_text(&l.name)));
    fields.push(("imageUrl".to_owned(), encode_opt_text(&l.image_url)));
    let ghost fv = fields@;
    let v = JsonValue::Object(fields);
    proof {
        assert(obj_view(fv) =~= seq![
            ("id"@, SpecJson::Text(l@.id)),
            ("name"@, enc_opt_text(l@.name)),
            ("imageUrl"@, enc_opt_text(l@.image_url)),
        ]);
        assert(v@ == spec_encode_layer(l@));
    }
    v
}

/// Write every layer of a list, keeping order.
fn encode_layers(ls: &Vec<LayerDetails>) -> (r: Vec<JsonValue>)
    ensures
        r@.len() == ls@.len(),
        forall|i: int| 0 <= i < ls@.len() ==> (#[trigger] r@[i])@ == spec_encode_layer(ls@[i]@),
{
    let mut out: Vec<JsonValue> = Vec::new();
    let mut idx: usize = 0;
    while idx < ls.len()
        invariant
            idx <= ls@.len(),
            out@.len() == idx,
            forall|i: int| 0 <= i < idx ==> (#[trigger] out@[i])@ == spec_encode_layer(ls@[i]@),
        decreases ls@.len() - idx,
    {
        out.push(encode_layer(&ls[idx]));
        idx += 1;
    }
    out
}

/// Write an optional layer list: absent becomes null.
fn encode_opt_layers(o: &Option<Vec<LayerDetails>>) -> (r: JsonValue)
    ensures
        r@ == enc_opt_layers(crate::model::layers_opt_view(*o)),
{
    match o {
        Some(ls) => {
            let arr = encode_layers(ls);
            let ghost av = arr_view(arr@);
            let v = JsonValue::Array(arr);
            proof {
                assert(av =~= enc_layers_seq(crate::model::layer_seq_view(ls@)));
            }
            v
        },
        None => JsonValue::Null,
    }
}

/// Write one page back as its canonical JSON object; an absent layer list
/// is written as null.
pub fn encode_page(p: &PageDetails) -> (r: JsonValue)
    ensures
        r@ == spec_encode_page(p@),
{
    let mut fields: Vec<(String, JsonValue)> = Vec::new();
    fields.push(("id".to_owned(), JsonValue::Text(p.id.clone())));
    fields.push(("name".to_owned(), JsonValue::Text(p.name.clone())));
    fields.push(("layers".to_owned(), encode_opt_layers(&p.layers)));
    let ghost fv = fields@;
    let v = JsonValue::Object(fields);
    proof {
        assert(obj_view(fv) =~= seq![
            ("id"@, SpecJson::Text(p@.id)),
            ("name"@, SpecJson::Text(p@.name)),
            ("layers"@, enc_opt_layers(p@.layers)),
        ]);
        assert(v@ == spec_encode_page(p@));
    }
    v
}

/// Write every page of a list, keeping order.
fn encode_pages(ps: &Vec<PageDetails>) -> (r: Vec<JsonValue>)
    ensures
        r@.len() == ps@.len(),
        forall|i: int| 0 <= i < ps@.len() ==> (#[trigger] r@[i])@ == spec_encode_page(ps@[i]@),
{
    let mut out: Vec<JsonValue> = Vec::new();
    let mut idx: usize = 0;
    while idx < ps.len()
        invariant
            idx <= ps@.len(),
            out@.len() == idx,
            forall|i: int| 0 <= i < idx ==> (#[trigger] out@[i])@ == spec_encode_page(ps@[i]@),
        decreases ps@.len() - idx,
    {
        out.push(encode_page(&ps[idx]));
        idx += 1;
    }
    out
}

/// Write an optional page list: absent becomes null.
fn encode_opt_pages(o: &Option<Vec<PageDetails>>) -> (r: JsonValue)
    ensures
        r@ == enc_opt_pages(crate::model::pages_opt_view(*o)),
{
    match o {
        Some(ps) => {
            let arr = encode_pages(ps);
            let ghost av = arr_view(arr@);
            let v = JsonValue::Array(arr);
            proof {
                assert(av =~= enc_pages_seq(crate::model::page_seq_view(ps@)));
            }
            v
        },
        None => JsonValue::Null,
    }
}

/// Write one full file record back as its canonical JSON object.
pub fn encode_file_details(f: &FileDetails) -> (r: JsonValue)
    ensures
        r@ == spec_encode_file_details(f@),
{
    let mut fields: Vec<(String, JsonValue)> = Vec::new();
    fields.push(("key".to_owned(), JsonValue::Text(f.key.clone())));
    fields.push(("name".to_owned(), JsonValue::Text(f.name.clone())));
    fields.push(("pages".to_owned(), encode_opt_pages(&f.pages)));
    let ghost fv = fields@;
    let v = JsonValue::Object(fields);
    proof {
        assert(obj_view(fv) =~= seq![
            ("key"@, SpecJson::Text(f@.key)),
            ("name"@, SpecJson::Text(f@.name)),
            ("pages"@, enc_opt_pages(f@.pages)),
        ]);
        assert(v@ == spec_encode_file_details(f@));
    }
    v
}

/// Write one file summary back as its canonical JSON object.
pub fn encode_file_info(f: &FileInfo) -> (r: JsonValue)
    ensures
        r@ == spec_encode_file_info(f@),
{
    let mut fields: Vec<(String, JsonValue)> = Vec::new();
    fields.push(("key".to_owned(), JsonValue::Text(f.key.clone())));
    fields.push(("name".to_owned(), JsonValue::Text(f.name.clone())));
    fields.push(("thumbnailUrl".to_owned(), encode_opt_text(&f.thumbnail_url)));
    fields.push(("lastModified".to_owned(), JsonValue::Text(f.last_modified.clone())));
    let ghost fv = fields@;
    let v = JsonValue::Object(fields);
    proof {
        assert(obj_view(fv) =~= seq![
            ("key"@, SpecJson::Text(f@.key)),
            ("name"@, SpecJson::Text(f@.name)),
            ("thumbnailUrl"@, enc_opt_text(f@.thumbnail_url)),
            ("lastModified"@, SpecJson::Text(f@.last_modified)),
        ]);
        assert(v@ == spec_encode_file_info(f@));
    }
    v
}

/// Write the whole project listing back as its canonical JSON object.
pub fn encode_project(p: &ProjectDetails) -> (r: JsonValue)
    ensures
        r@ == spec_encode_project(p@),
{
    let mut files: Vec<JsonValue> = Vec::new();
    let mut idx: usize = 0;
    while idx < p.files.len()
        invariant
            idx <= p.files@.len(),
            files@.len() == idx,
            forall|i: int|
                0 <= i < idx ==> (#[trigger] files@[i])@ == spec_encode_file_info(p.files@[i]@),
        decreases p.files@.len() - idx,
    {
        files.push(encode_file_info(&p.files[idx]));
        idx += 1;
    }
    let ghost filesv = arr_view(files@);
    let mut fields: Vec<(String, JsonValue)> = Vec::new();
    fields.push(("name".to_owned(), JsonValue::Text(p.name.clone())));
    fields.push(("files".to_owned(), JsonValue::Array(files)));
    let ghost fv = fields@;
    let v = JsonValue::Object(fields);
    proof {
        assert(filesv =~= enc_files_seq(crate::model::file_info_seq_view(p.files@)));
        assert(obj_view(fv) =~= seq![
            ("name"@, SpecJson::Text(p@.name)),
            ("files"@, SpecJson::Array(enc_files_seq(p@.files))),
        ]);
        assert(v@ == spec_encode_project(p@));
    }
    v
}

/// Write a client-side export configuration back, absent fields as null.
pub fn encode_export_options(e: &ExportOptions) -> (r: JsonValue)
    ensures
        r@ == spec_encode_export_options(e@),
{
    let mut fields: Vec<(String, JsonValue)> = Vec::new();
    fields.push(("directory".to_owned(), encode_opt_text(&e.directory)));
    fields.push(("format".to_owned(), encode_opt_text(&e.format)));
    let scale_value = match e.scale {
        Some(n) => JsonValue::UInt(n as u64),
        None => JsonValue::Null,
    };
    fields.push(("scale".to_owned(), scale_value));
    let first_value = match e.first_page_only {
        Some(b) => JsonValue::Bool(b),
        None => JsonValue::Null,
    };
    fields.push(("firstPageOnly".to_owned(), first_value));
    let ghost fv = fields@;
    let v = JsonValue::Object(fields);
    proof {
        let myseq = seq![
            ("directory"@, enc_opt_text(e@.directory)),
            ("format"@, enc_opt_text(e@.format)),
            (
                "scale"@,
                match e@.scale {
                    Some(n) => SpecJson::UInt(n as u64),
                    None => SpecJson::Null,
                },
            ),
            (
                "firstPageOnly"@,
                match e@.first_page_only {
                    Some(b) => SpecJson::Bool(b),
                    None => SpecJson::Null,
                },
            ),
        ];
        assert(spec_encode_export_options(e@)->Object_0 =~= myseq);
        assert(obj_view(fv) =~= myseq);
        assert(v@ == spec_encode_export_options(e@));
    }
    v
}

// ---------------------------------------------------------------------------
// Laws of the codec.
// ---------------------------------------------------------------------------

/// Every layer value written back decodes to the layer it came from.
pub proof fn lemma_layer_value_round_trip(l: SpecLayerDetails)
    ensures
        spec_decode_layer(spec_encode_layer(l)) == Some(l),
{
    reveal_strlit("id");
    reveal_strlit("name");
    reveal_strlit("imageUrl");
    let fields = spec_encode_layer(l)->Object_0;
    assert("id"@.len() == 2 && "name"@.len() == 4 && "imageUrl"@.len() == 8);
    lemma_lookup_at(fields, "id"@, 0);
    lemma_lookup_at(fields, "name"@, 1);
    lemma_lookup_at(fields, "imageUrl"@, 2);
}

/// Every page value written back decodes to the page it came from.
pub proof fn lemma_page_value_round_trip(p: SpecPageDetails)
    ensures
        spec_decode_page(spec_encode_page(p)) == Some(p),
{
    reveal_strlit("id");
    reveal_strlit("name");
    reveal_strlit("layers");
    let fields = spec_encode_page(p)->Object_0;
    assert("id"@.len() == 2 && "name"@.len() == 4 && "layers"@.len() == 6);
    lemma_lookup_at(fields, "id"@, 0);
    lemma_lookup_at(fields, "name"@, 1);
    lemma_lookup_at(fields, "layers"@, 2);
    match p.layers {
        Some(ls) => {
            let enc = enc_layers_seq(ls);
            assert forall|i: int| 0 <= i < enc.len() implies spec_decode_layer(
                #[trigger] enc[i],
            ) == Some(ls[i]) by {
                lemma_layer_value_round_trip(ls[i]);
            }
            assert(decode_layers_all(enc) is Some);
            assert(decode_layers_all(enc).unwrap() =~= ls);
        },
        None => {
        },
    }
}

/// Every file summary written back decodes to the record it came from.
pub proof fn lemma_file_info_value_round_trip(f: SpecFileInfo)
    ensures
        spec_decode_file_info(spec_encode_file_info(f)) == Some(f),
{
    reveal_strlit("key");
    reveal_strlit("name");
    reveal_strlit("thumbnailUrl");
    reveal_strlit("lastModified");
    let fields = spec_encode_file_info(f)->Object_0;
    assert("key"@.len() == 3 && "name"@.len() == 4 && "thumbnailUrl"@.len() == 12
        && "lastModified"@.len() == 12);
    assert("thumbnailUrl"@[0] == 't' && "lastModified"@[0] == 'l');
    lemma_lookup_at(fields, "key"@, 0);
    lemma_lookup_at(fields, "name"@, 1);
    lemma_lookup_at(fields, "thumbnailUrl"@, 2);
    lemma_lookup_at(fields, "lastModified"@, 3);
}

/// Every full file record written back decodes to the record it came from.
pub proof fn lemma_file_details_value_round_trip(f: SpecFileDetails)
    ensures
        spec_decode_file_details(spec_encode_file_details(f)) == Some(f),
{
    reveal_strlit("key");
    reveal_strlit("name");
    reveal_strlit("pages");
    let fields = spec_encode_file_details(f)->Object_0;
    assert("key"@.len() == 3 && "name"@.len() == 4 && "pages"@.len() == 5);
    lemma_lookup_at(fields, "key"@, 0);
    lemma_lookup_at(fields, "name"@, 1);
    lemma_lookup_at(fields, "pages"@, 2);
    match f.pages {
        Some(ps) => {
            let enc = enc_pages_seq(ps);
            assert forall|i: int| 0 <= i < enc.len() implies spec_decode_page(
                #[trigger] enc[i],
            ) == Some(ps[i]) by {
                lemma_page_value_round_trip(ps[i]);
            }
            assert(decode_pages_all(enc) is Some);
            assert(decode_pages_all(enc).unwrap() =~= ps);
        },
        None => {
        },
    }
}

/// Every project listing written back decodes to the listing it came from.
pub proof fn lemma_project_value_round_trip(p: SpecProjectDetails)
    ensures
        spec_decode_project(spec_encode_project(p)) == Some(p),
{
    reveal_strlit("name");
    reveal_strlit("files");
    let fields = spec_encode_project(p)->Object_0;
    assert("name"@.len() == 4 && "files"@.len() == 5);
    lemma_lookup_at(fields, "name"@, 0);
    lemma_lookup_at(fields, "files"@, 1);
    let enc = enc_files_seq(p.files);
    assert forall|i: int| 0 <= i < enc.len() implies spec_decode_file_info(#[trigger] enc[i])
        == Some(p.files[i]) by {
        lemma_file_info_value_round_trip(p.files[i]);
    }
    assert(decode_files_all(enc) is Some);
    assert(decode_files_all(enc).unwrap() =~= p.files);
}

/// Every export configuration written back decodes to the value it came from.
pub proof fn lemma_export_options_value_round_trip(e: SpecExportOptions)
    ensures
        spec_decode_export_options(spec_encode_export_options(e)) == Some(e),
{
    reveal_strlit("directory");
    reveal_strlit("format");
    reveal_strlit("scale");
    reveal_strlit("firstPageOnly");
    let fields = spec_encode_export_options(e)->Object_0;
    assert("directory"@.len() == 9 && "format"@.len() == 6 && "scale"@.len() == 5
        && "firstPageOnly"@.len() == 13);
    lemma_lookup_at(fields, "directory"@, 0);
    lemma_lookup_at(fields, "format"@, 1);
    lemma_lookup_at(fields, "scale"@, 2);
    lemma_lookup_at(fields, "firstPageOnly"@, 3);
}

/// A page object without a `layers` field decodes successfully, to the
/// absent marker: the defaulting rule, never a failure.
pub proof fn lemma_missing_layers_defaults(fields: Seq<(Seq<char>, SpecJson)>)
    requires
        lookup(fields, "layers"@) is None,
        req_text(fields, "id"@) is Some,
        req_text(fields, "name"@) is Some,
    ensures
        spec_decode_page(SpecJson::Object(fields)) matches Some(p) && p.layers is None,
{
}

/// A file summary object whose `key` or `name` is missing or not a string
/// never decodes: the failure is owed, not defaulted away.
pub proof fn lemma_missing_required_field_fails(fields: Seq<(Seq<char>, SpecJson)>)
    requires
        req_text(fields, "key"@) is None || req_text(fields, "name"@) is None,
    ensures
        spec_decode_file_info(SpecJson::Object(fields)) is None,
{
}

/// The canonical JSON shape of a file summary: exactly the four schema
/// fields in writing order, the optional one a string or null.
pub open spec fn file_info_canonical(j: SpecJson) -> bool {
    &&& j matches SpecJson::Object(fields)
    &&& fields.len() == 4
    &&& fields[0].0 == "key"@
    &&& fields[0].1 is Text
    &&& fields[1].0 == "name"@
    &&& fields[1].1 is Text
    &&& fields[2].0 == "thumbnailUrl"@
    &&& (fields[2].1 is Text || fields[2].1 is Null)
    &&& fields[3].0 == "lastModified"@
    &&& fields[3].1 is Text
}

/// The canonical JSON shape of a project listing: a name and an array of
/// canonical file summaries.
pub open spec fn project_canonical(j: SpecJson) -> bool {
    &&& j matches SpecJson::Object(fields)
    &&& fields.len() == 2
    &&& fields[0].0 == "name"@
    &&& fields[0].1 is Text
    &&& fields[1].0 == "files"@
    &&& fields[1].1 matches SpecJson::Array(items)
    &&& forall|i: int| 0 <= i < items.len() ==> file_info_canonical(#[trigger] items[i])
}

/// Decoding a canonical file summary payload succeeds, and writing the
/// result back reproduces the payload exactly.
pub proof fn lemma_file_info_payload_round_trip(j: SpecJson)
    requires
        file_info_canonical(j),
    ensures
        spec_decode_file_info(j) is Some,
        spec_encode_file_info(spec_decode_file_info(j).unwrap()) == j,
{
    reveal_strlit("key");
    reveal_strlit("name");
    reveal_strlit("thumbnailUrl");
    reveal_strlit("lastModified");
    let fields = j->Object_0;
    assert("key"@.len() == 3 && "name"@.len() == 4 && "thumbnailUrl"@.len() == 12
        && "lastModified"@.len() == 12);
    assert("thumbnailUrl"@[0] == 't' && "lastModified"@[0] == 'l');
    lemma_lookup_at(fields, "key"@, 0);
    lemma_lookup_at(fields, "name"@, 1);
    lemma_lookup_at(fields, "thumbnailUrl"@, 2);
    lemma_lookup_at(fields, "lastModified"@, 3);
    let f = spec_decode_file_info(j).unwrap();
    assert(spec_encode_file_info(f)->Object_0 =~= fields);
}

/// Decoding a canonical project payload succeeds, and writing the result
/// back reproduces the payload exactly: the round-trip law at the level of
/// the response body.
pub proof fn lemma_project_payload_round_trip(j: SpecJson)
    requires
        project_canonical(j),
    ensures
        spec_decode_project(j) is Some,
        spec_encode_project(spec_decode_project(j).unwrap()) == j,
{
    reveal_strlit("name");
    reveal_strlit("files");
    let fields = j->Object_0;
    let items = fields[1].1->Array_0;
    assert("name"@.len() == 4 && "files"@.len() == 5);
    lemma_lookup_at(fields, "name"@, 0);
    lemma_lookup_at(fields, "files"@, 1);
    assert forall|i: int| 0 <= i < items.len() implies spec_decode_file_info(
        #[trigger] items[i],
    ) is Some && spec_encode_file_info(spec_decode_file_info(items[i]).unwrap()) == items[i] by {
        lemma_file_info_payload_round_trip(items[i]);
    }
    let p = spec_decode_project(j).unwrap();
    assert(enc_files_seq(p.files) =~= items);
    assert(spec_encode_project(p)->Object_0 =~= fields);
}

/// Every file summary the library writes is itself canonical.
pub proof fn lemma_encode_file_info_canonical(f: SpecFileInfo)
    ensures
        file_info_canonical(spec_encode_file_info(f)),
{
}

/// Every project listing the library writes is itself canonical, so the
/// payload round-trip law covers everything the library can produce.
pub proof fn lemma_encode_project_canonical(p: SpecProjectDetails)
    ensures
        project_canonical(spec_encode_project(p)),
{
    let items = enc_files_seq(p.files);
    assert forall|i: int| 0 <= i < items.len() implies file_info_canonical(
        #[trigger] items[i],
    ) by {
        lemma_encode_file_info_canonical(p.files[i]);
    }
}

} // verus!
