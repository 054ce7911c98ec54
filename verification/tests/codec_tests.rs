use figmeta::codec::decode_export_options;
use figmeta::codec::decode_file_details;
use figmeta::codec::decode_file_info;
use figmeta::codec::decode_layer;
use figmeta::codec::decode_page;
use figmeta::codec::decode_project;
use figmeta::codec::encode_export_options;
use figmeta::codec::encode_file_details;
use figmeta::codec::encode_file_info;
use figmeta::codec::encode_layer;
use figmeta::codec::encode_page;
use figmeta::codec::encode_project;
use figmeta::json::JsonValue;
use figmeta::model::default_layers;
use figmeta::model::ExportOptions;
use figmeta::model::FetchError;
use figmeta::model::FileDetails;
use figmeta::model::FileInfo;
use figmeta::model::LayerDetails;
use figmeta::model::PageDetails;
use figmeta::model::ProjectDetails;

fn obj(fields: Vec<(&str, JsonValue)>) -> JsonValue {
    JsonValue::Object(fields.into_iter().map(|(k, v)| (k.to_owned(), v)).collect())
}

fn text(s: &str) -> JsonValue {
    JsonValue::Text(s.to_owned())
}

fn file_info_json(key: &str, name: &str, thumb: Option<&str>, modified: &str) -> JsonValue {
    obj(vec![
        ("key", text(key)),
        ("name", text(name)),
        (
            "thumbnailUrl",
            match thumb {
                Some(t) => text(t),
                None => JsonValue::Null,
            },
        ),
        ("lastModified", text(modified)),
    ])
}

#[test]
fn project_decodes_with_files_in_order() {
    let body = obj(vec![
        ("name", text("Site redesign")),
        (
            "files",
            JsonValue::Array(vec![
                file_info_json("abc", "Landing", Some("https://img/1.png"), "2020-01-01"),
                file_info_json("def", "Checkout", None, "2020-02-02"),
            ]),
        ),
    ]);
    let p = decode_project(&body).unwrap();
    assert_eq!(p.name, "Site redesign");
    assert_eq!(p.files.len(), 2);
    assert_eq!(p.files[0].key, "abc");
    assert_eq!(p.files[0].name, "Landing");
    assert_eq!(p.files[0].thumbnail_url.as_deref(), Some("https://img/1.png"));
    assert_eq!(p.files[0].last_modified, "2020-01-01");
    assert_eq!(p.files[1].key, "def");
    assert_eq!(p.files[1].thumbnail_url, None);
}

#[test]
fn project_round_trips_through_json() {
    let body = obj(vec![
        ("name", text("P")),
        (
            "files",
            JsonValue::Array(vec![
                file_info_json("k1", "n1", Some("t1"), "m1"),
                file_info_json("k2", "n2", None, "m2"),
            ]),
        ),
    ]);
    let decoded = decode_project(&body).unwrap();
    let rewritten = encode_project(&decoded);
    assert_eq!(rewritten, body);
}

#[test]
fn project_value_round_trips() {
    let p = ProjectDetails {
        name: "P".to_owned(),
        files: vec![FileInfo {
            key: "k".to_owned(),
            name: "n".to_owned(),
            thumbnail_url: None,
            last_modified: "m".to_owned(),
        }],
    };
    let decoded = decode_project(&encode_project(&p)).unwrap();
    assert_eq!(decoded, p);
}

#[test]
fn project_missing_name_fails() {
    let body = obj(vec![("files", JsonValue::Array(vec![]))]);
    assert_eq!(decode_project(&body).unwrap_err(), FetchError::SchemaMismatch);
}

#[test]
fn project_missing_files_fails() {
    let body = obj(vec![("name", text("P"))]);
    assert_eq!(decode_project(&body).unwrap_err(), FetchError::SchemaMismatch);
}

#[test]
fn project_with_bad_file_entry_fails() {
    let body = obj(vec![
        ("name", text("P")),
        ("files", JsonValue::Array(vec![obj(vec![("name", text("n"))])])),
    ]);
    assert_eq!(decode_project(&body).unwrap_err(), FetchError::SchemaMismatch);
}

#[test]
fn page_missing_layers_defaults_to_absent() {
    let body = obj(vec![("id", text("p1")), ("name", text("Cover"))]);
    let page = decode_page(&body).unwrap();
    assert_eq!(page.id, "p1");
    assert_eq!(page.name, "Cover");
    assert_eq!(page.layers, None);
}

#[test]
fn page_null_layers_defaults_to_absent() {
    let body = obj(vec![
        ("id", text("p1")),
        ("name", text("Cover")),
        ("layers", JsonValue::Null),
    ]);
    assert_eq!(decode_page(&body).unwrap().layers, None);
}

#[test]
fn page_with_layers_keeps_them_in_order() {
    let body = obj(vec![
        ("id", text("p1")),
        ("name", text("Cover")),
        (
            "layers",
            JsonValue::Array(vec![
                obj(vec![("id", text("l1")), ("name", text("Logo"))]),
                obj(vec![("id", text("l2")), ("imageUrl", text("u"))]),
            ]),
        ),
    ]);
    let page = decode_page(&body).unwrap();
    let layers = page.layers.unwrap();
    assert_eq!(layers.len(), 2);
    assert_eq!(layers[0].id, "l1");
    assert_eq!(layers[0].name.as_deref(), Some("Logo"));
    assert_eq!(layers[0].image_url, None);
    assert_eq!(layers[1].id, "l2");
    assert_eq!(layers[1].name, None);
    assert_eq!(layers[1].image_url.as_deref(), Some("u"));
}

#[test]
fn page_with_non_list_layers_fails() {
    let body = obj(vec![
        ("id", text("p1")),
        ("name", text("Cover")),
        ("layers", text("oops")),
    ]);
    assert_eq!(decode_page(&body).unwrap_err(), FetchError::SchemaMismatch);
}

#[test]
fn page_round_trips_with_absent_layers_as_null() {
    let page = PageDetails {
        id: "p1".to_owned(),
        name: "Cover".to_owned(),
        layers: None,
    };
    let written = encode_page(&page);
    assert_eq!(
        written,
        obj(vec![
            ("id", text("p1")),
            ("name", text("Cover")),
            ("layers", JsonValue::Null),
        ])
    );
    assert_eq!(decode_page(&written).unwrap(), page);
}

#[test]
fn file_info_missing_key_fails() {
    let body = obj(vec![("name", text("n")), ("lastModified", text("m"))]);
    assert_eq!(decode_file_info(&body).unwrap_err(), FetchError::SchemaMismatch);
}

#[test]
fn file_info_missing_name_fails() {
    let body = obj(vec![("key", text("k")), ("lastModified", text("m"))]);
    assert_eq!(decode_file_info(&body).unwrap_err(), FetchError::SchemaMismatch);
}

#[test]
fn file_info_wrong_key_type_fails() {
    let body = obj(vec![
        ("key", JsonValue::UInt(7)),
        ("name", text("n")),
        ("lastModified", text("m")),
    ]);
    assert_eq!(decode_file_info(&body).unwrap_err(), FetchError::SchemaMismatch);
}

#[test]
fn file_info_round_trips() {
    let f = FileInfo {
        key: "k".to_owned(),
        name: "n".to_owned(),
        thumbnail_url: Some("t".to_owned()),
        last_modified: "m".to_owned(),
    };
    assert_eq!(decode_file_info(&encode_file_info(&f)).unwrap(), f);
}

#[test]
fn file_info_duplicate_key_first_wins() {
    let body = obj(vec![
        ("key", text("first")),
        ("key", text("second")),
        ("name", text("n")),
        ("lastModified", text("m")),
    ]);
    assert_eq!(decode_file_info(&body).unwrap().key, "first");
}

#[test]
fn file_details_round_trips_with_pages() {
    let f = FileDetails {
        key: "k".to_owned(),
        name: "n".to_owned(),
        pages: Some(vec![PageDetails {
            id: "p".to_owned(),
            name: "pn".to_owned(),
            layers: Some(vec![LayerDetails {
                id: "l".to_owned(),
                name: None,
                image_url: None,
            }]),
        }]),
    };
    assert_eq!(decode_file_details(&encode_file_details(&f)).unwrap(), f);
}

#[test]
fn file_details_missing_pages_is_absent() {
    let body = obj(vec![("key", text("k")), ("name", text("n"))]);
    assert_eq!(decode_file_details(&body).unwrap().pages, None);
}

#[test]
fn layer_requires_id() {
    let body = obj(vec![("name", text("n"))]);
    assert_eq!(decode_layer(&body).unwrap_err(), FetchError::SchemaMismatch);
}

#[test]
fn layer_on_non_object_fails() {
    assert_eq!(decode_layer(&text("nope")).unwrap_err(), FetchError::SchemaMismatch);
}

#[test]
fn layer_null_name_is_absent() {
    let body = obj(vec![("id", text("l")), ("name", JsonValue::Null)]);
    let l = decode_layer(&body).unwrap();
    assert_eq!(l.name, None);
    assert_eq!(l.image_url, None);
}

#[test]
fn layer_round_trips() {
    let l = LayerDetails {
        id: "l".to_owned(),
        name: Some("n".to_owned()),
        image_url: Some("u".to_owned()),
    };
    assert_eq!(decode_layer(&encode_layer(&l)).unwrap(), l);
}

#[test]
fn export_options_all_absent_decodes() {
    let body = obj(vec![]);
    let e = decode_export_options(&body).unwrap();
    assert_eq!(e.directory, None);
    assert_eq!(e.format, None);
    assert_eq!(e.scale, None);
    assert_eq!(e.first_page_only, None);
}

#[test]
fn export_options_round_trips() {
    let e = ExportOptions {
        directory: Some("out".to_owned()),
        format: Some("png".to_owned()),
        scale: Some(2),
        first_page_only: Some(true),
    };
    assert_eq!(decode_export_options(&encode_export_options(&e)).unwrap(), e);
}

#[test]
fn export_options_oversized_scale_fails() {
    let body = obj(vec![("scale", JsonValue::UInt(u64::from(u32::MAX) + 1))]);
    assert_eq!(decode_export_options(&body).unwrap_err(), FetchError::SchemaMismatch);
}

#[test]
fn export_options_scale_at_limit_decodes() {
    let body = obj(vec![("scale", JsonValue::UInt(u64::from(u32::MAX)))]);
    assert_eq!(decode_export_options(&body).unwrap().scale, Some(u32::MAX));
}

#[test]
fn default_layers_is_absent() {
    assert_eq!(default_layers(), None);
}
