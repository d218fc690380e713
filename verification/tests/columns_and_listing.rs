use orthanc_cli::columns::{check_columns_option, get_header_and_dicom_tags};
use orthanc_cli::entity::{Entity, EntityKind};
use orthanc_cli::errors::CliError;
use orthanc_cli::listing::{filter_by_parent, require_parent};
use orthanc_cli::options::{
    get_google_application_credentials, get_iap_client_id, get_password, get_server_address,
    get_username,
};
use orthanc_cli::text::{bool_to_str, i32_to_dec, u32_to_dec, u64_to_dec};

fn strings(xs: &[&str]) -> Vec<String> {
    xs.iter().map(|s| s.to_string()).collect()
}

fn study(id: &str, parent: &str) -> Entity {
    Entity {
        kind: EntityKind::Study,
        id: id.to_string(),
        main_dicom_tags: Vec::new(),
        parent_id: Some(parent.to_string()),
        children: Vec::new(),
        index_in_series: None,
        file_size: 0,
    }
}

#[test]
fn test_check_columns_options() {
    assert_eq!(
        check_columns_option(&strings(&["foo", "bar", "baz"]), &strings(&["foo", "baz"])).unwrap(),
        ()
    );

    assert_eq!(
        check_columns_option(&strings(&["foo", "bar", "baz"]), &strings(&["bar", "qux"]))
            .unwrap_err(),
        CliError::new(
            "Command error",
            Some("Invalid column name: qux. Available columns: foo, bar, baz"),
            None
        )
    )
}

#[test]
fn test_get_header_and_dicom_tags() {
    let mut header = strings(&["foo", "bar", "baz", "qux", "quux", "quuz"]);
    let mut dicom_tags = strings(&["qux", "quux", "quuz"]);

    get_header_and_dicom_tags(&mut header, &mut dicom_tags, Some(strings(&["bar", "quux", "quuz"])))
        .unwrap();

    assert_eq!(header, strings(&["bar", "quux", "quuz"]));
    assert_eq!(dicom_tags, strings(&["quux", "quuz"]));
}

#[test]
fn test_get_header_and_dicom_tags_no_columns() {
    let mut header = strings(&["foo", "bar", "baz"]);
    let mut dicom_tags = strings(&["qux", "quux", "quuz"]);

    get_header_and_dicom_tags(&mut header, &mut dicom_tags, None).unwrap();

    assert_eq!(header, strings(&["foo", "bar", "baz"]));
    assert_eq!(dicom_tags, strings(&["qux", "quux", "quuz"]));
}

#[test]
fn test_resolved_columns_keep_default_order() {
    // The request names PatientSex before ID; the resolution keeps the
    // defaults' own order.
    let mut header = strings(&["ID", "PatientName", "PatientSex"]);
    let mut dicom_tags = strings(&["PatientName", "PatientSex"]);
    get_header_and_dicom_tags(&mut header, &mut dicom_tags, Some(strings(&["PatientSex", "ID"])))
        .unwrap();
    assert_eq!(header, strings(&["ID", "PatientSex"]));
    assert_eq!(dicom_tags, strings(&["PatientSex"]));
}

#[test]
fn test_filter_by_parent_keeps_only_children() {
    let entities = vec![
        study("a", "p1"),
        study("b", "p2"),
        study("c", "p1"),
    ];
    let filtered = filter_by_parent(entities, &"p1".to_string());
    let ids: Vec<&str> = filtered.iter().map(|e| e.id.as_str()).collect();
    assert_eq!(ids, vec!["a", "c"]);
    for e in &filtered {
        assert_eq!(e.parent_id.as_deref(), Some("p1"));
    }
}

#[test]
fn test_require_parent_not_found_before_listing() {
    // The check needs no child collection at all: a missing ancestor is
    // rejected before anything else is fetched.
    let err = require_parent(&"no_such_series".to_string(), false).unwrap_err();
    assert_eq!(err.error, "Not found");
    assert_eq!(err.message.as_deref(), Some("no_such_series"));
    assert_eq!(require_parent(&"series_1".to_string(), true), Ok(()));
}

#[test]
fn test_get_server() {
    let absent = || Err("environment variable not found".to_string());
    assert_eq!(
        get_server_address(Some("foo".to_string()), absent()).unwrap(),
        "foo".to_string()
    );
    assert_eq!(
        get_server_address(None, absent()).unwrap_err(),
        CliError::new(
            "Command error",
            Some("Neither --server nor ORC_ORTHANC_SERVER are set"),
            Some("environment variable not found"),
        )
    );
    assert_eq!(
        get_server_address(None, Ok("bar".to_string())).unwrap(),
        "bar".to_string()
    );
    assert_eq!(
        get_server_address(Some("baz".to_string()), Ok("bar".to_string())).unwrap(),
        "baz".to_string()
    )
}

#[test]
fn test_get_username() {
    assert_eq!(get_username(Some("foo".to_string()), None).unwrap(), "foo".to_string());
    assert_eq!(get_username(None, None), None);
    assert_eq!(
        get_username(Some("foo".to_string()), Some("bar".to_string())).unwrap(),
        "foo".to_string()
    );
    assert_eq!(get_username(None, Some("bar".to_string())).unwrap(), "bar".to_string());
}

#[test]
fn test_get_password() {
    assert_eq!(get_password(Some("foo".to_string()), None).unwrap(), "foo".to_string());
    assert_eq!(get_password(None, None), None);
    assert_eq!(
        get_password(Some("foo".to_string()), Some("bar".to_string())).unwrap(),
        "foo".to_string()
    );
    assert_eq!(get_password(None, Some("bar".to_string())).unwrap(), "bar".to_string());
}

#[test]
fn test_get_iap_client_id() {
    assert_eq!(get_iap_client_id(None, Some("id".to_string())).unwrap(), "id".to_string());
    assert_eq!(get_iap_client_id(None, None), None);
}

#[test]
fn test_get_google_application_credentials() {
    assert_eq!(
        get_google_application_credentials(Some("/tmp/sa.json".to_string()), None).unwrap(),
        "/tmp/sa.json".to_string()
    );
    assert_eq!(get_google_application_credentials(None, None), None);
}

#[test]
fn test_decimal_rendering() {
    assert_eq!(u64_to_dec(0), "0");
    assert_eq!(u64_to_dec(7), "7");
    assert_eq!(u64_to_dec(139402), "139402");
    assert_eq!(u64_to_dec(u64::MAX), "18446744073709551615");
    assert_eq!(u32_to_dec(13), "13");
    assert_eq!(i32_to_dec(4242), "4242");
    assert_eq!(i32_to_dec(-17), "-17");
    assert_eq!(i32_to_dec(i32::MIN), "-2147483648");
    assert_eq!(bool_to_str(true), "true");
    assert_eq!(bool_to_str(false), "false");
}
