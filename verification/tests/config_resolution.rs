use orthanc_cli::config::{
    get_anonymization_config, get_anonymization_config_from_cmd_options,
    get_anonymization_config_from_file, get_modification_config,
    get_modification_config_from_cmd_options, get_modification_config_from_file, Anonymization,
    Modification,
};
use orthanc_cli::errors::CliError;
use orthanc_cli::tagpairs::{parse_tag_kv_pairs, split_tag_pair};

fn strings(xs: &[&str]) -> Vec<String> {
    xs.iter().map(|s| s.to_string()).collect()
}

fn pairs(xs: &[(&str, &str)]) -> Vec<(String, String)> {
    xs.iter().map(|(k, v)| (k.to_string(), v.to_string())).collect()
}

#[test]
fn test_parse_tag_kv_pairs() {
    assert_eq!(
        parse_tag_kv_pairs(&strings(&["Foo=Bar", "Baz=42"])).unwrap(),
        pairs(&[("Foo", "Bar"), ("Baz", "42")])
    )
}

#[test]
fn test_parse_tag_kv_pairs_error() {
    assert_eq!(
        parse_tag_kv_pairs(&strings(&["Foo=Bar", "Baz"])).unwrap_err(),
        CliError::new(
            "Command error",
            Some("Wrong option value 'Baz'"),
            Some("Must be of format 'TagName=TagValue'"),
        )
    )
}

#[test]
fn test_split_tag_pair_rejects_second_equals() {
    // A value holding a literal `=` splits into three parts and is
    // rejected, as the stricter splitting demands.
    assert_eq!(split_tag_pair(&"A=1=2".to_string()), None);
    assert_eq!(split_tag_pair(&"NoEquals".to_string()), None);
    assert_eq!(
        split_tag_pair(&"A=1".to_string()),
        Some(("A".to_string(), "1".to_string()))
    );
}

#[test]
fn test_get_anonymization_config_from_file() {
    let loaded = Anonymization {
        replace: None,
        keep: None,
        keep_private_tags: None,
        dicom_version: None,
        force: None,
    };
    assert_eq!(
        get_anonymization_config_from_file(loaded),
        Anonymization {
            replace: None,
            keep: None,
            keep_private_tags: None,
            dicom_version: None,
            force: Some(true),
        }
    )
}

#[test]
fn test_get_modification_config_from_file() {
    let loaded = Modification { replace: None, remove: None, force: Some(false) };
    assert_eq!(
        get_modification_config_from_file(loaded),
        Modification { replace: None, remove: None, force: Some(true) }
    )
}

#[test]
fn test_get_anonymization_config_from_cmd_options() {
    assert_eq!(
        get_anonymization_config_from_cmd_options(
            Some(strings(&["Foo=Bar", "Baz=qux"])),
            Some(strings(&["Qux", "Quuz"])),
            Some(true)
        )
        .unwrap(),
        Anonymization {
            replace: Some(pairs(&[("Foo", "Bar"), ("Baz", "qux")])),
            keep: Some(strings(&["Qux", "Quuz"])),
            keep_private_tags: Some(true),
            dicom_version: None,
            force: Some(true)
        }
    );

    assert_eq!(
        get_anonymization_config_from_cmd_options(None, None, None).unwrap(),
        Anonymization {
            replace: None,
            keep: None,
            keep_private_tags: None,
            dicom_version: None,
            force: Some(true)
        }
    )
}

#[test]
fn test_get_modification_config_from_cmd_options() {
    assert_eq!(
        get_modification_config_from_cmd_options(
            Some(strings(&["Foo=Bar", "Baz=qux"])),
            Some(strings(&["Qux", "Quuz"])),
        )
        .unwrap(),
        Modification {
            replace: Some(pairs(&[("Foo", "Bar"), ("Baz", "qux")])),
            remove: Some(strings(&["Qux", "Quuz"])),
            force: Some(true)
        }
    );

    assert_eq!(
        get_modification_config_from_cmd_options(None, None).unwrap(),
        Modification { replace: None, remove: None, force: Some(true) }
    );
}

#[test]
fn test_get_anonymization_config_conflicting_options() {
    let from_file = Anonymization {
        replace: None,
        keep: None,
        keep_private_tags: None,
        dicom_version: None,
        force: None,
    };
    assert_eq!(
        get_anonymization_config(
            Some(strings(&["Foo=Bar", "Baz=qux"])),
            Some(strings(&["Qux", "Quuz"])),
            Some(true),
            Some(from_file)
        )
        .unwrap_err(),
        CliError::new("Command error", Some("Conflicting options"), None)
    )
}

#[test]
fn test_get_modification_config_not_enough_options() {
    assert_eq!(
        get_modification_config(None, None, None).unwrap_err(),
        CliError::new("Command error", Some("Not enough options"), None)
    )
}

#[test]
fn test_get_modification_config_conflicting_options() {
    let from_file = Modification { replace: None, remove: None, force: None };
    assert_eq!(
        get_modification_config(
            Some(strings(&["Foo=Bar", "Baz=qux"])),
            Some(strings(&["Qux", "Quuz"])),
            Some(from_file)
        )
        .unwrap_err(),
        CliError::new("Command error", Some("Conflicting options"), None)
    )
}

#[test]
fn test_get_anonymization_config_no_options() {
    // No inline flags and no file means "no overrides", not an error.
    assert_eq!(get_anonymization_config(None, None, None, None).unwrap(), None);
}

#[test]
fn test_get_anonymization_config_file_only() {
    let from_file = Anonymization {
        replace: Some(pairs(&[("PatientName", "REMOVED")])),
        keep: None,
        keep_private_tags: Some(false),
        dicom_version: Some("2017c".to_string()),
        force: Some(false),
    };
    let resolved = get_anonymization_config(None, None, None, Some(from_file)).unwrap().unwrap();
    assert_eq!(
        resolved,
        Anonymization {
            replace: Some(pairs(&[("PatientName", "REMOVED")])),
            keep: None,
            keep_private_tags: Some(false),
            dicom_version: Some("2017c".to_string()),
            force: Some(true),
        }
    );
}

#[test]
fn test_modification_round_trip() {
    // Built from inline flags.
    let from_flags =
        get_modification_config(Some(strings(&["Foo=Bar"])), Some(strings(&["Baz"])), None)
            .unwrap();
    // Loaded from an equivalent file content, whatever force it held.
    let file_content = Modification {
        replace: Some(pairs(&[("Foo", "Bar")])),
        remove: Some(strings(&["Baz"])),
        force: Some(false),
    };
    let from_file = get_modification_config(None, None, Some(file_content)).unwrap();
    assert_eq!(from_flags, from_file);
    assert_eq!(from_flags.force, Some(true));
    assert_eq!(from_file.force, Some(true));
}

#[test]
fn test_get_modification_config_malformed_replace() {
    let err = get_modification_config(Some(strings(&["Foo"])), None, None).unwrap_err();
    assert_eq!(
        err,
        CliError::new(
            "Command error",
            Some("Wrong option value 'Foo'"),
            Some("Must be of format 'TagName=TagValue'"),
        )
    );
}
