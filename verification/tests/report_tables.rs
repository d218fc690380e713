use comfy_table::Table;
use orthanc_cli::entity::{Entity, EntityKind, ModificationResult};
use orthanc_cli::errors::CliError;
use orthanc_cli::modality::{Modality, ModalityStoreResult};
use orthanc_cli::project::{
    create_instance_tags_table, create_list_table, create_show_table, InstanceTagEntry,
};
use orthanc_cli::tables::{create_error_table, create_new_entity_table, create_table};

fn strings(xs: &[&str]) -> Vec<String> {
    xs.iter().map(|s| s.to_string()).collect()
}

fn trim_line_ends(s: &str) -> String {
    s.lines()
        .map(|l| l.trim_end())
        .collect::<Vec<&str>>()
        .join("\n")
}

fn cell_rows(t: &Table) -> Vec<Vec<String>> {
    t.row_iter()
        .map(|r| r.cell_iter().map(|c| c.content()).collect())
        .collect()
}

fn patient(id: &str, tags: &[(&str, &str)], studies: &[&str]) -> Entity {
    Entity {
        kind: EntityKind::Patient,
        id: id.to_string(),
        main_dicom_tags: tags
            .iter()
            .map(|(k, v)| (k.to_string(), v.to_string()))
            .collect(),
        parent_id: None,
        children: studies.iter().map(|s| s.to_string()).collect(),
        index_in_series: None,
        file_size: 0,
    }
}

fn instance(id: &str, tags: &[(&str, &str)], series: &str, index: Option<u32>, size: u64) -> Entity {
    Entity {
        kind: EntityKind::Instance,
        id: id.to_string(),
        main_dicom_tags: tags
            .iter()
            .map(|(k, v)| (k.to_string(), v.to_string()))
            .collect(),
        parent_id: Some(series.to_string()),
        children: Vec::new(),
        index_in_series: index,
        file_size: size,
    }
}

#[test]
fn test_create_table_with_header() {
    let table = create_table(Some(&strings(&["Foo", "bar"])));
    assert_eq!(&format!("{}", table), " Foo   bar \n-----------");
}

#[test]
fn test_create_table_no_header() {
    let table = create_table(None);
    assert_eq!(&format!("{}", table), "");
}

#[test]
fn test_create_list_table_no_header_no_data() {
    let data: Vec<Entity> = vec![];
    let table = create_list_table(
        &data,
        &strings(&["ID", "PatientID", "PatientName", "Number of Studies"]),
        &strings(&["PatientID", "PatientName"]),
        true,
    );
    assert_eq!(trim_line_ends(&format!("{}", table)), "");
}

#[test]
fn test_list_table_one_row_per_entity() {
    let entities = vec![
        patient("foo", &[("PatientID", "foo_id"), ("PatientName", "Rick Sanchez")], &["study_1"]),
        patient("bar", &[("PatientName", "Morty Smith")], &["study_1", "study_2"]),
    ];
    let columns = strings(&["ID", "PatientID", "PatientName", "Number of Studies"]);
    let tags = strings(&["PatientID", "PatientName"]);
    let table = create_list_table(&entities, &columns, &tags, false);
    assert_eq!(table.row_count(), entities.len());
    let rows = cell_rows(&table);
    assert_eq!(
        rows[0],
        vec!["foo".to_string(), "foo_id".to_string(), "Rick Sanchez".to_string(), "1".to_string()]
    );
    // The absent PatientID becomes the placeholder cell, not a missing cell.
    assert_eq!(
        rows[1],
        vec!["bar".to_string(), "".to_string(), "Morty Smith".to_string(), "2".to_string()]
    );
}

#[test]
fn test_list_table_instance_extras() {
    let entities = vec![instance(
        "foo",
        &[("SOPInstanceUID", "suid_1")],
        "foo_series",
        Some(13),
        139402,
    )];
    let columns = strings(&["SOPInstanceUID", "Index in series", "File size"]);
    let tags = strings(&["SOPInstanceUID"]);
    let table = create_list_table(&entities, &columns, &tags, true);
    let rows = cell_rows(&table);
    assert_eq!(
        rows[0],
        vec!["suid_1".to_string(), "13".to_string(), "139402".to_string()]
    );
}

#[test]
fn test_show_table_one_row_per_attribute() {
    // PatientSex is absent from the record: the detail view still shows
    // its row, with the placeholder.
    let e = patient("foo", &[("PatientID", "foo_id"), ("PatientName", "Rick Sanchez")], &["s1"]);
    let tags = strings(&["PatientID", "PatientName", "PatientSex"]);
    let table = create_show_table(&e, &tags);
    let rows = cell_rows(&table);
    assert_eq!(rows.len(), 1 + tags.len() + 1);
    assert_eq!(rows[0], vec!["ID".to_string(), "foo".to_string()]);
    assert_eq!(rows[1], vec!["PatientID".to_string(), "foo_id".to_string()]);
    assert_eq!(rows[2], vec!["PatientName".to_string(), "Rick Sanchez".to_string()]);
    assert_eq!(rows[3], vec!["PatientSex".to_string(), "".to_string()]);
    assert_eq!(rows[4], vec!["Number of Studies".to_string(), "1".to_string()]);
}

#[test]
fn test_show_table_instance() {
    let e = instance(
        "foo",
        &[("SOPInstanceUID", "suid_1"), ("InstanceNumber", "in_1")],
        "foo_series",
        Some(13),
        139402,
    );
    let tags = strings(&["SOPInstanceUID", "InstanceNumber"]);
    let table = create_show_table(&e, &tags);
    let rows = cell_rows(&table);
    assert_eq!(rows.len(), 2 + tags.len() + 2);
    assert_eq!(rows[0], vec!["ID".to_string(), "foo".to_string()]);
    assert_eq!(rows[1], vec!["Series ID".to_string(), "foo_series".to_string()]);
    assert_eq!(rows[2], vec!["SOPInstanceUID".to_string(), "suid_1".to_string()]);
    assert_eq!(rows[3], vec!["InstanceNumber".to_string(), "in_1".to_string()]);
    assert_eq!(rows[4], vec!["Index in series".to_string(), "13".to_string()]);
    assert_eq!(rows[5], vec!["File size".to_string(), "139402".to_string()]);
}

#[test]
fn test_create_new_entity_table() {
    let res = ModificationResult {
        id: "foobar".to_string(),
        patient_id: "bazqux".to_string(),
        path: "long_and_rocky".to_string(),
        entity: EntityKind::Study,
    };
    let expected_table = " New Study ID   foobar \n Patient ID     bazqux ";
    assert_eq!(format!("{}", create_new_entity_table(&res)), expected_table)
}

#[test]
fn test_create_new_entity_table_patient() {
    let res = ModificationResult {
        id: "foobar".to_string(),
        patient_id: "bazqux".to_string(),
        path: "long_and_rocky".to_string(),
        entity: EntityKind::Patient,
    };
    let expected_table = " New Patient ID   foobar ";
    assert_eq!(format!("{}", create_new_entity_table(&res)), expected_table)
}

#[test]
fn test_create_error_table() {
    assert_eq!(
        format!(
            "{}",
            create_error_table(&CliError::new("error", Some("message"), Some("details")))
        ),
        " Error     error   \n Message   message \n Details   details "
    );
    assert_eq!(
        format!(
            "{}",
            create_error_table(&CliError::new("error", None, Some("details")))
        ),
        " Error     error   \n Details   details "
    );
    assert_eq!(
        format!(
            "{}",
            create_error_table(&CliError::new("error", Some("message"), None))
        ),
        " Error     error   \n Message   message "
    );
    assert_eq!(
        format!("{}", create_error_table(&CliError::new("error", None, None))),
        " Error   error "
    );
}

#[test]
fn test_create_instance_tags_table() {
    let entries = vec![
        InstanceTagEntry {
            key: "0008,0018".to_string(),
            name: Some("SOPInstanceUID".to_string()),
            value: Some("suid_1".to_string()),
        },
        // A nested value arrives with no plain text: the entry is
        // passed over.
        InstanceTagEntry {
            key: "0008,1140".to_string(),
            name: Some("ReferencedImageSequence".to_string()),
            value: None,
        },
        InstanceTagEntry {
            key: "0020,0013".to_string(),
            name: None,
            value: Some("3".to_string()),
        },
    ];
    let table = create_instance_tags_table(&entries);
    let rows = cell_rows(&table);
    assert_eq!(rows.len(), 1);
    assert_eq!(
        rows[0],
        vec!["0008,0018".to_string(), "SOPInstanceUID".to_string(), "suid_1".to_string()]
    );
}

#[test]
fn test_create_store_result_table() {
    let res = ModalityStoreResult {
        remote_aet: "MODALITY_ONE".to_string(),
        instances_count: 2,
        failed_instances_count: 0,
    };
    let table = orthanc_cli::modality::create_store_result_table(&res);
    let rows = cell_rows(&table);
    assert_eq!(rows[0], vec!["Remote AET".to_string(), "MODALITY_ONE".to_string()]);
    assert_eq!(rows[1], vec!["Instances sent".to_string(), "2".to_string()]);
    assert_eq!(rows[2], vec!["Instances failed".to_string(), "0".to_string()]);
}

fn modality(aet: &str, host: &str, port: i32) -> Modality {
    Modality {
        aet: aet.to_string(),
        host: host.to_string(),
        port,
        manufacturer: Some("Generic".to_string()),
        allow_c_echo: Some(true),
        allow_c_find: Some(true),
        allow_c_get: Some(false),
        allow_c_move: Some(true),
        allow_c_store: Some(true),
        allow_n_action: Some(false),
        allow_n_event_report: Some(false),
        allow_transcoding: None,
    }
}

#[test]
fn test_modalities_list_table() {
    let modalities = vec![
        ("one".to_string(), modality("ONE", "1.1.1.1", 4242)),
        ("two".to_string(), modality("TWO", "2.2.2.2", 104)),
    ];
    let default_header = strings(&["Name", "AET", "Host", "Port", "Manufacturer"]);
    let table = orthanc_cli::modality::create_modalities_list_table(
        &modalities,
        default_header,
        None,
        false,
    )
    .unwrap();
    let rows = cell_rows(&table);
    assert_eq!(rows.len(), 2);
    assert_eq!(
        rows[0],
        vec![
            "one".to_string(),
            "ONE".to_string(),
            "1.1.1.1".to_string(),
            "4242".to_string(),
            "Generic".to_string()
        ]
    );
}

#[test]
fn test_modalities_list_table_columns() {
    let modalities = vec![("one".to_string(), modality("ONE", "1.1.1.1", 4242))];
    let default_header = strings(&["Name", "AET", "Host", "Port", "Manufacturer"]);
    // The request names Port before Name: the resolved columns keep the
    // default order.
    let table = orthanc_cli::modality::create_modalities_list_table(
        &modalities,
        default_header,
        Some(strings(&["Port", "Name"])),
        false,
    )
    .unwrap();
    let rows = cell_rows(&table);
    assert_eq!(rows[0], vec!["one".to_string(), "4242".to_string()]);
}

#[test]
fn test_modalities_list_table_bad_column() {
    let modalities = vec![("one".to_string(), modality("ONE", "1.1.1.1", 4242))];
    let default_header = strings(&["Name", "AET", "Host", "Port", "Manufacturer"]);
    let err = orthanc_cli::modality::create_modalities_list_table(
        &modalities,
        default_header,
        Some(strings(&["Nonsense"])),
        false,
    )
    .unwrap_err();
    assert_eq!(
        err,
        CliError::new(
            "Command error",
            Some("Invalid column name: Nonsense. Available columns: Name, AET, Host, Port, Manufacturer"),
            None
        )
    );
}

#[test]
fn test_show_modality() {
    let modalities = vec![
        ("one".to_string(), modality("ONE", "1.1.1.1", 4242)),
        ("two".to_string(), modality("TWO", "2.2.2.2", 104)),
    ];
    let table =
        orthanc_cli::modality::create_modality_table(&"two".to_string(), &modalities).unwrap();
    let rows = cell_rows(&table);
    assert_eq!(rows[0], vec!["Name".to_string(), "two".to_string()]);
    assert_eq!(rows[1], vec!["AET".to_string(), "TWO".to_string()]);
    assert_eq!(rows[2], vec!["Host".to_string(), "2.2.2.2".to_string()]);
    assert_eq!(rows[3], vec!["Port".to_string(), "104".to_string()]);
    assert_eq!(rows[4], vec!["Manufacturer".to_string(), "Generic".to_string()]);
    assert_eq!(rows[5], vec!["C-ECHO".to_string(), "true".to_string()]);
    assert_eq!(rows[11], vec!["N-EVENT-REPORT".to_string(), "false".to_string()]);
}

#[test]
fn test_show_modality_not_found() {
    let modalities = vec![("one".to_string(), modality("ONE", "1.1.1.1", 4242))];
    let err = orthanc_cli::modality::create_modality_table(&"nope".to_string(), &modalities)
        .unwrap_err();
    assert_eq!(err, CliError::new("Modality nope not found", None, None));
}

#[test]
fn test_modality_config() {
    let m = orthanc_cli::modality::modality_config("AET", "1.2.3.4", 104);
    assert_eq!(m.aet, "AET");
    assert_eq!(m.host, "1.2.3.4");
    assert_eq!(m.port, 104);
    assert_eq!(m.manufacturer, None);
    assert_eq!(m.allow_c_echo, None);
    assert_eq!(m.allow_transcoding, None);
}

#[test]
fn test_entity_accessors() {
    let e = instance(
        "foo",
        &[("SOPInstanceUID", "suid_1")],
        "foo_series",
        Some(13),
        139402,
    );
    assert_eq!(e.kind(), EntityKind::Instance);
    assert_eq!(e.id(), "foo");
    assert_eq!(e.parent_id().map(|p| p.as_str()), Some("foo_series"));
    assert_eq!(e.main_dicom_tag("SOPInstanceUID").map(|v| v.as_str()), Some("suid_1"));
    assert_eq!(e.main_dicom_tag("PatientName"), None);
    assert_eq!(e.children_len(), 0);
    assert_eq!(e.index(), Some(13));
    assert_eq!(e.size(), 139402);
    assert_eq!(e.parent_kind_name(), Some("Series"));
    assert_eq!(e.children_kind_name(), None);

    let p = patient("bar", &[], &["s1", "s2"]);
    assert_eq!(p.kind(), EntityKind::Patient);
    assert_eq!(p.parent_id(), None);
    assert_eq!(p.children_len(), 2);
    assert_eq!(p.index(), None);
    assert_eq!(p.size(), 0);
    assert_eq!(p.parent_kind_name(), None);
    assert_eq!(p.children_kind_name(), Some("Studies"));
}
