//! Remote-device registrations: the registration shape, the listing
//! and detail reports over it, and the summary of a store operation.

use vstd::prelude::*;

use comfy_table::Table;

use crate::columns::first_invalid;
use crate::columns::get_header_and_dicom_tags;
use crate::columns::has_column;
use crate::columns::invalid_column_message;
use crate::columns::kept_columns;
use crate::errors::CliError;
use crate::tables::add_row;
use crate::tables::create_table;
use crate::tables::row2;
use crate::tables::table_header;
use crate::tables::table_rows;
use crate::text::bool_rep;
use crate::text::bool_to_str;
use crate::text::concat3;
use crate::text::dec_rep;
use crate::text::dec_rep_int;
use crate::text::i32_to_dec;
use crate::text::u64_to_dec;

verus! {

/// A registered remote device: its application entity title, address,
/// and the optional capability switches the server reports.
#[derive(Debug)]
pub struct Modality {
    pub aet: String,
    pub host: String,
    pub port: i32,
    pub manufacturer: Option<String>,
    pub allow_c_echo: Option<bool>,
    pub allow_c_find: Option<bool>,
    pub allow_c_get: Option<bool>,
    pub allow_c_move: Option<bool>,
    pub allow_c_store: Option<bool>,
    pub allow_n_action: Option<bool>,
    pub allow_n_event_report: Option<bool>,
    pub allow_transcoding: Option<bool>,
}

/// The summary a store operation returns: the receiving device and how
/// many instances went through or failed.
#[derive(Debug)]
pub struct ModalityStoreResult {
    pub remote_aet: String,
    pub instances_count: u64,
    pub failed_instances_count: u64,
}

/// Whether the server reported every field the detail view shows.
pub open spec fn modality_full(m: Modality) -> bool {
    &&& m.manufacturer is Some
    &&& m.allow_c_echo is Some
    &&& m.allow_c_find is Some
    &&& m.allow_c_get is Some
    &&& m.allow_c_move is Some
    &&& m.allow_c_store is Some
    &&& m.allow_n_action is Some
    &&& m.allow_n_event_report is Some
}

/// The columns a device listing resolves to: the full default set, or
/// the requested subset of it in default order.
pub open spec fn resolved_columns(default: Seq<Seq<char>>, columns: Option<Vec<String>>) -> Seq<
    Seq<char>,
> {
    match columns {
        None => default,
        Some(c) => kept_columns(default, c.deep_view()),
    }
}

/// One listing row of a device: name, title, address, port and
/// manufacturer, each cell present exactly when its column is selected.
pub open spec fn modality_list_row(name: Seq<char>, m: Modality, cols: Seq<Seq<char>>) -> Seq<
    Seq<char>,
> {
    (if cols.contains("Name"@) {
        seq![name]
    } else {
        Seq::empty()
    }) + (if cols.contains("AET"@) {
        seq![m.aet@]
    } else {
        Seq::empty()
    }) + (if cols.contains("Host"@) {
        seq![m.host@]
    } else {
        Seq::empty()
    }) + (if cols.contains("Port"@) {
        seq![dec_rep_int(m.port as int)]
    } else {
        Seq::empty()
    }) + (if cols.contains("Manufacturer"@) {
        seq![m.manufacturer->Some_0@]
    } else {
        Seq::empty()
    })
}

/// The whole device listing: one row per registration, in the order
/// given.
pub open spec fn modality_list_rows(pairs: Seq<(String, Modality)>, cols: Seq<Seq<char>>) -> Seq<
    Seq<Seq<char>>,
> {
    Seq::new(pairs.len(), |i: int| modality_list_row(pairs[i].0@, pairs[i].1, cols))
}

fn build_modality_list_row(name: &String, m: &Modality, cols: &Vec<String>) -> (row: Vec<String>)
    requires
        cols.deep_view().contains("Manufacturer"@) ==> m.manufacturer is Some,
    ensures
        row.deep_view() == modality_list_row(name@, *m, cols.deep_view()),
{
    let ghost cv = cols.deep_view();
    let mut row: Vec<String> = Vec::new();
    if has_column(cols, "Name") {
        row.push(name.clone());
    }
    if has_column(cols, "AET") {
        row.push(m.aet.clone());
    }
    if has_column(cols, "Host") {
        row.push(m.host.clone());
    }
    if has_column(cols, "Port") {
        row.push(i32_to_dec(m.port));
    }
    if has_column(cols, "Manufacturer") {
        match &m.manufacturer {
            Some(man) => row.push(man.clone()),
            None => (),
        }
    }
    proof {
        assert(row.deep_view() =~= modality_list_row(name@, *m, cv));
    }
    row
}

/// Projects the device registrations into a listing with the selected
/// columns, validating a requested subset against the default set.
pub fn create_modalities_list_table(
    modalities: &Vec<(String, Modality)>,
    default_header: Vec<String>,
    columns: Option<Vec<String>>,
    no_header: bool,
) -> (r: Result<Table, CliError>)
    requires
        resolved_columns(default_header.deep_view(), columns).contains("Manufacturer"@) ==> forall|
            i: int,
        | 0 <= i < modalities@.len() ==> (#[trigger] modalities@[i]).1.manufacturer is Some,
    ensures
        r is Ok <==> match columns {
            None => true,
            Some(c) => first_invalid(default_header.deep_view(), c.deep_view()) is None,
        },
        r matches Ok(t) ==> {
            let cols = resolved_columns(default_header.deep_view(), columns);
            &&& table_header(t) == if no_header {
                None::<Seq<Seq<char>>>
            } else {
                Some(cols)
            }
            &&& table_rows(t) == modality_list_rows(modalities@, cols)
        },
        r matches Err(e) ==> columns matches Some(c) && first_invalid(
            default_header.deep_view(),
            c.deep_view(),
        ) matches Some(bad) && e.error@ == "Command error"@ && e.message.deep_view() == Some(
            invalid_column_message(bad, default_header.deep_view()),
        ) && e.details is None,
{
    let ghost default = default_header.deep_view();
    let mut header = default_header;
    let mut unused_tags: Vec<String> = Vec::new();
    match get_header_and_dicom_tags(&mut header, &mut unused_tags, columns) {
        Err(e) => {
            return Err(e);
        },
        Ok(()) => (),
    }
    let ghost cols = header.deep_view();
    let hdr_opt = if no_header {
        None
    } else {
        Some(&header)
    };
    let mut t = create_table(hdr_opt);
    let mut i: usize = 0;
    while i < modalities.len()
        invariant
            i <= modalities.len(),
            cols == header.deep_view(),
            cols.contains("Manufacturer"@) ==> forall|k: int|
                0 <= k < modalities@.len() ==> (#[trigger] modalities@[k]).1.manufacturer is Some,
            table_header(t) == if no_header {
                None::<Seq<Seq<char>>>
            } else {
                Some(cols)
            },
            table_rows(t).len() == i,
            forall|k: int|
                0 <= k < i ==> table_rows(t)[k] == modality_list_row(
                    modalities@[k].0@,
                    modalities@[k].1,
                    cols,
                ),
        decreases modalities.len() - i,
    {
        let row = build_modality_list_row(&modalities[i].0, &modalities[i].1, &header);
        add_row(&mut t, &row);
        i = i + 1;
    }
    proof {
        assert(table_rows(t) =~= modality_list_rows(modalities@, cols));
    }
    Ok(t)
}

/// The detail rows of one device: name, title, address, port and
/// manufacturer; the transcoding switch only when the server reported
/// it; then the capability switches.
pub open spec fn modality_detail_rows(name: Seq<char>, m: Modality) -> Seq<Seq<Seq<char>>> {
    seq![
        seq!["Name"@, name],
        seq!["AET"@, m.aet@],
        seq!["Host"@, m.host@],
        seq!["Port"@, dec_rep_int(m.port as int)],
        seq!["Manufacturer"@, m.manufacturer->Some_0@],
    ] + (match m.allow_transcoding {
        Some(b) => seq![seq!["Transcoding"@, bool_rep(b)]],
        None => Seq::empty(),
    }) + seq![
        seq!["C-ECHO"@, bool_rep(m.allow_c_echo->Some_0)],
        seq!["C-FIND"@, bool_rep(m.allow_c_find->Some_0)],
        seq!["C-GET"@, bool_rep(m.allow_c_get->Some_0)],
        seq!["C-MOVE"@, bool_rep(m.allow_c_move->Some_0)],
        seq!["C-STORE"@, bool_rep(m.allow_c_store->Some_0)],
        seq!["N-ACTION"@, bool_rep(m.allow_n_action->Some_0)],
        seq!["N-EVENT-REPORT"@, bool_rep(m.allow_n_event_report->Some_0)],
    ]
}

/// The registration with the given name, if any, searching from
/// position `i`.
pub open spec fn find_modality_from(pairs: Seq<(String, Modality)>, name: Seq<char>, i: int) -> Option<
    (String, Modality),
>
    decreases pairs.len() - i,
{
    if i < 0 || i >= pairs.len() {
        None
    } else if pairs[i].0@ == name {
        Some(pairs[i])
    } else {
        find_modality_from(pairs, name, i + 1)
    }
}

/// The first registration with the given name, if any.
pub open spec fn find_modality(pairs: Seq<(String, Modality)>, name: Seq<char>) -> Option<
    (String, Modality),
> {
    find_modality_from(pairs, name, 0)
}

fn bool_cell(b: bool) -> (s: String)
    ensures
        s@ == bool_rep(b),
{
    bool_to_str(b).to_owned()
}

/// Projects the detail view of the device with the given name; fails,
/// naming it, when no registration carries it.
pub fn create_modality_table(name: &String, modalities: &Vec<(String, Modality)>) -> (r: Result<
    Table,
    CliError,
>)
    requires
        forall|i: int|
            0 <= i < modalities@.len() && (#[trigger] modalities@[i]).0@ == name@ ==> modality_full(
                modalities@[i].1,
            ),
    ensures
        r is Ok <==> find_modality(modalities@, name@) is Some,
        r matches Ok(t) ==> find_modality(modalities@, name@) matches Some(p) && table_header(
            t,
        ) is None && table_rows(t) == modality_detail_rows(p.0@, p.1),
        r matches Err(e) ==> e.error@ == "Modality "@ + name@ + " not found"@ && e.message is None
            && e.details is None,
{
    let ghost pairs = modalities@;
    let mut i: usize = 0;
    while i < modalities.len()
        invariant
            i <= modalities.len(),
            pairs == modalities@,
            find_modality(pairs, name@) == find_modality_from(pairs, name@, i as int),
            forall|k: int|
                0 <= k < pairs.len() && (#[trigger] pairs[k]).0@ == name@ ==> modality_full(
                    pairs[k].1,
                ),
        decreases modalities.len() - i,
    {
        if modalities[i].0 == *name {
            let m = &modalities[i].1;
            let mut t = create_table(None);
            let row = row2("Name".to_owned(), modalities[i].0.clone());
            add_row(&mut t, &row);
            let row = row2("AET".to_owned(), m.aet.clone());
            add_row(&mut t, &row);
            let row = row2("Host".to_owned(), m.host.clone());
            add_row(&mut t, &row);
            let row = row2("Port".to_owned(), i32_to_dec(m.port));
            add_row(&mut t, &row);
            let manufacturer = match &m.manufacturer {
                Some(man) => man.clone(),
                None => String::new(),
            };
            let row = row2("Manufacturer".to_owned(), manufacturer);
            add_row(&mut t, &row);
            match m.allow_transcoding {
                Some(b) => {
                    let row = row2("Transcoding".to_owned(), bool_cell(b));
                    add_row(&mut t, &row);
                },
                None => (),
            }
            let row = row2("C-ECHO".to_owned(), bool_cell(m.allow_c_echo.unwrap_or(false)));
            add_row(&mut t, &row);
            let row = row2("C-FIND".to_owned(), bool_cell(m.allow_c_find.unwrap_or(false)));
            add_row(&mut t, &row);
            let row = row2("C-GET".to_owned(), bool_cell(m.allow_c_get.unwrap_or(false)));
            add_row(&mut t, &row);
            let row = row2("C-MOVE".to_owned(), bool_cell(m.allow_c_move.unwrap_or(false)));
            add_row(&mut t, &row);
            let row = row2("C-STORE".to_owned(), bool_cell(m.allow_c_store.unwrap_or(false)));
            add_row(&mut t, &row);
            let row = row2("N-ACTION".to_owned(), bool_cell(m.allow_n_action.unwrap_or(false)));
            add_row(&mut t, &row);
            let row = row2(
                "N-EVENT-REPORT".to_owned(),
                bool_cell(m.allow_n_event_report.unwrap_or(false)),
            );
            add_row(&mut t, &row);
            proof {
                assert(table_rows(t) =~= modality_detail_rows(pairs[i as int].0@, pairs[i as int].1));
            }
            return Ok(t);
        }
        i = i + 1;
    }
    let msg = concat3("Modality ", name.as_str(), " not found");
    Err(CliError::new(msg.as_str(), None, None))
}

/// The rows summarizing a store operation.
pub open spec fn store_result_rows(r: ModalityStoreResult) -> Seq<Seq<Seq<char>>> {
    seq![
        seq!["Remote AET"@, r.remote_aet@],
        seq!["Instances sent"@, dec_rep(r.instances_count as nat)],
        seq!["Instances failed"@, dec_rep(r.failed_instances_count as nat)],
    ]
}

/// Renders the summary a store operation returned.
pub fn create_store_result_table(result: &ModalityStoreResult) -> (t: Table)
    ensures
        table_header(t) is None,
        table_rows(t) == store_result_rows(*result),
{
    let mut t = create_table(None);
    let row = row2("Remote AET".to_owned(), result.remote_aet.clone());
    add_row(&mut t, &row);
    let row = row2("Instances sent".to_owned(), u64_to_dec(result.instances_count));
    add_row(&mut t, &row);
    let row = row2("Instances failed".to_owned(), u64_to_dec(result.failed_instances_count));
    add_row(&mut t, &row);
    proof {
        assert(table_rows(t) =~= store_result_rows(*result));
    }
    t
}

/// Builds the registration shape for creating or reshaping a device:
/// the three addressing fields, with every optional switch unset.
pub fn modality_config(aet: &str, host: &str, port: i32) -> (m: Modality)
    ensures
        m.aet@ == aet@,
        m.host@ == host@,
        m.port == port,
        m.manufacturer is None,
        m.allow_c_echo is None,
        m.allow_c_find is None,
        m.allow_c_get is None,
        m.allow_c_move is None,
        m.allow_c_store is None,
        m.allow_n_action is None,
        m.allow_n_event_report is None,
        m.allow_transcoding is None,
{
    Modality {
        aet: aet.to_owned(),
        host: host.to_owned(),
        port,
        manufacturer: None,
        allow_c_echo: None,
        allow_c_find: None,
        allow_c_get: None,
        allow_c_move: None,
        allow_c_store: None,
        allow_n_action: None,
        allow_n_event_report: None,
        allow_transcoding: None,
    }
}

} // verus!
