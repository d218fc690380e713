//! The projector: turns records into rows of display text. A listing
//! emits one row per record with the selected columns; a detail view
//! emits one row per attribute of a single record.

use vstd::prelude::*;

use comfy_table::Table;

use crate::columns::has_column;
use crate::entity::spec_children_kind_name;
use crate::entity::spec_parent_kind_name;
use crate::entity::tag_lookup;
use crate::entity::Entity;
use crate::entity::EntityKind;
use crate::tables::add_row;
use crate::tables::create_table;
use crate::tables::mark_id_column;
use crate::tables::row2;
use crate::tables::row3;
use crate::tables::table_header;
use crate::tables::table_rows;
use crate::text::concat2;
use crate::text::dec_rep;
use crate::text::u32_to_dec;
use crate::text::u64_to_dec;
use crate::text::usize_to_dec;

verus! {

/// The cell shown for one metadata tag: its value, or the fixed
/// placeholder — empty text — when the record does not carry the tag.
pub open spec fn tag_cell(e: Entity, name: Seq<char>) -> Seq<char> {
    match tag_lookup(e.main_dicom_tags.deep_view(), name) {
        Some(v) => v,
        None => ""@,
    }
}

/// The cell shown for a leaf record's ordinal: blank when absent.
pub open spec fn index_cell(e: Entity) -> Seq<char> {
    match e.index_in_series {
        Some(i) => dec_rep(i as nat),
        None => ""@,
    }
}

/// The kind-conditional extra cells of a listing row: for the leaf
/// kind its ordinal and byte size, each only when its column is
/// selected; for the other kinds one child count, when any of the
/// child-count columns is selected.
pub open spec fn list_extra_cells(e: Entity, cols: Seq<Seq<char>>) -> Seq<Seq<char>> {
    if e.kind == EntityKind::Instance {
        (if cols.contains("Index in series"@) {
            seq![index_cell(e)]
        } else {
            Seq::empty()
        }) + (if cols.contains("File size"@) {
            seq![dec_rep(e.file_size as nat)]
        } else {
            Seq::empty()
        })
    } else {
        if cols.contains("Number of Studies"@) || cols.contains("Number of Series"@)
            || cols.contains("Number of Instances"@) {
            seq![dec_rep(e.children@.len())]
        } else {
            Seq::empty()
        }
    }
}

/// One listing row: the identifier when its column is selected, one
/// cell per resolved tag, then the kind-conditional extras.
pub open spec fn list_row(e: Entity, cols: Seq<Seq<char>>, tags: Seq<Seq<char>>) -> Seq<Seq<char>> {
    (if cols.contains("ID"@) {
        seq![e.id@]
    } else {
        Seq::empty()
    }) + Seq::new(tags.len(), |i: int| tag_cell(e, tags[i])) + list_extra_cells(e, cols)
}

/// The whole listing: one row per record, in the order given.
pub open spec fn list_rows(entities: Seq<Entity>, cols: Seq<Seq<char>>, tags: Seq<Seq<char>>) -> Seq<
    Seq<Seq<char>>,
> {
    Seq::new(entities.len(), |i: int| list_row(entities[i], cols, tags))
}

fn build_list_row(entity: &Entity, columns: &Vec<String>, dicom_tags: &Vec<String>) -> (row: Vec<
    String,
>)
    ensures
        row.deep_view() == list_row(*entity, columns.deep_view(), dicom_tags.deep_view()),
{
    let ghost cols = columns.deep_view();
    let ghost tags = dicom_tags.deep_view();
    let mut row: Vec<String> = Vec::new();
    if has_column(columns, "ID") {
        row.push(entity.id.clone());
    }
    let ghost head = row.deep_view();
    proof {
        assert(head =~= if cols.contains("ID"@) {
            seq![entity.id@]
        } else {
            Seq::<Seq<char>>::empty()
        });
    }
    let mut i: usize = 0;
    while i < dicom_tags.len()
        invariant
            i <= dicom_tags.len(),
            tags == dicom_tags.deep_view(),
            row.deep_view() =~= head + Seq::new(i as nat, |k: int| tag_cell(*entity, tags[k])),
        decreases dicom_tags.len() - i,
    {
        let ghost prev = row.deep_view();
        let cell = match entity.main_dicom_tag(dicom_tags[i].as_str()) {
            Some(v) => v.clone(),
            None => String::new(),
        };
        proof {
            reveal_strlit("");
            assert(cell@ =~= tag_cell(*entity, tags[i as int]));
        }
        row.push(cell);
        proof {
            assert(row.deep_view() =~= prev.push(tag_cell(*entity, tags[i as int])));
            assert(prev.push(tag_cell(*entity, tags[i as int])) =~= head + Seq::new(
                (i + 1) as nat,
                |k: int| tag_cell(*entity, tags[k]),
            ));
        }
        i = i + 1;
    }
    let ghost mid = row.deep_view();
    match entity.kind {
        EntityKind::Instance => {
            if has_column(columns, "Index in series") {
                let cell = match entity.index_in_series {
                    Some(idx) => u32_to_dec(idx),
                    None => String::new(),
                };
                proof {
                    reveal_strlit("");
                    assert(cell@ =~= index_cell(*entity));
                }
                row.push(cell);
            }
            if has_column(columns, "File size") {
                row.push(u64_to_dec(entity.file_size));
            }
        },
        _ => {
            if has_column(columns, "Number of Studies") || has_column(columns, "Number of Series")
                || has_column(columns, "Number of Instances") {
                row.push(usize_to_dec(entity.children.len()));
            }
        },
    }
    proof {
        assert(row.deep_view() =~= mid + list_extra_cells(*entity, cols));
        assert(row.deep_view() =~= list_row(*entity, cols, tags));
    }
    row
}

/// Projects an ordered collection of records of one kind into a
/// listing: one row per record, in the order given, with the selected
/// columns; the header is the column list unless suppressed; when the
/// identifier column is selected it carries a least-width drawing hint.
pub fn create_list_table(
    entities: &Vec<Entity>,
    columns: &Vec<String>,
    dicom_tags: &Vec<String>,
    no_header: bool,
) -> (t: Table)
    ensures
        table_header(t) == if no_header {
            None::<Seq<Seq<char>>>
        } else {
            Some(columns.deep_view())
        },
        table_rows(t) == list_rows(entities@, columns.deep_view(), dicom_tags.deep_view()),
        table_rows(t).len() == entities@.len(),
{
    let ghost cols = columns.deep_view();
    let ghost tags = dicom_tags.deep_view();
    let header = if no_header {
        None
    } else {
        Some(columns)
    };
    let mut t = create_table(header);
    let mut i: usize = 0;
    while i < entities.len()
        invariant
            i <= entities.len(),
            cols == columns.deep_view(),
            tags == dicom_tags.deep_view(),
            table_header(t) == if no_header {
                None::<Seq<Seq<char>>>
            } else {
                Some(cols)
            },
            table_rows(t).len() == i,
            forall|k: int| 0 <= k < i ==> table_rows(t)[k] == list_row(entities@[k], cols, tags),
        decreases entities.len() - i,
    {
        let row = build_list_row(&entities[i], columns, dicom_tags);
        add_row(&mut t, &row);
        i = i + 1;
    }
    if has_column(columns, "ID") {
        mark_id_column(&mut t);
    }
    proof {
        assert(table_rows(t) =~= list_rows(entities@, cols, tags));
    }
    t
}

/// The kind-conditional closing rows of a detail view: the leaf kind
/// shows its ordinal and byte size; every other kind shows its child
/// count under a label naming the child kind. In a detail view these
/// rows are always present.
pub open spec fn show_extra_rows(e: Entity) -> Seq<Seq<Seq<char>>> {
    if e.kind == EntityKind::Instance {
        seq![
            seq!["Index in series"@, index_cell(e)],
            seq!["File size"@, dec_rep(e.file_size as nat)],
        ]
    } else {
        seq![
            seq![
                "Number of "@ + spec_children_kind_name(e.kind)->Some_0,
                dec_rep(e.children@.len()),
            ],
        ]
    }
}

/// The rows of a detail view: the identifier; the parent link, except
/// for the root kind; one row per tag of the fixed listing, a
/// placeholder row when the tag is absent — never an omitted row; then
/// the kind-conditional extras.
pub open spec fn show_rows(e: Entity, tags: Seq<Seq<char>>) -> Seq<Seq<Seq<char>>> {
    seq![seq!["ID"@, e.id@]] + (if e.kind == EntityKind::Patient {
        Seq::empty()
    } else {
        seq![seq![spec_parent_kind_name(e.kind)->Some_0 + " ID"@, e.parent_id->Some_0@]]
    }) + Seq::new(tags.len(), |i: int| seq![tags[i], tag_cell(e, tags[i])]) + show_extra_rows(e)
}

/// How many rows a detail view has: one per attribute, regardless of
/// which tags the record happens to carry.
pub open spec fn show_row_count(e: Entity, tags: Seq<Seq<char>>) -> int {
    1 + (if e.kind == EntityKind::Patient {
        0int
    } else {
        1int
    }) + tags.len() + (if e.kind == EntityKind::Instance {
        2int
    } else {
        1int
    })
}

/// Projects one record into its detail view: one row per attribute,
/// present whether or not the record carries the tag.
pub fn create_show_table(entity: &Entity, dicom_tags: &Vec<String>) -> (t: Table)
    requires
        entity.well_formed(),
    ensures
        table_header(t) is None,
        table_rows(t) == show_rows(*entity, dicom_tags.deep_view()),
        table_rows(t).len() == show_row_count(*entity, dicom_tags.deep_view()),
{
    let ghost tags = dicom_tags.deep_view();
    let mut t = create_table(None);
    let row = row2("ID".to_owned(), entity.id.clone());
    add_row(&mut t, &row);
    match entity.parent_kind_name() {
        Some(pk) => {
            let label = concat2(pk, " ID");
            let pid = match entity.parent_id() {
                Some(p) => p.clone(),
                None => String::new(),
            };
            let row = row2(label, pid);
            add_row(&mut t, &row);
        },
        None => (),
    }
    let ghost head = table_rows(t);
    proof {
        assert(head =~= seq![seq!["ID"@, entity.id@]] + (if entity.kind == EntityKind::Patient {
            Seq::<Seq<Seq<char>>>::empty()
        } else {
            seq![
                seq![
                    spec_parent_kind_name(entity.kind)->Some_0 + " ID"@,
                    entity.parent_id->Some_0@,
                ],
            ]
        }));
    }
    let mut i: usize = 0;
    while i < dicom_tags.len()
        invariant
            i <= dicom_tags.len(),
            tags == dicom_tags.deep_view(),
            table_header(t) is None,
            table_rows(t) =~= head + Seq::new(
                i as nat,
                |k: int| seq![tags[k], tag_cell(*entity, tags[k])],
            ),
        decreases dicom_tags.len() - i,
    {
        let ghost prev = table_rows(t);
        let cell = match entity.main_dicom_tag(dicom_tags[i].as_str()) {
            Some(v) => v.clone(),
            None => String::new(),
        };
        proof {
            reveal_strlit("");
            assert(cell@ =~= tag_cell(*entity, tags[i as int]));
        }
        let row = row2(dicom_tags[i].clone(), cell);
        add_row(&mut t, &row);
        proof {
            assert(table_rows(t) =~= prev.push(seq![tags[i as int], tag_cell(*entity, tags[i as int])]));
            assert(prev.push(seq![tags[i as int], tag_cell(*entity, tags[i as int])]) =~= head
                + Seq::new((i + 1) as nat, |k: int| seq![tags[k], tag_cell(*entity, tags[k])]));
        }
        i = i + 1;
    }
    let ghost mid = table_rows(t);
    match entity.kind {
        EntityKind::Instance => {
            let cell = match entity.index_in_series {
                Some(idx) => u32_to_dec(idx),
                None => String::new(),
            };
            proof {
                reveal_strlit("");
                assert(cell@ =~= index_cell(*entity));
            }
            let row = row2("Index in series".to_owned(), cell);
            add_row(&mut t, &row);
            let row = row2("File size".to_owned(), u64_to_dec(entity.file_size));
            add_row(&mut t, &row);
        },
        _ => {
            let label = match entity.children_kind_name() {
                Some(ck) => concat2("Number of ", ck),
                None => String::new(),
            };
            let row = row2(label, usize_to_dec(entity.children.len()));
            add_row(&mut t, &row);
        },
    }
    proof {
        assert(table_rows(t) =~= mid + show_extra_rows(*entity));
        assert(table_rows(t) =~= show_rows(*entity, tags));
    }
    t
}

/// One entry of a leaf record's full tag dump, as the caller decoded
/// it: the tag key, and the tag's display name and value where the
/// server gave them as plain text.
#[derive(Debug)]
pub struct InstanceTagEntry {
    pub key: String,
    pub name: Option<String>,
    pub value: Option<String>,
}

/// The rows of a full tag dump: key, name and value for exactly the
/// entries whose name and value are both plain text; the rest are
/// passed over.
pub open spec fn instance_tag_rows(entries: Seq<InstanceTagEntry>) -> Seq<Seq<Seq<char>>>
    decreases entries.len(),
{
    if entries.len() == 0 {
        Seq::empty()
    } else {
        instance_tag_rows(entries.drop_last()) + (match (
            entries.last().name.deep_view(),
            entries.last().value.deep_view(),
        ) {
            (Some(n), Some(v)) => seq![seq![entries.last().key@, n, v]],
            _ => Seq::empty(),
        })
    }
}

/// Projects a leaf record's full tag dump: one row per entry that
/// carries a plain-text name and value.
pub fn create_instance_tags_table(entries: &Vec<InstanceTagEntry>) -> (t: Table)
    ensures
        table_header(t) is None,
        table_rows(t) == instance_tag_rows(entries@),
{
    let mut t = create_table(None);
    let mut i: usize = 0;
    while i < entries.len()
        invariant
            i <= entries.len(),
            table_header(t) is None,
            table_rows(t) =~= instance_tag_rows(entries@.take(i as int)),
        decreases entries.len() - i,
    {
        let ghost prev = table_rows(t);
        proof {
            assert(entries@.take(i + 1).drop_last() =~= entries@.take(i as int));
            assert(entries@.take(i + 1).last() == entries@[i as int]);
        }
        match (&entries[i].name, &entries[i].value) {
            (Some(n), Some(v)) => {
                let row = row3(entries[i].key.clone(), n.clone(), v.clone());
                add_row(&mut t, &row);
            },
            _ => (),
        }
        i = i + 1;
    }
    proof {
        assert(entries@.take(entries.len() as int) =~= entries@);
    }
    t
}

} // verus!
