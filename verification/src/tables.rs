//! The bridge to the table builder: what a report table holds is
//! modelled as its header and its rows of cell texts, and the few calls
//! that fill a table are trusted to do exactly that. The rows
//! themselves are computed and proved elsewhere; drawing is the
//! renderer's business alone.

use vstd::prelude::*;

use comfy_table::Table;

use crate::entity::kind_name;
use crate::entity::EntityKind;
use crate::entity::ModificationResult;
use crate::errors::CliError;
use crate::text::concat3;

verus! {

#[verifier::external_type_specification]
#[verifier::external_body]
pub struct ExTable(Table);

/// What a table holds: its rows, each a list of cell texts, in the
/// order they were added.
pub uninterp spec fn table_rows(t: Table) -> Seq<Seq<Seq<char>>>;

/// The header row of a table, if one was set.
pub uninterp spec fn table_header(t: Table) -> Option<Seq<Seq<char>>>;

/// The least drawn width of the identifier column, a presentation hint.
pub const ID_COLUMN_WIDTH: u16 = 46;

/// Relies on comfy_table::Table::new, set_content_arrangement and
/// load_style: a fresh table has no rows and no header, and the style
/// and arrangement only affect drawing.
#[verifier::external_body]
fn new_styled_table() -> (t: Table)
    ensures
        table_rows(t) == Seq::<Seq<Seq<char>>>::empty(),
        table_header(t) is None,
{
    let style = comfy_table::TableStyle::new().header_lines(
        comfy_table::ContentLineStyle::none().junction(' '),
    ).header_separator(comfy_table::LineStyle::none().fill('-').junction('-')).content_lines(
        comfy_table::ContentLineStyle::none().junction(' '),
    );
    let mut t = Table::new();
    t.set_content_arrangement(comfy_table::ContentArrangement::Dynamic);
    t.load_style(style);
    t
}

/// Relies on comfy_table::Table::set_header: it replaces the header
/// and leaves the rows as they are.
#[verifier::external_body]
fn table_set_header(t: &mut Table, header: &Vec<String>)
    ensures
        table_rows(*final(t)) == table_rows(*old(t)),
        table_header(*final(t)) == Some(header.deep_view()),
{
    t.set_header(header.clone());
}

/// Relies on comfy_table::Table::add_row: it appends one row and
/// leaves the header as it is.
#[verifier::external_body]
fn table_add_row(t: &mut Table, row: &Vec<String>)
    ensures
        table_header(*final(t)) == table_header(*old(t)),
        table_rows(*final(t)) == table_rows(*old(t)).push(row.deep_view()),
{
    t.add_row(row.clone());
}

/// Relies on comfy_table::Table::column_mut and Column::set_constraint:
/// a width constraint is a drawing hint and leaves the contents alone.
#[verifier::external_body]
fn table_set_first_column_min_width(t: &mut Table, width: u16)
    ensures
        table_header(*final(t)) == table_header(*old(t)),
        table_rows(*final(t)) == table_rows(*old(t)),
{
    if let Some(column) = t.column_mut(0) {
        column.set_constraint(
            comfy_table::ColumnConstraint::LowerBoundary(comfy_table::Width::Fixed(width)),
        );
    }
}

/// Makes an empty report table, with the given header if one is wanted.
pub fn create_table(header: Option<&Vec<String>>) -> (t: Table)
    ensures
        table_rows(t).len() == 0,
        match header {
            Some(h) => table_header(t) == Some(h.deep_view()),
            None => table_header(t) is None,
        },
{
    let mut t = new_styled_table();
    match header {
        Some(h) => table_set_header(&mut t, h),
        None => (),
    }
    t
}

/// Appends one row of cells to a report table.
pub fn add_row(t: &mut Table, row: &Vec<String>)
    ensures
        table_header(*final(t)) == table_header(*old(t)),
        table_rows(*final(t)) == table_rows(*old(t)).push(row.deep_view()),
{
    table_add_row(t, row);
}

/// Marks the first column with the identifier column's least width, a
/// presentation hint that leaves the contents alone.
pub fn mark_id_column(t: &mut Table)
    ensures
        table_header(*final(t)) == table_header(*old(t)),
        table_rows(*final(t)) == table_rows(*old(t)),
{
    table_set_first_column_min_width(t, ID_COLUMN_WIDTH);
}

/// A row of two cells.
pub fn row2(a: String, b: String) -> (r: Vec<String>)
    ensures
        r.deep_view() == seq![a@, b@],
{
    let ghost av = a@;
    let ghost bv = b@;
    let mut r: Vec<String> = Vec::new();
    r.push(a);
    r.push(b);
    proof {
        assert(r.deep_view() =~= seq![av, bv]);
    }
    r
}

/// A row of three cells.
pub fn row3(a: String, b: String, c: String) -> (r: Vec<String>)
    ensures
        r.deep_view() == seq![a@, b@, c@],
{
    let ghost av = a@;
    let ghost bv = b@;
    let ghost cv = c@;
    let mut r: Vec<String> = Vec::new();
    r.push(a);
    r.push(b);
    r.push(c);
    proof {
        assert(r.deep_view() =~= seq![av, bv, cv]);
    }
    r
}

/// The rows of an error report: the error label always, then a message
/// row and a details row, each present exactly when its value is.
pub open spec fn error_rows(e: CliError) -> Seq<Seq<Seq<char>>> {
    seq![seq!["Error"@, e.error@]] + (match e.message.deep_view() {
        Some(m) => seq![seq!["Message"@, m]],
        None => Seq::empty(),
    }) + (match e.details.deep_view() {
        Some(d) => seq![seq!["Details"@, d]],
        None => Seq::empty(),
    })
}

/// Renders a failure as a flat report: the error, and a message and
/// details only where present — absent values are omitted rows, never
/// blank ones.
pub fn create_error_table(error: &CliError) -> (t: Table)
    ensures
        table_header(t) is None,
        table_rows(t) == error_rows(*error),
{
    let mut t = create_table(None);
    let row = row2("Error".to_owned(), error.error.clone());
    add_row(&mut t, &row);
    match &error.message {
        Some(m) => {
            let row = row2("Message".to_owned(), m.clone());
            add_row(&mut t, &row);
        },
        None => (),
    }
    match &error.details {
        Some(d) => {
            let row = row2("Details".to_owned(), d.clone());
            add_row(&mut t, &row);
        },
        None => (),
    }
    proof {
        assert(table_rows(t) =~= error_rows(*error));
    }
    t
}

/// The rows reporting a newly created record: its identifier under a
/// label naming the kind, and for every kind but the root also the
/// identifier of the patient it belongs to.
pub open spec fn new_entity_rows(r: ModificationResult) -> Seq<Seq<Seq<char>>> {
    seq![seq!["New "@ + kind_name(r.entity) + " ID"@, r.id@]] + (if r.entity
        == EntityKind::Patient {
        Seq::empty()
    } else {
        seq![seq!["Patient ID"@, r.patient_id@]]
    })
}

/// Renders the outcome of a modify or anonymize call that created a
/// new record.
pub fn create_new_entity_table(result: &ModificationResult) -> (t: Table)
    ensures
        table_header(t) is None,
        table_rows(t) == new_entity_rows(*result),
{
    let mut t = create_table(None);
    let label = concat3("New ", result.entity.name(), " ID");
    let row = row2(label, result.id.clone());
    add_row(&mut t, &row);
    match result.entity {
        EntityKind::Patient => (),
        _ => {
            let row = row2("Patient ID".to_owned(), result.patient_id.clone());
            add_row(&mut t, &row);
        },
    }
    proof {
        assert(table_rows(t) =~= new_entity_rows(*result));
    }
    t
}

} // verus!
