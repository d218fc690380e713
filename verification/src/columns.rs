//! The column resolver: validates a user-requested subset of a kind's
//! default columns and filters the default column and tag lists down to
//! it, keeping the defaults' own order.

use vstd::prelude::*;

use crate::errors::CliError;
use crate::text::join_strings;
use crate::text::join_with;

verus! {

/// The entries of `cols` that occur in `keep`, in the order `cols`
/// gives them; the order of `keep` plays no part.
pub open spec fn kept_columns(cols: Seq<Seq<char>>, keep: Seq<Seq<char>>) -> Seq<Seq<char>>
    decreases cols.len(),
{
    if cols.len() == 0 {
        Seq::empty()
    } else if keep.contains(cols.last()) {
        kept_columns(cols.drop_last(), keep).push(cols.last())
    } else {
        kept_columns(cols.drop_last(), keep)
    }
}

/// The first requested name, from position `i` on, that is not among
/// the defaults.
pub open spec fn first_invalid_from(hdr: Seq<Seq<char>>, req: Seq<Seq<char>>, i: int) -> Option<
    Seq<char>,
>
    decreases req.len() - i,
{
    if i < 0 || i >= req.len() {
        None
    } else if !hdr.contains(req[i]) {
        Some(req[i])
    } else {
        first_invalid_from(hdr, req, i + 1)
    }
}

/// The first requested name that is not among the defaults, if any.
pub open spec fn first_invalid(hdr: Seq<Seq<char>>, req: Seq<Seq<char>>) -> Option<Seq<char>> {
    first_invalid_from(hdr, req, 0)
}

/// The message that names an unknown column and lists the valid set.
pub open spec fn invalid_column_message(c: Seq<char>, hdr: Seq<Seq<char>>) -> Seq<char> {
    "Invalid column name: "@ + c + ". Available columns: "@ + join_with(hdr, ", "@)
}

/// Whether the list holds an entry with the given text.
pub fn vec_contains(v: &Vec<String>, x: &String) -> (r: bool)
    ensures
        r == v.deep_view().contains(x@),
{
    let mut i: usize = 0;
    while i < v.len()
        invariant
            i <= v.len(),
            forall|k: int| 0 <= k < i ==> v.deep_view()[k] != x@,
        decreases v.len() - i,
    {
        if v[i] == *x {
            proof {
                assert(v.deep_view()[i as int] == x@);
            }
            return true;
        }
        i = i + 1;
    }
    false
}

/// Whether the column list holds the given label.
pub fn has_column(columns: &Vec<String>, label: &str) -> (r: bool)
    ensures
        r == columns.deep_view().contains(label@),
{
    let l = label.to_owned();
    vec_contains(columns, &l)
}

/// Checks that every requested column is one of the defaults; rejects
/// the first that is not, naming it and listing the valid set.
pub fn check_columns_option(original_header: &Vec<String>, requested_columns: &Vec<String>) -> (r:
    Result<(), CliError>)
    ensures
        r is Ok <==> first_invalid(
            original_header.deep_view(),
            requested_columns.deep_view(),
        ) is None,
        r matches Err(e) ==> first_invalid(
            original_header.deep_view(),
            requested_columns.deep_view(),
        ) matches Some(bad) && e.error@ == "Command error"@ && e.message.deep_view() == Some(
            invalid_column_message(bad, original_header.deep_view()),
        ) && e.details is None,
{
    let ghost hdr = original_header.deep_view();
    let ghost req = requested_columns.deep_view();
    let mut i: usize = 0;
    while i < requested_columns.len()
        invariant
            i <= requested_columns.len(),
            hdr == original_header.deep_view(),
            req == requested_columns.deep_view(),
            first_invalid(hdr, req) == first_invalid_from(hdr, req, i as int),
        decreases requested_columns.len() - i,
    {
        if !vec_contains(original_header, &requested_columns[i]) {
            let mut msg = "Invalid column name: ".to_owned();
            msg.append(requested_columns[i].as_str());
            msg.append(". Available columns: ");
            let joined = join_strings(original_header, ", ");
            msg.append(joined.as_str());
            proof {
                assert(msg@ =~= invalid_column_message(req[i as int], hdr));
            }
            return Err(CliError::new("Command error", Some(msg.as_str()), None));
        }
        i = i + 1;
    }
    Ok(())
}

fn retained(v: &Vec<String>, keep: &Vec<String>) -> (r: Vec<String>)
    ensures
        r.deep_view() == kept_columns(v.deep_view(), keep.deep_view()),
{
    let mut r: Vec<String> = Vec::new();
    let mut i: usize = 0;
    while i < v.len()
        invariant
            i <= v.len(),
            r.deep_view() == kept_columns(v.deep_view().take(i as int), keep.deep_view()),
        decreases v.len() - i,
    {
        proof {
            assert(v.deep_view().take(i + 1).drop_last() =~= v.deep_view().take(i as int));
            assert(v.deep_view().take(i + 1).last() == v.deep_view()[i as int]);
        }
        if vec_contains(keep, &v[i]) {
            r.push(v[i].clone());
        }
        i = i + 1;
    }
    proof {
        assert(v.deep_view().take(v.len() as int) =~= v.deep_view());
    }
    r
}

/// Resolves the final column and tag lists: with no request both stay
/// the full defaults; with a request both are filtered to the requested
/// names, keeping the defaults' order, after the request is validated.
pub fn get_header_and_dicom_tags(
    header: &mut Vec<String>,
    dicom_tags: &mut Vec<String>,
    columns: Option<Vec<String>>,
) -> (r: Result<(), CliError>)
    ensures
        match columns {
            None => r is Ok && final(header)@ == old(header)@ && final(dicom_tags)@ == old(
                dicom_tags,
            )@,
            Some(c) => {
                &&& (r is Ok <==> first_invalid(old(header).deep_view(), c.deep_view()) is None)
                &&& (r is Ok ==> final(header).deep_view() == kept_columns(
                    old(header).deep_view(),
                    c.deep_view(),
                ) && final(dicom_tags).deep_view() == kept_columns(
                    old(dicom_tags).deep_view(),
                    c.deep_view(),
                ))
                &&& (r matches Err(e) ==> first_invalid(old(header).deep_view(), c.deep_view())
                    matches Some(bad) && e.error@ == "Command error"@ && e.message.deep_view()
                    == Some(invalid_column_message(bad, old(header).deep_view())) && e.details
                    is None && final(header)@ == old(header)@ && final(dicom_tags)@ == old(
                    dicom_tags,
                )@)
            },
        },
{
    match columns {
        None => Ok(()),
        Some(c) => {
            match check_columns_option(header, &c) {
                Err(e) => Err(e),
                Ok(()) => {
                    let new_header = retained(header, &c);
                    let new_tags = retained(dicom_tags, &c);
                    *header = new_header;
                    *dicom_tags = new_tags;
                    Ok(())
                },
            }
        },
    }
}

/// The resolved columns depend only on which names are requested, never
/// on the order the request lists them in: two requests naming the same
/// set of columns resolve to the same list.
pub proof fn lemma_kept_columns_order_blind(
    cols: Seq<Seq<char>>,
    keep1: Seq<Seq<char>>,
    keep2: Seq<Seq<char>>,
)
    requires
        forall|x: Seq<char>| keep1.contains(x) <==> keep2.contains(x),
    ensures
        kept_columns(cols, keep1) == kept_columns(cols, keep2),
    decreases cols.len(),
{
    if cols.len() > 0 {
        lemma_kept_columns_order_blind(cols.drop_last(), keep1, keep2);
    }
}

/// Every resolved column is one of the defaults and was requested, and
/// every requested default is resolved: filtering loses nothing else.
pub proof fn lemma_kept_columns_members(cols: Seq<Seq<char>>, keep: Seq<Seq<char>>)
    ensures
        forall|j: int|
            0 <= j < kept_columns(cols, keep).len() ==> cols.contains(
                #[trigger] kept_columns(cols, keep)[j],
            ) && keep.contains(kept_columns(cols, keep)[j]),
        forall|x: Seq<char>|
            cols.contains(x) && keep.contains(x) ==> kept_columns(cols, keep).contains(x),
    decreases cols.len(),
{
    if cols.len() > 0 {
        lemma_kept_columns_members(cols.drop_last(), keep);
        let prev = kept_columns(cols.drop_last(), keep);
        let cur = kept_columns(cols, keep);
        assert forall|j: int| 0 <= j < cur.len() implies cols.contains(#[trigger] cur[j])
            && keep.contains(cur[j]) by {
            if j < prev.len() {
                assert(cur[j] == prev[j]);
                let k = choose|k: int| 0 <= k < cols.drop_last().len() && cols.drop_last()[k]
                    == prev[j];
                assert(cols[k] == prev[j]);
            } else {
                assert(cur[j] == cols.last());
                assert(cols[cols.len() - 1] == cols.last());
            }
        }
        assert forall|x: Seq<char>| cols.contains(x) && keep.contains(x) implies cur.contains(
            x,
        ) by {
            let k = choose|k: int| 0 <= k < cols.len() && cols[k] == x;
            if k < cols.len() - 1 {
                assert(cols.drop_last()[k] == x);
                assert(cols.drop_last().contains(x));
                let j = choose|j: int| 0 <= j < prev.len() && prev[j] == x;
                assert(cur[j] == x);
            } else {
                assert(cols.last() == x);
                assert(cur.last() == x);
                assert(cur[cur.len() - 1] == x);
            }
        }
    }
}

} // verus!
