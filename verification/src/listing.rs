//! Parent-filtered listing: listing the immediate children of one
//! ancestor means confirming the ancestor exists, then keeping, out of
//! the full child-kind collection, exactly the records whose parent
//! link names it.

use vstd::prelude::*;

use crate::entity::Entity;
use crate::errors::CliError;

verus! {

/// The records whose parent link names the given ancestor, in the
/// order the collection gives them.
pub open spec fn filter_children(s: Seq<Entity>, pid: Seq<char>) -> Seq<Entity>
    decreases s.len(),
{
    if s.len() == 0 {
        Seq::empty()
    } else {
        filter_children(s.drop_last(), pid) + (if s.last().parent_id.deep_view() == Some(pid) {
            seq![s.last()]
        } else {
            Seq::empty()
        })
    }
}

/// Confirms that the ancestor lookup found the record: the listing may
/// go on — and the child collection be fetched at all — only on `Ok`.
pub fn require_parent(parent_id: &String, parent_found: bool) -> (r: Result<(), CliError>)
    ensures
        r is Ok <==> parent_found,
        r matches Err(e) ==> e.error@ == "Not found"@ && e.message.deep_view() == Some(parent_id@)
            && e.details is None,
{
    if parent_found {
        Ok(())
    } else {
        Err(CliError::new("Not found", Some(parent_id.as_str()), None))
    }
}

/// Keeps exactly the records whose parent link names the given
/// ancestor, in their original order.
pub fn filter_by_parent(entities: Vec<Entity>, parent_id: &String) -> (r: Vec<Entity>)
    ensures
        r@ == filter_children(entities@, parent_id@),
{
    let ghost all = entities@;
    let mut rest = entities;
    let mut r: Vec<Entity> = Vec::new();
    while rest.len() > 0
        invariant
            rest@.len() <= all.len(),
            rest@ == all.skip(all.len() - rest@.len()),
            r@ == filter_children(all.take(all.len() - rest@.len()), parent_id@),
        decreases rest@.len(),
    {
        let ghost i = all.len() - rest@.len();
        let e = rest.remove(0);
        proof {
            assert(e == all[i]);
            assert(rest@ =~= all.skip(i + 1));
            assert(all.take(i + 1).drop_last() =~= all.take(i));
            assert(all.take(i + 1).last() == all[i]);
        }
        let keep = match &e.parent_id {
            Some(p) => *p == *parent_id,
            None => false,
        };
        if keep {
            r.push(e);
        }
        proof {
            assert(r@ =~= filter_children(all.take(i + 1), parent_id@));
        }
    }
    proof {
        assert(all.take(all.len() as int) =~= all);
    }
    r
}

/// What parent filtering returns: only records whose parent link names
/// the ancestor, every such record, and nothing else.
pub proof fn lemma_filter_children_members(s: Seq<Entity>, pid: Seq<char>)
    ensures
        forall|j: int|
            0 <= j < filter_children(s, pid).len() ==> (#[trigger] filter_children(s, pid)[j])
                .parent_id.deep_view() == Some(pid) && s.contains(filter_children(s, pid)[j]),
        forall|i: int|
            0 <= i < s.len() && (#[trigger] s[i]).parent_id.deep_view() == Some(pid)
                ==> filter_children(s, pid).contains(s[i]),
    decreases s.len(),
{
    if s.len() > 0 {
        lemma_filter_children_members(s.drop_last(), pid);
        let prev = filter_children(s.drop_last(), pid);
        let cur = filter_children(s, pid);
        assert forall|j: int| 0 <= j < cur.len() implies (#[trigger] cur[j]).parent_id.deep_view()
            == Some(pid) && s.contains(cur[j]) by {
            if j < prev.len() {
                assert(cur[j] == prev[j]);
                let k = choose|k: int|
                    0 <= k < s.drop_last().len() && s.drop_last()[k] == prev[j];
                assert(s[k] == prev[j]);
            } else {
                assert(cur[j] == s.last());
                assert(s[s.len() - 1] == s.last());
            }
        }
        assert forall|i: int|
            0 <= i < s.len() && (#[trigger] s[i]).parent_id.deep_view() == Some(
                pid,
            ) implies cur.contains(s[i]) by {
            if i < s.len() - 1 {
                assert(s.drop_last()[i] == s[i]);
                let j = choose|j: int| 0 <= j < prev.len() && prev[j] == s[i];
                assert(cur[j] == s[i]);
            } else {
                assert(s[i] == s.last());
                assert(cur[cur.len() - 1] == s.last());
            }
        }
    }
}

} // verus!
