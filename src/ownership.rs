//! Owner scoping of stored resources. A project is seen and changed only by the user who
//! owns it; a module belongs to its project, so it is seen and changed only by the owner
//! of that project. Any other caller is told `NotFound`, never that the resource exists.

use vstd::prelude::*;
use crate::error::Error;

verus! {

/// A stored resource together with the id of the user who owns it.
#[derive(Clone, Debug, PartialEq, Eq)]
pub struct Owned<T> {
    pub owner: i64,
    pub item: T,
}

pub open spec fn is_not_found(e: Error) -> bool {
    e matches Error::NotFound(m) && m@ == "not found"@
}

/// The items of `rows` that `caller` owns, in order.
pub open spec fn owned_items<T>(caller: i64, rows: Seq<Owned<T>>) -> Seq<T>
    decreases rows.len(),
{
    if rows.len() == 0 {
        Seq::empty()
    } else {
        let rest = owned_items(caller, rows.drop_last());
        if rows.last().owner == caller {
            rest.push(rows.last().item)
        } else {
            rest
        }
    }
}

fn not_found() -> (r: Error)
    ensures
        is_not_found(r),
{
    Error::NotFound(String::from_str("not found"))
}

/// Hands a looked-up resource to `caller` if it exists and `caller` owns it; `NotFound`
/// otherwise, whether it is missing or owned by someone else.
pub fn scope_one<T>(caller: i64, found: Option<Owned<T>>) -> (r: Result<T, Error>)
    ensures
        match found {
            Some(row) if row.owner == caller => r == Ok::<T, Error>(row.item),
            _ => r matches Err(e) && is_not_found(e),
        },
{
    match found {
        Some(row) => if row.owner == caller {
            Ok(row.item)
        } else {
            Err(not_found())
        },
        None => Err(not_found()),
    }
}

/// Keeps the rows that `caller` owns, in order.
pub fn scope_all<T>(caller: i64, rows: Vec<Owned<T>>) -> (r: Vec<T>)
    ensures
        r@ == owned_items(caller, rows@),
{
    let mut kept: Vec<T> = Vec::new();
    let mut rest = rows;
    let ghost all = rest@;
    let ghost mut taken: Seq<Owned<T>> = Seq::empty();
    while rest.len() > 0
        invariant
            taken + rest@ == all,
            kept@ == owned_items(caller, taken),
        decreases rest@.len(),
    {
        let ghost rest_before = rest@;
        let row = rest.remove(0);
        proof {
            assert(taken.push(row) + rest@ =~= taken + rest_before);
        }
        let ghost before = taken;
        let ghost r = row;
        if row.owner == caller {
            kept.push(row.item);
            proof {
                assert(before.push(r).drop_last() =~= before);
            }
        } else {
            proof {
                assert(before.push(r).drop_last() =~= before);
            }
        }
        proof {
            taken = taken.push(r);
        }
    }
    proof {
        assert(taken =~= all);
    }
    kept
}

/// `caller` may reach the modules of a project owned by `project_owner` (`None` where the
/// project does not exist).
pub open spec fn may_reach_modules(caller: i64, project_owner: Option<i64>) -> bool {
    project_owner == Some(caller)
}

/// A parent module given as `parent`, whose own project is `parent_project` (`None` where no
/// such module exists), may stand under project `project_id`.
pub open spec fn parent_allowed(project_id: i64, parent: Option<i64>, parent_project: Option<i64>) -> bool {
    parent is None || parent_project == Some(project_id)
}

/// Whether `caller` may reach a module whose project is owned by `project_owner` (`None`
/// when the project or the module does not exist). Only the project's owner may, for every
/// module operation alike; others get `NotFound`.
pub fn module_scope(caller: i64, project_owner: Option<i64>) -> (r: Result<(), Error>)
    ensures
        r is Ok <==> may_reach_modules(caller, project_owner),
        r matches Err(e) ==> is_not_found(e),
{
    match project_owner {
        Some(owner) => if owner == caller {
            Ok(())
        } else {
            Err(not_found())
        },
        None => Err(not_found()),
    }
}

/// Checks that the parent module `parent` of a module in project `project_id` belongs to that
/// same project; `parent_project` is the project of the module with that id, if there is one.
/// A parent that is missing or lies in another project is `NotFound`.
pub fn parent_scope(project_id: i64, parent: Option<i64>, parent_project: Option<i64>) -> (r: Result<(), Error>)
    ensures
        r is Ok <==> parent_allowed(project_id, parent, parent_project),
        r matches Err(e) ==> is_not_found(e),
{
    match parent {
        None => Ok(()),
        Some(_) => match parent_project {
            Some(p) => if p == project_id {
                Ok(())
            } else {
                Err(not_found())
            },
            None => Err(not_found()),
        },
    }
}

/// A user reaches no module of a project that another user owns: every module operation's
/// scope check refuses, and of module rows that carry that owner none is handed out.
pub proof fn lemma_others_modules_unreachable<T>(caller: i64, owner: i64, rows: Seq<Owned<T>>)
    requires
        caller != owner,
        forall|i: int| 0 <= i < rows.len() ==> (#[trigger] rows[i]).owner == owner,
    ensures
        !may_reach_modules(caller, Some(owner)),
        owned_items(caller, rows) == Seq::<T>::empty(),
    decreases rows.len(),
{
    if rows.len() > 0 {
        let rest = rows.drop_last();
        assert forall|i: int| 0 <= i < rest.len() implies (#[trigger] rest[i]).owner == owner by {
            assert(rest[i] == rows[i]);
        }
        lemma_others_modules_unreachable(caller, owner, rest);
        assert(rows.last().owner == owner);
    }
}

/// The answer to a change that the store scoped to the caller: `NotFound` when no row was
/// affected, since the resource is missing or owned by someone else.
pub fn scope_change(rows_affected: u64) -> (r: Result<(), Error>)
    ensures
        r is Ok <==> rows_affected > 0,
        r matches Err(e) ==> is_not_found(e),
{
    if rows_affected > 0 {
        Ok(())
    } else {
        Err(not_found())
    }
}

} // verus!
