//! Inserting a new node between the two ends of an existing edge.
use vstd::prelude::*;
use crate::db::node_edges::NewNodeEdge;
use crate::db::nodes::{NewNode, Node};
use crate::db::projects::Project;
use crate::domain::ulid::ulid_decoding;
use crate::domain::{OrganizationId, UserId};
use crate::error::{result_view, AppError, ErrorView};
use crate::features::graph::helpers::{check_edge_endpoints, edge_endpoints_check, DEFAULT_STATUS_ID};
use crate::features::graph::update_node::{
    check_found, check_project_match, first_err, found_check, project_match_check,
};
use crate::features::validation::{has_length_between, length_between, InvalidInput};
use crate::text::{clone_opt_string, str_eq, string_of};

verus! {

/// Request body for inserting a node between an existing edge's parent and child.
#[derive(Debug, Clone)]
pub struct InsertBetweenRequest {
    /// Existing parent in the edge A -> B.
    pub parent_id: String,
    /// Existing child in the edge A -> B.
    pub child_id: String,
    /// Node type for the new node.
    pub node_type_id: String,
    /// Title for the new node.
    pub title: String,
    /// Optional description for the new node.
    pub description: Option<String>,
    /// Optional explicit status for the new node; defaults to the system "To do".
    pub status_id: Option<String>,
    /// Optional slot assignment for the new node.
    pub slot_id: Option<String>,
    /// Optional assignee (user) for the new node. Must be an organization member.
    pub assigned_user_id: Option<String>,
    /// Optional grouping parent (compound node id) for the new node.
    pub group_id: Option<String>,
}

/// The field rules: a title of 1 to 255 characters, a description of at most 2000.
pub open spec fn insert_request_valid(r: InsertBetweenRequest) -> bool {
    &&& length_between(r.title@, 1, 255)
    &&& (r.description matches Some(d) ==> length_between(d@, 0, 2000))
}

impl InsertBetweenRequest {
    /// Checks the field rules.
    pub fn validate(&self) -> (r: Result<(), InvalidInput>)
        ensures
            r is Ok <==> insert_request_valid(*self),
    {
        if !has_length_between(self.title.as_str(), 1, 255) {
            return Err(InvalidInput);
        }
        match &self.description {
            Some(d) => if !has_length_between(d.as_str(), 0, 2000) {
                return Err(InvalidInput);
            },
            None => {},
        }
        Ok(())
    }
}

/// What the database answered for the ids an insertion names: whether the
/// node type, the status (when named) and the assignee's membership (when
/// named and well-formed) hold, the project of the slot and of the group
/// node (when named), and the two ends of the edge.
pub struct InsertBetweenLookups {
    pub node_type_found: Result<bool, sqlx::Error>,
    pub status_found: Option<Result<bool, sqlx::Error>>,
    pub slot_project: Option<Result<Option<String>, sqlx::Error>>,
    pub assignee_is_member: Option<Result<bool, sqlx::Error>>,
    pub group_project: Option<Result<Option<String>, sqlx::Error>>,
    pub parent: Result<Option<Node>, sqlx::Error>,
    pub child: Result<Option<Node>, sqlx::Error>,
}

/// The outcome of checking an assignee: its id and the organization's id
/// must be ULIDs and the user a member of the organization.
pub open spec fn assignee_check(
    assigned: Option<String>,
    organization_id: Seq<char>,
    member: Option<Result<bool, sqlx::Error>>,
) -> Result<(), ErrorView> {
    match assigned {
        None => Ok(()),
        Some(uid) => if ulid_decoding(uid@) is None || ulid_decoding(organization_id) is None {
            Err(ErrorView::Validation("Invalid assigned_user_id"@))
        } else {
            match member {
                Some(Err(_)) => Err(ErrorView::Database),
                Some(Ok(true)) => Ok(()),
                _ => Err(ErrorView::Validation("User is not a member of this organization"@)),
            }
        },
    }
}

/// The outcome of checking an insertion into project `project_id`.
pub open spec fn insert_check(
    r: InsertBetweenRequest,
    lk: InsertBetweenLookups,
    project: Project,
    project_id: Seq<char>,
) -> Result<(), ErrorView> {
    if !insert_request_valid(r) {
        Err(ErrorView::Validation("Invalid input"@))
    } else if r.parent_id@ == r.child_id@ {
        Err(ErrorView::Validation("Cannot insert between a self-referential edge"@))
    } else {
        first_err(
            found_check(Some(lk.node_type_found), "Invalid node_type_id"@),
            first_err(
                if r.status_id is Some {
                    found_check(lk.status_found, "Invalid status_id"@)
                } else {
                    Ok(())
                },
                first_err(
                    if r.slot_id is Some {
                        project_match_check(lk.slot_project, project_id, "Invalid slot_id"@)
                    } else {
                        Ok(())
                    },
                    first_err(
                        assignee_check(r.assigned_user_id, project.organization_id@, lk.assignee_is_member),
                        first_err(
                            if r.group_id is Some {
                                project_match_check(lk.group_project, project_id, "Invalid group_id"@)
                            } else {
                                Ok(())
                            },
                            match edge_endpoints_check(lk.parent, lk.child, project_id) {
                                Ok(_) => Ok(()),
                                Err(e) => Err(e),
                            },
                        ),
                    ),
                ),
            ),
        )
    }
}

/// The writes of an insertion, made in one transaction: insert the node C,
/// delete the edge A -> B, insert A -> C and C -> B.
#[derive(Debug)]
pub struct InsertBetweenPlan {
    pub node: NewNode,
    pub removed_edge: NewNodeEdge,
    pub first_edge: NewNodeEdge,
    pub second_edge: NewNodeEdge,
}

/// An edge as the pair of its ends.
pub open spec fn edge_key(e: NewNodeEdge) -> (Seq<char>, Seq<char>) {
    (e.parent_id@, e.child_id@)
}

/// The edges after a plan's edge writes.
pub open spec fn apply_edge_writes(edges: Set<(Seq<char>, Seq<char>)>, p: InsertBetweenPlan) -> Set<
    (Seq<char>, Seq<char>),
> {
    edges.remove(edge_key(p.removed_edge)).insert(edge_key(p.first_edge)).insert(edge_key(p.second_edge))
}

/// Checks an assignee.
fn check_assignee(
    assigned: &Option<String>,
    organization_id: &str,
    member: Option<Result<bool, sqlx::Error>>,
) -> (r: Result<(), AppError>)
    ensures
        result_view(r) == assignee_check(*assigned, organization_id@, member),
{
    match assigned {
        None => Ok(()),
        Some(uid) => {
            let user = UserId::from_string(uid.as_str());
            let org = OrganizationId::from_string(organization_id);
            if user.is_err() || org.is_err() {
                return Err(AppError::validation("Invalid assigned_user_id"));
            }
            match member {
                Some(Err(e)) => Err(AppError::Database(e)),
                Some(Ok(true)) => Ok(()),
                _ => Err(AppError::validation("User is not a member of this organization")),
            }
        },
    }
}

/// Decides an insertion between `request.parent_id` and `request.child_id`
/// in a project the user may write to: the checks in order, then the node
/// (with id `new_node_id`) and the edge writes.
pub fn plan_insert_between(
    project: &Project,
    project_id: &str,
    request: &InsertBetweenRequest,
    lookups: InsertBetweenLookups,
    new_node_id: String,
) -> (r: Result<InsertBetweenPlan, AppError>)
    ensures
        insert_check(*request, lookups, *project, project_id@) matches Err(e) ==> (r matches Err(x)
            && x@ == e),
        insert_check(*request, lookups, *project, project_id@) is Ok ==> r is Ok,
        r matches Ok(p) ==> {
            &&& p.node.id == new_node_id
            &&& p.node.project_id == project.id
            &&& p.node.node_type_id == request.node_type_id
            &&& p.node.status_id@ == (match request.status_id {
                Some(s) => s@,
                None => DEFAULT_STATUS_ID@,
            })
            &&& p.node.title == request.title
            &&& p.node.description == request.description
            &&& p.node.estimated_minutes is None
            &&& p.node.slot_id == request.slot_id
            &&& p.node.parent_id == request.group_id
            &&& p.node.assigned_user_id == request.assigned_user_id
            &&& edge_key(p.removed_edge) == (request.parent_id@, request.child_id@)
            &&& edge_key(p.first_edge) == (request.parent_id@, new_node_id@)
            &&& edge_key(p.second_edge) == (new_node_id@, request.child_id@)
            &&& request.parent_id@ != request.child_id@
        },
{
    if request.validate().is_err() {
        return Err(AppError::validation("Invalid input"));
    }
    if str_eq(request.parent_id.as_str(), request.child_id.as_str()) {
        return Err(AppError::validation("Cannot insert between a self-referential edge"));
    }
    let InsertBetweenLookups {
        node_type_found,
        status_found,
        slot_project,
        assignee_is_member,
        group_project,
        parent,
        child,
    } = lookups;
    check_found(Some(node_type_found), "Invalid node_type_id")?;
    let status_id = match &request.status_id {
        None => string_of(DEFAULT_STATUS_ID),
        Some(s) => {
            check_found(status_found, "Invalid status_id")?;
            s.clone()
        },
    };
    if request.slot_id.is_some() {
        check_project_match(slot_project, project_id, "Invalid slot_id")?;
    }
    check_assignee(&request.assigned_user_id, project.organization_id.as_str(), assignee_is_member)?;
    if request.group_id.is_some() {
        check_project_match(group_project, project_id, "Invalid group_id")?;
    }
    check_edge_endpoints(parent, child, project_id)?;
    let node = NewNode {
        id: new_node_id.clone(),
        project_id: project.id.clone(),
        node_type_id: request.node_type_id.clone(),
        status_id,
        title: request.title.clone(),
        description: clone_opt_string(&request.description),
        estimated_minutes: None,
        slot_id: clone_opt_string(&request.slot_id),
        parent_id: clone_opt_string(&request.group_id),
        assigned_user_id: clone_opt_string(&request.assigned_user_id),
    };
    let removed_edge = NewNodeEdge {
        parent_id: request.parent_id.clone(),
        child_id: request.child_id.clone(),
    };
    let first_edge = NewNodeEdge { parent_id: request.parent_id.clone(), child_id: new_node_id.clone() };
    let second_edge = NewNodeEdge { parent_id: new_node_id, child_id: request.child_id.clone() };
    Ok(InsertBetweenPlan { node, removed_edge, first_edge, second_edge })
}

/// Rewiring A -> B through a new node C (distinct from A and B) removes
/// A -> B, adds A -> C and C -> B, and keeps every other edge.
pub proof fn law_insert_between_rewires(
    edges: Set<(Seq<char>, Seq<char>)>,
    a: Seq<char>,
    b: Seq<char>,
    c: Seq<char>,
)
    requires
        a != b,
        c != a,
        c != b,
    ensures
        ({
            let after = edges.remove((a, b)).insert((a, c)).insert((c, b));
            &&& !after.contains((a, b))
            &&& after.contains((a, c))
            &&& after.contains((c, b))
            &&& forall|e: (Seq<char>, Seq<char>)|
                e != (a, b) && e != (a, c) && e != (c, b) ==> (after.contains(e) <==> edges.contains(e))
        }),
{
}

/// When A -> B was an edge and C is new, the rewiring adds exactly one edge.
pub proof fn law_insert_between_edge_count(
    edges: Set<(Seq<char>, Seq<char>)>,
    a: Seq<char>,
    b: Seq<char>,
    c: Seq<char>,
)
    requires
        edges.finite(),
        edges.contains((a, b)),
        !edges.contains((a, c)),
        !edges.contains((c, b)),
        a != b,
        c != a,
        c != b,
    ensures
        edges.remove((a, b)).insert((a, c)).insert((c, b)).len() == edges.len() + 1,
{
    let r = edges.remove((a, b));
    assert(!r.contains((a, c)));
    assert(!r.insert((a, c)).contains((c, b)));
}

/// A plan's edge writes are the rewiring of its request's edge through its new node.
pub proof fn law_plan_rewires(edges: Set<(Seq<char>, Seq<char>)>, p: InsertBetweenPlan)
    requires
        edge_key(p.first_edge).0 == edge_key(p.removed_edge).0,
        edge_key(p.first_edge).1 == edge_key(p.second_edge).0,
        edge_key(p.second_edge).1 == edge_key(p.removed_edge).1,
        edge_key(p.removed_edge).0 != edge_key(p.removed_edge).1,
        edge_key(p.first_edge).1 != edge_key(p.removed_edge).0,
        edge_key(p.first_edge).1 != edge_key(p.removed_edge).1,
    ensures
        !apply_edge_writes(edges, p).contains(edge_key(p.removed_edge)),
        apply_edge_writes(edges, p).contains(edge_key(p.first_edge)),
        apply_edge_writes(edges, p).contains(edge_key(p.second_edge)),
{
    law_insert_between_rewires(
        edges,
        edge_key(p.removed_edge).0,
        edge_key(p.removed_edge).1,
        edge_key(p.first_edge).1,
    );
}

/// The writes of an insertion, made in one transaction in this order.
#[derive(Debug, Clone, Copy, PartialEq, Eq, Structural)]
pub enum InsertWrite {
    Begin,
    InsertNode,
    DeleteEdge,
    InsertFirstEdge,
    InsertSecondEdge,
    Commit,
}

/// What follows a write of an insertion: the next write, the failure of the
/// write that failed (the transaction is then dropped uncommitted), or the
/// answer once the commit went through.
#[derive(Debug, Clone, Copy, PartialEq, Eq, Structural)]
pub enum InsertNext {
    Write(InsertWrite),
    Fail(InsertWrite),
    Done,
}

/// The write after `w`.
pub open spec fn insert_successor(w: InsertWrite) -> InsertNext {
    match w {
        InsertWrite::Begin => InsertNext::Write(InsertWrite::InsertNode),
        InsertWrite::InsertNode => InsertNext::Write(InsertWrite::DeleteEdge),
        InsertWrite::DeleteEdge => InsertNext::Write(InsertWrite::InsertFirstEdge),
        InsertWrite::InsertFirstEdge => InsertNext::Write(InsertWrite::InsertSecondEdge),
        InsertWrite::InsertSecondEdge => InsertNext::Write(InsertWrite::Commit),
        InsertWrite::Commit => InsertNext::Done,
    }
}

/// Decides what follows the write `w` of an insertion, given whether it succeeded.
pub fn insert_next(w: InsertWrite, ok: bool) -> (r: InsertNext)
    ensures
        ok ==> r == insert_successor(w),
        !ok ==> r == InsertNext::Fail(w),
{
    if !ok {
        return InsertNext::Fail(w);
    }
    match w {
        InsertWrite::Begin => InsertNext::Write(InsertWrite::InsertNode),
        InsertWrite::InsertNode => InsertNext::Write(InsertWrite::DeleteEdge),
        InsertWrite::DeleteEdge => InsertNext::Write(InsertWrite::InsertFirstEdge),
        InsertWrite::InsertFirstEdge => InsertNext::Write(InsertWrite::InsertSecondEdge),
        InsertWrite::InsertSecondEdge => InsertNext::Write(InsertWrite::Commit),
        InsertWrite::Commit => InsertNext::Done,
    }
}

/// Where an insertion ends when its writes, from `w` on, have the outcomes
/// `oks` in turn; `None` while writes remain.
pub open spec fn insert_run(w: InsertWrite, oks: Seq<bool>) -> Option<InsertNext>
    decreases oks.len(),
{
    if oks.len() == 0 {
        None
    } else {
        let next = if oks[0] {
            insert_successor(w)
        } else {
            InsertNext::Fail(w)
        };
        match next {
            InsertNext::Write(n) => insert_run(n, oks.drop_first()),
            _ => Some(next),
        }
    }
}

/// An insertion answers with the new node exactly when all six of its
/// writes (begin, insert the node, delete the old edge, insert the two new
/// edges, commit) succeeded; otherwise it stops at the first failed write,
/// without a successful commit, so no partial rewiring is kept.
pub proof fn law_insert_commits_all_or_nothing(oks: Seq<bool>)
    ensures
        insert_run(InsertWrite::Begin, oks) == Some(InsertNext::Done) <==> (oks.len() >= 6
            && oks[0] && oks[1] && oks[2] && oks[3] && oks[4] && oks[5]),
{
    reveal_with_fuel(insert_run, 7);
    let o1 = oks.drop_first();
    let o2 = o1.drop_first();
    let o3 = o2.drop_first();
    let o4 = o3.drop_first();
    let o5 = o4.drop_first();
    if oks.len() >= 2 {
        assert(o1[0] == oks[1]);
    }
    if oks.len() >= 3 {
        assert(o2[0] == oks[2]);
    }
    if oks.len() >= 4 {
        assert(o3[0] == oks[3]);
    }
    if oks.len() >= 5 {
        assert(o4[0] == oks[4]);
    }
    if oks.len() >= 6 {
        assert(o5[0] == oks[5]);
    }
}

/// An insertion is accepted only when every id it names checks out: the
/// node type and a named status exist, a named slot and a named group node
/// exist in this project, a named assignee is a member, and the edge is not
/// a self-loop. A valid request naming a slot of another project (or no
/// slot), with the earlier checks passing, is refused with "Invalid slot_id";
/// a valid request on a self-referential edge is refused as such.
pub proof fn law_insert_checks_named_ids(
    r: InsertBetweenRequest,
    lk: InsertBetweenLookups,
    project: Project,
    project_id: Seq<char>,
)
    ensures
        insert_check(r, lk, project, project_id) is Ok ==> {
            &&& insert_request_valid(r)
            &&& r.parent_id@ != r.child_id@
            &&& (lk.node_type_found matches Ok(true))
            &&& (r.status_id is Some ==> (lk.status_found matches Some(Ok(true))))
            &&& (r.slot_id is Some ==> (lk.slot_project matches Some(Ok(Some(p))) && p@ == project_id))
            &&& (r.group_id is Some ==> (lk.group_project matches Some(Ok(Some(g))) && g@ == project_id))
            &&& (r.assigned_user_id is Some ==> (lk.assignee_is_member matches Some(Ok(true))))
            &&& (lk.parent matches Ok(Some(a)) && a.project_id@ == project_id)
            &&& (lk.child matches Ok(Some(b)) && b.project_id@ == project_id)
        },
        insert_request_valid(r) && r.parent_id@ == r.child_id@ ==> insert_check(r, lk, project, project_id)
            == Err::<(), ErrorView>(ErrorView::Validation("Cannot insert between a self-referential edge"@)),
        ({
            &&& insert_request_valid(r)
            &&& r.parent_id@ != r.child_id@
            &&& (lk.node_type_found matches Ok(true))
            &&& (r.status_id is Some ==> (lk.status_found matches Some(Ok(true))))
            &&& r.slot_id is Some
            &&& !(lk.slot_project matches Some(Err(_)))
            &&& !(lk.slot_project matches Some(Ok(Some(p))) && p@ == project_id)
        }) ==> insert_check(r, lk, project, project_id) == Err::<(), ErrorView>(
            ErrorView::Validation("Invalid slot_id"@),
        ),
{
}

} // verus!
