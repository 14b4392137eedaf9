//! Partial update of a node: merging the request into the stored node and
//! checking the ids it names.
use vstd::prelude::*;
use crate::db::nodes::Node;
use crate::error::{result_view, AppError, ErrorView};
use crate::features::graph::helpers::{estimated_minutes_ok, validate_estimated_minutes};
use crate::features::validation::{has_length_between, length_between, InvalidInput};
use crate::text::{clone_opt_string, str_eq};

verus! {

/// Request body for updating a node. A field left out keeps its value; for
/// `slot_id`, `parent_id` and `estimated_minutes`, `Some(None)` clears it.
#[derive(Debug, Clone)]
pub struct UpdateNodeRequest {
    pub title: Option<String>,
    pub description: Option<String>,
    pub node_type_id: Option<String>,
    pub status_id: Option<String>,
    pub slot_id: Option<Option<String>>,
    pub parent_id: Option<Option<String>>,
    pub estimated_minutes: Option<Option<i64>>,
}

/// Response for an updated node.
#[derive(Debug, Clone)]
pub struct NodeResponse {
    pub id: String,
    pub project_id: String,
    pub node_type_id: String,
    pub status_id: String,
    pub title: String,
    pub description: Option<String>,
    pub created_at: i64,
    pub updated_at: Option<i64>,
    pub estimated_minutes: Option<i64>,
    pub slot_id: Option<String>,
    pub parent_id: Option<String>,
}

/// The values a node is updated to.
#[derive(Debug, Clone)]
pub struct NodeChanges {
    pub title: String,
    pub description: Option<String>,
    pub node_type_id: String,
    pub status_id: String,
    pub estimated_minutes: Option<i64>,
    pub slot_id: Option<String>,
    pub parent_id: Option<String>,
}

/// The field rules of an update: a title has 1 to 255 characters, a
/// description at most 2000, and an estimate is not negative.
pub open spec fn update_request_valid(r: UpdateNodeRequest) -> bool {
    &&& (r.title matches Some(t) ==> length_between(t@, 1, 255))
    &&& (r.description matches Some(d) ==> length_between(d@, 0, 2000))
    &&& (r.estimated_minutes matches Some(Some(v)) ==> estimated_minutes_ok(v))
}

impl UpdateNodeRequest {
    /// Checks the field rules.
    pub fn validate(&self) -> (r: Result<(), InvalidInput>)
        ensures
            r is Ok <==> update_request_valid(*self),
    {
        match &self.title {
            Some(t) => if !has_length_between(t.as_str(), 1, 255) {
                return Err(InvalidInput);
            },
            None => {},
        }
        match &self.description {
            Some(d) => if !has_length_between(d.as_str(), 0, 2000) {
                return Err(InvalidInput);
            },
            None => {},
        }
        match &self.estimated_minutes {
            Some(Some(v)) => if !validate_estimated_minutes(*v) {
                return Err(InvalidInput);
            },
            _ => {},
        }
        Ok(())
    }
}

/// The values after merging a request into a node: each field the request
/// gives wins. A description can be replaced but not cleared.
pub open spec fn merged_changes(node: Node, r: UpdateNodeRequest) -> NodeChanges {
    NodeChanges {
        title: match r.title {
            Some(t) => t,
            None => node.title,
        },
        description: match r.description {
            Some(d) => Some(d),
            None => node.description,
        },
        node_type_id: match r.node_type_id {
            Some(t) => t,
            None => node.node_type_id,
        },
        status_id: match r.status_id {
            Some(s) => s,
            None => node.status_id,
        },
        estimated_minutes: match r.estimated_minutes {
            Some(e) => e,
            None => node.estimated_minutes,
        },
        slot_id: match r.slot_id {
            Some(s) => s,
            None => node.slot_id,
        },
        parent_id: match r.parent_id {
            Some(p) => p,
            None => node.parent_id,
        },
    }
}

/// The node's current values, as changes.
pub open spec fn changes_of(node: Node) -> NodeChanges {
    NodeChanges {
        title: node.title,
        description: node.description,
        node_type_id: node.node_type_id,
        status_id: node.status_id,
        estimated_minutes: node.estimated_minutes,
        slot_id: node.slot_id,
        parent_id: node.parent_id,
    }
}

/// The node once the changes are written.
pub open spec fn apply_changes(node: Node, c: NodeChanges) -> Node {
    Node {
        title: c.title,
        description: c.description,
        node_type_id: c.node_type_id,
        status_id: c.status_id,
        estimated_minutes: c.estimated_minutes,
        slot_id: c.slot_id,
        parent_id: c.parent_id,
        ..node
    }
}

/// Merges a request into a node.
pub fn merge_update(node: &Node, r: &UpdateNodeRequest) -> (c: NodeChanges)
    ensures
        c == merged_changes(*node, *r),
{
    let title = match &r.title {
        Some(t) => t.clone(),
        None => node.title.clone(),
    };
    let description = match &r.description {
        Some(d) => Some(d.clone()),
        None => clone_opt_string(&node.description),
    };
    let node_type_id = match &r.node_type_id {
        Some(t) => t.clone(),
        None => node.node_type_id.clone(),
    };
    let status_id = match &r.status_id {
        Some(s) => s.clone(),
        None => node.status_id.clone(),
    };
    let estimated_minutes = match r.estimated_minutes {
        Some(e) => e,
        None => node.estimated_minutes,
    };
    let slot_id = match &r.slot_id {
        Some(s) => clone_opt_string(s),
        None => clone_opt_string(&node.slot_id),
    };
    let parent_id = match &r.parent_id {
        Some(p) => clone_opt_string(p),
        None => clone_opt_string(&node.parent_id),
    };
    NodeChanges { title, description, node_type_id, status_id, estimated_minutes, slot_id, parent_id }
}

/// What the database answered for the ids an update names, each looked up
/// only when the request names it: whether the node type and the status
/// exist, and the project of the slot and of the new parent, if they exist.
pub struct UpdateNodeLookups {
    pub node_type_found: Option<Result<bool, sqlx::Error>>,
    pub status_found: Option<Result<bool, sqlx::Error>>,
    pub slot_project: Option<Result<Option<String>, sqlx::Error>>,
    pub parent_project: Option<Result<Option<String>, sqlx::Error>>,
}

/// The first failure of two checks made in turn.
pub open spec fn first_err(a: Result<(), ErrorView>, b: Result<(), ErrorView>) -> Result<(), ErrorView> {
    match a {
        Err(e) => Err(e),
        Ok(_) => b,
    }
}

/// The outcome of an existence lookup: a database failure, or `msg` when
/// the record does not exist (or was not looked up).
pub open spec fn found_check(l: Option<Result<bool, sqlx::Error>>, msg: Seq<char>) -> Result<(), ErrorView> {
    match l {
        Some(Err(_)) => Err(ErrorView::Database),
        Some(Ok(true)) => Ok(()),
        _ => Err(ErrorView::Validation(msg)),
    }
}

/// The outcome of looking up the project of a record: a database failure,
/// or `msg` when the record does not exist or belongs to another project.
pub open spec fn project_match_check(
    l: Option<Result<Option<String>, sqlx::Error>>,
    project_id: Seq<char>,
    msg: Seq<char>,
) -> Result<(), ErrorView> {
    match l {
        Some(Err(_)) => Err(ErrorView::Database),
        Some(Ok(Some(p))) => if p@ == project_id {
            Ok(())
        } else {
            Err(ErrorView::Validation(msg))
        },
        _ => Err(ErrorView::Validation(msg)),
    }
}

/// The outcome of checking an update of node `node_id` in project `project_id`.
pub open spec fn update_check(
    r: UpdateNodeRequest,
    lk: UpdateNodeLookups,
    project_id: Seq<char>,
    node_id: Seq<char>,
) -> Result<(), ErrorView> {
    if !update_request_valid(r) {
        Err(ErrorView::Validation("Invalid input"@))
    } else {
        first_err(
            if r.node_type_id is Some {
                found_check(lk.node_type_found, "Invalid node_type_id"@)
            } else {
                Ok(())
            },
            first_err(
                if r.status_id is Some {
                    found_check(lk.status_found, "Invalid status_id"@)
                } else {
                    Ok(())
                },
                first_err(
                    match r.slot_id {
                        Some(Some(_)) => project_match_check(lk.slot_project, project_id, "Invalid slot_id"@),
                        _ => Ok(()),
                    },
                    match r.parent_id {
                        Some(Some(p)) => if p@ == node_id {
                            Err(ErrorView::Validation("parent_id cannot be self"@))
                        } else {
                            project_match_check(lk.parent_project, project_id, "Invalid parent_id"@)
                        },
                        _ => Ok(()),
                    },
                ),
            ),
        )
    }
}

/// Checks an existence lookup.
pub fn check_found(l: Option<Result<bool, sqlx::Error>>, msg: &str) -> (r: Result<(), AppError>)
    ensures
        result_view(r) == found_check(l, msg@),
{
    match l {
        Some(Err(e)) => Err(AppError::Database(e)),
        Some(Ok(true)) => Ok(()),
        _ => Err(AppError::validation(msg)),
    }
}

/// Checks the project of a looked-up record.
pub fn check_project_match(
    l: Option<Result<Option<String>, sqlx::Error>>,
    project_id: &str,
    msg: &str,
) -> (r: Result<(), AppError>)
    ensures
        result_view(r) == project_match_check(l, project_id@, msg@),
{
    match l {
        Some(Err(e)) => Err(AppError::Database(e)),
        Some(Ok(Some(p))) => {
            if str_eq(p.as_str(), project_id) {
                Ok(())
            } else {
                Err(AppError::validation(msg))
            }
        },
        _ => Err(AppError::validation(msg)),
    }
}

/// Checks an update: the field rules, then each id the request names.
pub fn validate_update_node_request(
    request: &UpdateNodeRequest,
    lookups: UpdateNodeLookups,
    project_id: &str,
    node_id: &str,
) -> (r: Result<(), AppError>)
    ensures
        result_view(r) == update_check(*request, lookups, project_id@, node_id@),
{
    if request.validate().is_err() {
        return Err(AppError::validation("Invalid input"));
    }
    let UpdateNodeLookups { node_type_found, status_found, slot_project, parent_project } = lookups;
    if request.node_type_id.is_some() {
        check_found(node_type_found, "Invalid node_type_id")?;
    }
    if request.status_id.is_some() {
        check_found(status_found, "Invalid status_id")?;
    }
    match &request.slot_id {
        Some(Some(_)) => {
            check_project_match(slot_project, project_id, "Invalid slot_id")?;
        },
        _ => {},
    }
    match &request.parent_id {
        Some(Some(pid)) => {
            if str_eq(pid.as_str(), node_id) {
                return Err(AppError::validation("parent_id cannot be self"));
            }
            check_project_match(parent_project, project_id, "Invalid parent_id")?;
        },
        _ => {},
    }
    Ok(())
}

/// Decides an update of a node already found in the project: the checks,
/// then the merged values to write.
pub fn plan_update_node(
    node: &Node,
    project_id: &str,
    request: &UpdateNodeRequest,
    lookups: UpdateNodeLookups,
) -> (r: Result<NodeChanges, AppError>)
    ensures
        update_check(*request, lookups, project_id@, node.id@) is Ok ==> r == Ok::<
            NodeChanges,
            AppError,
        >(merged_changes(*node, *request)),
        update_check(*request, lookups, project_id@, node.id@) matches Err(e) ==> (r matches Err(
            x,
        ) && x@ == e),
{
    validate_update_node_request(request, lookups, project_id, node.id.as_str())?;
    Ok(merge_update(node, request))
}

impl NodeResponse {
    /// The response for a stored node.
    pub fn from_node(node: Node) -> (r: NodeResponse)
        ensures
            r.id == node.id,
            r.project_id == node.project_id,
            r.node_type_id == node.node_type_id,
            r.status_id == node.status_id,
            r.title == node.title,
            r.description == node.description,
            r.created_at == node.created_at,
            r.updated_at == node.updated_at,
            r.estimated_minutes == node.estimated_minutes,
            r.slot_id == node.slot_id,
            r.parent_id == node.parent_id,
    {
        NodeResponse {
            id: node.id,
            project_id: node.project_id,
            node_type_id: node.node_type_id,
            status_id: node.status_id,
            title: node.title,
            description: node.description,
            created_at: node.created_at,
            updated_at: node.updated_at,
            estimated_minutes: node.estimated_minutes,
            slot_id: node.slot_id,
            parent_id: node.parent_id,
        }
    }
}

/// A request that gives no field leaves the node as it is.
pub proof fn law_empty_update_keeps_node(node: Node, r: UpdateNodeRequest)
    requires
        r.title is None,
        r.description is None,
        r.node_type_id is None,
        r.status_id is None,
        r.slot_id is None,
        r.parent_id is None,
        r.estimated_minutes is None,
    ensures
        merged_changes(node, r) == changes_of(node),
        apply_changes(node, merged_changes(node, r)) == node,
{
}

/// Applying the same update twice gives what applying it once gives.
pub proof fn law_update_idempotent(node: Node, r: UpdateNodeRequest)
    ensures
        merged_changes(apply_changes(node, merged_changes(node, r)), r) == merged_changes(node, r),
        apply_changes(apply_changes(node, merged_changes(node, r)), merged_changes(
            apply_changes(node, merged_changes(node, r)),
            r,
        )) == apply_changes(node, merged_changes(node, r)),
{
}

/// An update never clears a description; it only replaces it.
pub proof fn law_update_keeps_description(node: Node, r: UpdateNodeRequest)
    requires
        node.description is Some,
    ensures
        merged_changes(node, r).description is Some,
{
}

/// A partial update takes each field the request gives and keeps each field
/// it omits; for the nullable slot, parent and estimate a given `null`
/// clears the field.
pub proof fn law_merge_given_fields_win(node: Node, r: UpdateNodeRequest)
    ensures
        r.title matches Some(t) ==> merged_changes(node, r).title == t,
        r.title is None ==> merged_changes(node, r).title == node.title,
        r.description matches Some(d) ==> merged_changes(node, r).description == Some(d),
        r.description is None ==> merged_changes(node, r).description == node.description,
        r.node_type_id matches Some(t) ==> merged_changes(node, r).node_type_id == t,
        r.node_type_id is None ==> merged_changes(node, r).node_type_id == node.node_type_id,
        r.status_id matches Some(s) ==> merged_changes(node, r).status_id == s,
        r.status_id is None ==> merged_changes(node, r).status_id == node.status_id,
        r.slot_id matches Some(s) ==> merged_changes(node, r).slot_id == s,
        r.slot_id is None ==> merged_changes(node, r).slot_id == node.slot_id,
        r.slot_id == Some(None::<String>) ==> merged_changes(node, r).slot_id is None,
        r.parent_id matches Some(p) ==> merged_changes(node, r).parent_id == p,
        r.parent_id is None ==> merged_changes(node, r).parent_id == node.parent_id,
        r.parent_id == Some(None::<String>) ==> merged_changes(node, r).parent_id is None,
        r.estimated_minutes matches Some(e) ==> merged_changes(node, r).estimated_minutes == e,
        r.estimated_minutes is None ==> merged_changes(node, r).estimated_minutes
            == node.estimated_minutes,
        r.estimated_minutes == Some(None::<i64>) ==> merged_changes(node, r).estimated_minutes is None,
{
}

} // verus!
