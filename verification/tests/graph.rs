use boardtask::db::node_edges::NodeEdge;
use boardtask::db::nodes::Node;
use boardtask::db::project_slots::ProjectSlot;
use boardtask::db::projects::Project;
use boardtask::domain::{OrganizationId, UserId};
use boardtask::error::AppError;
use boardtask::features::graph::create_edge::{find_created_edge, plan_create_edge, CreateEdgeRequest};
use boardtask::features::graph::create_node::{validate_create_node_request, CreateNodeRequest};
use boardtask::features::graph::defaults::system_node_types;
use boardtask::features::graph::delete_node::node_to_delete;
use boardtask::features::graph::helpers::{ensure_project_owned, DEFAULT_STATUS_ID};
use boardtask::features::graph::insert_between::{insert_next, plan_insert_between, InsertBetweenLookups, InsertBetweenRequest, InsertNext, InsertWrite};
use boardtask::features::graph::slots::{merge_slot_update, plan_create_slot, slot_in_project, CreateSlotRequest, UpdateSlotRequest};
use boardtask::features::graph::update_node::{merge_update, plan_update_node, UpdateNodeLookups, UpdateNodeRequest};

fn node(id: &str, project: &str) -> Node {
    Node {
        id: id.to_string(),
        project_id: project.to_string(),
        node_type_id: "type-task".to_string(),
        status_id: "status-todo".to_string(),
        title: "Old title".to_string(),
        description: Some("Old description".to_string()),
        created_at: 100,
        updated_at: None,
        estimated_minutes: Some(30),
        slot_id: Some("slot-1".to_string()),
        parent_id: None,
        assigned_user_id: None,
    }
}

fn project(org: &str) -> Project {
    Project {
        id: "p1".to_string(),
        title: "Project".to_string(),
        user_id: "u1".to_string(),
        created_at: 1,
        organization_id: org.to_string(),
        team_id: None,
        default_view_mode: "list".to_string(),
    }
}

fn empty_update() -> UpdateNodeRequest {
    UpdateNodeRequest {
        title: None,
        description: None,
        node_type_id: None,
        status_id: None,
        slot_id: None,
        parent_id: None,
        estimated_minutes: None,
    }
}

fn no_lookups() -> UpdateNodeLookups {
    UpdateNodeLookups { node_type_found: None, status_found: None, slot_project: None, parent_project: None }
}

fn message(e: AppError) -> String {
    e.into_response().message
}

#[test]
fn empty_update_keeps_every_field() {
    let n = node("n1", "p1");
    let c = merge_update(&n, &empty_update());
    assert_eq!(c.title, "Old title");
    assert_eq!(c.description.as_deref(), Some("Old description"));
    assert_eq!(c.estimated_minutes, Some(30));
    assert_eq!(c.slot_id.as_deref(), Some("slot-1"));
    assert_eq!(c.parent_id, None);
}

#[test]
fn update_fields_win_and_null_clears() {
    let n = node("n1", "p1");
    let mut r = empty_update();
    r.title = Some("New".to_string());
    r.slot_id = Some(None);
    r.estimated_minutes = Some(None);
    r.parent_id = Some(Some("n2".to_string()));
    let lookups = UpdateNodeLookups { parent_project: Some(Ok(Some("p1".to_string()))), ..no_lookups() };
    let c = plan_update_node(&n, "p1", &r, lookups).unwrap();
    assert_eq!(c.title, "New");
    assert_eq!(c.slot_id, None);
    assert_eq!(c.estimated_minutes, None);
    assert_eq!(c.parent_id.as_deref(), Some("n2"));
    assert_eq!(c.description.as_deref(), Some("Old description"));
}

#[test]
fn update_errors_come_in_order() {
    let n = node("n1", "p1");
    let mut r = empty_update();
    r.title = Some(String::new());
    assert_eq!(message(plan_update_node(&n, "p1", &r, no_lookups()).unwrap_err()), "Invalid input");
    let mut r = empty_update();
    r.estimated_minutes = Some(Some(-5));
    assert_eq!(message(plan_update_node(&n, "p1", &r, no_lookups()).unwrap_err()), "Invalid input");
    let mut r = empty_update();
    r.node_type_id = Some("nope".to_string());
    let lk = UpdateNodeLookups { node_type_found: Some(Ok(false)), ..no_lookups() };
    assert_eq!(message(plan_update_node(&n, "p1", &r, lk).unwrap_err()), "Invalid node_type_id");
    let mut r = empty_update();
    r.slot_id = Some(Some("s9".to_string()));
    let lk = UpdateNodeLookups { slot_project: Some(Ok(Some("other".to_string()))), ..no_lookups() };
    assert_eq!(message(plan_update_node(&n, "p1", &r, lk).unwrap_err()), "Invalid slot_id");
    let mut r = empty_update();
    r.parent_id = Some(Some("n1".to_string()));
    assert_eq!(message(plan_update_node(&n, "p1", &r, no_lookups()).unwrap_err()), "parent_id cannot be self");
    let mut r = empty_update();
    r.status_id = Some("s".to_string());
    let lk = UpdateNodeLookups { status_found: Some(Err(sqlx::Error::RowNotFound)), ..no_lookups() };
    let e = plan_update_node(&n, "p1", &r, lk).unwrap_err();
    assert!(matches!(e, AppError::Database(_)));
    assert_eq!(e.into_response().status, 500);
}

#[test]
fn update_twice_is_update_once() {
    let n = node("n1", "p1");
    let mut r = empty_update();
    r.title = Some("Twice".to_string());
    r.estimated_minutes = Some(Some(5));
    let c1 = merge_update(&n, &r);
    let mut n2 = n.clone();
    n2.title = c1.title.clone();
    n2.estimated_minutes = c1.estimated_minutes;
    let c2 = merge_update(&n2, &r);
    assert_eq!(c1.title, c2.title);
    assert_eq!(c1.estimated_minutes, c2.estimated_minutes);
}

fn insert_request() -> InsertBetweenRequest {
    InsertBetweenRequest {
        parent_id: "a".to_string(),
        child_id: "b".to_string(),
        node_type_id: "type-task".to_string(),
        title: "Middle".to_string(),
        description: None,
        status_id: None,
        slot_id: None,
        assigned_user_id: None,
        group_id: None,
    }
}

fn insert_lookups() -> InsertBetweenLookups {
    InsertBetweenLookups {
        node_type_found: Ok(true),
        status_found: None,
        slot_project: None,
        assignee_is_member: None,
        group_project: None,
        parent: Ok(Some(node("a", "p1"))),
        child: Ok(Some(node("b", "p1"))),
    }
}

#[test]
fn insert_between_rewires_through_the_new_node() {
    let org = OrganizationId::new().as_str();
    let plan = plan_insert_between(&project(&org), "p1", &insert_request(), insert_lookups(), "c".to_string()).unwrap();
    assert_eq!(plan.node.id, "c");
    assert_eq!(plan.node.status_id, DEFAULT_STATUS_ID);
    assert_eq!((plan.removed_edge.parent_id.as_str(), plan.removed_edge.child_id.as_str()), ("a", "b"));
    assert_eq!((plan.first_edge.parent_id.as_str(), plan.first_edge.child_id.as_str()), ("a", "c"));
    assert_eq!((plan.second_edge.parent_id.as_str(), plan.second_edge.child_id.as_str()), ("c", "b"));
}

#[test]
fn insert_between_refusals() {
    let org = OrganizationId::new().as_str();
    let p = project(&org);
    let mut r = insert_request();
    r.child_id = "a".to_string();
    assert_eq!(message(plan_insert_between(&p, "p1", &r, insert_lookups(), "c".into()).unwrap_err()), "Cannot insert between a self-referential edge");
    let mut r = insert_request();
    r.assigned_user_id = Some("not-a-ulid".to_string());
    assert_eq!(message(plan_insert_between(&p, "p1", &r, insert_lookups(), "c".into()).unwrap_err()), "Invalid assigned_user_id");
    let mut r = insert_request();
    r.assigned_user_id = Some(UserId::new().as_str());
    let lk = InsertBetweenLookups { assignee_is_member: Some(Ok(false)), ..insert_lookups() };
    assert_eq!(message(plan_insert_between(&p, "p1", &r, lk, "c".into()).unwrap_err()), "User is not a member of this organization");
    let lk = InsertBetweenLookups { child: Ok(Some(node("b", "elsewhere"))), ..insert_lookups() };
    let e = plan_insert_between(&p, "p1", &insert_request(), lk, "c".into()).unwrap_err();
    assert_eq!(e.into_response().status, 404);
    let lk = InsertBetweenLookups { parent: Ok(None), ..insert_lookups() };
    assert_eq!(message(plan_insert_between(&p, "p1", &insert_request(), lk, "c".into()).unwrap_err()), "Parent node not found");
    let mut r = insert_request();
    r.group_id = Some("g".to_string());
    let lk = InsertBetweenLookups { group_project: Some(Ok(None)), ..insert_lookups() };
    assert_eq!(message(plan_insert_between(&p, "p1", &r, lk, "c".into()).unwrap_err()), "Invalid group_id");
}

#[test]
fn create_edge_checks_in_order() {
    let req = CreateEdgeRequest { parent_id: "a".into(), child_id: "a".into() };
    let e = plan_create_edge(&req, Ok(Some(node("a", "p1"))), Ok(Some(node("a", "p1"))), "p1").unwrap_err();
    assert_eq!(message(e), "Cannot create edge from node to itself");
    let req = CreateEdgeRequest { parent_id: "a".into(), child_id: "b".into() };
    let e = plan_create_edge(&req, Ok(Some(node("a", "p2"))), Ok(None), "p1").unwrap_err();
    assert_eq!(message(e), "Child node not found");
    let edge = plan_create_edge(&req, Ok(Some(node("a", "p1"))), Ok(Some(node("b", "p1"))), "p1").unwrap();
    assert_eq!((edge.parent_id.as_str(), edge.child_id.as_str()), ("a", "b"));
}

#[test]
fn created_edge_is_found_among_the_project_edges() {
    let edges = vec![
        NodeEdge { parent_id: "x".into(), child_id: "y".into(), created_at: 1 },
        NodeEdge { parent_id: "a".into(), child_id: "b".into(), created_at: 2 },
    ];
    let r = find_created_edge(edges, "a", "b").unwrap();
    assert_eq!(r.created_at, 2);
    assert!(matches!(find_created_edge(vec![], "a", "b"), Err(AppError::Internal)));
}

#[test]
fn create_node_defaults_its_status() {
    let req = CreateNodeRequest { node_type_id: "t".into(), title: "T".into(), description: None, status_id: None, estimated_minutes: None };
    let (t, s) = validate_create_node_request(&req, Ok(true), None).unwrap();
    assert_eq!((t.as_str(), s.as_str()), ("t", DEFAULT_STATUS_ID));
    let req = CreateNodeRequest { status_id: Some("st".into()), ..req };
    assert_eq!(message(validate_create_node_request(&req, Ok(true), Some(Ok(false))).unwrap_err()), "Invalid status_id");
    assert_eq!(message(validate_create_node_request(&req, Ok(false), Some(Ok(true))).unwrap_err()), "Invalid node_type_id");
}

#[test]
fn project_ownership() {
    let org = "org-1";
    assert!(ensure_project_owned(Ok(Some(project(org))), "u1", org).is_ok());
    assert_eq!(message(ensure_project_owned(Ok(Some(project(org))), "u2", org).unwrap_err()), "Project not found");
    assert_eq!(message(ensure_project_owned(Ok(Some(project(org))), "u1", "org-2").unwrap_err()), "Project not found");
    assert_eq!(message(ensure_project_owned(Ok(None), "u1", org).unwrap_err()), "Project not found");
    assert_eq!(project(org).default_view_mode(), boardtask::domain::ProjectViewMode::List);
    let mut p = project(org);
    p.default_view_mode = "weird".into();
    assert_eq!(p.default_view_mode(), boardtask::domain::ProjectViewMode::Graph);
}

#[test]
fn deleting_a_node_of_another_project_is_not_found() {
    assert_eq!(node_to_delete(Ok(Some(node("n1", "p1"))), "p1").unwrap(), "n1");
    assert_eq!(message(node_to_delete(Ok(Some(node("n1", "p2"))), "p1").unwrap_err()), "Node not found");
}

fn slot(name: &str) -> ProjectSlot {
    ProjectSlot { id: format!("id-{name}"), project_id: "p1".into(), name: name.into(), sort_order: 3, created_at: 0 }
}

#[test]
fn slot_names_stay_unique() {
    let existing = vec![slot("Backlog"), slot("Doing")];
    let req = CreateSlotRequest { name: "Doing".into(), sort_order: None };
    assert_eq!(message(plan_create_slot(&req, &existing, "p1", "s3".into()).unwrap_err()), "Duplicate slot name");
    let req = CreateSlotRequest { name: "Done".into(), sort_order: None };
    let s = plan_create_slot(&req, &existing, "p1", "s3".into()).unwrap();
    assert_eq!((s.name.as_str(), s.sort_order), ("Done", 0));
    let req = CreateSlotRequest { name: String::new(), sort_order: Some(1) };
    assert_eq!(message(plan_create_slot(&req, &existing, "p1", "s3".into()).unwrap_err()), "Invalid input");
}

#[test]
fn slot_update_and_lookup() {
    let s = slot_in_project(Ok(Some(slot("A"))), "p1").unwrap();
    let (name, order) = merge_slot_update(&s, &UpdateSlotRequest { name: None, sort_order: Some(9) });
    assert_eq!((name.as_str(), order), ("A", 9));
    assert_eq!(message(slot_in_project(Ok(Some(slot("A"))), "p2").unwrap_err()), "Slot not found");
    assert!(UpdateSlotRequest { name: Some(String::new()), sort_order: None }.validate().is_err());
}

#[test]
fn system_node_types_are_six() {
    let types = system_node_types();
    assert_eq!(types.len(), 6);
    assert_eq!(types[0].name, "Task");
    assert_eq!(types[3].id, "01JNODETYPE00000000MILESTON");
    assert!(types.iter().all(|t| t.user_id.is_none()));
}

#[test]
fn insertion_writes_run_in_order_and_stop_at_a_failure() {
    assert_eq!(insert_next(InsertWrite::Begin, true), InsertNext::Write(InsertWrite::InsertNode));
    assert_eq!(insert_next(InsertWrite::InsertNode, true), InsertNext::Write(InsertWrite::DeleteEdge));
    assert_eq!(insert_next(InsertWrite::DeleteEdge, true), InsertNext::Write(InsertWrite::InsertFirstEdge));
    assert_eq!(insert_next(InsertWrite::InsertFirstEdge, true), InsertNext::Write(InsertWrite::InsertSecondEdge));
    assert_eq!(insert_next(InsertWrite::InsertSecondEdge, true), InsertNext::Write(InsertWrite::Commit));
    assert_eq!(insert_next(InsertWrite::Commit, true), InsertNext::Done);
    assert_eq!(insert_next(InsertWrite::DeleteEdge, false), InsertNext::Fail(InsertWrite::DeleteEdge));
}
