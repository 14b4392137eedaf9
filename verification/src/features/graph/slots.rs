//! Slots of a project: named swimlanes with a sort order.
use vstd::prelude::*;
use crate::db::project_slots::{NewProjectSlot, ProjectSlot};
use crate::error::{result_view, AppError, ErrorView};
use crate::features::validation::{has_length_between, length_between, InvalidInput};
use crate::text::str_eq;

verus! {

/// Path parameters for slot endpoints with an id.
#[derive(Debug, Clone)]
pub struct SlotPathParams {
    pub project_id: String,
    pub id: String,
}

/// Response for listing slots.
#[derive(Debug, Clone)]
pub struct SlotsResponse {
    pub slots: Vec<ProjectSlot>,
}

/// Request body for creating a slot.
#[derive(Debug, Clone)]
pub struct CreateSlotRequest {
    pub name: String,
    pub sort_order: Option<i64>,
}

/// Request body for updating a slot.
#[derive(Debug, Clone)]
pub struct UpdateSlotRequest {
    pub name: Option<String>,
    pub sort_order: Option<i64>,
}

impl CreateSlotRequest {
    /// Checks the field rules: a name of 1 to 255 characters.
    pub fn validate(&self) -> (r: Result<(), InvalidInput>)
        ensures
            r is Ok <==> length_between(self.name@, 1, 255),
    {
        if has_length_between(self.name.as_str(), 1, 255) {
            Ok(())
        } else {
            Err(InvalidInput)
        }
    }
}

impl UpdateSlotRequest {
    /// Checks the field rules: a new name has 1 to 255 characters.
    pub fn validate(&self) -> (r: Result<(), InvalidInput>)
        ensures
            r is Ok <==> (self.name matches Some(n) ==> length_between(n@, 1, 255)),
    {
        match &self.name {
            Some(n) => if has_length_between(n.as_str(), 1, 255) {
                Ok(())
            } else {
                Err(InvalidInput)
            },
            None => Ok(()),
        }
    }
}

/// Whether a slot among `slots` is named `name`.
pub open spec fn name_taken(slots: Seq<ProjectSlot>, name: Seq<char>) -> bool {
    exists|i: int| 0 <= i < slots.len() && (#[trigger] slots[i]).name@ == name
}

/// Whether the names of `names` are pairwise different.
pub open spec fn names_unique(names: Seq<Seq<char>>) -> bool {
    forall|i: int, j: int| 0 <= i < j < names.len() ==> names[i] != names[j]
}

/// The names of the slots.
pub open spec fn slot_names(slots: Seq<ProjectSlot>) -> Seq<Seq<char>> {
    slots.map_values(|s: ProjectSlot| s.name@)
}

/// Whether one of the slots already has the name.
pub fn has_slot_named(slots: &Vec<ProjectSlot>, name: &str) -> (b: bool)
    ensures
        b == name_taken(slots@, name@),
{
    let mut i: usize = 0;
    while i < slots.len()
        invariant
            i <= slots@.len(),
            forall|j: int| 0 <= j < i ==> (#[trigger] slots@[j]).name@ != name@,
        decreases slots@.len() - i,
    {
        if str_eq(slots[i].name.as_str(), name) {
            assert(slots@[i as int].name@ == name@);
            return true;
        }
        i = i + 1;
    }
    false
}

/// The outcome of creating a slot beside the project's existing slots.
pub open spec fn create_slot_check(r: CreateSlotRequest, existing: Seq<ProjectSlot>) -> Result<
    (),
    ErrorView,
> {
    if !length_between(r.name@, 1, 255) {
        Err(ErrorView::Validation("Invalid input"@))
    } else if name_taken(existing, r.name@) {
        Err(ErrorView::Validation("Duplicate slot name"@))
    } else {
        Ok(())
    }
}

/// Decides a new slot of project `project_id` (id `new_id`): a valid name
/// that no existing slot has; the sort order defaults to 0.
pub fn plan_create_slot(
    request: &CreateSlotRequest,
    existing: &Vec<ProjectSlot>,
    project_id: &str,
    new_id: String,
) -> (r: Result<NewProjectSlot, AppError>)
    ensures
        create_slot_check(*request, existing@) matches Err(e) ==> (r matches Err(x) && x@ == e),
        create_slot_check(*request, existing@) is Ok ==> (r matches Ok(s) && s.id == new_id
            && s.project_id@ == project_id@ && s.name == request.name && s.sort_order == (
        match request.sort_order {
            Some(o) => o,
            None => 0,
        })),
{
    if request.validate().is_err() {
        return Err(AppError::validation("Invalid input"));
    }
    if has_slot_named(existing, request.name.as_str()) {
        return Err(AppError::validation("Duplicate slot name"));
    }
    let sort_order = match request.sort_order {
        Some(o) => o,
        None => 0,
    };
    Ok(
        NewProjectSlot {
            id: new_id,
            project_id: crate::text::string_of(project_id),
            name: request.name.clone(),
            sort_order,
        },
    )
}

/// The outcome of checking that a looked-up slot exists in the project.
pub open spec fn slot_in_project_check(
    lookup: Result<Option<ProjectSlot>, sqlx::Error>,
    project_id: Seq<char>,
) -> Result<ProjectSlot, ErrorView> {
    match lookup {
        Err(_) => Err(ErrorView::Database),
        Ok(None) => Err(ErrorView::NotFound("Slot not found"@)),
        Ok(Some(s)) => if s.project_id@ == project_id {
            Ok(s)
        } else {
            Err(ErrorView::NotFound("Slot not found"@))
        },
    }
}

/// Checks that a looked-up slot exists in the project.
pub fn slot_in_project(lookup: Result<Option<ProjectSlot>, sqlx::Error>, project_id: &str) -> (r:
    Result<ProjectSlot, AppError>)
    ensures
        result_view(r) == slot_in_project_check(lookup, project_id@),
{
    match lookup {
        Err(e) => Err(AppError::Database(e)),
        Ok(None) => Err(AppError::not_found("Slot not found")),
        Ok(Some(s)) => {
            if str_eq(s.project_id.as_str(), project_id) {
                Ok(s)
            } else {
                Err(AppError::not_found("Slot not found"))
            }
        },
    }
}

/// The name and sort order a slot is updated to: each given field wins.
pub fn merge_slot_update(slot: &ProjectSlot, request: &UpdateSlotRequest) -> (r: (String, i64))
    ensures
        r.0 == (match request.name {
            Some(n) => n,
            None => slot.name,
        }),
        r.1 == (match request.sort_order {
            Some(o) => o,
            None => slot.sort_order,
        }),
{
    let name = match &request.name {
        Some(n) => n.clone(),
        None => slot.name.clone(),
    };
    let sort_order = match request.sort_order {
        Some(o) => o,
        None => slot.sort_order,
    };
    (name, sort_order)
}

/// Creating a slot keeps the names of a project's slots pairwise different:
/// a name that the checks accept is new.
pub proof fn law_create_slot_keeps_names_unique(
    existing: Seq<ProjectSlot>,
    r: CreateSlotRequest,
)
    requires
        names_unique(slot_names(existing)),
        create_slot_check(r, existing) is Ok,
    ensures
        names_unique(slot_names(existing).push(r.name@)),
{
    let names = slot_names(existing);
    let after = names.push(r.name@);
    assert forall|i: int, j: int| 0 <= i < j < after.len() implies after[i] != after[j] by {
        if j == names.len() {
            assert(existing[i].name@ == names[i]);
            if after[i] == after[j] {
                assert(name_taken(existing, r.name@));
            }
        }
    }
}

} // verus!
