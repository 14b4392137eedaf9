//! The system node types that every installation has.
use vstd::prelude::*;
use crate::db::node_types::NewNodeType;
use crate::text::string_of;

verus! {

/// The system node type defaults, as (id, name, color).
pub open spec fn system_node_type_rows() -> Seq<(Seq<char>, Seq<char>, Seq<char>)> {
    seq![
        ("01JNODETYPE00000000TASK000"@, "Task"@, "#3B82F6"@),
        ("01JNODETYPE00000000BUG0000"@, "Bug"@, "#EF4444"@),
        ("01JNODETYPE00000000EPIC000"@, "Epic"@, "#8B5CF6"@),
        ("01JNODETYPE00000000MILESTON"@, "Milestone"@, "#F59E0B"@),
        ("01JNODETYPE00000000SPIKE00"@, "Spike"@, "#10B981"@),
        ("01JNODETYPE00000000STORY00"@, "Story"@, "#06B6D4"@),
    ]
}

fn system_type(id: &str, name: &str, color: &str) -> (t: NewNodeType)
    ensures
        t.id@ == id@,
        t.name@ == name@,
        t.color@ == color@,
        t.user_id is None,
{
    NewNodeType { id: string_of(id), user_id: None, name: string_of(name), color: string_of(color) }
}

/// The system node types to make sure of at startup (they belong to no user).
pub fn system_node_types() -> (v: Vec<NewNodeType>)
    ensures
        v@.len() == system_node_type_rows().len(),
        forall|i: int|
            0 <= i < v@.len() ==> (#[trigger] v@[i]).user_id is None && (v@[i].id@, v@[i].name@,
                v@[i].color@) == system_node_type_rows()[i],
{
    let mut v: Vec<NewNodeType> = Vec::new();
    v.push(system_type("01JNODETYPE00000000TASK000", "Task", "#3B82F6"));
    v.push(system_type("01JNODETYPE00000000BUG0000", "Bug", "#EF4444"));
    v.push(system_type("01JNODETYPE00000000EPIC000", "Epic", "#8B5CF6"));
    v.push(system_type("01JNODETYPE00000000MILESTON", "Milestone", "#F59E0B"));
    v.push(system_type("01JNODETYPE00000000SPIKE00", "Spike", "#10B981"));
    v.push(system_type("01JNODETYPE00000000STORY00", "Story", "#06B6D4"));
    v
}

} // verus!
