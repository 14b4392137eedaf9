//! The project graph API: nodes, edges and slots.
pub mod create_edge;
pub mod delete_edge;
pub mod delete_node;
pub mod get_graph;
pub mod get_node_types;
pub mod get_task_statuses;
pub mod helpers;
pub mod insert_between;
pub mod types;
pub mod update_node;
pub mod defaults;
pub mod get_project_members;
pub mod create_node;
pub mod nodes;
pub mod slots;
