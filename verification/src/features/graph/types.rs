//! Path parameters shared by the node endpoints.
use vstd::prelude::*;

verus! {

/// Path parameters for node endpoints with an id.
#[derive(Debug, Clone)]
pub struct NodePathParams {
    pub project_id: String,
    pub id: String,
}

} // verus!
