//! Records exchanged with the control API.
use vstd::prelude::*;

verus! {

/// Snapshot of the table's heights, answered to an information request.
#[derive(Clone, Copy, Debug, PartialEq, Eq, Structural)]
pub struct TableInfo {
    pub target_height: Option<i32>,
    pub current_height: Option<i32>,
}

/// Body of a request for a new target height.
#[derive(Clone, Copy, Debug, PartialEq, Eq, Structural)]
pub struct ChangeHeightRequest {
    pub target_height: i32,
}

} // verus!
