//! The views of the terminal front end.

use vstd::prelude::*;

verus! {

/// The view on screen.
#[derive(Debug, Clone, PartialEq)]
pub enum View {
    Dashboard,
    ManagerDetail(String),
    PackageDetail(String),
}

/// The view to go back to when a detail view closes: the one it was opened
/// from, or the dashboard.
pub fn close_detail_view(last_view: Option<View>) -> (r: View)
    ensures
        r == match last_view {
            Some(v) => v,
            None => View::Dashboard,
        },
{
    match last_view {
        Some(v) => v,
        None => View::Dashboard,
    }
}

} // verus!
