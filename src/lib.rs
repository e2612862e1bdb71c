//! The verified core of a membership site for a "run every town" challenge:
//! a page-and-filter query engine, the checks on what members submit, and the
//! readers of the race spreadsheet and the completion form.
use vstd::prelude::*;

pub mod calendar;
pub mod distance;
pub mod form;
pub mod number;
pub mod pagination;
pub mod search;
pub mod sheet;
pub mod site;
pub mod text;
pub mod town;
pub mod user;

verus! {

} // verus!
