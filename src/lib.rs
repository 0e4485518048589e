use vstd::prelude::*;

pub mod editor;
pub mod event;
pub mod keyboard;
pub mod row;

verus! {

} // verus!
