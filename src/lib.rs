use vstd::prelude::*;

pub mod text;
pub mod phone;
pub mod migration;
pub mod session;
pub mod restore;
pub mod sync;
pub mod api;

verus! {

} // verus!
