use vstd::prelude::*;

pub mod error;
pub mod text;
pub mod sql;
pub mod time;
pub mod table;
pub mod assoc;
pub mod model;
pub mod mock;
pub mod bolt;
pub mod page;
pub mod password;
pub mod sort;

verus! {

} // verus!
