use vstd::prelude::*;

pub mod batch;
pub mod columns;
pub mod config;
pub mod executor;
pub mod job;
pub mod lookup;
pub mod processed;
pub mod repair;
pub mod schedule;
pub mod seed;
pub mod select;
pub mod template;
pub mod text;
pub mod validate;

verus! {

} // verus!
