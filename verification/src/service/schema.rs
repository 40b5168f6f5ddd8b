//! Types of the database schema.

use vstd::prelude::*;

verus! {

/// The database type of a conversion result.
#[derive(Debug, Clone, Copy)]
pub struct ResultT;

/// The database type of a job status.
#[derive(Debug, Clone, Copy)]
pub struct StatusT;

} // verus!
