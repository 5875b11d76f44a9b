//! The record a linked shader program keeps for each of its active vertex
//! attributes. Program and shader objects own GPU handles and live with the
//! rendering backend outside this core; the per-attribute record they keep
//! is plain data and lives here.

use vstd::prelude::*;

verus! {

/// One active vertex attribute of a linked shader program: its name, its
/// type word as the context reports it, and the location the context
/// assigned to it.
#[derive(Debug, Clone)]
pub struct VertexAttrib {
    pub name: String,
    pub var_type: u32,
    pub location: i32,
}

impl VertexAttrib {
    pub fn new(name: String, var_type: u32, location: i32) -> (r: Self)
        ensures
            r.name@ == name@,
            r.var_type == var_type,
            r.location == location,
    {
        VertexAttrib { name, var_type, location }
    }
}

} // verus!
