//! Build-time shader pipeline: finds the shader sources of a project,
//! picks how each is compiled, resolves the headers that shaders ask for,
//! and writes out each compiled binary as a C header and implementation.
//! Also the plain data of the engine's input maps and windows.

use vstd::prelude::*;

pub mod text;
pub mod naming;
pub mod codegen;
pub mod paths;
pub mod error;
pub mod shader;
pub mod headers;
pub mod laws;
pub mod input;
pub mod window;

verus! {

} // verus!
