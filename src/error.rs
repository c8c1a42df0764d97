use vstd::prelude::*;

verus! {

/// What can stop the shader pipeline.
#[derive(Debug, PartialEq, Eq)]
pub enum Error {
    /// The compiler or its options could not be made.
    Internal(String),
    /// A shader file cannot be handled: no or unknown extension, or no place
    /// for it relative to the shader root.
    ShaderFile(String),
    /// The compiler rejected a shader; its own message, as it gave it.
    Compile(String),
    /// Reading or writing the file system failed.
    Io(String),
}

} // verus!
