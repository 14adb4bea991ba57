//! What the results a rendering context reports after compiling a shader or
//! linking a program mean for the caller, and where a program's attributes live.

use vstd::prelude::*;

verus! {

/// The kind of object whose build step is being checked.
#[derive(Clone, Copy, Debug, PartialEq, Eq, Structural)]
pub enum GlObject {
    /// A shader, checked after compiling.
    Shader,
    /// A program, checked after linking.
    Program,
}

/// The message given when the context hands back no object to work on.
pub open spec fn creation_failure_text() -> Seq<char> {
    "Unable to create shader object"@
}

/// The message given when a build step failed and the context has no log for it.
pub open spec fn unknown_failure_text(kind: GlObject) -> Seq<char> {
    match kind {
        GlObject::Shader => "Unknown error creating shader"@,
        GlObject::Program => "Unknown error creating program object"@,
    }
}

/// The error for a context that could not create a shader or a program.
pub fn creation_error() -> (r: String)
    ensures
        r@ == creation_failure_text(),
{
    "Unable to create shader object".to_owned()
}

/// Reads a compile or link status. A status that is missing or is not a
/// boolean counts as a failure.
pub fn status_succeeded(status: Option<bool>) -> (r: bool)
    ensures
        r <==> status == Some(true),
{
    match status {
        Some(b) => b,
        None => false,
    }
}

/// The error for a failed compile or link: the context's log where it has
/// one, else a fixed message naming the kind of object.
pub fn failure_message(kind: GlObject, info_log: Option<String>) -> (r: String)
    ensures
        r@ == match info_log {
            Some(s) => s@,
            None => unknown_failure_text(kind),
        },
{
    match info_log {
        Some(s) => s,
        None => match kind {
            GlObject::Shader => "Unknown error creating shader".to_owned(),
            GlObject::Program => "Unknown error creating program object".to_owned(),
        },
    }
}

/// The index of a vertex attribute, from the location a context reports for
/// its name. A negative location means the program has no such attribute.
pub fn attribute_index(location: i32) -> (r: Option<u32>)
    ensures
        r == if location >= 0 { Some(location as u32) } else { None::<u32> },
{
    if location >= 0 {
        Some(location as u32)
    } else {
        None
    }
}

} // verus!
