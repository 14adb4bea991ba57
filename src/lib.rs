//! Decisions behind a WebGL canvas demo: how a canvas follows its displayed
//! size, how shader compile and link results become errors, where attributes
//! live, and the geometry drawn each frame. The browser calls themselves are
//! made by the caller, which hands the plain values it read to these functions.

pub mod viewport;
pub mod program;
pub mod geometry;
