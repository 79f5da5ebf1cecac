//! Native side of a desktop shell: the devtools toggle and the command table
//! that the embedded web content can invoke.

pub mod commands;
pub mod devtools;
