//! The flat textual shape of a scenario entry, as its fields stand in the
//! file before any decoding.

use vstd::prelude::*;

verus! {

/// One scenario entry with every field still textual: the payload and the
/// expected replies as written, and the time bounds in whole seconds.
#[derive(Debug, PartialEq)]
pub enum CommandType {
    Normal {
        send: String,
        expect_prefix: String,
        expect_exact: String,
        timeout: u64,
        delay: u64,
        description: Option<String>,
    },
}

} // verus!
