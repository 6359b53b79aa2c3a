//! Change-triggered thumbnail extraction for `.clip` illustration files: a
//! watch session with hot reconfiguration, an event dispatcher with
//! per-path debouncing, a container scanner that locates an embedded
//! relational store, a heuristic preview-blob selector, and an image
//! materializer that persists a full-resolution and a downscaled copy.

use vstd::prelude::*;
use vstd::string::StringExecFns;

pub mod debounce;
pub mod decimal;
pub mod dispatch;
pub mod errors;
pub mod gif;
pub mod materialize;
pub mod pathnames;
pub mod scanner;
pub mod selector;
pub mod thumbnail;
pub mod watcher;

verus! {

/// The demonstration greeting of the command surface.
pub fn greet(name: &str) -> (r: String)
    ensures
        r@ == "Hello, "@ + name@ + "! You've been greeted from Rust!"@,
{
    let mut s = "Hello, ".to_owned();
    s.append(name);
    s.append("! You've been greeted from Rust!");
    proof {
        assert(s@ =~= "Hello, "@ + name@ + "! You've been greeted from Rust!"@);
    }
    s
}

} // verus!
