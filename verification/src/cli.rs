//! Command-line arguments.

use vstd::prelude::*;

verus! {

/// The browser takes one optional starting path; without it the current
/// working directory is used. The path is canonicalized before use by the
/// shell that parses the command line.
#[derive(Debug)]
pub struct Args {
    pub path: Option<String>,
}

} // verus!
