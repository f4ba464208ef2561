//! A verified static-site generator library.
//!
//! Given the names of the page folders under a site root and the text of
//! each page's markdown file, the functions here compute everything the
//! generator writes: the HTML page for each markdown file, the top-level
//! index page, and the plan of which files to convert or copy for each
//! page folder. All filesystem work is left to the caller.

pub mod cli;
pub mod index;
pub mod markdown;
pub mod order;
pub mod page;
pub mod render;

use vstd::prelude::*;

verus! {

/// The soft-exit decision at the start of a run: the generator does work
/// only when both the `md` and the `html` folder exist as directories
/// under the root. Otherwise the run writes nothing and still succeeds.
pub fn should_generate(md_is_dir: bool, html_is_dir: bool) -> (r: bool)
    ensures
        r == (md_is_dir && html_is_dir),
{
    md_is_dir && html_is_dir
}

} // verus!
