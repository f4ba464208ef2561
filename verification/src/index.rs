//! The top-level index page: one link per page folder, in ascending
//! lexicographic order of the folder names.

use vstd::prelude::*;
use crate::order::{lex_leq_fn, sort_names, views_of};
use crate::render::{index_wrapped, render_index_template, RenderError};

verus! {

/// The list item linking to one page: the page's name appears as the link
/// target `./html/<name>/<name>.html` and as the link text.
pub open spec fn index_entry_seq(name: Seq<char>) -> Seq<char> {
    "<li><a href=\"./html/"@ + name + "/"@ + name + ".html\">"@ + name + "</a></li>"@
}

/// The list items for the given names, concatenated in order with no
/// separator.
pub open spec fn entries_seq(names: Seq<Seq<char>>) -> Seq<char>
    decreases names.len(),
{
    if names.len() == 0 {
        Seq::empty()
    } else {
        entries_seq(names.drop_last()) + index_entry_seq(names.last())
    }
}

/// The complete index page generated for the given page names: the list
/// items of the names in ascending lexicographic order, wrapped in the
/// index template.
pub open spec fn index_output(names: Seq<Seq<char>>) -> Seq<char> {
    index_wrapped(entries_seq(names.sort_by(lex_leq_fn())))
}

/// The index lists exactly one entry per enumerated page folder, in
/// ascending lexicographic order: the name list rendered into the index
/// has the length and the elements of the enumerated names, and is sorted.
pub proof fn lemma_index_covers_pages(names: Seq<Seq<char>>)
    ensures
        names.sort_by(lex_leq_fn()).len() == names.len(),
        names.sort_by(lex_leq_fn()).to_multiset() == names.to_multiset(),
        vstd::relations::sorted_by(names.sort_by(lex_leq_fn()), lex_leq_fn()),
{
    broadcast use vstd::seq_lib::group_to_multiset_ensures;

    crate::order::lemma_lex_leq_total_ordering();
    names.lemma_sort_by_ensures(lex_leq_fn());
    vstd::seq_lib::to_multiset_len(names);
    vstd::seq_lib::to_multiset_len(names.sort_by(lex_leq_fn()));
}

/// The order in which the filesystem enumerated the page folders does not
/// matter: two enumerations of the same names yield the same index page.
pub proof fn lemma_index_enumeration_order_irrelevant(a: Seq<Seq<char>>, b: Seq<Seq<char>>)
    requires
        a.to_multiset() == b.to_multiset(),
    ensures
        index_output(a) == index_output(b),
{
    crate::order::lemma_lex_leq_total_ordering();
    a.lemma_sort_by_ensures(lex_leq_fn());
    b.lemma_sort_by_ensures(lex_leq_fn());
    vstd::seq_lib::lemma_sorted_unique(
        a.sort_by(lex_leq_fn()),
        b.sort_by(lex_leq_fn()),
        lex_leq_fn(),
    );
}

/// A second run of the index builder on the unchanged name list yields a
/// byte-identical index page: the output is a function of the names alone.
pub proof fn lemma_index_rebuild_identical(
    names: Seq<Seq<char>>,
    first: Seq<char>,
    second: Seq<char>,
)
    requires
        first == index_output(names),
        second == index_output(names),
    ensures
        first == second,
{
}

/// Builds the list item for one page name.
pub fn index_entry(name: &str) -> (r: String)
    ensures
        r@ == index_entry_seq(name@),
{
    let mut s = String::from_str("<li><a href=\"./html/");
    s.append(name);
    s.append("/");
    s.append(name);
    s.append(".html\">");
    s.append(name);
    s.append("</a></li>");
    proof {
        assert(s@ =~= index_entry_seq(name@));
    }
    s
}

/// Builds the concatenated list items for the given names, in the order
/// given.
pub fn index_entries(names: &Vec<String>) -> (r: String)
    ensures
        r@ == entries_seq(views_of(names@)),
{
    let mut out = String::new();
    let n = names.len();
    for i in 0..n
        invariant
            n == names.len(),
            out@ == entries_seq(views_of(names@).subrange(0, i as int)),
    {
        let entry = index_entry(names[i].as_str());
        out.append(entry.as_str());
        proof {
            let vs = views_of(names@);
            assert(vs.subrange(0, i + 1).drop_last() =~= vs.subrange(0, i as int));
            assert(vs.subrange(0, i + 1).last() == names@[i as int]@);
        }
    }
    proof {
        assert(views_of(names@).subrange(0, n as int) =~= views_of(names@));
    }
    out
}

/// Builds the complete index page for the given page names.
///
/// The call succeeds on every input: the names are sorted ascending,
/// rendered as one list item each, and wrapped in the fixed index
/// template. The `Result` shape mirrors the template engine's error
/// reporting, but with the embedded template rendering never fails.
pub fn index_html(names: Vec<String>) -> (r: Result<String, RenderError>)
    ensures
        r is Ok,
        r matches Ok(s) ==> s@ == index_output(views_of(names@)),
{
    let sorted = sort_names(names);
    let entries = index_entries(&sorted);
    match render_index_template(entries.as_str()) {
        Ok(s) => Ok(s),
        Err(message) => Err(RenderError { message }),
    }
}

} // verus!
