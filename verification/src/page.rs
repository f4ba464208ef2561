//! The plan for one page folder: which child is the page's markdown
//! source, what the generated HTML file is called, and which children are
//! resources to copy verbatim.

use vstd::prelude::*;
use crate::order::views_of;

verus! {

/// The name of the markdown file that carries a page's content: the page
/// folder's own name with the markdown extension.
pub open spec fn md_name_seq(name: Seq<char>) -> Seq<char> {
    name + ".md"@
}

/// The name of the HTML file generated for a page: the page folder's own
/// name with the HTML extension.
pub open spec fn html_name_seq(name: Seq<char>) -> Seq<char> {
    name + ".html"@
}

/// Whether a file name ends in the markdown extension.
pub open spec fn is_md_name(s: Seq<char>) -> bool {
    s.len() >= 3 && s.subrange(s.len() - 3, s.len() as int) == ".md"@
}

/// Whether a page folder with the given children holds its matching
/// markdown file.
pub open spec fn content_present(name: Seq<char>, children: Seq<Seq<char>>) -> bool {
    children.contains(md_name_seq(name))
}

/// The children of a page folder that are resources: every child that
/// does not end in the markdown extension, in the order given.
pub open spec fn resources_of(children: Seq<Seq<char>>) -> Seq<Seq<char>> {
    children.filter(|s: Seq<char>| !is_md_name(s))
}

/// What to do for one page folder.
pub struct PagePlan {
    /// The name of the matching markdown file, if the folder holds one.
    pub content_source: Option<String>,
    /// The name of the HTML file to generate from the markdown file.
    pub html_name: String,
    /// The names of the children to copy verbatim, in the order given.
    pub resources: Vec<String>,
}

/// Builds the markdown file name matching a page folder's name.
pub fn md_file_name(name: &str) -> (r: String)
    ensures
        r@ == md_name_seq(name@),
{
    let mut s = String::from_str(name);
    s.append(".md");
    s
}

/// Builds the HTML file name generated for a page folder's name.
pub fn html_file_name(name: &str) -> (r: String)
    ensures
        r@ == html_name_seq(name@),
{
    let mut s = String::from_str(name);
    s.append(".html");
    s
}

/// Decides whether a file name ends in the markdown extension.
pub fn is_md_file(s: &str) -> (r: bool)
    ensures
        r == is_md_name(s@),
{
    let n = s.unicode_len();
    if n < 3 {
        false
    } else {
        proof {
            reveal_strlit(".md");
        }
        let c0 = s.get_char(n - 3);
        let c1 = s.get_char(n - 2);
        let c2 = s.get_char(n - 1);
        let r = c0 == '.' && c1 == 'm' && c2 == 'd';
        proof {
            let t = s@.subrange(n - 3, n as int);
            assert(t.len() == 3);
            assert(t[0] == s@[n - 3] && t[1] == s@[n - 2] && t[2] == s@[n - 1]);
            if r {
                assert(t =~= ".md"@);
            } else {
                assert(t != ".md"@);
            }
        }
        r
    }
}

/// A page folder's matching markdown file is never one of its resources,
/// and the resources do not depend on whether that file is present: adding
/// it to the children leaves the resources unchanged. Together with the
/// contract of `plan_page`, a folder without its matching markdown file
/// gets no content source, while its resources are copied all the same.
pub proof fn lemma_markdown_file_not_a_resource(name: Seq<char>, children: Seq<Seq<char>>)
    ensures
        is_md_name(md_name_seq(name)),
        resources_of(children.push(md_name_seq(name))) == resources_of(children),
{
    reveal_strlit(".md");
    let md = md_name_seq(name);
    assert(md.subrange(md.len() - 3, md.len() as int) =~= ".md"@);
    reveal(Seq::filter);
    let pred = |s: Seq<char>| !is_md_name(s);
    assert(children.push(md).drop_last() =~= children);
    assert(children.push(md).filter(pred) == children.filter(pred));
}

/// Plans one page folder.
///
/// `name` is the folder's name and `children` the names of its direct
/// children. The plan selects as content source exactly the child named
/// `<name>.md` when one is present, names the HTML file to generate from
/// it, and lists as resources every child not ending in the markdown
/// extension, in the order given.
pub fn plan_page(name: &str, children: Vec<String>) -> (plan: PagePlan)
    ensures
        (plan.content_source is Some) == content_present(name@, views_of(children@)),
        plan.content_source matches Some(c) ==> c@ == md_name_seq(name@),
        plan.html_name@ == html_name_seq(name@),
        views_of(plan.resources@) == resources_of(views_of(children@)),
{
    let md_name = md_file_name(name);
    let mut found = false;
    let mut resources: Vec<String> = Vec::new();
    let n = children.len();
    proof {
        reveal(Seq::filter);
        assert(views_of(children@).subrange(0, 0) =~= Seq::<Seq<char>>::empty());
        assert(views_of(resources@) =~= Seq::<Seq<char>>::empty());
    }
    for i in 0..n
        invariant
            n == children.len(),
            md_name@ == md_name_seq(name@),
            found == content_present(name@, views_of(children@).subrange(0, i as int)),
            views_of(resources@) == resources_of(views_of(children@).subrange(0, i as int)),
    {
        let child = &children[i];
        if child.eq(&md_name) {
            found = true;
        }
        let is_md = is_md_file(child.as_str());
        proof {
            let vs = views_of(children@);
            let prefix = vs.subrange(0, i as int);
            let next = vs.subrange(0, i + 1);
            assert(next.drop_last() =~= prefix);
            assert(next.last() == child@);
            reveal(Seq::filter);
            if !is_md {
                crate::order::lemma_views_push(resources@, children@[i as int]);
            }
            assert(content_present(name@, next) == (content_present(name@, prefix)
                || child@ == md_name_seq(name@))) by {
                if content_present(name@, prefix) {
                    let j = choose|j: int|
                        0 <= j < prefix.len() && prefix[j] == md_name_seq(name@);
                    assert(next[j] == md_name_seq(name@));
                }
                if child@ == md_name_seq(name@) {
                    assert(next[i as int] == md_name_seq(name@));
                }
                if content_present(name@, next) {
                    let j = choose|j: int|
                        0 <= j < next.len() && next[j] == md_name_seq(name@);
                    if j < i as int {
                        assert(prefix[j] == md_name_seq(name@));
                    }
                }
            }
        }
        if !is_md {
            resources.push(child.clone());
        }
    }
    proof {
        assert(views_of(children@).subrange(0, n as int) =~= views_of(children@));
    }
    let html_name = html_file_name(name);
    let content_source = if found {
        Some(md_name)
    } else {
        None
    };
    PagePlan { content_source, html_name, resources }
}

} // verus!

