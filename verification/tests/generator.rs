use sitegen::index::{index_entry, index_entries, index_html};
use sitegen::markdown::page_html;
use sitegen::order::{sort_names, str_lex_leq};
use sitegen::page::{html_file_name, is_md_file, md_file_name, plan_page};
use sitegen::should_generate;

const PAGE_PREFIX: &str = "<!DOCTYPE html><html><head><meta charset=\"utf-8\"></head><body>";
const PAGE_SUFFIX: &str = "</body></html>";
const INDEX_PREFIX: &str = "<!DOCTYPE html><html><head><meta charset=\"utf-8\"></head><body><ul>";
const INDEX_SUFFIX: &str = "</ul></body></html>";

fn strings(names: &[&str]) -> Vec<String> {
    names.iter().map(|s| s.to_string()).collect()
}

#[test]
fn page_html_renders_heading() {
    let html = page_html("# Hi").unwrap();
    let expected = format!("{}<h1>Hi</h1>\n{}", PAGE_PREFIX, PAGE_SUFFIX);
    assert_eq!(html, expected);
}

#[test]
fn page_html_renders_paragraph() {
    let html = page_html("Hello").unwrap();
    let expected = format!("{}<p>Hello</p>\n{}", PAGE_PREFIX, PAGE_SUFFIX);
    assert_eq!(html, expected);
}

#[test]
fn page_html_empty_input_is_just_the_template() {
    let html = page_html("").unwrap();
    let expected = format!("{}{}", PAGE_PREFIX, PAGE_SUFFIX);
    assert_eq!(html, expected);
}

#[test]
fn page_html_is_idempotent() {
    let first = page_html("# Hi\n\nSome *text*.").unwrap();
    let second = page_html("# Hi\n\nSome *text*.").unwrap();
    assert_eq!(first, second);
}

#[test]
fn index_entry_links_to_the_page() {
    let entry = index_entry("foo");
    assert_eq!(entry, "<li><a href=\"./html/foo/foo.html\">foo</a></li>");
}

#[test]
fn index_entries_concatenates_in_order() {
    let entries = index_entries(&strings(&["a", "b"]));
    assert_eq!(
        entries,
        "<li><a href=\"./html/a/a.html\">a</a></li><li><a href=\"./html/b/b.html\">b</a></li>"
    );
}

#[test]
fn index_html_sorts_names_ascending() {
    let html = index_html(strings(&["foo", "bar"])).unwrap();
    let expected = format!(
        "{}<li><a href=\"./html/bar/bar.html\">bar</a></li><li><a href=\"./html/foo/foo.html\">foo</a></li>{}",
        INDEX_PREFIX, INDEX_SUFFIX
    );
    assert_eq!(html, expected);
}

#[test]
fn index_html_has_one_item_per_page() {
    let html = index_html(strings(&["c", "a", "b"])).unwrap();
    assert_eq!(html.matches("<li>").count(), 3);
    assert_eq!(html.matches("</li>").count(), 3);
}

#[test]
fn index_html_of_no_pages_is_just_the_template() {
    let html = index_html(Vec::new()).unwrap();
    let expected = format!("{}{}", INDEX_PREFIX, INDEX_SUFFIX);
    assert_eq!(html, expected);
}

#[test]
fn index_html_is_idempotent() {
    let first = index_html(strings(&["foo", "bar"])).unwrap();
    let second = index_html(strings(&["foo", "bar"])).unwrap();
    assert_eq!(first, second);
}

#[test]
fn sort_names_orders_lexicographically() {
    let sorted = sort_names(strings(&["b", "a", "ab", "a", ""]));
    assert_eq!(sorted, strings(&["", "a", "a", "ab", "b"]));
}

#[test]
fn str_lex_leq_cases() {
    assert!(str_lex_leq("", "a"));
    assert!(str_lex_leq("a", "a"));
    assert!(str_lex_leq("a", "ab"));
    assert!(!str_lex_leq("ab", "a"));
    assert!(str_lex_leq("abc", "abd"));
    assert!(!str_lex_leq("b", "ab"));
}

#[test]
fn plan_page_selects_matching_markdown() {
    let plan = plan_page("foo", strings(&["foo.md", "pic.png", "notes.txt"]));
    assert_eq!(plan.content_source, Some("foo.md".to_string()));
    assert_eq!(plan.html_name, "foo.html");
    assert_eq!(plan.resources, strings(&["pic.png", "notes.txt"]));
}

#[test]
fn plan_page_without_matching_markdown_still_copies_resources() {
    let plan = plan_page("foo", strings(&["bar.md", "pic.png"]));
    assert_eq!(plan.content_source, None);
    assert_eq!(plan.resources, strings(&["pic.png"]));
}

#[test]
fn plan_page_of_empty_folder() {
    let plan = plan_page("foo", Vec::new());
    assert_eq!(plan.content_source, None);
    assert_eq!(plan.html_name, "foo.html");
    assert!(plan.resources.is_empty());
}

#[test]
fn file_names_carry_the_extensions() {
    assert_eq!(md_file_name("foo"), "foo.md");
    assert_eq!(html_file_name("foo"), "foo.html");
}

#[test]
fn is_md_file_checks_the_extension() {
    assert!(is_md_file("foo.md"));
    assert!(is_md_file(".md"));
    assert!(!is_md_file("md"));
    assert!(!is_md_file("foo.html"));
    assert!(!is_md_file("foo.mdx"));
    assert!(!is_md_file(""));
}

#[test]
fn soft_exit_when_a_folder_is_missing() {
    assert!(should_generate(true, true));
    assert!(!should_generate(false, true));
    assert!(!should_generate(true, false));
    assert!(!should_generate(false, false));
}

#[test]
fn scenario_two_pages() {
    let index = index_html(strings(&["foo", "bar"])).unwrap();
    let bar = index.find("<li><a href=\"./html/bar/bar.html\">bar</a></li>").unwrap();
    let foo = index.find("<li><a href=\"./html/foo/foo.html\">foo</a></li>").unwrap();
    assert!(bar < foo);
    let foo_page = page_html("# Hi").unwrap();
    assert!(foo_page.contains("<h1>Hi</h1>"));
    let bar_page = page_html("Hello").unwrap();
    assert!(bar_page.contains("<p>Hello</p>"));
}

#[test]
fn cli_types_carry_the_subcommand() {
    let opt = sitegen::cli::Opt {
        cmd: sitegen::cli::Command::Gen { url: "some/root".to_string() },
    };
    match opt.cmd {
        sitegen::cli::Command::Gen { url } => assert_eq!(url, "some/root"),
    }
}

#[test]
fn index_html_ignores_enumeration_order() {
    let first = index_html(strings(&["foo", "bar", "baz"])).unwrap();
    let second = index_html(strings(&["baz", "foo", "bar"])).unwrap();
    assert_eq!(first, second);
}
