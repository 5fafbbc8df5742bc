//! Turning the readme block of a list file into a page: finding the block,
//! rendering it, stripping the block markers and minifying the result.

use vstd::prelude::*;
use crate::text::{find, lemma_position_of, position_of, replace, replaced};

verus! {

/// The HTML that `pulldown_cmark` renders for a Markdown text with every
/// extension switched on.
pub uninterp spec fn markdown_html(markdown: Seq<char>) -> Seq<char>;

/// The page that `minify::html::minify` makes of an HTML text.
pub uninterp spec fn minified_html(html: Seq<char>) -> Seq<char>;

/// Renders Markdown with `pulldown_cmark`: `Parser::new_ext` with
/// `Options::all()` parses the text and `html::push_html` writes the events
/// into a fresh string. The contract gives that string a name and claims
/// that it depends on the text alone.
#[verifier::external_body]
fn render_html(markdown: &str) -> (html: String)
    ensures
        html@ == markdown_html(markdown@),
{
    let parser = pulldown_cmark::Parser::new_ext(markdown, pulldown_cmark::Options::all());
    let mut html = String::new();
    pulldown_cmark::html::push_html(&mut html, parser);
    html
}

/// Calls `minify::html::minify`. The contract gives the result a name and
/// claims that it depends on the text alone.
#[verifier::external_body]
fn minify_html(html: &str) -> (page: String)
    ensures
        page@ == minified_html(html@),
{
    minify::html::minify(html)
}

/// The marker that opens the readme block of a list file.
pub open spec fn block_start() -> Seq<char> {
    "!readme"@
}

/// The marker that closes the readme block of a list file.
pub open spec fn block_end() -> Seq<char> {
    "!end_readme"@
}

/// The readme block of a list file: from the first opening marker up to the
/// end of the first closing marker, both markers included. There is none
/// where a marker is missing or the first opening marker comes after the
/// closing one.
pub open spec fn readme_block(contents: Seq<char>) -> Option<Seq<char>> {
    match (position_of(contents, block_start()), position_of(contents, block_end())) {
        (Some(start), Some(end)) => if start <= end + block_end().len() {
            Some(contents.subrange(start, end + block_end().len()))
        } else {
            None
        },
        _ => None,
    }
}

/// A rendered page without the paragraphs that the block markers became.
pub open spec fn without_markers(html: Seq<char>) -> Seq<char> {
    replaced(replaced(html, "<p>!readme</p>\n"@, ""@), "<p>!end_readme</p>\n"@, ""@)
}

/// Rendering the readme block of list files.
pub struct RenderMarkdownUtils;

impl RenderMarkdownUtils {
    /// Removes the paragraphs that the block markers were rendered to.
    pub fn remove_readme_macros(markdown_html: &str) -> (stripped: String)
        ensures
            stripped@ == without_markers(markdown_html@),
    {
        let without_start = replace(markdown_html, "<p>!readme</p>\n", "");
        replace(without_start.as_str(), "<p>!end_readme</p>\n", "")
    }

    /// The readme block in the contents of a list file.
    pub fn extract_readme_block(contents: &str) -> (block: Option<String>)
        ensures
            match block {
                Some(text) => readme_block(contents@) == Some(text@),
                None => readme_block(contents@) is None,
            },
    {
        proof {
            reveal_strlit("!end_readme");
            lemma_position_of(contents@, block_end());
        }
        match (find(contents, "!readme"), find(contents, "!end_readme")) {
            (Some(start), Some(end)) => {
                let stop: usize = end + 11;
                if start <= stop {
                    Some(contents.substring_char(start, stop).to_owned())
                } else {
                    None
                }
            },
            _ => None,
        }
    }

    /// The readme block of a list file, rendered to HTML; `None` where the
    /// contents hold no such block.
    pub fn render_markdown(contents: &str) -> (html: Option<String>)
        ensures
            match html {
                Some(text) => readme_block(contents@) matches Some(block) && text@
                    == markdown_html(block),
                None => readme_block(contents@) is None,
            },
    {
        match Self::extract_readme_block(contents) {
            Some(block) => Some(render_html(block.as_str())),
            None => None,
        }
    }

    /// The minified form of a finished page.
    pub fn minify_page(page: &str) -> (minified: String)
        ensures
            minified@ == minified_html(page@),
    {
        minify_html(page)
    }
}

} // verus!
