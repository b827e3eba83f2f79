//! The addresses under which this service shows a repository, and the
//! snippets that embed its status badge in other documents. The snippets are
//! pasted into READMEs as they are, so every character of them is fixed.

use crate::models::repo::{RepoPath, RepoPathView};
use vstd::prelude::*;
use vstd::string::*;

verus! {

impl RepoPathView {
    /// The address of the repository's status page on the service at
    /// `base_url`.
    pub open spec fn self_url(self, base_url: Seq<char>) -> Seq<char> {
        base_url + "/repo/"@ + self.site.slug() + "/"@ + self.qual + "/"@ + self.name
    }

    /// The address of the repository's status badge.
    pub open spec fn status_image_url(self, base_url: Seq<char>) -> Seq<char> {
        self.self_url(base_url) + "/status.svg"@
    }

    /// The badge as a Markdown image that links to the status page, with the
    /// newline that ends it.
    pub open spec fn markdown_snippet(self, base_url: Seq<char>) -> Seq<char> {
        "[![dependency status]("@ + self.status_image_url(base_url) + ")]("@ + self.self_url(
            base_url,
        ) + ")\n"@
    }

    /// The badge as an Asciidoc block image macro that links to the status
    /// page: the image's address as the target, then the attribute list in
    /// square brackets, with the newline that ends the block.
    pub open spec fn asciidoc_snippet(self, base_url: Seq<char>) -> Seq<char> {
        "image::"@ + self.status_image_url(base_url) + "[link=\""@ + self.self_url(base_url)
            + "\",alt=\"dependency status\"]\n"@
    }
}

/// The address of the repository's status page on the service at `base_url`.
pub fn self_url(base_url: &str, repo_path: &RepoPath) -> (url: String)
    ensures
        url@ == repo_path@.self_url(base_url@),
{
    let mut url = String::from_str(base_url);
    url.append("/repo/");
    url.append(repo_path.site().as_str());
    url.append("/");
    url.append(repo_path.qual());
    url.append("/");
    url.append(repo_path.name());
    url
}

/// The address of the repository's status badge.
pub fn status_image_url(base_url: &str, repo_path: &RepoPath) -> (url: String)
    ensures
        url@ == repo_path@.status_image_url(base_url@),
{
    let mut url = self_url(base_url, repo_path);
    url.append("/status.svg");
    url
}

/// The Markdown that shows the badge and links it to the status page.
pub fn markdown_snippet(base_url: &str, repo_path: &RepoPath) -> (snippet: String)
    ensures
        snippet@ == repo_path@.markdown_snippet(base_url@),
{
    let image = status_image_url(base_url, repo_path);
    let page = self_url(base_url, repo_path);
    let mut snippet = String::from_str("[![dependency status](");
    snippet.append(image.as_str());
    snippet.append(")](");
    snippet.append(page.as_str());
    snippet.append(")\n");
    snippet
}

/// The Asciidoc that shows the badge and links it to the status page.
pub fn asciidoc_snippet(base_url: &str, repo_path: &RepoPath) -> (snippet: String)
    ensures
        snippet@ == repo_path@.asciidoc_snippet(base_url@),
{
    let image = status_image_url(base_url, repo_path);
    let page = self_url(base_url, repo_path);
    let mut snippet = String::from_str("image::");
    snippet.append(image.as_str());
    snippet.append("[link=\"");
    snippet.append(page.as_str());
    snippet.append("\",alt=\"dependency status\"]\n");
    snippet
}

} // verus!
