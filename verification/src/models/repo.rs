//! Repository identity: the hosting site and the path of a repository on it.

use vstd::prelude::*;
use vstd::string::*;

verus! {

/// A code hosting site that repositories are read from.
#[derive(Clone, Copy, Debug, PartialEq, Eq, Hash, Structural)]
pub enum RepoSite {
    Github,
    Gitlab,
    Bitbucket,
}

impl RepoSite {
    /// The address under which the site serves its repositories.
    pub open spec fn base_uri(self) -> Seq<char> {
        match self {
            RepoSite::Github => "https://github.com"@,
            RepoSite::Gitlab => "https://gitlab.com"@,
            RepoSite::Bitbucket => "https://bitbucket.org"@,
        }
    }

    /// The short name of the site, as it appears in paths of this service.
    pub open spec fn slug(self) -> Seq<char> {
        match self {
            RepoSite::Github => "github"@,
            RepoSite::Gitlab => "gitlab"@,
            RepoSite::Bitbucket => "bitbucket"@,
        }
    }

    /// The address under which the site serves its repositories.
    pub fn to_base_uri(&self) -> (uri: &'static str)
        ensures
            uri@ == self.base_uri(),
    {
        match self {
            RepoSite::Github => "https://github.com",
            RepoSite::Gitlab => "https://gitlab.com",
            RepoSite::Bitbucket => "https://bitbucket.org",
        }
    }

    /// The short name of the site, as it appears in paths of this service.
    pub fn as_str(&self) -> (slug: &'static str)
        ensures
            slug@ == self.slug(),
    {
        match self {
            RepoSite::Github => "github",
            RepoSite::Gitlab => "gitlab",
            RepoSite::Bitbucket => "bitbucket",
        }
    }
}

/// What a repository path holds, as plain text.
pub struct RepoPathView {
    pub site: RepoSite,
    pub qual: Seq<char>,
    pub name: Seq<char>,
}

impl RepoPathView {
    /// The address of the repository on its hosting site.
    pub open spec fn origin_url(self) -> Seq<char> {
        self.site.base_uri() + "/"@ + self.qual + "/"@ + self.name
    }

    /// The owner and the name, as a page title shows them.
    pub open spec fn title(self) -> Seq<char> {
        self.qual + " / "@ + self.name
    }
}

/// The place of one repository: its hosting site, the owner or namespace
/// under which the site lists it, and its name. Owner and name are not empty.
#[derive(Debug)]
pub struct RepoPath {
    site: RepoSite,
    qual: String,
    name: String,
}

impl View for RepoPath {
    type V = RepoPathView;

    closed spec fn view(&self) -> RepoPathView {
        RepoPathView { site: self.site, qual: self.qual@, name: self.name@ }
    }
}

impl Clone for RepoPath {
    fn clone(&self) -> (copy: Self)
        ensures
            copy@ == self@,
    {
        proof {
            use_type_invariant(self);
        }
        RepoPath { site: self.site, qual: self.qual.clone(), name: self.name.clone() }
    }
}

impl RepoPath {
    #[verifier::type_invariant]
    spec fn non_empty_parts(self) -> bool {
        self.qual@.len() > 0 && self.name@.len() > 0
    }

    /// The path of the repository `name` of `qual` on `site`, unless one of
    /// the two is empty.
    pub fn new(site: RepoSite, qual: String, name: String) -> (result: Option<RepoPath>)
        ensures
            qual@.len() == 0 || name@.len() == 0 <==> result is None,
            result matches Some(path) ==> path@ == (RepoPathView {
                site,
                qual: qual@,
                name: name@,
            }),
    {
        if qual.as_str().is_empty() || name.as_str().is_empty() {
            None
        } else {
            Some(RepoPath { site, qual, name })
        }
    }

    /// The site that hosts the repository.
    pub fn site(&self) -> (site: RepoSite)
        ensures
            site == self@.site,
    {
        self.site
    }

    /// The owner or namespace of the repository.
    pub fn qual(&self) -> (qual: &str)
        ensures
            qual@ == self@.qual,
            qual@.len() > 0,
    {
        proof {
            use_type_invariant(self);
        }
        self.qual.as_str()
    }

    /// The name of the repository.
    pub fn name(&self) -> (name: &str)
        ensures
            name@ == self@.name,
            name@.len() > 0,
    {
        proof {
            use_type_invariant(self);
        }
        self.name.as_str()
    }

    /// The address of the repository on its hosting site.
    pub fn origin_url(&self) -> (url: String)
        ensures
            url@ == self@.origin_url(),
    {
        let mut url = String::from_str(self.site.to_base_uri());
        url.append("/");
        url.append(self.qual.as_str());
        url.append("/");
        url.append(self.name.as_str());
        url
    }

    /// The owner and the name, as a page title shows them.
    pub fn title(&self) -> (title: String)
        ensures
            title@ == self@.title(),
    {
        let mut title = String::from_str(self.qual.as_str());
        title.append(" / ");
        title.append(self.name.as_str());
        title
    }
}

} // verus!
