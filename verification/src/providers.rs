//! The providers a link may belong to and the rewriting each one calls for.
//!
//! Rewriting a repository or preprint link, and building the export request
//! of a wiki article, need nothing but the link. Resolving a link through
//! Sci-Hub, or any link of no known provider, needs answers from remote
//! services. Those steps are given as a state machine: each step either
//! ends the resolution or names the one remote request whose answer the
//! next step takes.

use vstd::prelude::*;
use crate::text::{joined, contains, first_index, index_of_char_from, replace, replaced, to_chars};
use crate::url::{last_part, subdomain, UrlMisc};

verus! {

/// A provider's domain, in the order in which the domains are listed.
#[derive(Clone, Copy, Debug, PartialEq, Eq, Structural)]
pub enum ProviderDomain {
    Wikipedia,
    SciHub,
    GitHub,
    GitHubUserContent,
    Wikisource,
}

impl ProviderDomain {
    /// The text whose presence in a link marks the link as this provider's.
    pub open spec fn pattern_of(self) -> Seq<char> {
        match self {
            ProviderDomain::Wikipedia => "wikipedia.org"@,
            ProviderDomain::SciHub => "sci-hub.se"@,
            ProviderDomain::GitHub => "github.com"@,
            ProviderDomain::GitHubUserContent => "githubusercontent.com"@,
            ProviderDomain::Wikisource => "wikisource.org"@,
        }
    }

    /// This domain occurs somewhere in `url`.
    pub open spec fn matches(self, url: Seq<char>) -> bool {
        contains(url, self.pattern_of())
    }

    /// The text whose presence in a link marks the link as this provider's.
    pub fn pattern(self) -> (p: &'static str)
        ensures
            p@ == self.pattern_of(),
    {
        match self {
            ProviderDomain::Wikipedia => "wikipedia.org",
            ProviderDomain::SciHub => "sci-hub.se",
            ProviderDomain::GitHub => "github.com",
            ProviderDomain::GitHubUserContent => "githubusercontent.com",
            ProviderDomain::Wikisource => "wikisource.org",
        }
    }

    /// Whether this domain occurs somewhere in `url`.
    pub fn is_in(self, url: &str) -> (r: bool)
        ensures
            r == self.matches(url@),
    {
        UrlMisc::check_domain(url, self.pattern())
    }
}

/// `url` contains the domain of some provider.
pub open spec fn is_known_provider(url: Seq<char>) -> bool {
    ||| ProviderDomain::Wikipedia.matches(url)
    ||| ProviderDomain::SciHub.matches(url)
    ||| ProviderDomain::GitHub.matches(url)
    ||| ProviderDomain::GitHubUserContent.matches(url)
    ||| ProviderDomain::Wikisource.matches(url)
}

/// The domain that gates the preprint rewrite.
pub open spec fn arxiv_gate_domain() -> ProviderDomain {
    ProviderDomain::SciHub
}

/// `url` with `/abs/` rewritten to `/pdf/` where `gate` occurs in it.
pub open spec fn arxiv_rewritten_on(url: Seq<char>, gate: ProviderDomain) -> Seq<char> {
    if gate.matches(url) {
        replaced(url, "/abs/"@, "/pdf/"@)
    } else {
        url
    }
}

/// `url` with `/blob/` rewritten to `/raw/` where it is a link to
/// `github.com` and not one to `githubusercontent.com`.
pub open spec fn github_rewritten(url: Seq<char>) -> Seq<char> {
    if ProviderDomain::GitHub.matches(url) && !ProviderDomain::GitHubUserContent.matches(url) {
        replaced(url, "/blob/"@, "/raw/"@)
    } else {
        url
    }
}

/// The identifier in `url`: past the first `/` and the character behind it,
/// what follows the next `/`. Empty where either `/` is missing.
pub open spec fn identifier_of(url: Seq<char>) -> Seq<char> {
    let first = first_index(url, '/');
    if first + 2 > url.len() {
        Seq::empty()
    } else {
        let rest = url.skip(first + 2);
        let second = first_index(rest, '/');
        if second >= rest.len() {
            Seq::empty()
        } else {
            rest.skip(second + 1)
        }
    }
}

/// A download location with the name to store the download under.
#[derive(Clone, Debug, PartialEq, Eq)]
pub struct ResolutionTarget {
    pub download_uri: String,
    pub filename: String,
}

/// The mathematical content of a `ResolutionTarget`.
pub struct TargetView {
    pub download_uri: Seq<char>,
    pub filename: Seq<char>,
}

impl TargetView {
    /// Neither the location nor the name is empty.
    pub open spec fn is_populated(self) -> bool {
        self.download_uri.len() > 0 && self.filename.len() > 0
    }
}

impl View for ResolutionTarget {
    type V = TargetView;

    open spec fn view(&self) -> TargetView {
        TargetView { download_uri: self.download_uri@, filename: self.filename@ }
    }
}

/// The PDF export request of the article that `url` names, on the wiki at
/// `site`, in the language edition that `url` names.
pub open spec fn wiki_export_target(url: Seq<char>, site: Seq<char>) -> TargetView {
    TargetView {
        download_uri: "https://"@ + subdomain(url) + "."@ + site + "/api/rest_v1/page/pdf/"@
            + last_part(url),
        filename: last_part(url) + ".pdf"@,
    }
}

/// The export request of the default language edition of the wiki at
/// `site`, without an article: the template that requests are made from.
pub open spec fn wiki_export_template(site: Seq<char>) -> Seq<char> {
    "https://en."@ + site + "/api/rest_v1/page/pdf/"@
}

/// The export request for a Wikipedia article.
pub open spec fn wikipedia_target(url: Seq<char>) -> TargetView {
    wiki_export_target(url, ProviderDomain::Wikipedia.pattern_of())
}

/// The export request for a Wikisource text.
pub open spec fn wikisource_target(url: Seq<char>) -> TargetView {
    wiki_export_target(url, ProviderDomain::Wikisource.pattern_of())
}

/// Why a resolution failed. The texts are those the failing service gave.
#[derive(Clone, Debug, PartialEq, Eq)]
pub enum ResolveError {
    /// The link holds no identifier to look up.
    ExtractionFailure,
    /// The lookup of the identifier, or of the download location on the
    /// landing page, gave no result.
    LookupFailure(String),
    /// The remote side gave no file name.
    ProbeFailure(String),
    /// No provider applies to the link. No step of this library reports it:
    /// a link of no known provider is passed through unchanged.
    UnsupportedUrl,
}

/// The mathematical content of a `ResolveError`.
pub enum ErrorView {
    ExtractionFailure,
    LookupFailure(Seq<char>),
    ProbeFailure(Seq<char>),
    UnsupportedUrl,
}

impl View for ResolveError {
    type V = ErrorView;

    open spec fn view(&self) -> ErrorView {
        match *self {
            ResolveError::ExtractionFailure => ErrorView::ExtractionFailure,
            ResolveError::LookupFailure(text) => ErrorView::LookupFailure(text@),
            ResolveError::ProbeFailure(text) => ErrorView::ProbeFailure(text@),
            ResolveError::UnsupportedUrl => ErrorView::UnsupportedUrl,
        }
    }
}

/// The remote request a resolution is waiting for.
#[derive(Clone, Debug, PartialEq, Eq)]
pub enum Pending {
    /// Look `identifier` up; the answer is the link of its landing page.
    Lookup { identifier: String },
    /// Read `landing_page`; the answer is the download location on it.
    Extract { landing_page: String },
    /// Ask the remote side how the file at `download_uri` is named.
    Probe { download_uri: String },
}

/// The mathematical content of a `Pending`.
pub enum PendingView {
    Lookup { identifier: Seq<char> },
    Extract { landing_page: Seq<char> },
    Probe { download_uri: Seq<char> },
}

impl View for Pending {
    type V = PendingView;

    open spec fn view(&self) -> PendingView {
        match *self {
            Pending::Lookup { identifier } => PendingView::Lookup { identifier: identifier@ },
            Pending::Extract { landing_page } => PendingView::Extract {
                landing_page: landing_page@,
            },
            Pending::Probe { download_uri } => PendingView::Probe { download_uri: download_uri@ },
        }
    }
}

/// How far a resolution has come.
#[derive(Clone, Debug, PartialEq, Eq)]
pub enum Progress {
    Finished(ResolutionTarget),
    Failed(ResolveError),
    Waiting(Pending),
}

/// The mathematical content of a `Progress`.
pub enum ProgressView {
    Finished(TargetView),
    Failed(ErrorView),
    Waiting(PendingView),
}

impl View for Progress {
    type V = ProgressView;

    open spec fn view(&self) -> ProgressView {
        match *self {
            Progress::Finished(target) => ProgressView::Finished(target@),
            Progress::Failed(error) => ProgressView::Failed(error@),
            Progress::Waiting(pending) => ProgressView::Waiting(pending@),
        }
    }
}

/// The answer of a remote service: a text, or the text of its failure.
pub type Answer = Result<Seq<char>, Seq<char>>;

/// The mathematical content of a service's answer.
pub open spec fn answer_of(reply: Result<String, String>) -> Answer {
    match reply {
        Ok(text) => Ok(text@),
        Err(text) => Err(text@),
    }
}

/// The first step for a link to Sci-Hub: without an identifier it fails,
/// with one it waits for the lookup.
pub open spec fn scihub_start(url: Seq<char>) -> ProgressView {
    if identifier_of(url).len() == 0 {
        ProgressView::Failed(ErrorView::ExtractionFailure)
    } else {
        ProgressView::Waiting(PendingView::Lookup { identifier: identifier_of(url) })
    }
}

/// The first step for a link of no known provider: the link is its own
/// download location, and the remote side is asked for the file name.
pub open spec fn generic_start(url: Seq<char>) -> ProgressView {
    ProgressView::Waiting(PendingView::Probe { download_uri: url })
}

/// The first step for any link: the first provider that matches, in the
/// order Wikipedia, Wikisource, Sci-Hub, decides; no match passes the link
/// through.
pub open spec fn resolution_start(url: Seq<char>) -> ProgressView {
    if ProviderDomain::Wikipedia.matches(url) {
        ProgressView::Finished(wikipedia_target(url))
    } else if ProviderDomain::Wikisource.matches(url) {
        ProgressView::Finished(wikisource_target(url))
    } else if ProviderDomain::SciHub.matches(url) {
        scihub_start(url)
    } else {
        generic_start(url)
    }
}

/// The step taken when the awaited answer arrives. A landing page leads to
/// the extraction of the download location, that location to the probe of
/// its file name, and the file name ends the resolution. A failed answer
/// ends it with the failure of the service that gave it.
pub open spec fn resolution_step(pending: PendingView, reply: Answer) -> ProgressView {
    match pending {
        PendingView::Lookup { identifier } => match reply {
            Ok(landing_page) => ProgressView::Waiting(PendingView::Extract { landing_page }),
            Err(text) => ProgressView::Failed(ErrorView::LookupFailure(text)),
        },
        PendingView::Extract { landing_page } => match reply {
            Ok(download_uri) => ProgressView::Waiting(PendingView::Probe { download_uri }),
            Err(text) => ProgressView::Failed(ErrorView::LookupFailure(text)),
        },
        PendingView::Probe { download_uri } => match reply {
            Ok(filename) => ProgressView::Finished(TargetView { download_uri, filename }),
            Err(text) => ProgressView::Failed(ErrorView::ProbeFailure(text)),
        },
    }
}

impl Pending {
    /// Takes the answer to the awaited request and makes the next step.
    pub fn resume(self, reply: Result<String, String>) -> (next: Progress)
        ensures
            next@ == resolution_step(self@, answer_of(reply)),
    {
        match self {
            Pending::Lookup { identifier: _ } => match reply {
                Ok(landing_page) => Progress::Waiting(Pending::Extract { landing_page }),
                Err(text) => Progress::Failed(ResolveError::LookupFailure(text)),
            },
            Pending::Extract { landing_page: _ } => match reply {
                Ok(download_uri) => Progress::Waiting(Pending::Probe { download_uri }),
                Err(text) => Progress::Failed(ResolveError::LookupFailure(text)),
            },
            Pending::Probe { download_uri } => match reply {
                Ok(filename) => Progress::Finished(ResolutionTarget { download_uri, filename }),
                Err(text) => Progress::Failed(ResolveError::ProbeFailure(text)),
            },
        }
    }
}

/// The provider-specific rewriting and resolution of links.
pub struct Providers;

impl Providers {
    /// The identifier that a link to Sci-Hub carries, such as `10.1000/xyz123`
    /// in `https://sci-hub.se/10.1000/xyz123`; empty where the link has no
    /// such shape.
    pub fn extract_doi(url: &str) -> (id: String)
        ensures
            id@ == identifier_of(url@),
    {
        let chars = to_chars(url);
        let n: usize = chars.len();
        assert(chars@.skip(0) =~= url@);
        let first: usize = index_of_char_from(&chars, '/', 0);
        if first >= n || n - first < 2 {
            return String::new();
        }
        let from: usize = first + 2;
        let second: usize = index_of_char_from(&chars, '/', from);
        if second >= n {
            return String::new();
        }
        assert(url@.subrange(second + 1, n as int) =~= url@.skip(from as int).skip(
            second - from + 1,
        ));
        url.substring_char(second + 1, n).to_owned()
    }

    /// The domain that gates the preprint rewrite.
    pub fn arxiv_gate() -> (gate: ProviderDomain)
        ensures
            gate == arxiv_gate_domain(),
    {
        ProviderDomain::SciHub
    }

    /// The preprint rewrite behind a chosen gate: where `gate` occurs in
    /// `url`, every `/abs/` becomes `/pdf/`; any other link comes back
    /// unchanged.
    pub fn arxiv_on(url: &str, gate: ProviderDomain) -> (rewritten: String)
        ensures
            rewritten@ == arxiv_rewritten_on(url@, gate),
    {
        if gate.is_in(url) {
            replace(url, "/abs/", "/pdf/")
        } else {
            url.to_owned()
        }
    }

    /// The preprint rewrite, gated on the domain of Sci-Hub.
    pub fn arxiv(url: &str) -> (rewritten: String)
        ensures
            rewritten@ == arxiv_rewritten_on(url@, arxiv_gate_domain()),
    {
        Self::arxiv_on(url, Self::arxiv_gate())
    }

    /// The repository rewrite: in a link to `github.com` that is not one to
    /// `githubusercontent.com`, every `/blob/` becomes `/raw/`; any other
    /// link comes back unchanged.
    pub fn github(url: &str) -> (rewritten: String)
        ensures
            rewritten@ == github_rewritten(url@),
    {
        if ProviderDomain::GitHub.is_in(url) && !ProviderDomain::GitHubUserContent.is_in(url) {
            replace(url, "/blob/", "/raw/")
        } else {
            url.to_owned()
        }
    }

    /// The export request and file name for an article on the wiki at `site`.
    fn wiki_export(url: &str, site: ProviderDomain) -> (target: (String, String))
        ensures
            target.0@ == wiki_export_target(url@, site.pattern_of()).download_uri,
            target.1@ == wiki_export_target(url@, site.pattern_of()).filename,
    {
        let article = UrlMisc::get_last_part(url);
        let edition = UrlMisc::get_subdomain(url);
        let mut request = joined("https://", edition.as_str());
        request.append(".");
        request.append(site.pattern());
        request.append("/api/rest_v1/page/pdf/");
        request.append(article.as_str());
        let filename = joined(article.as_str(), ".pdf");
        (request, filename)
    }

    /// The PDF export request for a Wikipedia article, and the article's
    /// name with `.pdf` as the file name.
    pub fn wikipedia(url: &str) -> (target: (String, String))
        ensures
            target.0@ == wikipedia_target(url@).download_uri,
            target.1@ == wikipedia_target(url@).filename,
    {
        Self::wiki_export(url, ProviderDomain::Wikipedia)
    }

    /// The PDF export request for a Wikisource text, and the text's name
    /// with `.pdf` as the file name.
    pub fn wikisource(url: &str) -> (target: (String, String))
        ensures
            target.0@ == wikisource_target(url@).download_uri,
            target.1@ == wikisource_target(url@).filename,
    {
        Self::wiki_export(url, ProviderDomain::Wikisource)
    }

    /// Whether `url` contains the domain of some provider.
    pub fn check_provider_domain(url: &str) -> (known: bool)
        ensures
            known == is_known_provider(url@),
    {
        ProviderDomain::Wikipedia.is_in(url) || ProviderDomain::SciHub.is_in(url)
            || ProviderDomain::GitHub.is_in(url) || ProviderDomain::GitHubUserContent.is_in(url)
            || ProviderDomain::Wikisource.is_in(url)
    }

    /// The first step for a link to Sci-Hub. Without an identifier in the
    /// link the resolution fails at once and no lookup is asked for.
    pub fn scihub(url: &str) -> (first: Progress)
        ensures
            first@ == scihub_start(url@),
    {
        let identifier = Self::extract_doi(url);
        if identifier.as_str().unicode_len() == 0 {
            Progress::Failed(ResolveError::ExtractionFailure)
        } else {
            Progress::Waiting(Pending::Lookup { identifier })
        }
    }

    /// The first step for a link of no known provider.
    pub fn generic(url: &str) -> (first: Progress)
        ensures
            first@ == generic_start(url@),
    {
        Progress::Waiting(Pending::Probe { download_uri: url.to_owned() })
    }

    /// The first step of resolving `url`.
    pub fn get_from_provider(url: &str) -> (first: Progress)
        ensures
            first@ == resolution_start(url@),
    {
        if ProviderDomain::Wikipedia.is_in(url) {
            let (download_uri, filename) = Self::wikipedia(url);
            Progress::Finished(ResolutionTarget { download_uri, filename })
        } else if ProviderDomain::Wikisource.is_in(url) {
            let (download_uri, filename) = Self::wikisource(url);
            Progress::Finished(ResolutionTarget { download_uri, filename })
        } else if ProviderDomain::SciHub.is_in(url) {
            Self::scihub(url)
        } else {
            Self::generic(url)
        }
    }
}

} // verus!
