use paimon::providers::{
    Pending, Progress, ProviderDomain, Providers, ResolutionTarget, ResolveError,
};

fn drive(
    url: &str,
    lookup: Result<&str, &str>,
    extract: Result<&str, &str>,
    probe: Result<&str, &str>,
) -> (Progress, Vec<String>) {
    let own = |r: Result<&str, &str>| r.map(String::from).map_err(String::from);
    let mut asked: Vec<String> = Vec::new();
    let mut progress = Providers::get_from_provider(url);
    for _ in 0..3 {
        progress = match progress {
            Progress::Waiting(pending) => {
                let reply = match &pending {
                    Pending::Lookup { identifier } => {
                        asked.push(format!("lookup {}", identifier));
                        own(lookup)
                    }
                    Pending::Extract { landing_page } => {
                        asked.push(format!("extract {}", landing_page));
                        own(extract)
                    }
                    Pending::Probe { download_uri } => {
                        asked.push(format!("probe {}", download_uri));
                        own(probe)
                    }
                };
                pending.resume(reply)
            }
            done => done,
        };
    }
    (progress, asked)
}

fn target(download_uri: &str, filename: &str) -> Progress {
    Progress::Finished(ResolutionTarget {
        download_uri: download_uri.to_string(),
        filename: filename.to_string(),
    })
}

#[test]
fn github_blob_link_becomes_raw_link() {
    assert_eq!(
        Providers::github("https://github.com/user/repo/blob/main/file.txt"),
        "https://github.com/user/repo/raw/main/file.txt"
    );
}

#[test]
fn github_raw_link_is_left_alone() {
    let raw = "https://github.com/user/repo/raw/main/file.txt";
    assert_eq!(Providers::github(raw), raw);
    assert_eq!(Providers::github(&Providers::github(raw)), raw);
}

#[test]
fn github_rewrites_every_blob_segment() {
    assert_eq!(
        Providers::github("https://github.com/blob/repo/blob/a/blob/b"),
        "https://github.com/raw/repo/raw/a/raw/b"
    );
    assert_eq!(
        Providers::github("https://github.com/u/r/blob/blob/x"),
        "https://github.com/u/r/raw/blob/x"
    );
}

#[test]
fn github_leaves_other_sites_alone() {
    let other = "https://example.com/user/repo/blob/main/file.txt";
    assert_eq!(Providers::github(other), other);
    let content = "https://raw.githubusercontent.com/user/repo/blob/file.txt";
    assert_eq!(Providers::github(content), content);
    let both = "https://github.com/user/repo/blob/main/githubusercontent.com.txt";
    assert_eq!(Providers::github(both), both);
}

#[test]
fn github_is_case_sensitive() {
    let upper = "https://GitHub.com/user/repo/blob/main/file.txt";
    assert_eq!(Providers::github(upper), upper);
}

#[test]
fn arxiv_gate_is_the_scihub_domain() {
    assert_eq!(Providers::arxiv_gate(), ProviderDomain::SciHub);
    assert_eq!(Providers::arxiv_gate().pattern(), "sci-hub.se");
}

#[test]
fn arxiv_rewrites_behind_its_gate_only() {
    assert_eq!(
        Providers::arxiv("https://sci-hub.se/abs/2101.00001"),
        "https://sci-hub.se/pdf/2101.00001"
    );
    let preprint = "https://arxiv.org/abs/2101.00001";
    assert_eq!(Providers::arxiv(preprint), preprint);
}

#[test]
fn arxiv_on_another_gate() {
    assert_eq!(
        Providers::arxiv_on("https://github.com/abs/x/abs/y", ProviderDomain::GitHub),
        "https://github.com/pdf/x/pdf/y"
    );
    let unchanged = "https://sci-hub.se/abs/2101.00001";
    assert_eq!(Providers::arxiv_on(unchanged, ProviderDomain::GitHub), unchanged);
}

#[test]
fn provider_patterns_in_order() {
    let all = [
        ProviderDomain::Wikipedia,
        ProviderDomain::SciHub,
        ProviderDomain::GitHub,
        ProviderDomain::GitHubUserContent,
        ProviderDomain::Wikisource,
    ];
    let patterns: Vec<&str> = all.iter().map(|d| d.pattern()).collect();
    assert_eq!(
        patterns,
        vec!["wikipedia.org", "sci-hub.se", "github.com", "githubusercontent.com", "wikisource.org"]
    );
    assert!(ProviderDomain::GitHub.is_in("see github.com"));
    assert!(!ProviderDomain::GitHub.is_in("see githubusercontent.com"));
}

#[test]
fn known_provider_gate() {
    assert!(Providers::check_provider_domain("https://en.wikipedia.org/wiki/Cat"));
    assert!(!Providers::check_provider_domain("https://example.com/file.pdf"));
    assert!(Providers::check_provider_domain("https://sci-hub.se/10.1000/xyz123"));
    assert!(Providers::check_provider_domain("https://github.com/u/r"));
    assert!(Providers::check_provider_domain("https://raw.githubusercontent.com/u/r/f"));
    assert!(Providers::check_provider_domain("https://fr.wikisource.org/wiki/Texte"));
    assert!(!Providers::check_provider_domain(""));
    assert!(!Providers::check_provider_domain("https://en.Wikipedia.org/wiki/Cat"));
}

#[test]
fn identifier_of_a_scihub_link() {
    assert_eq!(Providers::extract_doi("https://sci-hub.se/10.1000/xyz123"), "10.1000/xyz123");
    assert_eq!(Providers::extract_doi("https://sci-hub.se/"), "");
}

#[test]
fn identifier_of_odd_links() {
    assert_eq!(Providers::extract_doi(""), "");
    assert_eq!(Providers::extract_doi("no-slash"), "");
    assert_eq!(Providers::extract_doi("a/"), "");
    assert_eq!(Providers::extract_doi("a//"), "");
    assert_eq!(Providers::extract_doi("https://sci-hub.se"), "");
    assert_eq!(Providers::extract_doi("a//b/c"), "c");
    assert_eq!(Providers::extract_doi("sci-hub.se/10.1000/xyz"), "xyz");
    assert_eq!(Providers::extract_doi("https://sci-hub.se/10.1000/é/x"), "10.1000/é/x");
}

#[test]
fn wikipedia_export_request() {
    let (uri, name) = Providers::wikipedia("https://fr.wikipedia.org/wiki/Chat");
    assert_eq!(uri, "https://fr.wikipedia.org/api/rest_v1/page/pdf/Chat");
    assert_eq!(name, "Chat.pdf");
    let (uri, name) = Providers::wikipedia("https://en.wikipedia.org/wiki/Cat");
    assert_eq!(uri, "https://en.wikipedia.org/api/rest_v1/page/pdf/Cat");
    assert_eq!(name, "Cat.pdf");
}

#[test]
fn wikisource_export_request() {
    let (uri, name) = Providers::wikisource("https://pt.wikisource.org/wiki/Os_Lusíadas");
    assert_eq!(uri, "https://pt.wikisource.org/api/rest_v1/page/pdf/Os_Lusíadas");
    assert_eq!(name, "Os_Lusíadas.pdf");
}

#[test]
fn wiki_article_with_a_slash_keeps_its_last_segment() {
    let (uri, name) = Providers::wikipedia("https://en.wikipedia.org/wiki/AC/DC");
    assert_eq!(uri, "https://en.wikipedia.org/api/rest_v1/page/pdf/DC");
    assert_eq!(name, "DC.pdf");
}

#[test]
fn resolve_wikipedia_needs_no_service() {
    let (end, asked) = drive("https://de.wikipedia.org/wiki/Katze", Err("x"), Err("x"), Err("x"));
    assert_eq!(end, target("https://de.wikipedia.org/api/rest_v1/page/pdf/Katze", "Katze.pdf"));
    assert!(asked.is_empty());
}

#[test]
fn resolve_wikisource_needs_no_service() {
    let (end, asked) = drive("https://en.wikisource.org/wiki/Hamlet", Err("x"), Err("x"), Err("x"));
    assert_eq!(end, target("https://en.wikisource.org/api/rest_v1/page/pdf/Hamlet", "Hamlet.pdf"));
    assert!(asked.is_empty());
}

#[test]
fn resolve_prefers_wikipedia_over_wikisource_over_scihub() {
    let first = Providers::get_from_provider("https://en.wikipedia.org/wiki/wikisource.org");
    assert_eq!(
        first,
        target("https://en.wikipedia.org/api/rest_v1/page/pdf/wikisource.org", "wikisource.org.pdf")
    );
    let second = Providers::get_from_provider("https://en.wikisource.org/wiki/sci-hub.se");
    assert_eq!(
        second,
        target("https://en.wikisource.org/api/rest_v1/page/pdf/sci-hub.se", "sci-hub.se.pdf")
    );
}

#[test]
fn resolve_unknown_link_passes_through() {
    let url = "https://example.com/file.pdf";
    assert_eq!(
        Providers::get_from_provider(url),
        Progress::Waiting(Pending::Probe { download_uri: url.to_string() })
    );
    let (end, asked) = drive(url, Err("x"), Err("x"), Ok("paper.pdf"));
    assert_eq!(end, target(url, "paper.pdf"));
    assert_eq!(asked, vec!["probe https://example.com/file.pdf"]);
}

#[test]
fn resolve_github_link_is_generic() {
    let url = "https://github.com/user/repo/blob/main/file.txt";
    let (end, asked) = drive(url, Err("x"), Err("x"), Ok("file.txt"));
    assert_eq!(end, target(url, "file.txt"));
    assert_eq!(asked.len(), 1);
}

#[test]
fn resolve_unknown_link_fails_with_the_probe() {
    let (end, _) = drive("https://example.com/file.pdf", Err("x"), Err("x"), Err("status 404"));
    assert_eq!(end, Progress::Failed(ResolveError::ProbeFailure("status 404".to_string())));
}

#[test]
fn resolve_scihub_asks_three_services_in_order() {
    let (end, asked) = drive(
        "https://sci-hub.se/10.1000/xyz123",
        Ok("https://sci-hub.se/landing"),
        Ok("https://cdn.example/x.pdf"),
        Ok("x.pdf"),
    );
    assert_eq!(end, target("https://cdn.example/x.pdf", "x.pdf"));
    assert_eq!(
        asked,
        vec![
            "lookup 10.1000/xyz123",
            "extract https://sci-hub.se/landing",
            "probe https://cdn.example/x.pdf"
        ]
    );
}

#[test]
fn resolve_scihub_without_identifier_asks_nothing() {
    assert_eq!(
        Providers::scihub("https://sci-hub.se/"),
        Progress::Failed(ResolveError::ExtractionFailure)
    );
    let (end, asked) = drive("https://sci-hub.se/", Ok("a"), Ok("b"), Ok("c"));
    assert_eq!(end, Progress::Failed(ResolveError::ExtractionFailure));
    assert!(asked.is_empty());
}

#[test]
fn resolve_scihub_lookup_failure() {
    let (end, asked) = drive("https://sci-hub.se/10.1/x", Err("no paper"), Ok("b"), Ok("c"));
    assert_eq!(end, Progress::Failed(ResolveError::LookupFailure("no paper".to_string())));
    assert_eq!(asked, vec!["lookup 10.1/x"]);
}

#[test]
fn resolve_scihub_extraction_of_download_fails() {
    let (end, asked) = drive("https://sci-hub.se/10.1/x", Ok("page"), Err("no link"), Ok("c"));
    assert_eq!(end, Progress::Failed(ResolveError::LookupFailure("no link".to_string())));
    assert_eq!(asked, vec!["lookup 10.1/x", "extract page"]);
}

#[test]
fn resolve_scihub_probe_failure() {
    let (end, asked) = drive("https://sci-hub.se/10.1/x", Ok("page"), Ok("pdf"), Err("403"));
    assert_eq!(end, Progress::Failed(ResolveError::ProbeFailure("403".to_string())));
    assert_eq!(asked, vec!["lookup 10.1/x", "extract page", "probe pdf"]);
}

#[test]
fn first_steps_of_the_direct_entry_points() {
    assert_eq!(
        Providers::scihub("https://sci-hub.se/10.1000/xyz123"),
        Progress::Waiting(Pending::Lookup { identifier: "10.1000/xyz123".to_string() })
    );
    assert_eq!(
        Providers::generic("anything"),
        Progress::Waiting(Pending::Probe { download_uri: "anything".to_string() })
    );
    assert_eq!(
        Providers::generic(""),
        Progress::Waiting(Pending::Probe { download_uri: String::new() })
    );
}

#[test]
fn no_resolution_reports_an_unsupported_link() {
    for url in ["", "x", "https://sci-hub.se/", "https://example.com/a"] {
        let (end, _) = drive(url, Err("l"), Err("e"), Err("p"));
        assert_ne!(end, Progress::Failed(ResolveError::UnsupportedUrl));
    }
}
