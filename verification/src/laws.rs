//! What holds of the rewriting and of the resolution for every link,
//! stated over the models that the functions' contracts use.

use vstd::prelude::*;
use crate::providers::{
    github_rewritten, identifier_of, is_known_provider, resolution_start, resolution_step,
    scihub_start, wiki_export_target, wiki_export_template, wikipedia_target, wikisource_target,
    Answer, ErrorView, PendingView, ProgressView, ProviderDomain, TargetView,
};
use crate::text::{
    contains, first_index, free_from, free_of, lemma_after_last_is_free,
    lemma_after_last_of_join, lemma_first_index_is, lemma_free_from,
    lemma_no_occurrence_without, lemma_replaced_at_first_occurrence,
    lemma_replaced_without_occurrence, occurs_at, replaced,
};
use crate::url::{last_part, subdomain};

verus! {

/// A remote service, as a function from what it is asked to what it answers.
pub type Service = spec_fn(Seq<char>) -> Answer;

/// The outcome of resolving `url` when the three services answer as given:
/// a wiki link needs none of them; a link to Sci-Hub needs an identifier,
/// then the lookup, the extraction and the probe, in this order, each on
/// what the one before gave; any other link needs the probe alone.
pub open spec fn resolved(url: Seq<char>, lookup: Service, extract: Service, probe: Service)
    -> Result<TargetView, ErrorView> {
    if ProviderDomain::Wikipedia.matches(url) {
        Ok(wikipedia_target(url))
    } else if ProviderDomain::Wikisource.matches(url) {
        Ok(wikisource_target(url))
    } else if ProviderDomain::SciHub.matches(url) {
        let identifier = identifier_of(url);
        if identifier.len() == 0 {
            Err(ErrorView::ExtractionFailure)
        } else {
            match lookup(identifier) {
                Err(text) => Err(ErrorView::LookupFailure(text)),
                Ok(landing_page) => match extract(landing_page) {
                    Err(text) => Err(ErrorView::LookupFailure(text)),
                    Ok(download_uri) => match probe(download_uri) {
                        Err(text) => Err(ErrorView::ProbeFailure(text)),
                        Ok(filename) => Ok(TargetView { download_uri, filename }),
                    },
                },
            }
        }
    } else {
        match probe(url) {
            Err(text) => Err(ErrorView::ProbeFailure(text)),
            Ok(filename) => Ok(TargetView { download_uri: url, filename }),
        }
    }
}

/// What the services answer to the request that `pending` names.
pub open spec fn answer_to(pending: PendingView, lookup: Service, extract: Service, probe: Service)
    -> Answer {
    match pending {
        PendingView::Lookup { identifier } => lookup(identifier),
        PendingView::Extract { landing_page } => extract(landing_page),
        PendingView::Probe { download_uri } => probe(download_uri),
    }
}

/// Where a resolution stands after at most `steps` answers.
pub open spec fn run(
    progress: ProgressView,
    lookup: Service,
    extract: Service,
    probe: Service,
    steps: nat,
) -> ProgressView
    decreases steps,
{
    match progress {
        ProgressView::Waiting(pending) if steps > 0 => run(
            resolution_step(pending, answer_to(pending, lookup, extract, probe)),
            lookup,
            extract,
            probe,
            (steps - 1) as nat,
        ),
        _ => progress,
    }
}

/// An outcome as the state in which a resolution ends.
pub open spec fn ended(outcome: Result<TargetView, ErrorView>) -> ProgressView {
    match outcome {
        Ok(target) => ProgressView::Finished(target),
        Err(error) => ProgressView::Failed(error),
    }
}

/// Stepping a resolution with the services' answers ends, after at most
/// three answers, in the outcome that the services determine.
pub proof fn law_steps_reach_outcome(
    url: Seq<char>,
    lookup: Service,
    extract: Service,
    probe: Service,
)
    ensures
        run(resolution_start(url), lookup, extract, probe, 3) == ended(
            resolved(url, lookup, extract, probe),
        ),
{
    reveal_with_fuel(run, 4);
}

/// A link that holds no provider's domain is its own download location,
/// and its file name is whatever the probe of that very link answers; a
/// failed probe is the only way such a resolution fails.
pub proof fn law_unknown_link_passes_through(
    url: Seq<char>,
    lookup: Service,
    extract: Service,
    probe: Service,
)
    requires
        !is_known_provider(url),
    ensures
        resolution_start(url) == ProgressView::Waiting(PendingView::Probe { download_uri: url }),
        resolved(url, lookup, extract, probe) == match probe(url) {
            Ok(filename) => Ok::<TargetView, ErrorView>(TargetView { download_uri: url, filename }),
            Err(text) => Err(ErrorView::ProbeFailure(text)),
        },
{
}

/// No step ever reports an unsupported link.
pub proof fn law_never_unsupported(
    url: Seq<char>,
    lookup: Service,
    extract: Service,
    probe: Service,
)
    ensures
        resolved(url, lookup, extract, probe) != Err::<TargetView, ErrorView>(
            ErrorView::UnsupportedUrl,
        ),
{
}

/// A finished resolution has a location and a name that are not empty,
/// provided that the link was not empty and no service answered with an
/// empty text.
pub proof fn law_targets_are_populated(
    url: Seq<char>,
    lookup: Service,
    extract: Service,
    probe: Service,
)
    requires
        url.len() > 0,
        forall|asked: Seq<char>| (#[trigger] extract(asked)) matches Ok(text) ==> text.len() > 0,
        forall|asked: Seq<char>| (#[trigger] probe(asked)) matches Ok(text) ==> text.len() > 0,
    ensures
        resolved(url, lookup, extract, probe) matches Ok(target) ==> target.is_populated(),
{
    reveal_strlit("https://");
    reveal_strlit(".pdf");
}

/// The export request of a wiki article always has a location and a name,
/// and the name holds no path separator, whatever the link looks like.
pub proof fn law_wiki_targets_are_safe(url: Seq<char>)
    ensures
        wikipedia_target(url).is_populated(),
        wikisource_target(url).is_populated(),
        wikipedia_target(url).filename == wikisource_target(url).filename,
        free_of(wikipedia_target(url).filename, '/'),
{
    reveal_strlit("https://");
    reveal_strlit(".pdf");
    lemma_after_last_is_free(url, '/');
}

/// A request is the template of its wiki with the default language edition
/// replaced by the one that the link names, followed by the article. This
/// holds for every wiki whose domain holds no `n`, and so for both wikis
/// that the library knows.
pub proof fn law_wiki_request_fills_template(url: Seq<char>, site: Seq<char>)
    requires
        free_of(site, 'n'),
    ensures
        wiki_export_target(url, site).download_uri == replaced(
            wiki_export_template(site),
            "en."@,
            subdomain(url) + "."@,
        ) + last_part(url),
        free_of(ProviderDomain::Wikipedia.pattern_of(), 'n'),
        free_of(ProviderDomain::Wikisource.pattern_of(), 'n'),
{
    reveal_strlit("https://en.");
    reveal_strlit("https://");
    reveal_strlit("en.");
    reveal_strlit(".");
    reveal_strlit("/api/rest_v1/page/pdf/");
    reveal_strlit("wikipedia.org");
    reveal_strlit("wikisource.org");
    let pat = "en."@;
    let to = subdomain(url) + "."@;
    let path = "/api/rest_v1/page/pdf/"@;
    let template = wiki_export_template(site);
    let tail = site + path;
    assert(free_of(path, 'n')) by {
        reveal_with_fuel(free_from, 24);
        assert(free_from(path, 'n', 0));
        lemma_free_from(path, 'n', 0);
    }
    assert(free_of(ProviderDomain::Wikipedia.pattern_of(), 'n')) by {
        reveal_with_fuel(free_from, 16);
        assert(free_from("wikipedia.org"@, 'n', 0));
        lemma_free_from("wikipedia.org"@, 'n', 0);
    }
    assert(free_of(ProviderDomain::Wikisource.pattern_of(), 'n')) by {
        reveal_with_fuel(free_from, 16);
        assert(free_from("wikisource.org"@, 'n', 0));
        lemma_free_from("wikisource.org"@, 'n', 0);
    }
    assert(free_of(tail, 'n')) by {
        assert forall|i: int| 0 <= i < tail.len() implies tail[i] != 'n' by {
            if i >= site.len() {
                assert(tail[i] == path[i - site.len()]);
            }
        }
    }
    lemma_no_occurrence_without(tail, pat, 'n', 1);
    lemma_replaced_without_occurrence(tail, pat, to);
    assert(template.subrange(8, 11) =~= pat);
    assert forall|j: int| 0 <= j < 8 implies !occurs_at(template, pat, j) by {
        if occurs_at(template, pat, j) {
            assert(template.subrange(j, j + 3)[1] == template[j + 1]);
            assert(template[j + 1] == 'n');
            assert(j == 0 || j == 1 || j == 2 || j == 3 || j == 4 || j == 5 || j == 6 || j == 7);
        }
    }
    lemma_replaced_at_first_occurrence(template, pat, to, 8);
    assert(template.skip(11) =~= tail);
    assert(template.take(8) =~= "https://"@);
    assert("https://"@ + to + tail + last_part(url) =~= "https://"@ + subdomain(url) + "."@ + site
        + path + last_part(url));
}

/// The identifier of a link with a scheme, a host and a path is the path
/// behind the host's slash, whatever it holds.
pub proof fn law_identifier_is_the_path(host: Seq<char>, path: Seq<char>)
    requires
        free_of(host, '/'),
    ensures
        identifier_of("https://"@ + host + "/"@ + path) == path,
{
    reveal_strlit("https://");
    reveal_strlit("/");
    let url = "https://"@ + host + "/"@ + path;
    lemma_first_index_is(url, '/', 6);
    let rest = url.skip(8);
    assert(rest =~= host + "/"@ + path);
    lemma_first_index_is(rest, '/', host.len() as int);
    assert(rest.skip(host.len() as int + 1) =~= path);
}

/// The lookup is never asked for an empty identifier: a link to Sci-Hub
/// without one fails before any service is asked.
pub proof fn law_lookup_needs_an_identifier(url: Seq<char>)
    ensures
        resolution_start(url) matches ProgressView::Waiting(PendingView::Lookup { identifier })
            ==> identifier.len() > 0,
        scihub_start(url) == ProgressView::Failed(ErrorView::ExtractionFailure)
            <==> identifier_of(url).len() == 0,
{
}

/// The link to the file at `path` in the repository `owner`/`repo`, as the
/// site shows it.
pub open spec fn github_blob_url(owner: Seq<char>, repo: Seq<char>, path: Seq<char>) -> Seq<char> {
    "https://github.com/"@ + owner + "/"@ + repo + "/blob/"@ + path
}

/// The link to the same file, as the site serves it.
pub open spec fn github_raw_url(owner: Seq<char>, repo: Seq<char>, path: Seq<char>) -> Seq<char> {
    "https://github.com/"@ + owner + "/"@ + repo + "/raw/"@ + path
}

/// The repository rewrite turns the link that shows a file into the link
/// that serves it. The owner and the repository are single path segments.
/// Left out are the links on which the rewrite does something else: one
/// whose owner or repository is named `blob`, one whose path holds `/blob/`
/// again, and one that holds `githubusercontent.com`.
pub proof fn law_github_blob_becomes_raw(owner: Seq<char>, repo: Seq<char>, path: Seq<char>)
    requires
        free_of(owner, '/'),
        free_of(repo, '/'),
        owner != "blob"@,
        repo != "blob"@,
        !contains(path, "/blob/"@),
        !ProviderDomain::GitHubUserContent.matches(github_blob_url(owner, repo, path)),
    ensures
        github_rewritten(github_blob_url(owner, repo, path)) == github_raw_url(owner, repo, path),
{
    reveal_strlit("https://github.com/");
    reveal_strlit("github.com");
    reveal_strlit("/");
    reveal_strlit("/blob/");
    reveal_strlit("/raw/");
    reveal_strlit("blob");
    let site = "https://github.com/"@;
    let pat = "/blob/"@;
    let url = github_blob_url(owner, repo, path);
    let q: int = owner.len() as int + 19;
    let p: int = q + 1 + repo.len();
    assert(url.len() == p + 6 + path.len());
    assert forall|i: int| 0 <= i < 19 implies url[i] == site[i] by {}
    assert forall|i: int| 0 <= i < owner.len() implies url[19 + i] == owner[i] by {}
    assert(url[q] == '/');
    assert forall|i: int| 0 <= i < repo.len() implies url[q + 1 + i] == repo[i] by {}
    assert forall|i: int| 0 <= i < 6 implies url[p + i] == pat[i] by {}
    assert(url.subrange(8, 18) =~= "github.com"@);
    assert(occurs_at(url, "github.com"@, 8));
    assert(url.subrange(p, p + 6) =~= pat);
    assert forall|j: int| 0 <= j < p implies !occurs_at(url, pat, j) by {
        if occurs_at(url, pat, j) {
            let found = url.subrange(j, j + 6);
            assert(found == pat);
            assert(found[0] == url[j] && found[5] == url[j + 5]);
            assert(found[1] == url[j + 1] && found[2] == url[j + 2]);
            assert(found[3] == url[j + 3] && found[4] == url[j + 4]);
            assert(url[j] == '/' && url[j + 5] == '/');
            assert(url[j + 1] == 'b' && url[j + 2] == 'l' && url[j + 3] == 'o' && url[j + 4]
                == 'b');
            if j < 19 {
                assert(j == 6 || j == 7 || j == 18);
                assert(j == 18);
                if owner.len() < 4 {
                    assert(url[q] == '/');
                } else if owner.len() > 4 {
                    assert(url[23] == owner[4]);
                } else {
                    assert(owner =~= "blob"@);
                }
            } else if j < q {
                assert(url[j] == owner[j - 19]);
            } else if j == q {
                if repo.len() < 4 {
                    assert(url[p] == '/');
                } else if repo.len() > 4 {
                    assert(url[q + 1 + 4] == repo[4]);
                } else {
                    assert(repo =~= "blob"@);
                }
            } else {
                assert(url[j] == repo[j - q - 1]);
            }
        }
    }
    lemma_replaced_at_first_occurrence(url, pat, "/raw/"@, p);
    lemma_replaced_without_occurrence(path, pat, "/raw/"@);
    assert(url.skip(p + 6) =~= path);
    assert(url.take(p) + "/raw/"@ + path =~= github_raw_url(owner, repo, path));
}

/// A link that holds no `/blob/` comes back from the repository rewrite
/// unchanged; so does a link that was rewritten before, unless the rewrite
/// left a `/blob/` in it.
pub proof fn law_github_without_blob_is_fixed(url: Seq<char>)
    requires
        !contains(url, "/blob/"@),
    ensures
        github_rewritten(url) == url,
{
    reveal_strlit("/blob/");
    lemma_replaced_without_occurrence(url, "/blob/"@, "/raw/"@);
}

/// The link to `article` on the Wikipedia of the language `locale`.
pub open spec fn wikipedia_article_url(locale: Seq<char>, article: Seq<char>) -> Seq<char> {
    "https://"@ + locale + ".wikipedia.org/wiki/"@ + article
}

/// Resolving the link to a Wikipedia article needs no remote answer: the
/// file name is the article's name with `.pdf`, and the request goes to the
/// export service of the same language edition. The language is one host
/// label and the article one path segment.
pub proof fn law_wikipedia_article_export(
    locale: Seq<char>,
    article: Seq<char>,
    lookup: Service,
    extract: Service,
    probe: Service,
)
    requires
        free_of(locale, '.'),
        free_of(locale, '/'),
        free_of(article, '/'),
    ensures
        resolved(wikipedia_article_url(locale, article), lookup, extract, probe) == Ok::<
            TargetView,
            ErrorView,
        >(
            TargetView {
                download_uri: "https://"@ + locale + ".wikipedia.org/api/rest_v1/page/pdf/"@
                    + article,
                filename: article + ".pdf"@,
            },
        ),
        resolution_start(wikipedia_article_url(locale, article)) == ended(
            resolved(wikipedia_article_url(locale, article), lookup, extract, probe),
        ),
{
    reveal_strlit("https://");
    reveal_strlit(".wikipedia.org/wiki/");
    reveal_strlit("wikipedia.org");
    reveal_strlit(".");
    reveal_strlit("/api/rest_v1/page/pdf/");
    reveal_strlit(".wikipedia.org/api/rest_v1/page/pdf/");
    let url = wikipedia_article_url(locale, article);
    let n: int = locale.len() as int + 8;
    assert(url.subrange(n + 1, n + 14) =~= "wikipedia.org"@);
    assert(occurs_at(url, "wikipedia.org"@, n + 1));
    assert(url =~= url.take(n + 20 - 1) + seq!['/'] + article);
    lemma_after_last_of_join(url.take(n + 20 - 1), '/', article);
    assert(last_part(url) == article);
    assert forall|j: int| 0 <= j < n implies url[j] != '.' by {
        if j >= 8 {
            assert(url[j] == locale[j - 8]);
        }
    }
    lemma_first_index_is(url, '.', n);
    assert(first_index(url, '.') == n);
    assert(url.take(n) =~= url.take(7) + seq!['/'] + locale);
    lemma_after_last_of_join(url.take(7), '/', locale);
    assert(subdomain(url) == locale);
    assert("https://"@ + locale + "."@ + "wikipedia.org"@ + "/api/rest_v1/page/pdf/"@ + article
        =~= "https://"@ + locale + ".wikipedia.org/api/rest_v1/page/pdf/"@ + article);
}

} // verus!
