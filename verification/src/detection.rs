//! Git hosting provider detection from repository and pull request URLs.

use vstd::prelude::*;

use crate::external::{to_lowercase, unicode_lowercase};
use crate::text::{
    chars_of, contains_chars, contains_seq, string_views, strip_prefix_chars, strip_prefix_seq,
};

verus! {

/// The git hosting services this library tells apart.
#[derive(Clone, Copy, Debug, PartialEq, Eq, Structural)]
pub enum ProviderKind {
    GitHub,
    AzureDevOps,
    GitLab,
    Unknown,
}

/// The hostname a configured GitLab domain stands for: the lower-cased domain
/// without a leading `https://` or, failing that, `http://`.
pub open spec fn gitlab_hostname(domain_lower: Seq<char>) -> Seq<char> {
    match strip_prefix_seq(domain_lower, "https://"@) {
        Some(rest) => rest,
        None => match strip_prefix_seq(domain_lower, "http://"@) {
            Some(rest) => rest,
            None => domain_lower,
        },
    }
}

/// The lower-cased URL contains the hostname of one of the configured domains.
pub open spec fn mentions_custom_domain(url_lower: Seq<char>, domains: Seq<Seq<char>>) -> bool {
    exists|i: int|
        0 <= i < domains.len() && contains_seq(
            url_lower,
            gitlab_hostname(unicode_lowercase(#[trigger] domains[i])),
        )
}

/// The lower-cased URL names an Azure DevOps host.
pub open spec fn mentions_azure_host(u: Seq<char>) -> bool {
    contains_seq(u, "dev.azure.com"@) || contains_seq(u, ".visualstudio.com"@) || contains_seq(
        u,
        "ssh.dev.azure.com"@,
    )
}

/// The provider of a lower-cased URL, checked in this order: `github.com`,
/// the Azure DevOps hosts, an Azure `/_git/` path, `gitlab.com`, the
/// configured GitLab domains, and last any `github.` host (GitHub Enterprise).
pub open spec fn provider_of_lowered(u: Seq<char>, domains: Seq<Seq<char>>) -> ProviderKind {
    if contains_seq(u, "github.com"@) {
        ProviderKind::GitHub
    } else if mentions_azure_host(u) {
        ProviderKind::AzureDevOps
    } else if contains_seq(u, "/_git/"@) {
        ProviderKind::AzureDevOps
    } else if contains_seq(u, "gitlab.com"@) {
        ProviderKind::GitLab
    } else if mentions_custom_domain(u, domains) {
        ProviderKind::GitLab
    } else if contains_seq(u, "github."@) {
        ProviderKind::GitHub
    } else {
        ProviderKind::Unknown
    }
}

/// The provider of a remote URL, given the configured GitLab domains.
pub open spec fn provider_of_url(url: Seq<char>, domains: Seq<Seq<char>>) -> ProviderKind {
    provider_of_lowered(unicode_lowercase(url), domains)
}

/// The provider of a pull or merge request URL: the request path markers
/// decide first, and the repository URL rules decide otherwise.
pub open spec fn provider_of_pr_url(url: Seq<char>, domains: Seq<Seq<char>>) -> ProviderKind {
    let u = unicode_lowercase(url);
    if contains_seq(u, "/pull/"@) && (contains_seq(u, "github.com"@) || contains_seq(u, "github."@)) {
        ProviderKind::GitHub
    } else if contains_seq(u, "/pullrequest/"@) {
        ProviderKind::AzureDevOps
    } else if contains_seq(u, "/-/merge_requests/"@) {
        ProviderKind::GitLab
    } else {
        provider_of_url(url, domains)
    }
}

fn has(haystack: &[char], needle: &str) -> (b: bool)
    ensures
        b == contains_seq(haystack@, needle@),
{
    let n = chars_of(needle);
    contains_chars(haystack, &n)
}

/// The hostname of a configured GitLab domain.
fn hostname_of_domain(domain: &String) -> (h: Vec<char>)
    ensures
        h@ == gitlab_hostname(unicode_lowercase(domain@)),
{
    let lower = to_lowercase(domain.as_str());
    let lc = chars_of(lower.as_str());
    let https = chars_of("https://");
    match strip_prefix_chars(&lc, &https) {
        Some(rest) => rest,
        None => {
            let http = chars_of("http://");
            match strip_prefix_chars(&lc, &http) {
                Some(rest) => rest,
                None => lc,
            }
        },
    }
}

/// Detect the git hosting provider from a remote URL.
///
/// Supports GitHub.com (`https://github.com/owner/repo`,
/// `git@github.com:owner/repo.git`), GitHub Enterprise (hosts containing
/// `github.`), Azure DevOps (`https://dev.azure.com/org/project/_git/repo` and
/// the legacy `https://org.visualstudio.com/...`) and GitLab.com.
pub fn detect_provider_from_url(url: &str) -> (kind: ProviderKind)
    ensures
        kind == provider_of_url(url@, Seq::empty()),
{
    let none: Vec<String> = Vec::new();
    let kind = detect_provider_from_url_with_custom_gitlab_domains(url, none.as_slice());
    assert(string_views(none@) == Seq::<Seq<char>>::empty());
    kind
}

/// Detect the git hosting provider from a remote URL, with additional custom
/// GitLab hostnames for self-hosted instances.
pub fn detect_provider_from_url_with_custom_gitlab_domains(
    url: &str,
    custom_gitlab_domains: &[String],
) -> (kind: ProviderKind)
    ensures
        kind == provider_of_url(url@, string_views(custom_gitlab_domains@)),
{
    let url_lower = to_lowercase(url);
    let u = chars_of(url_lower.as_str());
    let ghost domains = string_views(custom_gitlab_domains@);
    if has(&u, "github.com") {
        return ProviderKind::GitHub;
    }
    // Azure patterns come before GitHub Enterprise to avoid false positives.
    if has(&u, "dev.azure.com") || has(&u, ".visualstudio.com") || has(&u, "ssh.dev.azure.com") {
        return ProviderKind::AzureDevOps;
    }
    // `/_git/` is unique to Azure DevOps.
    if has(&u, "/_git/") {
        return ProviderKind::AzureDevOps;
    }
    if has(&u, "gitlab.com") {
        return ProviderKind::GitLab;
    }
    let mut i: usize = 0;
    while i < custom_gitlab_domains.len()
        invariant
            i <= custom_gitlab_domains@.len(),
            domains == string_views(custom_gitlab_domains@),
            u@ == unicode_lowercase(url@),
            !contains_seq(u@, "github.com"@),
            !mentions_azure_host(u@),
            !contains_seq(u@, "/_git/"@),
            !contains_seq(u@, "gitlab.com"@),
            forall|j: int|
                0 <= j < i ==> !contains_seq(u@, gitlab_hostname(unicode_lowercase(#[trigger] domains[j]))),
        decreases custom_gitlab_domains.len() - i,
    {
        let hostname = hostname_of_domain(&custom_gitlab_domains[i]);
        assert(domains[i as int] == custom_gitlab_domains@[i as int]@);
        if contains_chars(&u, &hostname) {
            assert(contains_seq(u@, gitlab_hostname(unicode_lowercase(domains[i as int]))));
            return ProviderKind::GitLab;
        }
        i += 1;
    }
    assert(!mentions_custom_domain(u@, domains));
    // GitHub Enterprise: `github.` but none of the patterns above.
    if has(&u, "github.") {
        return ProviderKind::GitHub;
    }
    ProviderKind::Unknown
}

/// Detect the git hosting provider from a pull or merge request URL, such as
/// `https://github.com/owner/repo/pull/123`,
/// `https://dev.azure.com/org/project/_git/repo/pullrequest/123` or
/// `https://gitlab.com/owner/repo/-/merge_requests/123`.
pub fn detect_provider_from_pr_url(pr_url: &str) -> (kind: ProviderKind)
    ensures
        kind == provider_of_pr_url(pr_url@, Seq::empty()),
{
    let none: Vec<String> = Vec::new();
    let kind = detect_provider_from_pr_url_with_custom_gitlab_domains(pr_url, none.as_slice());
    assert(string_views(none@) == Seq::<Seq<char>>::empty());
    kind
}

/// Detect the git hosting provider from a pull or merge request URL, with
/// additional custom GitLab hostnames for self-hosted instances.
pub fn detect_provider_from_pr_url_with_custom_gitlab_domains(
    pr_url: &str,
    custom_gitlab_domains: &[String],
) -> (kind: ProviderKind)
    ensures
        kind == provider_of_pr_url(pr_url@, string_views(custom_gitlab_domains@)),
{
    let url_lower = to_lowercase(pr_url);
    let u = chars_of(url_lower.as_str());
    // GitHub: `/pull/` in the path.
    if has(&u, "/pull/") {
        if has(&u, "github.com") || has(&u, "github.") {
            return ProviderKind::GitHub;
        }
    }
    // Azure DevOps: `/pullrequest/` in the path.
    if has(&u, "/pullrequest/") {
        return ProviderKind::AzureDevOps;
    }
    // GitLab: `/-/merge_requests/` in the path.
    if has(&u, "/-/merge_requests/") {
        return ProviderKind::GitLab;
    }
    detect_provider_from_url_with_custom_gitlab_domains(pr_url, custom_gitlab_domains)
}


/// Configured GitLab domains can only turn a detection into GitLab: with any
/// domains, a URL gets either the provider it gets with none, or GitLab.
pub proof fn law_custom_domains_only_add_gitlab(url: Seq<char>, domains: Seq<Seq<char>>)
    ensures
        provider_of_url(url, domains) == provider_of_url(url, Seq::empty()) || provider_of_url(
            url,
            domains,
        ) == ProviderKind::GitLab,
{
    assert(!mentions_custom_domain(unicode_lowercase(url), Seq::empty()));
}

/// A URL that names `github.com`, an Azure DevOps host or path, or
/// `gitlab.com` is detected the same way whatever GitLab domains are configured.
pub proof fn law_known_hosts_ignore_custom_domains(url: Seq<char>, domains: Seq<Seq<char>>)
    requires
        ({
            let u = unicode_lowercase(url);
            contains_seq(u, "github.com"@) || mentions_azure_host(u) || contains_seq(u, "/_git/"@)
                || contains_seq(u, "gitlab.com"@)
        }),
    ensures
        provider_of_url(url, domains) == provider_of_url(url, Seq::empty()),
{
}

/// Azure DevOps URLs are recognised before GitHub Enterprise: a URL with an
/// Azure host or `/_git/` path is Azure DevOps even when it also contains
/// `github.`, unless it names `github.com`.
pub proof fn law_azure_before_github_enterprise(url: Seq<char>, domains: Seq<Seq<char>>)
    requires
        ({
            let u = unicode_lowercase(url);
            !contains_seq(u, "github.com"@) && (mentions_azure_host(u) || contains_seq(u, "/_git/"@))
        }),
    ensures
        provider_of_url(url, domains) == ProviderKind::AzureDevOps,
{
}

/// Detection ignores case: URLs that lower-case to the same string get the
/// same provider.
pub proof fn law_detection_ignores_case(a: Seq<char>, b: Seq<char>, domains: Seq<Seq<char>>)
    requires
        unicode_lowercase(a) == unicode_lowercase(b),
    ensures
        provider_of_url(a, domains) == provider_of_url(b, domains),
        provider_of_pr_url(a, domains) == provider_of_pr_url(b, domains),
{
}

/// A configured domain written with an `https://` or `http://` scheme stands
/// for the same hostname as the bare domain.
pub proof fn law_domain_scheme_is_ignored(host: Seq<char>)
    requires
        strip_prefix_seq(host, "https://"@) is None,
        strip_prefix_seq(host, "http://"@) is None,
    ensures
        gitlab_hostname("https://"@ + host) == gitlab_hostname(host),
        gitlab_hostname(host) == host,
{
    let p = "https://"@;
    assert((p + host).subrange(0, p.len() as int) == p);
    assert((p + host).skip(p.len() as int) == host);
}

/// With one configured domain, writing it with an `https://` scheme detects
/// every URL the same way as writing the bare domain.
pub proof fn law_domain_scheme_does_not_change_detection(
    url: Seq<char>,
    with_scheme: Seq<char>,
    bare: Seq<char>,
)
    requires
        unicode_lowercase(with_scheme) == "https://"@ + unicode_lowercase(bare),
        strip_prefix_seq(unicode_lowercase(bare), "https://"@) is None,
        strip_prefix_seq(unicode_lowercase(bare), "http://"@) is None,
    ensures
        provider_of_url(url, seq![with_scheme]) == provider_of_url(url, seq![bare]),
{
    law_domain_scheme_is_ignored(unicode_lowercase(bare));
    let u = unicode_lowercase(url);
    let h = unicode_lowercase(bare);
    assert(gitlab_hostname(unicode_lowercase(with_scheme)) == h);
    if contains_seq(u, h) {
        assert(seq![with_scheme][0] == with_scheme);
        assert(seq![bare][0] == bare);
        assert(mentions_custom_domain(u, seq![with_scheme]));
        assert(mentions_custom_domain(u, seq![bare]));
    } else {
        assert(!mentions_custom_domain(u, seq![with_scheme]));
        assert(!mentions_custom_domain(u, seq![bare]));
    }
}

/// Request URL detection departs from repository URL detection only because
/// of a request marker in the path: `/pull/`, `/pullrequest/` or
/// `/-/merge_requests/`.
pub proof fn law_pr_detection_follows_url_detection(url: Seq<char>, domains: Seq<Seq<char>>)
    ensures
        provider_of_pr_url(url, domains) == provider_of_url(url, domains) || ({
            let u = unicode_lowercase(url);
            contains_seq(u, "/pull/"@) || contains_seq(u, "/pullrequest/"@) || contains_seq(
                u,
                "/-/merge_requests/"@,
            )
        }),
{
}


/// Every configured GitLab domain counts, wherever it stands in the list: when
/// none of the built-in hosts matches and the lower-cased URL contains the
/// hostname of any one configured domain, the URL is GitLab.
pub proof fn law_every_custom_domain_is_checked(url: Seq<char>, domains: Seq<Seq<char>>, i: int)
    requires
        0 <= i < domains.len(),
        contains_seq(unicode_lowercase(url), gitlab_hostname(unicode_lowercase(domains[i]))),
        !contains_seq(unicode_lowercase(url), "github.com"@),
        !mentions_azure_host(unicode_lowercase(url)),
        !contains_seq(unicode_lowercase(url), "/_git/"@),
    ensures
        provider_of_url(url, domains) == ProviderKind::GitLab,
{
    let u = unicode_lowercase(url);
    assert(contains_seq(u, gitlab_hostname(unicode_lowercase(domains[i]))));
    assert(mentions_custom_domain(u, domains));
}

} // verus!
