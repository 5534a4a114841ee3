//! The GitLab CLI (`glab`) layer: repository information from remote URLs,
//! the arguments of each `glab` command, the classification of failed runs,
//! and the conversion of `glab` output into merge request records.

use vstd::prelude::*;
use vstd::utf8::encode_utf8;

use crate::external::{
    parse_rfc3339, parse_url, percent_encode_bytes, rfc3339_instant, to_lowercase,
    unicode_lowercase, url_encode, url_host, url_parses, url_path, Timestamp,
};
use crate::text::{
    after_last, after_last_chars, ascii_lowercase, ascii_lowercase_chars, chars_of, contains_chars,
    contains_seq, copy_opt_string, copy_string, decimal_string, has_prefix, has_suffix,
    int_decimal, is_ascii_digit, is_first_index, law_decimal_round_trip,
    lemma_after_last_of_suffix, lemma_int_decimal_chars, lemma_trim_end_class_keeps,
    lemma_trim_end_seq_done, opt_view, parse_i64_chars, parse_i64_seq, spells, split_chars,
    split_class, split_once_chars, split_once_seq, starts_with_chars, string_from_chars,
    string_views, strip_prefix_chars, strip_prefix_seq, trim_chars, trim_class, trim_end_chars,
    trim_end_class, trim_end_matching, trim_end_seq, trim_start_chars, trim_start_class, trim_ws,
    views, words, words_of, CharClass,
};

verus! {

/// A GitLab project as named by a remote URL.
#[derive(Debug, Clone)]
pub struct GitLabRepoInfo {
    pub project_path: String,
    pub hostname: Option<String>,
}

impl GitLabRepoInfo {
    /// The project argument that `glab --repo` takes.
    pub fn repo_spec(&self) -> (spec: String)
        ensures
            spec@ == self.project_path@,
    {
        self.project_path.clone()
    }
}

/// Failures of the GitLab CLI.
#[derive(Debug)]
pub enum GlabCliError {
    /// The `glab` executable was not found or could not be run.
    NotAvailable,
    /// A `glab` command failed; the message is its standard error.
    CommandFailed(String),
    /// `glab` reported that it is not authenticated.
    AuthFailed(String),
    /// `glab` printed something this library cannot read.
    UnexpectedOutput(String),
}

/// Access to the GitLab CLI.
#[derive(Debug, Clone, Copy, Default)]
pub struct GlabCli;

/// The error message for a remote URL that names no project.
pub open spec fn unparsable_url_message(url: Seq<char>) -> Seq<char> {
    "Could not parse GitLab project from URL: "@ + url
}

/// The project path and host of an SSH remote `git@host:path`, with every
/// trailing `.git` removed from the path.
pub open spec fn ssh_repo_info(url: Seq<char>) -> Option<(Seq<char>, Seq<char>)> {
    match strip_prefix_seq(url, "git@"@) {
        Some(rest) => match split_once_seq(rest, ':') {
            Some((host, path)) => Some((trim_end_seq(path, ".git"@), host)),
            None => None,
        },
        None => None,
    }
}

/// The project path of a URL: its path without leading `/` and trailing `.git`.
pub open spec fn url_project_path(url: Seq<char>) -> Seq<char> {
    trim_end_seq(trim_start_class(url_path(url), CharClass::Exactly('/')), ".git"@)
}

/// The project path and host named by a remote URL: the SSH form is tried
/// first, then an absolute URL with a non-empty project path.
pub open spec fn repo_info_of_url(url: Seq<char>) -> Option<(Seq<char>, Option<Seq<char>>)> {
    match ssh_repo_info(url) {
        Some((path, host)) => Some((path, Some(host))),
        None => if url_parses(url) && url_project_path(url).len() > 0 {
            Some((url_project_path(url), url_host(url)))
        } else {
            None
        },
    }
}

/// The outcome of reading repository information from a remote URL.
pub open spec fn repo_info_result(url: Seq<char>, r: Result<GitLabRepoInfo, GlabCliError>) -> bool {
    match repo_info_of_url(url) {
        Some((path, host)) => r matches Ok(info) && info.project_path@ == path && opt_view(info.hostname) == host,
        None => r matches Err(GlabCliError::UnexpectedOutput(m)) && m@ == unparsable_url_message(url),
    }
}

impl GlabCli {
    pub fn new() -> (cli: Self) {
        GlabCli
    }

    /// Extract the project path (owner/repo) and hostname from a remote URL.
    pub fn get_repo_info(&self, remote_url: &str, _repo_path: &str) -> (r: Result<
        GitLabRepoInfo,
        GlabCliError,
    >)
        ensures
            repo_info_result(remote_url@, r),
    {
        Self::parse_repo_info_from_url(remote_url)
    }

    /// Extract the project path and hostname from `git@host:path` or from an
    /// absolute URL such as `https://gitlab.com/owner/repo.git`.
    pub fn parse_repo_info_from_url(remote_url: &str) -> (r: Result<GitLabRepoInfo, GlabCliError>)
        ensures
            repo_info_result(remote_url@, r),
    {
        let url = chars_of(remote_url);
        let git_at = chars_of("git@");
        let dot_git = chars_of(".git");
        // SSH format: git@gitlab.com:owner/repo.git
        if let Some(rest) = strip_prefix_chars(&url, &git_at) {
            if let Some((host, path)) = split_once_chars(&rest, ':') {
                let project = trim_end_matching(&path, &dot_git);
                return Ok(
                    GitLabRepoInfo {
                        project_path: string_from_chars(&project),
                        hostname: Some(string_from_chars(&host)),
                    },
                );
            }
        }
        // HTTPS format: https://gitlab.com/owner/repo.git
        if let Some(parts) = parse_url(remote_url) {
            let path = chars_of(parts.path.as_str());
            let trimmed = trim_start_chars(&path, CharClass::Exactly('/'));
            let project = trim_end_matching(&trimmed, &dot_git);
            if project.len() > 0 {
                return Ok(
                    GitLabRepoInfo { project_path: string_from_chars(&project), hostname: parts.host },
                );
            }
        }
        let mut msg = copy_string("Could not parse GitLab project from URL: ");
        msg.append(remote_url);
        Err(GlabCliError::UnexpectedOutput(msg))
    }
}


/// A request to open a merge request.
#[derive(Debug, Clone)]
pub struct CreatePrRequest {
    pub title: String,
    pub body: Option<String>,
    pub head_branch: String,
    pub base_branch: String,
    pub draft: Option<bool>,
    pub head_repo_url: Option<String>,
}

/// The description text of a request: its body, or the empty string.
pub open spec fn body_text(request: CreatePrRequest) -> Seq<char> {
    match request.body {
        Some(b) => b@,
        None => Seq::empty(),
    }
}

/// The arguments of `glab mr create` for a request.
pub open spec fn mr_create_args(request: CreatePrRequest, repo_spec: Seq<char>) -> Seq<Seq<char>> {
    let args = seq![
        "mr"@,
        "create"@,
        "--repo"@,
        repo_spec,
        "--source-branch"@,
        request.head_branch@,
        "--target-branch"@,
        request.base_branch@,
        "--title"@,
        request.title@,
        "--description"@,
        body_text(request),
        "--no-editor"@,
        "--output"@,
        "json"@,
    ];
    if request.draft == Some(true) {
        args.push("--draft"@)
    } else {
        args
    }
}

/// The API path of the notes of a merge request, sorted oldest first.
pub open spec fn mr_notes_api_path(repo_spec: Seq<char>, mr_iid: i64) -> Seq<char> {
    "projects/"@ + percent_encode_bytes(encode_utf8(repo_spec)) + "/merge_requests/"@
        + int_decimal(mr_iid as int) + "/notes?sort=asc&per_page=100"@
}

/// The substrings of a lower-cased error output that mean `glab` is not
/// authenticated.
pub open spec fn reports_auth_failure(lower: Seq<char>) -> bool {
    ||| contains_seq(lower, "glab auth login"@)
    ||| contains_seq(lower, "not logged in"@)
    ||| contains_seq(lower, "authentication"@)
    ||| contains_seq(lower, "unauthorized"@)
    ||| contains_seq(lower, "401"@)
}

/// The error for a failed `glab` run, from its trimmed standard error.
pub open spec fn run_failure(stderr: Seq<char>, e: GlabCliError) -> bool {
    let text = trim_ws(stderr);
    if reports_auth_failure(ascii_lowercase(text)) {
        e matches GlabCliError::AuthFailed(m) && m@ == text
    } else {
        e matches GlabCliError::CommandFailed(m) && m@ == text
    }
}

fn push_arg(args: &mut Vec<String>, a: &str)
    ensures
        string_views(final(args)@) == string_views(old(args)@).push(a@),
{
    let s = copy_string(a);
    args.push(s);
    assert(string_views(args@) =~= string_views(old(args)@).push(a@));
}

impl GlabCli {
    /// The description text that `glab mr create` receives.
    pub fn mr_body(request: &CreatePrRequest) -> (body: String)
        ensures
            body@ == body_text(*request),
    {
        match &request.body {
            Some(b) => copy_string(b.as_str()),
            None => String::new(),
        }
    }

    /// The arguments of `glab mr create` for a request on a project.
    pub fn create_mr_args(&self, request: &CreatePrRequest, repo_info: &GitLabRepoInfo) -> (args:
        Vec<String>)
        ensures
            string_views(args@) == mr_create_args(*request, repo_info.project_path@),
    {
        let repo_spec = repo_info.repo_spec();
        let body = Self::mr_body(request);
        let mut args: Vec<String> = Vec::new();
        push_arg(&mut args, "mr");
        push_arg(&mut args, "create");
        push_arg(&mut args, "--repo");
        push_arg(&mut args, repo_spec.as_str());
        push_arg(&mut args, "--source-branch");
        push_arg(&mut args, request.head_branch.as_str());
        push_arg(&mut args, "--target-branch");
        push_arg(&mut args, request.base_branch.as_str());
        push_arg(&mut args, "--title");
        push_arg(&mut args, request.title.as_str());
        push_arg(&mut args, "--description");
        push_arg(&mut args, body.as_str());
        push_arg(&mut args, "--no-editor");
        push_arg(&mut args, "--output");
        push_arg(&mut args, "json");
        let draft = match request.draft {
            Some(d) => d,
            None => false,
        };
        if draft {
            push_arg(&mut args, "--draft");
        }
        args
    }

    /// The arguments of `glab mr view` for a merge request URL.
    pub fn view_mr_args(&self, mr_url: &str) -> (args: Vec<String>)
        ensures
            string_views(args@) == seq!["mr"@, "view"@, mr_url@, "--output"@, "json"@],
    {
        let mut args: Vec<String> = Vec::new();
        push_arg(&mut args, "mr");
        push_arg(&mut args, "view");
        push_arg(&mut args, mr_url);
        push_arg(&mut args, "--output");
        push_arg(&mut args, "json");
        args
    }

    /// The arguments of `glab mr list` for every merge request from a branch.
    pub fn list_mrs_for_branch_args(&self, repo_info: &GitLabRepoInfo, branch: &str) -> (args: Vec<
        String,
    >)
        ensures
            string_views(args@) == seq![
                "mr"@,
                "list"@,
                "--repo"@,
                repo_info.project_path@,
                "--source-branch"@,
                branch@,
                "--all"@,
                "--output"@,
                "json"@,
            ],
    {
        let repo_spec = repo_info.repo_spec();
        let mut args: Vec<String> = Vec::new();
        push_arg(&mut args, "mr");
        push_arg(&mut args, "list");
        push_arg(&mut args, "--repo");
        push_arg(&mut args, repo_spec.as_str());
        push_arg(&mut args, "--source-branch");
        push_arg(&mut args, branch);
        push_arg(&mut args, "--all");
        push_arg(&mut args, "--output");
        push_arg(&mut args, "json");
        args
    }

    /// The arguments of `glab mr list` for the open merge requests of a project.
    pub fn list_open_mrs_args(&self, repo_info: &GitLabRepoInfo) -> (args: Vec<String>)
        ensures
            string_views(args@) == seq![
                "mr"@,
                "list"@,
                "--repo"@,
                repo_info.project_path@,
                "--state"@,
                "opened"@,
                "--output"@,
                "json"@,
            ],
    {
        let repo_spec = repo_info.repo_spec();
        let mut args: Vec<String> = Vec::new();
        push_arg(&mut args, "mr");
        push_arg(&mut args, "list");
        push_arg(&mut args, "--repo");
        push_arg(&mut args, repo_spec.as_str());
        push_arg(&mut args, "--state");
        push_arg(&mut args, "opened");
        push_arg(&mut args, "--output");
        push_arg(&mut args, "json");
        args
    }

    /// The arguments of `glab api` that fetch the notes of a merge request.
    pub fn mr_notes_args(&self, repo_info: &GitLabRepoInfo, mr_iid: i64) -> (args: Vec<String>)
        ensures
            string_views(args@) == seq!["api"@, mr_notes_api_path(repo_info.project_path@, mr_iid)],
    {
        let repo_spec = repo_info.repo_spec();
        let mut path = copy_string("projects/");
        let encoded = url_encode(repo_spec.as_str());
        path.append(encoded.as_str());
        path.append("/merge_requests/");
        let iid = decimal_string(mr_iid);
        path.append(iid.as_str());
        path.append("/notes?sort=asc&per_page=100");
        let mut args: Vec<String> = Vec::new();
        push_arg(&mut args, "api");
        push_arg(&mut args, path.as_str());
        args
    }

    /// The result of a finished `glab` run: its standard output on success;
    /// otherwise its trimmed standard error, as an authentication failure when
    /// that text mentions one and as a command failure otherwise.
    pub fn run_outcome(success: bool, stdout: String, stderr: &str) -> (r: Result<String, GlabCliError>)
        ensures
            success ==> (r matches Ok(out) && out@ == stdout@),
            !success ==> (r matches Err(e) && run_failure(stderr@, e)),
    {
        if success {
            return Ok(stdout);
        }
        let raw = chars_of(stderr);
        let text = trim_chars(&raw, CharClass::Whitespace);
        let lower = ascii_lowercase_chars(&text);
        let msg = string_from_chars(&text);
        let auth = contains_chars(&lower, &chars_of("glab auth login"))
            || contains_chars(&lower, &chars_of("not logged in"))
            || contains_chars(&lower, &chars_of("authentication"))
            || contains_chars(&lower, &chars_of("unauthorized"))
            || contains_chars(&lower, &chars_of("401"));
        if auth {
            Err(GlabCliError::AuthFailed(msg))
        } else {
            Err(GlabCliError::CommandFailed(msg))
        }
    }
}


/// The state of a merge request.
#[derive(Clone, Copy, Debug, PartialEq, Eq, Structural)]
pub enum MergeStatus {
    Open,
    Merged,
    Closed,
    Unknown,
}

/// A merge request as the git host layer reports it.
#[derive(Debug, Clone)]
pub struct PullRequestInfo {
    pub number: i64,
    pub url: String,
    pub status: MergeStatus,
    pub merged_at: Option<Timestamp>,
    pub merge_commit_sha: Option<String>,
}

/// An open merge request with its branches.
#[derive(Debug, Clone)]
pub struct OpenPrInfo {
    pub number: i64,
    pub url: String,
    pub title: String,
    pub head_branch: String,
    pub base_branch: String,
}

/// What `glab mr create --output json` reports.
#[derive(Debug, Clone)]
pub struct GlabMrCreated {
    pub iid: i64,
    pub web_url: String,
}

/// What `glab mr view` and `glab mr list` report of a merge request.
#[derive(Debug, Clone)]
pub struct GlabMrRecord {
    pub iid: i64,
    pub web_url: String,
    pub state: String,
    pub merged_at: Option<String>,
    pub merge_commit_sha: Option<String>,
}

/// What `glab mr list` reports of an open merge request.
#[derive(Debug, Clone)]
pub struct GlabOpenMrRecord {
    pub iid: i64,
    pub web_url: String,
    pub title: String,
    pub source_branch: String,
    pub target_branch: String,
}

/// Where a diff note is attached.
#[derive(Debug, Clone)]
pub struct GlabNotePosition {
    pub new_path: Option<String>,
    pub new_line: Option<i64>,
}

/// A note on a merge request, as the GitLab API reports it.
#[derive(Debug, Clone)]
pub struct GlabNote {
    pub id: i64,
    pub body: String,
    pub author_username: String,
    pub created_at: String,
    pub note_type: Option<String>,
    pub system: bool,
    pub position: Option<GlabNotePosition>,
}

/// A comment on a merge request: a general comment, or a review comment on a
/// line of the diff.
#[allow(inconsistent_fields)]
#[derive(Debug, Clone)]
pub enum UnifiedPrComment {
    General {
        id: String,
        author: String,
        author_association: Option<String>,
        body: String,
        created_at: Timestamp,
        url: Option<String>,
    },
    Review {
        id: i64,
        author: String,
        author_association: Option<String>,
        body: String,
        created_at: Timestamp,
        url: Option<String>,
        path: String,
        line: Option<i64>,
        side: Option<String>,
        diff_hunk: Option<String>,
    },
}

/// The state of a merge request from GitLab's state name, ignoring case.
pub open spec fn merge_status_of(state: Seq<char>) -> MergeStatus {
    let l = unicode_lowercase(state);
    if l == "opened"@ {
        MergeStatus::Open
    } else if l == "merged"@ {
        MergeStatus::Merged
    } else if l == "closed"@ {
        MergeStatus::Closed
    } else {
        MergeStatus::Unknown
    }
}

/// The instant an RFC 3339 date-time names, if it is one.
pub open spec fn instant_of(s: Seq<char>) -> Option<Timestamp> {
    match rfc3339_instant(s) {
        Some((secs, nanos)) => Some(Timestamp { secs, nanos }),
        None => None,
    }
}

/// The instant of an optional RFC 3339 date-time; `None` when absent or invalid.
pub open spec fn opt_instant(o: Option<String>) -> Option<Timestamp> {
    match o {
        Some(s) => instant_of(s@),
        None => None,
    }
}

/// `info` reports the merge request that `rec` describes.
pub open spec fn pr_info_of_record(info: PullRequestInfo, rec: GlabMrRecord) -> bool {
    &&& info.number == rec.iid
    &&& info.url@ == rec.web_url@
    &&& info.status == merge_status_of(rec.state@)
    &&& info.merged_at == opt_instant(rec.merged_at)
    &&& opt_view(info.merge_commit_sha) == opt_view(rec.merge_commit_sha)
}

/// `info` reports the open merge request that `rec` describes.
pub open spec fn open_pr_of_record(info: OpenPrInfo, rec: GlabOpenMrRecord) -> bool {
    &&& info.number == rec.iid
    &&& info.url@ == rec.web_url@
    &&& info.title@ == rec.title@
    &&& info.head_branch@ == rec.source_branch@
    &&& info.base_branch@ == rec.target_branch@
}

/// `info` reports a newly opened merge request with the given number and URL.
pub open spec fn opened_pr(info: PullRequestInfo, number: i64, url: Seq<char>) -> bool {
    &&& info.number == number
    &&& info.url@ == url
    &&& info.status == MergeStatus::Open
    &&& info.merged_at is None
    &&& info.merge_commit_sha is None
}

/// The message for output of `glab` that could not be decoded.
pub open spec fn decode_failure_message(what: Seq<char>, error: Seq<char>, raw: Seq<char>) -> Seq<
    char,
> {
    "Failed to parse "@ + what + " response: "@ + error + "; raw: "@ + raw
}

/// The notes that are not system notes, in order.
pub open spec fn user_notes(notes: Seq<GlabNote>) -> Seq<GlabNote>
    decreases notes.len(),
{
    if notes.len() == 0 {
        notes
    } else if notes.last().system {
        user_notes(notes.drop_last())
    } else {
        user_notes(notes.drop_last()).push(notes.last())
    }
}

/// The file a diff note is attached to, or the empty string.
pub open spec fn note_path(n: GlabNote) -> Seq<char> {
    match n.position {
        Some(p) => match p.new_path {
            Some(x) => x@,
            None => Seq::empty(),
        },
        None => Seq::empty(),
    }
}

/// The line a diff note is attached to.
pub open spec fn note_line(n: GlabNote) -> Option<i64> {
    match n.position {
        Some(p) => p.new_line,
        None => None,
    }
}

/// `c` is the comment for note `n`: a review comment for a `DiffNote`, a
/// general comment otherwise; the creation time is `now` when the note's time
/// does not parse.
pub open spec fn comment_of_note(c: UnifiedPrComment, n: GlabNote, now: Timestamp) -> bool {
    let created = match instant_of(n.created_at@) {
        Some(t) => t,
        None => now,
    };
    if opt_view(n.note_type) == Some("DiffNote"@) {
        c matches UnifiedPrComment::Review {
            id,
            author,
            author_association,
            body,
            created_at,
            url,
            path,
            line,
            side,
            diff_hunk,
        } && id == n.id && author@ == n.author_username@ && author_association is None && body@
            == n.body@ && created_at == created && url is None && path@ == note_path(n) && line
            == note_line(n) && side is None && diff_hunk is None
    } else {
        c matches UnifiedPrComment::General { id, author, author_association, body, created_at, url }
            && id@ == int_decimal(n.id as int) && author@ == n.author_username@
            && author_association is None && body@ == n.body@ && created_at == created && url is None
    }
}

impl GlabCli {
    /// The state of a merge request from GitLab's state name: `opened`,
    /// `merged` or `closed` in any case, and `Unknown` for anything else.
    pub fn map_gitlab_state(state: &str) -> (status: MergeStatus)
        ensures
            status == merge_status_of(state@),
    {
        let lower = to_lowercase(state);
        let l = chars_of(lower.as_str());
        if spells(&l, "opened") {
            MergeStatus::Open
        } else if spells(&l, "merged") {
            MergeStatus::Merged
        } else if spells(&l, "closed") {
            MergeStatus::Closed
        } else {
            MergeStatus::Unknown
        }
    }

    fn instant(s: &Option<String>) -> (t: Option<Timestamp>)
        ensures
            t == opt_instant(*s),
    {
        match s {
            Some(text) => parse_rfc3339(text.as_str()),
            None => None,
        }
    }

    /// The merge request that a `glab mr view` or `glab mr list` record describes.
    pub fn pr_info_from_record(rec: &GlabMrRecord) -> (info: PullRequestInfo)
        ensures
            pr_info_of_record(info, *rec),
    {
        PullRequestInfo {
            number: rec.iid,
            url: copy_string(rec.web_url.as_str()),
            status: Self::map_gitlab_state(rec.state.as_str()),
            merged_at: Self::instant(&rec.merged_at),
            merge_commit_sha: copy_opt_string(&rec.merge_commit_sha),
        }
    }

    fn decode_failure(what: &str, error: &str, raw: &str) -> (e: GlabCliError)
        ensures
            e matches GlabCliError::UnexpectedOutput(m) && m@ == decode_failure_message(what@, error@, raw@),
    {
        let mut m = copy_string("Failed to parse ");
        m.append(what);
        m.append(" response: ");
        m.append(error);
        m.append("; raw: ");
        m.append(raw);
        GlabCliError::UnexpectedOutput(m)
    }

    /// The result of `glab mr view`, given what decoding its JSON output gave:
    /// the record, or the decoder's error text.
    pub fn parse_mr_view_response(decoded: Result<GlabMrRecord, String>, raw: &str) -> (r: Result<
        PullRequestInfo,
        GlabCliError,
    >)
        ensures
            match decoded {
                Ok(rec) => r matches Ok(info) && pr_info_of_record(info, rec),
                Err(e) => r matches Err(GlabCliError::UnexpectedOutput(m)) && m@
                    == decode_failure_message("glab mr view"@, e@, raw@),
            },
    {
        match decoded {
            Ok(rec) => Ok(Self::pr_info_from_record(&rec)),
            Err(e) => Err(Self::decode_failure("glab mr view", e.as_str(), raw)),
        }
    }

    /// The result of `glab mr list`, given what decoding its JSON output gave.
    pub fn parse_mr_list_response(decoded: Result<Vec<GlabMrRecord>, String>, raw: &str) -> (r:
        Result<Vec<PullRequestInfo>, GlabCliError>)
        ensures
            match decoded {
                Ok(recs) => r matches Ok(infos) && infos@.len() == recs@.len() && forall|i: int|
                    0 <= i < recs@.len() ==> pr_info_of_record(#[trigger] infos@[i], recs@[i]),
                Err(e) => r matches Err(GlabCliError::UnexpectedOutput(m)) && m@
                    == decode_failure_message("glab mr list"@, e@, raw@),
            },
    {
        match decoded {
            Ok(recs) => {
                let mut infos: Vec<PullRequestInfo> = Vec::new();
                let mut i: usize = 0;
                while i < recs.len()
                    invariant
                        i <= recs@.len(),
                        infos@.len() == i,
                        forall|j: int|
                            0 <= j < i ==> pr_info_of_record(#[trigger] infos@[j], recs@[j]),
                    decreases recs.len() - i,
                {
                    infos.push(Self::pr_info_from_record(&recs[i]));
                    i += 1;
                }
                Ok(infos)
            },
            Err(e) => Err(Self::decode_failure("glab mr list", e.as_str(), raw)),
        }
    }

    /// The open merge requests of `glab mr list`, given what decoding its JSON
    /// output gave.
    pub fn parse_open_mr_list(decoded: Result<Vec<GlabOpenMrRecord>, String>, raw: &str) -> (r:
        Result<Vec<OpenPrInfo>, GlabCliError>)
        ensures
            match decoded {
                Ok(recs) => r matches Ok(infos) && infos@.len() == recs@.len() && forall|i: int|
                    0 <= i < recs@.len() ==> open_pr_of_record(#[trigger] infos@[i], recs@[i]),
                Err(e) => r matches Err(GlabCliError::UnexpectedOutput(m)) && m@
                    == decode_failure_message("glab mr list"@, e@, raw@),
            },
    {
        match decoded {
            Ok(recs) => {
                let mut infos: Vec<OpenPrInfo> = Vec::new();
                let mut i: usize = 0;
                while i < recs.len()
                    invariant
                        i <= recs@.len(),
                        infos@.len() == i,
                        forall|j: int|
                            0 <= j < i ==> open_pr_of_record(#[trigger] infos@[j], recs@[j]),
                    decreases recs.len() - i,
                {
                    let rec = &recs[i];
                    infos.push(
                        OpenPrInfo {
                            number: rec.iid,
                            url: copy_string(rec.web_url.as_str()),
                            title: copy_string(rec.title.as_str()),
                            head_branch: copy_string(rec.source_branch.as_str()),
                            base_branch: copy_string(rec.target_branch.as_str()),
                        },
                    );
                    i += 1;
                }
                Ok(infos)
            },
            Err(e) => Err(Self::decode_failure("glab mr list", e.as_str(), raw)),
        }
    }

    /// The comment for one note.
    pub fn comment_from_note(note: &GlabNote, now: Timestamp) -> (c: UnifiedPrComment)
        ensures
            comment_of_note(c, *note, now),
    {
        let created_at = match parse_rfc3339(note.created_at.as_str()) {
            Some(t) => t,
            None => now,
        };
        let is_diff_note = match &note.note_type {
            Some(t) => {
                let tc = chars_of(t.as_str());
                spells(&tc, "DiffNote")
            },
            None => false,
        };
        if is_diff_note {
            let path = match &note.position {
                Some(p) => match &p.new_path {
                    Some(x) => copy_string(x.as_str()),
                    None => String::new(),
                },
                None => String::new(),
            };
            let line = match &note.position {
                Some(p) => p.new_line,
                None => None,
            };
            UnifiedPrComment::Review {
                id: note.id,
                author: copy_string(note.author_username.as_str()),
                author_association: None,
                body: copy_string(note.body.as_str()),
                created_at,
                url: None,
                path,
                line,
                side: None,
                diff_hunk: None,
            }
        } else {
            UnifiedPrComment::General {
                id: decimal_string(note.id),
                author: copy_string(note.author_username.as_str()),
                author_association: None,
                body: copy_string(note.body.as_str()),
                created_at,
                url: None,
            }
        }
    }

    /// The comments of a merge request, given what decoding the notes API
    /// output gave: system notes are left out, and `now` stands for creation
    /// times that do not parse.
    pub fn parse_mr_notes(decoded: Result<Vec<GlabNote>, String>, raw: &str, now: Timestamp) -> (r:
        Result<Vec<UnifiedPrComment>, GlabCliError>)
        ensures
            match decoded {
                Ok(notes) => r matches Ok(comments) && comments@.len() == user_notes(notes@).len()
                    && forall|i: int|
                    0 <= i < comments@.len() ==> comment_of_note(
                        #[trigger] comments@[i],
                        user_notes(notes@)[i],
                        now,
                    ),
                Err(e) => r matches Err(GlabCliError::UnexpectedOutput(m)) && m@
                    == decode_failure_message("MR notes"@, e@, raw@),
            },
    {
        match decoded {
            Ok(notes) => {
                let mut comments: Vec<UnifiedPrComment> = Vec::new();
                let mut i: usize = 0;
                while i < notes.len()
                    invariant
                        i <= notes@.len(),
                        comments@.len() == user_notes(notes@.take(i as int)).len(),
                        forall|j: int|
                            0 <= j < comments@.len() ==> comment_of_note(
                                #[trigger] comments@[j],
                                user_notes(notes@.take(i as int))[j],
                                now,
                            ),
                    decreases notes.len() - i,
                {
                    assert(notes@.take(i + 1).drop_last() == notes@.take(i as int));
                    if !notes[i].system {
                        comments.push(Self::comment_from_note(&notes[i], now));
                    }
                    i += 1;
                }
                assert(notes@.take(notes@.len() as int) == notes@);
                Ok(comments)
            },
            Err(e) => Err(Self::decode_failure("MR notes", e.as_str(), raw)),
        }
    }
}


/// The words of the given lines, the last line first and each line's words
/// left to right.
pub open spec fn words_last_line_first(lines: Seq<Seq<char>>) -> Seq<Seq<char>>
    decreases lines.len(),
{
    if lines.len() == 0 {
        Seq::empty()
    } else {
        words(lines.last()) + words_last_line_first(lines.drop_last())
    }
}

/// The words of `glab` output in the order they are searched: last line first.
pub open spec fn output_words(raw: Seq<char>) -> Seq<Seq<char>> {
    words_last_line_first(split_class(raw, CharClass::Exactly('\n')))
}

/// A word that is a merge request URL.
pub open spec fn is_mr_url(t: Seq<char>) -> bool {
    has_prefix(t, "http"@) && contains_seq(t, "/-/merge_requests/"@)
}

/// The first word that, without surrounding `<` and `>`, is a merge request URL.
pub open spec fn first_mr_url(ws: Seq<Seq<char>>) -> Option<Seq<char>>
    decreases ws.len(),
{
    if ws.len() == 0 {
        None
    } else if is_mr_url(trim_class(ws[0], CharClass::AngleBracket)) {
        Some(trim_class(ws[0], CharClass::AngleBracket))
    } else {
        first_mr_url(ws.drop_first())
    }
}

/// The merge request number at the end of a URL: the last `/`-separated part
/// without its trailing non-digits, read as an `i64`.
pub open spec fn mr_number_of_url(url: Seq<char>) -> Option<i64> {
    parse_i64_seq(trim_end_class(after_last(url, '/'), CharClass::NonDigit))
}

/// The number and URL of the merge request that plain `glab mr create` output
/// announces: the last merge request URL in the output, without trailing `.`,
/// `,` and `;`, when its number can be read.
pub open spec fn created_mr_in_text(raw: Seq<char>) -> Option<(i64, Seq<char>)> {
    match first_mr_url(output_words(raw)) {
        Some(t) => {
            let url = trim_end_class(t, CharClass::TrailingPunctuation);
            match mr_number_of_url(url) {
                Some(n) => Some((n, url)),
                None => None,
            }
        },
        None => None,
    }
}

proof fn lemma_first_mr_url_append(a: Seq<Seq<char>>, b: Seq<Seq<char>>)
    ensures
        first_mr_url(a + b) == match first_mr_url(a) {
            Some(t) => Some(t),
            None => first_mr_url(b),
        },
    decreases a.len(),
{
    if a.len() == 0 {
        assert(a + b == b);
    } else {
        assert((a + b)[0] == a[0]);
        assert((a + b).drop_first() == a.drop_first() + b);
        lemma_first_mr_url_append(a.drop_first(), b);
    }
}

fn is_mr_url_chars(t: &[char]) -> (b: bool)
    ensures
        b == is_mr_url(t@),
{
    starts_with_chars(t, &chars_of("http")) && contains_chars(t, &chars_of("/-/merge_requests/"))
}

/// The first merge request URL among the words of `glab` output.
fn find_mr_url(raw: &str) -> (r: Option<Vec<char>>)
    ensures
        match r {
            Some(t) => first_mr_url(output_words(raw@)) == Some(t@),
            None => first_mr_url(output_words(raw@)) is None,
        },
{
    let cs = chars_of(raw);
    let lines = split_chars(&cs, CharClass::Exactly('\n'));
    let ghost ls = views(lines@);
    let mut k: usize = lines.len();
    assert(ls.take(k as int) == ls);
    while k > 0
        invariant
            k <= lines@.len(),
            ls == views(lines@),
            ls == split_class(raw@, CharClass::Exactly('\n')),
            first_mr_url(output_words(raw@)) == first_mr_url(words_last_line_first(ls.take(k as int))),
        decreases k,
    {
        let ws = words_of(&lines[k - 1]);
        let ghost wv = views(ws@);
        assert(ls.take(k as int).drop_last() == ls.take(k - 1));
        assert(ls.take(k as int).last() == lines@[k - 1]@);
        proof {
            lemma_first_mr_url_append(wv, words_last_line_first(ls.take(k - 1)));
        }
        let ghost rest = first_mr_url(words_last_line_first(ls.take(k - 1)));
        assert(first_mr_url(output_words(raw@)) == match first_mr_url(wv) {
            Some(t) => Some(t),
            None => rest,
        });
        let mut j: usize = 0;
        assert(wv.skip(0) == wv);
        while j < ws.len()
            invariant
                j <= ws@.len(),
                wv == views(ws@),
                first_mr_url(wv) == first_mr_url(wv.skip(j as int)),
                first_mr_url(output_words(raw@)) == match first_mr_url(wv) {
                    Some(t) => Some(t),
                    None => rest,
                },
            decreases ws.len() - j,
        {
            let t = trim_chars(&ws[j], CharClass::AngleBracket);
            assert(wv.skip(j as int)[0] == ws@[j as int]@);
            if is_mr_url_chars(&t) {
                return Some(t);
            }
            assert(wv.skip(j as int).drop_first() == wv.skip(j + 1));
            j += 1;
        }
        assert(wv.skip(j as int).len() == 0);
        k -= 1;
    }
    None
}

impl GlabCli {
    /// The merge request number at the end of a URL such as
    /// `https://gitlab.com/owner/repo/-/merge_requests/42`.
    pub fn extract_mr_number_from_url(url: &str) -> (n: Option<i64>)
        ensures
            n == mr_number_of_url(url@),
    {
        let cs = chars_of(url);
        let last = after_last_chars(&cs, '/');
        let digits = trim_end_chars(&last, CharClass::NonDigit);
        parse_i64_chars(&digits)
    }

    /// The merge request that plain-text `glab mr create` output announces.
    pub fn parse_mr_create_text(raw: &str) -> (r: Option<PullRequestInfo>)
        ensures
            match created_mr_in_text(raw@) {
                Some((n, url)) => r matches Some(info) && opened_pr(info, n, url),
                None => r is None,
            },
    {
        let token = find_mr_url(raw)?;
        let url = trim_end_chars(&token, CharClass::TrailingPunctuation);
        let url_text = string_from_chars(&url);
        let number = Self::extract_mr_number_from_url(url_text.as_str())?;
        Some(
            PullRequestInfo {
                number,
                url: url_text,
                status: MergeStatus::Open,
                merged_at: None,
                merge_commit_sha: None,
            },
        )
    }

    /// The result of `glab mr create`, given what decoding its output as JSON
    /// gave: the JSON record when there is one, otherwise the merge request the
    /// plain-text output announces, otherwise an error holding the output.
    pub fn parse_mr_create_response(raw: &str, decoded: Option<GlabMrCreated>) -> (r: Result<
        PullRequestInfo,
        GlabCliError,
    >)
        ensures
            match decoded {
                Some(rec) => r matches Ok(info) && opened_pr(info, rec.iid, rec.web_url@),
                None => match created_mr_in_text(raw@) {
                    Some((n, url)) => r matches Ok(info) && opened_pr(info, n, url),
                    None => r matches Err(GlabCliError::UnexpectedOutput(m)) && m@
                        == "Failed to parse glab mr create response; raw: "@ + raw@,
                },
            },
    {
        if let Some(mr) = decoded {
            return Ok(
                PullRequestInfo {
                    number: mr.iid,
                    url: mr.web_url,
                    status: MergeStatus::Open,
                    merged_at: None,
                    merge_commit_sha: None,
                },
            );
        }
        if let Some(info) = Self::parse_mr_create_text(raw) {
            return Ok(info);
        }
        let mut m = copy_string("Failed to parse glab mr create response; raw: ");
        m.append(raw);
        Err(GlabCliError::UnexpectedOutput(m))
    }
}


/// An SSH remote `git@host:path` whose host has no `:` names the project
/// `path` (without trailing `.git`) on `host`.
pub proof fn law_ssh_remote_names_its_parts(host: Seq<char>, path: Seq<char>)
    requires
        forall|i: int| 0 <= i < host.len() ==> host[i] != ':',
    ensures
        repo_info_of_url("git@"@ + host + seq![':'] + path) == Some(
            (trim_end_seq(path, ".git"@), Some(host)),
        ),
{
    let g = "git@"@;
    let rest = host + seq![':'] + path;
    let url = g + host + seq![':'] + path;
    assert(url == g + rest);
    assert(url.subrange(0, g.len() as int) == g);
    assert(url.skip(g.len() as int) == rest);
    assert(strip_prefix_seq(url, g) == Some(rest));
    let k = host.len() as int;
    assert(is_first_index(rest, ':', k));
    let j = choose|j: int| #[trigger] is_first_index(rest, ':', j);
    assert(j == k) by {
        if j < k {
            assert(rest[j] == host[j]);
        } else if j > k {
            assert(rest[k] == ':');
        }
    }
    assert(rest.take(k) == host);
    assert(rest.skip(k + 1) == path);
}

/// The project path read from a remote URL never ends with `.git`.
pub proof fn law_project_path_has_no_git_suffix(url: Seq<char>)
    ensures
        repo_info_of_url(url) matches Some((path, _)) ==> !has_suffix(path, ".git"@),
{
    reveal_strlit(".git");
    match ssh_repo_info(url) {
        Some((path, host)) => {
            let rest = strip_prefix_seq(url, "git@"@)->Some_0;
            let (h, p) = split_once_seq(rest, ':')->Some_0;
            lemma_trim_end_seq_done(p, ".git"@);
        },
        None => {
            lemma_trim_end_seq_done(
                trim_start_class(url_path(url), CharClass::Exactly('/')),
                ".git"@,
            );
        },
    }
}

/// The number read from the end of a URL is the number written there: a URL
/// ending in `/` and the decimal numeral of `n` gives back `n`.
pub proof fn law_mr_number_round_trip(prefix: Seq<char>, n: i64)
    ensures
        mr_number_of_url(prefix + seq!['/'] + int_decimal(n as int)) == Some(n),
{
    let d = int_decimal(n as int);
    lemma_int_decimal_chars(n as int);
    assert forall|i: int| 0 <= i < d.len() implies d[i] != '/' by {
        assert(is_ascii_digit(d[i]) || d[i] == '-');
    }
    lemma_after_last_of_suffix(prefix, '/', d);
    lemma_trim_end_class_keeps(d, CharClass::NonDigit);
    law_decimal_round_trip(n);
}


/// Merge request states are read ignoring case: state names that lower-case
/// to the same string give the same status.
pub proof fn law_state_ignores_case(a: Seq<char>, b: Seq<char>)
    requires
        unicode_lowercase(a) == unicode_lowercase(b),
    ensures
        merge_status_of(a) == merge_status_of(b),
{
}


/// A note becomes a review comment exactly when its type is `DiffNote`; a
/// note with no type or any other type becomes a general comment.
pub proof fn law_only_diff_notes_are_review_comments(c: UnifiedPrComment, n: GlabNote, now: Timestamp)
    requires
        comment_of_note(c, n, now),
    ensures
        (c is Review) == (n.note_type matches Some(t) && t@ == "DiffNote"@),
        (c is General) == !(n.note_type matches Some(t) && t@ == "DiffNote"@),
{
}

/// `glab mr create` gets `--draft`, as a sixteenth and last argument, exactly
/// when the request asks for a draft (`Some(true)`); otherwise it gets fifteen
/// arguments ending with `--output json`.
pub proof fn law_draft_flag_only_for_drafts(request: CreatePrRequest, repo_spec: Seq<char>)
    ensures
        (mr_create_args(request, repo_spec).len() == 16) == (request.draft == Some(true)),
        request.draft == Some(true) ==> mr_create_args(request, repo_spec).last() == "--draft"@,
        request.draft != Some(true) ==> mr_create_args(request, repo_spec).len() == 15
            && mr_create_args(request, repo_spec)[13] == "--output"@
            && mr_create_args(request, repo_spec)[14] == "json"@,
{
}

/// Reading an open merge request record keeps its number, URL, title and
/// branches: the head branch is the record's source branch and the base
/// branch its target branch.
pub proof fn law_open_pr_keeps_record_fields(info: OpenPrInfo, rec: GlabOpenMrRecord)
    requires
        open_pr_of_record(info, rec),
    ensures
        info.number == rec.iid,
        info.url@ == rec.web_url@,
        info.title@ == rec.title@,
        info.head_branch@ == rec.source_branch@,
        info.base_branch@ == rec.target_branch@,
{
}

} // verus!
