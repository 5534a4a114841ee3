//! Importing GitLab project issues: the GitLab API URLs the import calls,
//! the project path of a user's reference, the answers to failed API calls,
//! and the conversion of GitLab issues into the issues that are created.

use vstd::prelude::*;
use vstd::utf8::encode_utf8;

use crate::external::{
    canonical_reason, parse_rfc3339, parse_url, percent_encode_bytes, rfc3339_instant,
    status_reason, url_encode, url_host, url_parses, url_path, Timestamp,
};
use crate::text::{
    has_prefix,    chars_of, copy_opt_string, copy_string, decimal_string, eq_ignore_ascii_case,
    eq_ignore_ascii_case_chars, has_suffix, int_decimal, is_unicode_whitespace,
    law_decimal_round_trip, lemma_trim_end_class_keeps, lemma_trim_start_class_prefix, nat_decimal,
    non_empty, non_empty_parts, opt_view, parse_i32_chars, parse_i32_seq, push_chars, same_chars,
    split_chars, split_class, string_from_chars, sub_chars, trim_chars, trim_end_chars,
    trim_end_class, trim_start_chars, trim_start_class, trim_ws, views, CharClass,
};

verus! {

/// An error answer of the import routes: an HTTP status and a message.
#[derive(Debug, Clone)]
pub struct ErrorResponse {
    pub status: u16,
    pub message: String,
}

/// A request to search the caller's GitLab projects.
#[derive(Debug, Clone)]
pub struct SearchGitLabProjectsRequest {
    pub query: String,
}

/// A GitLab project found by a search.
#[derive(Debug, Clone)]
pub struct GitLabProjectSearchResult {
    pub id: i64,
    pub name: String,
    pub path_with_namespace: String,
    pub name_with_namespace: Option<String>,
    pub web_url: Option<String>,
}

/// The projects found by a search.
#[derive(Debug, Clone)]
pub struct SearchGitLabProjectsResponse {
    pub projects: Vec<GitLabProjectSearchResult>,
}

/// What the GitLab API reports of a project.
#[derive(Debug, Clone)]
pub struct GitLabProject {
    pub id: i64,
    pub name: String,
    pub web_url: Option<String>,
    pub created_at: Option<String>,
}

/// What the GitLab API reports of an issue.
#[derive(Debug, Clone)]
pub struct GitLabIssue {
    pub iid: i64,
    pub title: String,
    pub description: Option<String>,
    pub state: String,
    pub web_url: Option<String>,
    pub created_at: String,
}

/// The project an import creates.
#[derive(Debug, Clone)]
pub struct ImportedProject {
    pub name: String,
    pub color: String,
    pub created_at: Timestamp,
}

/// An issue an import creates.
#[derive(Debug, Clone)]
pub struct ImportedIssue {
    pub status_name: String,
    pub title: String,
    pub description: Option<String>,
    pub created_at: Timestamp,
}

/// What looking up the caller's GitLab access token found.
pub enum TokenLookup {
    /// The linked account could not be read.
    LoadFailed,
    /// No GitLab account is linked.
    NotLinked,
    /// The linked account holds no token.
    TokenMissing,
    /// The stored token could not be decrypted.
    DecryptFailed,
    /// The decrypted access token.
    Found(String),
}

/// The GitLab instance the import talks to: the configured base URL, or
/// `https://gitlab.com`, without trailing `/`.
pub open spec fn base_url_of(configured: Option<String>) -> Seq<char> {
    let url = match configured {
        Some(u) => u@,
        None => "https://gitlab.com"@,
    };
    trim_end_class(url, CharClass::Exactly('/'))
}

/// The `/`-separated segments of a URL path, as `url::Url::path_segments`
/// gives them: `None` when the path does not start with `/`.
pub open spec fn path_segments(path: Seq<char>) -> Option<Seq<Seq<char>>> {
    if path.len() > 0 && path[0] == '/' {
        Some(split_class(path.drop_first(), CharClass::Exactly('/')))
    } else {
        None
    }
}

/// The segments before the first segment `-`.
pub open spec fn before_dash(parts: Seq<Seq<char>>) -> Seq<Seq<char>>
    decreases parts.len(),
{
    if parts.len() == 0 || parts[0] == "-"@ {
        Seq::empty()
    } else {
        seq![parts[0]] + before_dash(parts.drop_first())
    }
}

/// The parts joined with `/` between them.
pub open spec fn join_slash(parts: Seq<Seq<char>>) -> Seq<char>
    decreases parts.len(),
{
    if parts.len() == 0 {
        Seq::empty()
    } else if parts.len() == 1 {
        parts[0]
    } else {
        join_slash(parts.drop_last()) + seq!['/'] + parts.last()
    }
}

/// The reference without surrounding whitespace and leading `/`.
pub open spec fn trimmed_reference(reference: Seq<char>) -> Seq<char> {
    trim_start_class(trim_ws(reference), CharClass::Exactly('/'))
}

/// The project path a user's reference names: for a URL on the same host as
/// the GitLab instance, its non-empty path segments before any `-` segment,
/// joined by `/`; otherwise the trimmed reference itself.
pub open spec fn project_path_of_reference(base_url: Seq<char>, reference: Seq<char>) -> Seq<char> {
    let trimmed = trimmed_reference(reference);
    if trimmed.len() == 0 {
        Seq::empty()
    } else if url_parses(base_url) && url_parses(trimmed) && url_host(base_url) == url_host(trimmed) {
        let parts = match path_segments(url_path(trimmed)) {
            Some(segments) => before_dash(non_empty(segments)),
            None => Seq::empty(),
        };
        if parts.len() > 0 {
            join_slash(parts)
        } else {
            trimmed
        }
    } else {
        trimmed
    }
}

/// The text `Display` gives a status code: the number and its reason phrase.
pub open spec fn status_text(code: u16) -> Seq<char> {
    nat_decimal(code as nat) + " "@ + match canonical_reason(code) {
        Some(r) => r,
        None => "<unknown status code>"@,
    }
}

/// The first 300 characters of the trimmed body, with line breaks as spaces.
pub open spec fn body_excerpt(body: Seq<char>) -> Seq<char> {
    let t = trim_ws(body);
    let short = if t.len() <= 300 {
        t
    } else {
        t.take(300)
    };
    short.map_values(|c: char| if c == '\n' { ' ' } else { c })
}

/// The answer to a failed GitLab API call: authorization failures become
/// 403, a missing project 404, anything else 502 with the status and an
/// excerpt of the body.
pub open spec fn api_error_answer(status: u16, body: Seq<char>, action: Seq<char>) -> (u16, Seq<char>) {
    if status == 401 || status == 403 {
        (
            403,
            "GitLab authorization failed while "@ + action
                + ". Reconnect GitLab with scope read_api (and read_user/openid/email)."@,
        )
    } else if status == 404 {
        (404, "GitLab project not found or not accessible"@)
    } else {
        let excerpt = body_excerpt(body);
        let suffix = if excerpt.len() == 0 {
            Seq::empty()
        } else {
            ": "@ + excerpt
        };
        (502, "GitLab API error while "@ + action + " (status "@ + status_text(status) + ")"@ + suffix)
    }
}

/// The API URL of a project.
pub open spec fn project_url_of(base_url: Seq<char>, project_path: Seq<char>) -> Seq<char> {
    base_url + "/api/v4/projects/"@ + percent_encode_bytes(encode_utf8(project_path))
}

/// The API URL of one page of a project's issues.
pub open spec fn issues_page_url_of(base_url: Seq<char>, project_id: i64, include_closed: bool, page: i32) -> Seq<char> {
    base_url + "/api/v4/projects/"@ + int_decimal(project_id as int) + "/issues?state="@ + (if include_closed {
        "all"@
    } else {
        "opened"@
    }) + "&per_page=100&page="@ + int_decimal(page as int)
}

/// The page that follows, from the `x-next-page` header: none when the header
/// is absent, unreadable or `0`.
pub open spec fn next_page_of(header: Option<Seq<char>>) -> Option<i32> {
    let n = match header {
        Some(h) => match parse_i32_seq(h) {
            Some(v) => v,
            None => 0,
        },
        None => 0,
    };
    if n == 0 {
        None
    } else {
        Some(n)
    }
}

/// The API URL that lists the caller's projects, newest activity first,
/// filtered by the trimmed query when it is not empty.
pub open spec fn projects_search_url_of(base_url: Seq<char>, query: Seq<char>) -> Seq<char> {
    let q = trim_ws(query);
    let search = if q.len() == 0 {
        Seq::empty()
    } else {
        "&search="@ + percent_encode_bytes(encode_utf8(q))
    };
    base_url + "/api/v4/projects?membership=true&simple=true&per_page=100&order_by=last_activity_at&sort=desc"@
        + search
}

/// The description of an imported issue: its description followed by a link
/// to the GitLab issue, or the link alone (trimmed) when the description is
/// absent or empty; unchanged when the issue has no URL.
pub open spec fn imported_description(description: Option<Seq<char>>, web_url: Option<Seq<char>>) -> Option<Seq<char>> {
    match web_url {
        None => description,
        Some(url) => {
            let link = "\n\nImported from GitLab issue: "@ + url;
            Some(
                match description {
                    Some(existing) => if existing.len() > 0 {
                        existing + link
                    } else {
                        trim_ws(link)
                    },
                    None => trim_ws(link),
                },
            )
        },
    }
}

/// The board column of an imported issue: `Done` for closed issues.
pub open spec fn imported_status(state: Seq<char>) -> Seq<char> {
    if eq_ignore_ascii_case(state, "closed"@) {
        "Done"@
    } else {
        "To do"@
    }
}

/// `imported` is the issue created for the GitLab issue `issue`.
pub open spec fn imported_issue_of(imported: ImportedIssue, issue: GitLabIssue, now: Timestamp) -> bool {
    &&& imported.status_name@ == imported_status(issue.state@)
    &&& imported.title@ == "#"@ + int_decimal(issue.iid as int) + " "@ + issue.title@
    &&& opt_view(imported.description) == imported_description(opt_view(issue.description), opt_view(issue.web_url))
    &&& imported.created_at == match rfc3339_instant(issue.created_at@) {
        Some((secs, nanos)) => Timestamp { secs, nanos },
        None => now,
    }
}

/// The answer for each outcome of the access token lookup.
pub open spec fn token_answer(lookup: TokenLookup, r: Result<String, ErrorResponse>) -> bool {
    match lookup {
        TokenLookup::LoadFailed => r matches Err(e) && e.status == 500 && e.message@
            == "failed to load GitLab account"@,
        TokenLookup::NotLinked => r matches Err(e) && e.status == 400 && e.message@
            == "GitLab account is not linked. Please sign in with GitLab first."@,
        TokenLookup::TokenMissing => r matches Err(e) && e.status == 400 && e.message@
            == "GitLab account token is missing. Please re-authenticate."@,
        TokenLookup::DecryptFailed => r matches Err(e) && e.status == 400 && e.message@
            == "Invalid GitLab token state. Please sign in again."@,
        TokenLookup::Found(token) => r matches Ok(t) && t@ == token@,
    }
}

fn error_response(status: u16, message: &str) -> (e: ErrorResponse)
    ensures
        e.status == status,
        e.message@ == message@,
{
    ErrorResponse { status, message: copy_string(message) }
}

/// The GitLab instance the import talks to.
pub fn gitlab_base_url(configured_base_url: Option<String>) -> (url: String)
    ensures
        url@ == base_url_of(configured_base_url),
{
    let url = match configured_base_url {
        Some(u) => u,
        None => copy_string("https://gitlab.com"),
    };
    let cs = chars_of(url.as_str());
    let trimmed = trim_end_chars(&cs, CharClass::Exactly('/'));
    string_from_chars(&trimmed)
}


proof fn lemma_before_dash_prefix(parts: Seq<Seq<char>>, i: int)
    requires
        0 <= i <= parts.len(),
        forall|j: int| 0 <= j < i ==> parts[j] != "-"@,
        i == parts.len() || parts[i] == "-"@,
    ensures
        before_dash(parts) == parts.take(i),
    decreases i,
{
    if i == 0 {
        assert(parts.take(0) == Seq::<Seq<char>>::empty());
    } else {
        lemma_before_dash_prefix(parts.drop_first(), i - 1);
        assert(parts.drop_first().take(i - 1) == parts.take(i).drop_first());
        assert(parts.take(i) == seq![parts[0]] + parts.take(i).drop_first());
    }
}

fn before_dash_parts(parts: &Vec<Vec<char>>) -> (out: Vec<Vec<char>>)
    ensures
        views(out@) == before_dash(views(parts@)),
{
    let ghost ps = views(parts@);
    let mut out: Vec<Vec<char>> = Vec::new();
    let mut i: usize = 0;
    while i < parts.len() && !same_chars(&parts[i], &chars_of("-"))
        invariant
            ps == views(parts@),
            i <= parts@.len(),
            views(out@) == ps.take(i as int),
            forall|j: int| 0 <= j < i ==> ps[j] != "-"@,
        decreases parts.len() - i,
    {
        let piece = sub_chars(&parts[i], 0, parts[i].len());
        assert(piece@ == ps[i as int]);
        let ghost before = out@;
        out.push(piece);
        assert(views(out@) == views(before).push(piece@));
        assert(ps.take(i + 1) == ps.take(i as int).push(ps[i as int]));
        i += 1;
    }
    proof {
        lemma_before_dash_prefix(ps, i as int);
    }
    out
}

fn join_with_slash(parts: &Vec<Vec<char>>) -> (s: String)
    requires
        parts@.len() > 0,
    ensures
        s@ == join_slash(views(parts@)),
{
    let ghost ps = views(parts@);
    let mut s = String::new();
    push_chars(&mut s, parts[0].as_slice());
    let mut i: usize = 1;
    assert(ps.take(1) == seq![ps[0]]);
    while i < parts.len()
        invariant
            ps == views(parts@),
            1 <= i <= parts@.len(),
            s@ == join_slash(ps.take(i as int)),
        decreases parts.len() - i,
    {
        s.push('/');
        push_chars(&mut s, parts[i].as_slice());
        assert(ps.take(i + 1).drop_last() == ps.take(i as int));
        assert(ps.take(i + 1).last() == ps[i as int]);
        i += 1;
    }
    assert(ps.take(parts@.len() as int) == ps);
    s
}

fn same_host(a: &Option<String>, b: &Option<String>) -> (r: bool)
    ensures
        r == (opt_view(*a) == opt_view(*b)),
{
    match (a, b) {
        (Some(x), Some(y)) => {
            let xc = chars_of(x.as_str());
            let yc = chars_of(y.as_str());
            same_chars(&xc, &yc)
        },
        (None, None) => true,
        _ => false,
    }
}

/// The project path a user's reference names, given the GitLab instance: a
/// URL on the instance's host is reduced to its project path (dropping any
/// `/-/...` suffix); anything else is taken as a path.
pub fn parse_project_path_from_reference(base_url: &str, reference: &str) -> (path: String)
    ensures
        path@ == project_path_of_reference(base_url@, reference@),
{
    let rc = chars_of(reference);
    let t = trim_chars(&rc, CharClass::Whitespace);
    let trimmed = trim_start_chars(&t, CharClass::Exactly('/'));
    if trimmed.len() == 0 {
        return String::new();
    }
    let trimmed_text = string_from_chars(&trimmed);
    let parsed_base = parse_url(base_url);
    let parsed_ref = parse_url(trimmed_text.as_str());
    if let (Some(base), Some(reference_url)) = (parsed_base, parsed_ref) {
        if same_host(&base.host, &reference_url.host) {
            let path = chars_of(reference_url.path.as_str());
            let segments: Vec<Vec<char>> = if path.len() > 0 && path[0] == '/' {
                let rest = sub_chars(&path, 1, path.len());
                assert(rest@ == path@.drop_first());
                let all = split_chars(&rest, CharClass::Exactly('/'));
                non_empty_parts(&all)
            } else {
                Vec::new()
            };
            let parts = before_dash_parts(&segments);
            if parts.len() > 0 {
                return join_with_slash(&parts);
            }
        }
    }
    trimmed_text
}

/// The project path of a user's reference, or the answer that it is missing.
pub fn import_project_path(base_url: &str, reference: &str) -> (r: Result<String, ErrorResponse>)
    ensures
        project_path_of_reference(base_url@, reference@).len() > 0 ==> (r matches Ok(p) && p@
            == project_path_of_reference(base_url@, reference@)),
        project_path_of_reference(base_url@, reference@).len() == 0 ==> (r matches Err(e) && e.status
            == 400 && e.message@ == "GitLab project path is required"@),
{
    let path = parse_project_path_from_reference(base_url, reference);
    if path.as_str().unicode_len() == 0 {
        return Err(error_response(400, "GitLab project path is required"));
    }
    Ok(path)
}

/// The text `Display` gives a status code.
fn status_display(code: u16) -> (s: String)
    requires
        100 <= code <= 999,
    ensures
        s@ == status_text(code),
{
    let mut s = decimal_string(code as i64);
    s.append(" ");
    match status_reason(code) {
        Some(r) => s.append(r.as_str()),
        None => s.append("<unknown status code>"),
    }
    s
}

fn body_excerpt_of(body: &str) -> (s: Vec<char>)
    ensures
        s@ == body_excerpt(body@),
{
    let bc = chars_of(body);
    let t = trim_chars(&bc, CharClass::Whitespace);
    let short = if t.len() <= 300 {
        t
    } else {
        sub_chars(&t, 0, 300)
    };
    let ghost expected = body_excerpt(body@);
    let mut out: Vec<char> = Vec::new();
    let mut i: usize = 0;
    while i < short.len()
        invariant
            i <= short@.len(),
            expected == short@.map_values(|c: char| if c == '\n' { ' ' } else { c }),
            out@ == expected.take(i as int),
        decreases short.len() - i,
    {
        let c = short[i];
        out.push(if c == '\n' { ' ' } else { c });
        assert(out@ == expected.take(i + 1));
        i += 1;
    }
    assert(expected.take(short@.len() as int) == expected);
    out
}

/// The answer to a failed GitLab API call while doing `action`, from the
/// response status and body.
pub fn build_gitlab_error_response(status: u16, body: &str, action: &str) -> (e: ErrorResponse)
    requires
        100 <= status <= 999,
    ensures
        (e.status, e.message@) == api_error_answer(status, body@, action@),
{
    if status == 401 || status == 403 {
        let mut m = copy_string("GitLab authorization failed while ");
        m.append(action);
        m.append(". Reconnect GitLab with scope read_api (and read_user/openid/email).");
        return ErrorResponse { status: 403, message: m };
    }
    if status == 404 {
        return error_response(404, "GitLab project not found or not accessible");
    }
    let excerpt = body_excerpt_of(body);
    let mut m = copy_string("GitLab API error while ");
    m.append(action);
    m.append(" (status ");
    let st = status_display(status);
    m.append(st.as_str());
    m.append(")");
    if excerpt.len() > 0 {
        m.append(": ");
        push_chars(&mut m, excerpt.as_slice());
    }
    ErrorResponse { status: 502, message: m }
}

/// The answer when the GitLab API could not be reached.
pub fn unreachable_api_response() -> (e: ErrorResponse)
    ensures
        e.status == 502,
        e.message@ == "failed to reach GitLab API"@,
{
    error_response(502, "failed to reach GitLab API")
}

/// The answer when a successful GitLab API response could not be decoded
/// while doing `action`.
pub fn invalid_api_response(action: &str) -> (e: ErrorResponse)
    ensures
        e.status == 502,
        e.message@ == "Invalid GitLab response while "@ + action@,
{
    let mut m = copy_string("Invalid GitLab response while ");
    m.append(action);
    ErrorResponse { status: 502, message: m }
}

/// The API URL of a project of the GitLab instance.
pub fn project_url(base_url: &str, project_path: &str) -> (url: String)
    ensures
        url@ == project_url_of(base_url@, project_path@),
{
    let mut url = copy_string(base_url);
    url.append("/api/v4/projects/");
    let encoded = url_encode(project_path);
    url.append(encoded.as_str());
    url
}

/// The API URL of one page of a project's issues: all issues when closed
/// ones are included, open ones otherwise.
pub fn issues_page_url(base_url: &str, project_id: i64, include_closed: bool, page: i32) -> (url: String)
    ensures
        url@ == issues_page_url_of(base_url@, project_id, include_closed, page),
{
    let mut url = copy_string(base_url);
    url.append("/api/v4/projects/");
    let id = decimal_string(project_id);
    url.append(id.as_str());
    url.append("/issues?state=");
    if include_closed {
        url.append("all");
    } else {
        url.append("opened");
    }
    url.append("&per_page=100&page=");
    let p = decimal_string(page as i64);
    url.append(p.as_str());
    url
}

/// The issue page to fetch next, from the `x-next-page` header of the last
/// page (`None` when the header could not be read as text).
pub fn next_issues_page(header: Option<String>) -> (next: Option<i32>)
    ensures
        next == next_page_of(opt_view(header)),
{
    let n: i32 = match &header {
        Some(h) => {
            let hc = chars_of(h.as_str());
            match parse_i32_chars(&hc) {
                Some(v) => v,
                None => 0,
            }
        },
        None => 0,
    };
    if n == 0 {
        None
    } else {
        Some(n)
    }
}

/// The API URL that searches the caller's projects.
pub fn projects_search_url(base_url: &str, query: &str) -> (url: String)
    ensures
        url@ == projects_search_url_of(base_url@, query@),
{
    let qc = chars_of(query);
    let q = trim_chars(&qc, CharClass::Whitespace);
    let mut url = copy_string(base_url);
    url.append(
        "/api/v4/projects?membership=true&simple=true&per_page=100&order_by=last_activity_at&sort=desc",
    );
    if q.len() > 0 {
        url.append("&search=");
        let qs = string_from_chars(&q);
        let encoded = url_encode(qs.as_str());
        url.append(encoded.as_str());
    }
    url
}

/// The access token, or the answer for why there is none.
pub fn access_token_from_lookup(lookup: TokenLookup) -> (r: Result<String, ErrorResponse>)
    ensures
        token_answer(lookup, r),
{
    match lookup {
        TokenLookup::LoadFailed => Err(error_response(500, "failed to load GitLab account")),
        TokenLookup::NotLinked => Err(
            error_response(400, "GitLab account is not linked. Please sign in with GitLab first."),
        ),
        TokenLookup::TokenMissing => Err(
            error_response(400, "GitLab account token is missing. Please re-authenticate."),
        ),
        TokenLookup::DecryptFailed => Err(
            error_response(400, "Invalid GitLab token state. Please sign in again."),
        ),
        TokenLookup::Found(token) => Ok(token),
    }
}


/// The color of an imported project.
pub open spec fn imported_project_color() -> Seq<char> {
    "217 91% 60%"@
}

/// `imported` is the project created for the GitLab project `project`.
pub open spec fn imported_project_of(imported: ImportedProject, project: GitLabProject, now: Timestamp) -> bool {
    &&& imported.name@ == project.name@
    &&& imported.color@ == imported_project_color()
    &&& imported.created_at == match project.created_at {
        Some(c) => match rfc3339_instant(c@) {
            Some((secs, nanos)) => Timestamp { secs, nanos },
            None => now,
        },
        None => now,
    }
}

/// The project an import creates for a GitLab project; `now` stands for a
/// creation time that is absent or does not parse.
pub fn project_to_import(project: &GitLabProject, now: Timestamp) -> (imported: ImportedProject)
    ensures
        imported_project_of(imported, *project, now),
{
    let created_at = match &project.created_at {
        Some(c) => match parse_rfc3339(c.as_str()) {
            Some(t) => t,
            None => now,
        },
        None => now,
    };
    ImportedProject {
        name: copy_string(project.name.as_str()),
        color: copy_string("217 91% 60%"),
        created_at,
    }
}

fn imported_description_of(issue: &GitLabIssue) -> (d: Option<String>)
    ensures
        opt_view(d) == imported_description(opt_view(issue.description), opt_view(issue.web_url)),
{
    match &issue.web_url {
        None => copy_opt_string(&issue.description),
        Some(url) => {
            let mut link = copy_string("\n\nImported from GitLab issue: ");
            link.append(url.as_str());
            let keep_existing = match &issue.description {
                Some(existing) => existing.as_str().unicode_len() > 0,
                None => false,
            };
            if keep_existing {
                let mut d = copy_opt_string(&issue.description).unwrap();
                d.append(link.as_str());
                Some(d)
            } else {
                let lc = chars_of(link.as_str());
                let t = trim_chars(&lc, CharClass::Whitespace);
                Some(string_from_chars(&t))
            }
        },
    }
}

/// The issue an import creates for a GitLab issue: `Done` when the issue is
/// closed and `To do` otherwise, the title prefixed with `#` and the issue
/// number, the description with a link back to GitLab, and the creation time
/// (`now` when it does not parse).
pub fn issue_to_import(issue: &GitLabIssue, now: Timestamp) -> (imported: ImportedIssue)
    ensures
        imported_issue_of(imported, *issue, now),
{
    let state = chars_of(issue.state.as_str());
    let closed = chars_of("closed");
    let status_name = if eq_ignore_ascii_case_chars(&state, &closed) {
        copy_string("Done")
    } else {
        copy_string("To do")
    };
    let mut title = copy_string("#");
    let iid = decimal_string(issue.iid);
    title.append(iid.as_str());
    title.append(" ");
    title.append(issue.title.as_str());
    let created_at = match parse_rfc3339(issue.created_at.as_str()) {
        Some(t) => t,
        None => now,
    };
    ImportedIssue { status_name, title, description: imported_description_of(issue), created_at }
}

/// The issues an import creates, one for each GitLab issue, in order.
pub fn issues_to_import(issues: &Vec<GitLabIssue>, now: Timestamp) -> (imported: Vec<ImportedIssue>)
    ensures
        imported@.len() == issues@.len(),
        forall|i: int|
            0 <= i < issues@.len() ==> imported_issue_of(#[trigger] imported@[i], issues@[i], now),
{
    let mut out: Vec<ImportedIssue> = Vec::new();
    let mut i: usize = 0;
    while i < issues.len()
        invariant
            i <= issues@.len(),
            out@.len() == i,
            forall|j: int| 0 <= j < i ==> imported_issue_of(#[trigger] out@[j], issues@[j], now),
        decreases issues.len() - i,
    {
        out.push(issue_to_import(&issues[i], now));
        i += 1;
    }
    out
}


proof fn lemma_non_empty_pieces(parts: Seq<Seq<char>>)
    ensures
        forall|i: int| 0 <= i < non_empty(parts).len() ==> #[trigger] non_empty(parts)[i].len() > 0,
    decreases parts.len(),
{
    if parts.len() > 0 {
        lemma_non_empty_pieces(parts.drop_last());
        let r = non_empty(parts.drop_last());
        if parts.last().len() > 0 {
            assert forall|i: int| 0 <= i < r.push(parts.last()).len() implies #[trigger] r.push(
                parts.last(),
            )[i].len() > 0 by {
                if i < r.len() {
                    assert(r.push(parts.last())[i] == r[i]);
                }
            }
        }
    }
}

proof fn lemma_before_dash_is_prefix(parts: Seq<Seq<char>>)
    ensures
        before_dash(parts).len() <= parts.len(),
        forall|i: int| 0 <= i < before_dash(parts).len() ==> #[trigger] before_dash(parts)[i] == parts[i],
    decreases parts.len(),
{
    if parts.len() > 0 && parts[0] != "-"@ {
        lemma_before_dash_is_prefix(parts.drop_first());
        let b = before_dash(parts);
        assert forall|i: int| 0 <= i < b.len() implies #[trigger] b[i] == parts[i] by {
            if i > 0 {
                assert(b[i] == before_dash(parts.drop_first())[i - 1]);
            }
        }
    }
}

proof fn lemma_join_slash_len(parts: Seq<Seq<char>>)
    requires
        parts.len() > 0,
    ensures
        join_slash(parts).len() >= parts[0].len(),
    decreases parts.len(),
{
    if parts.len() > 1 {
        lemma_join_slash_len(parts.drop_last());
    }
}

/// An import is refused for want of a project path exactly when the
/// reference is blank: nothing but whitespace and leading slashes.
pub proof fn law_blank_reference_is_refused(base_url: Seq<char>, reference: Seq<char>)
    ensures
        (project_path_of_reference(base_url, reference).len() == 0) == (trimmed_reference(
            reference,
        ).len() == 0),
{
    let trimmed = trimmed_reference(reference);
    if trimmed.len() > 0 && url_parses(base_url) && url_parses(trimmed) && url_host(base_url)
        == url_host(trimmed) {
        match path_segments(url_path(trimmed)) {
            Some(segments) => {
                let ne = non_empty(segments);
                lemma_non_empty_pieces(segments);
                lemma_before_dash_is_prefix(ne);
                let parts = before_dash(ne);
                if parts.len() > 0 {
                    assert(parts[0] == ne[0]);
                    lemma_join_slash_len(parts);
                }
            },
            None => {},
        }
    }
}

/// A failed GitLab API call is answered with 403, 404 or 502 only.
pub proof fn law_error_answer_status(status: u16, body: Seq<char>, action: Seq<char>)
    ensures
        api_error_answer(status, body, action).0 == 403 || api_error_answer(status, body, action).0
            == 404 || api_error_answer(status, body, action).0 == 502,
{
}

/// The body excerpt in an error answer holds at most 300 characters and no
/// line break.
pub proof fn law_body_excerpt_is_short(body: Seq<char>)
    ensures
        body_excerpt(body).len() <= 300,
        forall|i: int| 0 <= i < body_excerpt(body).len() ==> #[trigger] body_excerpt(body)[i] != '\n',
{
}

/// The page number a response announces in `x-next-page` is the page fetched
/// next; a missing header ends the listing.
pub proof fn law_next_page_round_trip(n: i32)
    ensures
        n != 0 ==> next_page_of(Some(int_decimal(n as int))) == Some(n),
        next_page_of(None) is None,
{
    law_decimal_round_trip(n as i64);
}

/// An imported issue with a GitLab URL links back to it: its description
/// ends with `Imported from GitLab issue: ` and the URL (when the URL does
/// not end in whitespace).
pub proof fn law_imported_description_links_back(description: Option<Seq<char>>, url: Seq<char>)
    requires
        url.len() > 0,
        !is_unicode_whitespace(url.last()),
    ensures
        imported_description(description, Some(url)) matches Some(d) && has_suffix(
            d,
            "Imported from GitLab issue: "@ + url,
        ),
{
    reveal_strlit("\n\nImported from GitLab issue: ");
    reveal_strlit("Imported from GitLab issue: ");
    reveal_strlit("\n\n");
    let tail = "Imported from GitLab issue: "@ + url;
    let link = "\n\nImported from GitLab issue: "@ + url;
    assert(link == "\n\n"@ + tail);
    let d = imported_description(description, Some(url))->Some_0;
    let uses_link_alone = match description {
        Some(e) => e.len() == 0,
        None => true,
    };
    if uses_link_alone {
        assert(tail[0] == 'I');
        lemma_trim_start_class_prefix("\n\n"@, tail, CharClass::Whitespace);
        assert(tail.last() == url.last());
        lemma_trim_end_class_keeps(tail, CharClass::Whitespace);
        assert(d == tail);
        assert(d.subrange(0, d.len() as int) == d);
    } else {
        let e = description->Some_0;
        assert(d == e + link);
        assert(d.subrange(d.len() - tail.len(), d.len() as int) == tail);
    }
}


/// GitLab refusing a call with 401 or with 403 is answered as an authorization
/// failure (403, naming the action); 404 as a missing project; and 502 is the
/// answer exactly for every other status.
pub proof fn law_authorization_failures_answered_403(status: u16, body: Seq<char>, action: Seq<char>)
    ensures
        (status == 401 || status == 403) ==> api_error_answer(status, body, action).0 == 403
            && has_prefix(
            api_error_answer(status, body, action).1,
            "GitLab authorization failed while "@ + action,
        ),
        status == 404 ==> api_error_answer(status, body, action).0 == 404,
        (api_error_answer(status, body, action).0 == 502) == (status != 401 && status != 403
            && status != 404),
{
    if status == 401 || status == 403 {
        let p = "GitLab authorization failed while "@ + action;
        let m = api_error_answer(status, body, action).1;
        assert(m.subrange(0, p.len() as int) == p);
    }
}

} // verus!
