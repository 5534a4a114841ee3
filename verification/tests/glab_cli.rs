use git_host::external::Timestamp;
use git_host::glab::{
    CreatePrRequest, GitLabRepoInfo, GlabCli, GlabCliError, GlabMrCreated, GlabMrRecord, GlabNote,
    GlabNotePosition, GlabOpenMrRecord, MergeStatus, UnifiedPrComment,
};

#[test]
fn test_parse_repo_info_https() {
    let info = GlabCli::parse_repo_info_from_url("https://gitlab.com/owner/repo.git").unwrap();
    assert_eq!(info.project_path, "owner/repo");
    assert_eq!(info.hostname.as_deref(), Some("gitlab.com"));
}

#[test]
fn test_parse_repo_info_ssh() {
    let info = GlabCli::parse_repo_info_from_url("git@gitlab.com:owner/repo.git").unwrap();
    assert_eq!(info.project_path, "owner/repo");
    assert_eq!(info.hostname.as_deref(), Some("gitlab.com"));
}

#[test]
fn test_parse_repo_info_subgroup() {
    let info = GlabCli::parse_repo_info_from_url("https://gitlab.com/group/subgroup/repo").unwrap();
    assert_eq!(info.project_path, "group/subgroup/repo");
}

#[test]
fn test_parse_repo_info_self_hosted() {
    let info =
        GlabCli::parse_repo_info_from_url("https://gitlab.mycompany.com/team/project.git").unwrap();
    assert_eq!(info.project_path, "team/project");
    assert_eq!(info.hostname.as_deref(), Some("gitlab.mycompany.com"));
}

#[test]
fn test_extract_mr_number_from_url() {
    assert_eq!(
        GlabCli::extract_mr_number_from_url("https://gitlab.com/owner/repo/-/merge_requests/42"),
        Some(42)
    );
}

#[test]
fn test_map_gitlab_state() {
    assert!(matches!(GlabCli::map_gitlab_state("opened"), MergeStatus::Open));
    assert!(matches!(GlabCli::map_gitlab_state("merged"), MergeStatus::Merged));
    assert!(matches!(GlabCli::map_gitlab_state("closed"), MergeStatus::Closed));
    assert!(matches!(GlabCli::map_gitlab_state("something"), MergeStatus::Unknown));
}

#[test]
fn map_gitlab_state_ignores_case() {
    assert_eq!(GlabCli::map_gitlab_state("OPENED"), MergeStatus::Open);
    assert_eq!(GlabCli::map_gitlab_state("Merged"), MergeStatus::Merged);
}

#[test]
fn repo_info_edge_cases() {
    let info = GlabCli::parse_repo_info_from_url("git@host.example:a/b.git.git").unwrap();
    assert_eq!(info.project_path, "a/b");
    assert_eq!(info.hostname.as_deref(), Some("host.example"));
    let info = GlabCli::parse_repo_info_from_url("ssh://git@gitlab.com/o/r.git").unwrap();
    assert_eq!(info.project_path, "o/r");
    assert_eq!(info.hostname.as_deref(), Some("gitlab.com"));
    let info = GlabCli::get_repo_info(&GlabCli::new(), "https://gitlab.com//o/r", "/tmp").unwrap();
    assert_eq!(info.project_path, "o/r");
}

#[test]
fn repo_info_unparsable_url() {
    match GlabCli::parse_repo_info_from_url("not a url") {
        Err(GlabCliError::UnexpectedOutput(m)) => {
            assert_eq!(m, "Could not parse GitLab project from URL: not a url")
        }
        other => panic!("unexpected {:?}", other),
    }
    match GlabCli::parse_repo_info_from_url("https://gitlab.com/") {
        Err(GlabCliError::UnexpectedOutput(m)) => {
            assert_eq!(m, "Could not parse GitLab project from URL: https://gitlab.com/")
        }
        other => panic!("unexpected {:?}", other),
    }
}

fn repo(path: &str) -> GitLabRepoInfo {
    GitLabRepoInfo { project_path: path.to_string(), hostname: Some("gitlab.com".to_string()) }
}

#[test]
fn repo_spec_is_project_path() {
    assert_eq!(repo("group/sub/proj").repo_spec(), "group/sub/proj");
}

#[test]
fn create_mr_arguments() {
    let cli = GlabCli::new();
    let mut request = CreatePrRequest {
        title: "Add feature".to_string(),
        body: None,
        head_branch: "feature".to_string(),
        base_branch: "main".to_string(),
        draft: None,
        head_repo_url: None,
    };
    let args = cli.create_mr_args(&request, &repo("o/r"));
    assert_eq!(
        args,
        vec![
            "mr", "create", "--repo", "o/r", "--source-branch", "feature", "--target-branch",
            "main", "--title", "Add feature", "--description", "", "--no-editor", "--output",
            "json"
        ]
    );
    request.draft = Some(true);
    request.body = Some("Body".to_string());
    let args = cli.create_mr_args(&request, &repo("o/r"));
    assert_eq!(args.len(), 16);
    assert_eq!(args[11], "Body");
    assert_eq!(args[15], "--draft");
    assert_eq!(GlabCli::mr_body(&request), "Body");
}

#[test]
fn other_command_arguments() {
    let cli = GlabCli::new();
    assert_eq!(
        cli.view_mr_args("https://gitlab.com/o/r/-/merge_requests/1"),
        vec!["mr", "view", "https://gitlab.com/o/r/-/merge_requests/1", "--output", "json"]
    );
    assert_eq!(
        cli.list_mrs_for_branch_args(&repo("o/r"), "dev"),
        vec!["mr", "list", "--repo", "o/r", "--source-branch", "dev", "--all", "--output", "json"]
    );
    assert_eq!(
        cli.list_open_mrs_args(&repo("o/r")),
        vec!["mr", "list", "--repo", "o/r", "--state", "opened", "--output", "json"]
    );
    assert_eq!(
        cli.mr_notes_args(&repo("group/my proj"), 7),
        vec!["api", "projects/group%2Fmy%20proj/merge_requests/7/notes?sort=asc&per_page=100"]
    );
}

#[test]
fn run_outcome_classification() {
    let ok = GlabCli::run_outcome(true, "out".to_string(), "ignored").unwrap();
    assert_eq!(ok, "out");
    match GlabCli::run_outcome(false, String::new(), "  Error: Not Logged In\n") {
        Err(GlabCliError::AuthFailed(m)) => assert_eq!(m, "Error: Not Logged In"),
        other => panic!("unexpected {:?}", other),
    }
    match GlabCli::run_outcome(false, String::new(), "HTTP 401") {
        Err(GlabCliError::AuthFailed(m)) => assert_eq!(m, "HTTP 401"),
        other => panic!("unexpected {:?}", other),
    }
    match GlabCli::run_outcome(false, String::new(), "\tsomething broke \n") {
        Err(GlabCliError::CommandFailed(m)) => assert_eq!(m, "something broke"),
        other => panic!("unexpected {:?}", other),
    }
}

#[test]
fn extract_mr_number_edge_cases() {
    assert_eq!(GlabCli::extract_mr_number_from_url("https://x/-/merge_requests/17."), Some(17));
    assert_eq!(GlabCli::extract_mr_number_from_url("https://x/-/merge_requests/abc"), None);
    assert_eq!(GlabCli::extract_mr_number_from_url("12"), Some(12));
    assert_eq!(GlabCli::extract_mr_number_from_url("https://x/-5"), Some(-5));
    assert_eq!(GlabCli::extract_mr_number_from_url("https://x/99999999999999999999"), None);
    assert_eq!(
        GlabCli::extract_mr_number_from_url(&format!("https://x/{}", i64::MIN)),
        Some(i64::MIN)
    );
}

#[test]
fn create_text_output() {
    let raw = "Creating merge request for feature into main in o/r\n\n!5 Add feature (feature)\n <https://gitlab.com/o/r/-/merge_requests/5>\n";
    let info = GlabCli::parse_mr_create_text(raw).unwrap();
    assert_eq!(info.number, 5);
    assert_eq!(info.url, "https://gitlab.com/o/r/-/merge_requests/5");
    assert_eq!(info.status, MergeStatus::Open);
    assert!(info.merged_at.is_none());
    let two = "https://gitlab.com/o/r/-/merge_requests/1\r\nsee https://gitlab.com/o/r/-/merge_requests/2, done";
    assert_eq!(GlabCli::parse_mr_create_text(two).unwrap().number, 2);
    assert!(GlabCli::parse_mr_create_text("no url here").is_none());
    let dotted = GlabCli::parse_mr_create_text("created https://gitlab.com/o/r/-/merge_requests/8.;").unwrap();
    assert_eq!(dotted.url, "https://gitlab.com/o/r/-/merge_requests/8");
    assert_eq!(dotted.number, 8);
    assert!(GlabCli::parse_mr_create_text("https://gitlab.com/o/r/-/merge_requests/new").is_none());
}

#[test]
fn create_response_prefers_json() {
    let rec = GlabMrCreated { iid: 9, web_url: "https://gitlab.com/o/r/-/merge_requests/9".to_string() };
    let info = GlabCli::parse_mr_create_response("https://gitlab.com/o/r/-/merge_requests/3", Some(rec))
        .unwrap();
    assert_eq!(info.number, 9);
    let info =
        GlabCli::parse_mr_create_response("https://gitlab.com/o/r/-/merge_requests/3", None).unwrap();
    assert_eq!(info.number, 3);
    match GlabCli::parse_mr_create_response("garbage", None) {
        Err(GlabCliError::UnexpectedOutput(m)) => {
            assert_eq!(m, "Failed to parse glab mr create response; raw: garbage")
        }
        other => panic!("unexpected {:?}", other),
    }
}

fn record(state: &str, merged_at: Option<&str>) -> GlabMrRecord {
    GlabMrRecord {
        iid: 4,
        web_url: "https://gitlab.com/o/r/-/merge_requests/4".to_string(),
        state: state.to_string(),
        merged_at: merged_at.map(String::from),
        merge_commit_sha: Some("abc".to_string()),
    }
}

#[test]
fn view_and_list_responses() {
    let info =
        GlabCli::parse_mr_view_response(Ok(record("merged", Some("2024-01-02T03:04:05Z"))), "")
            .unwrap();
    assert_eq!(info.status, MergeStatus::Merged);
    assert_eq!(info.merged_at, Some(Timestamp { secs: 1704164645, nanos: 0 }));
    assert_eq!(info.merge_commit_sha.as_deref(), Some("abc"));
    let info = GlabCli::parse_mr_view_response(Ok(record("opened", Some("yesterday"))), "").unwrap();
    assert_eq!(info.merged_at, None);
    match GlabCli::parse_mr_view_response(Err("bad json".to_string()), "{") {
        Err(GlabCliError::UnexpectedOutput(m)) => {
            assert_eq!(m, "Failed to parse glab mr view response: bad json; raw: {")
        }
        other => panic!("unexpected {:?}", other),
    }
    let list = GlabCli::parse_mr_list_response(
        Ok(vec![record("closed", None), record("locked", None)]),
        "",
    )
    .unwrap();
    assert_eq!(list.len(), 2);
    assert_eq!(list[0].status, MergeStatus::Closed);
    assert_eq!(list[1].status, MergeStatus::Unknown);
    match GlabCli::parse_mr_list_response(Err("e".to_string()), "x") {
        Err(GlabCliError::UnexpectedOutput(m)) => {
            assert_eq!(m, "Failed to parse glab mr list response: e; raw: x")
        }
        other => panic!("unexpected {:?}", other),
    }
    let open = GlabCli::parse_open_mr_list(
        Ok(vec![GlabOpenMrRecord {
            iid: 1,
            web_url: "u".to_string(),
            title: "t".to_string(),
            source_branch: "s".to_string(),
            target_branch: "m".to_string(),
        }]),
        "",
    )
    .unwrap();
    assert_eq!(open[0].head_branch, "s");
    assert_eq!(open[0].base_branch, "m");
}

fn note(id: i64, note_type: Option<&str>, system: bool, created_at: &str) -> GlabNote {
    GlabNote {
        id,
        body: format!("note {}", id),
        author_username: "alice".to_string(),
        created_at: created_at.to_string(),
        note_type: note_type.map(String::from),
        system,
        position: Some(GlabNotePosition { new_path: Some("src/a.rs".to_string()), new_line: Some(3) }),
    }
}

#[test]
fn notes_become_comments() {
    let now = Timestamp { secs: 100, nanos: 5 };
    let notes = vec![
        note(1, None, false, "1970-01-01T00:00:10Z"),
        note(2, Some("DiffNote"), false, "not a date"),
        note(3, None, true, "1970-01-01T00:00:10Z"),
    ];
    let comments = GlabCli::parse_mr_notes(Ok(notes), "", now).unwrap();
    assert_eq!(comments.len(), 2);
    match &comments[0] {
        UnifiedPrComment::General { id, author, body, created_at, .. } => {
            assert_eq!(id, "1");
            assert_eq!(author, "alice");
            assert_eq!(body, "note 1");
            assert_eq!(*created_at, Timestamp { secs: 10, nanos: 0 });
        }
        other => panic!("unexpected {:?}", other),
    }
    match &comments[1] {
        UnifiedPrComment::Review { id, path, line, created_at, .. } => {
            assert_eq!(*id, 2);
            assert_eq!(path, "src/a.rs");
            assert_eq!(*line, Some(3));
            assert_eq!(*created_at, now);
        }
        other => panic!("unexpected {:?}", other),
    }
    match GlabCli::parse_mr_notes(Err("e".to_string()), "r", now) {
        Err(GlabCliError::UnexpectedOutput(m)) => {
            assert_eq!(m, "Failed to parse MR notes response: e; raw: r")
        }
        other => panic!("unexpected {:?}", other),
    }
}
