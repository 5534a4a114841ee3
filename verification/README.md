# git_host

Git hosting provider detection and the GitLab parts of a git host layer,
written in Verus with their behaviour stated in contracts and proved.

- `src/detection.rs` — which service (GitHub, Azure DevOps, GitLab) a
  repository or pull request URL belongs to, with self-hosted GitLab domains.
- `src/glab.rs` — repository information from remote URLs, the arguments of
  every `glab` command, the classification of failed runs and the reading of
  `glab` output (JSON records and plain text).
- `src/provider.rs` — GitLab errors as the git host layer reports them and the
  same-repository rule for merge requests.
- `src/gitlab_import.rs` — the GitLab issue import: API URLs, project paths of
  user references, pagination, error answers and the issues it creates.
- `src/assets.rs` — the files of the asset directory.
- `src/text.rs` — the character-level string operations the rest is built on.
- `src/external.rs` — the calls into `url`, `urlencoding`, `chrono`, `http`
  (through `axum`) and `str::to_lowercase`, whose contracts are trusted.

`app/` runs processes, HTTP requests and JSON decoding around the library.
