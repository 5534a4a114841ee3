//! Detection of git hosting providers from remote URLs, and the GitLab
//! helpers of the git host layer: repository and merge request parsing,
//! CLI argument construction and the GitLab issue import logic.

pub mod text;
pub mod external;
pub mod detection;
pub mod glab;
pub mod provider;
pub mod gitlab_import;
pub mod assets;
