use vstd::prelude::*;
use std::collections::HashMap;

verus! {

/// A JSON value whose structure the relay never inspects.
#[verifier::external_type_specification]
#[verifier::external_body]
pub struct ExValue(serde_json::Value);

/// An account on the event source: a person, a bot or an organization.
#[derive(Debug, Clone)]
pub struct User {
    pub login: String,
    pub id: u64,
    pub node_id: String,
    pub avatar_url: String,
    pub gravatar_id: Option<String>,
    pub url: String,
    pub html_url: String,
    pub followers_url: String,
    pub following_url: String,
    pub gists_url: String,
    pub starred_url: String,
    pub subscriptions_url: String,
    pub organizations_url: String,
    pub repos_url: String,
    pub events_url: String,
    pub received_events_url: String,
    pub user_type: String,
    pub site_admin: bool,
}

/// A repository that an event concerns.
#[derive(Debug, Clone)]
pub struct Repository {
    pub id: u64,
    pub node_id: String,
    pub name: String,
    pub full_name: String,
    pub private: bool,
    pub owner: User,
    pub html_url: String,
    pub description: Option<String>,
    pub fork: bool,
    pub url: String,
    pub created_at: String,
    pub updated_at: String,
    pub pushed_at: Option<String>,
    pub git_url: String,
    pub ssh_url: String,
    pub clone_url: String,
    pub svn_url: String,
    pub homepage: Option<String>,
    pub size: u64,
    pub stargazers_count: u64,
    pub watchers_count: u64,
    pub language: Option<String>,
    pub has_issues: bool,
    pub has_projects: bool,
    pub has_downloads: bool,
    pub has_wiki: bool,
    pub has_pages: bool,
    pub has_discussions: Option<bool>,
    pub forks_count: u64,
    pub archived: bool,
    pub disabled: bool,
    pub open_issues_count: u64,
    pub license: Option<serde_json::Value>,
    pub allow_forking: Option<bool>,
    pub is_template: Option<bool>,
    pub web_commit_signoff_required: Option<bool>,
    pub topics: Option<Vec<String>>,
    pub visibility: Option<String>,
    pub forks: u64,
    pub open_issues: u64,
    pub watchers: u64,
    pub default_branch: String,
}

/// The organization that owns the repository.
#[derive(Debug, Clone)]
pub struct Organization {
    pub login: String,
    pub id: u64,
    pub node_id: String,
    pub url: String,
    pub repos_url: String,
    pub events_url: String,
    pub hooks_url: String,
    pub issues_url: String,
    pub members_url: String,
    pub public_members_url: String,
    pub avatar_url: String,
    pub description: Option<String>,
}

/// The app installation through which the event was delivered.
#[derive(Debug, Clone)]
pub struct Installation {
    pub id: u64,
    pub node_id: String,
}

/// The enterprise account that the repository belongs to.
#[derive(Debug, Clone)]
pub struct Enterprise {
    pub id: u64,
    pub slug: String,
    pub name: String,
    pub node_id: String,
    pub avatar_url: String,
    pub description: Option<String>,
    pub website_url: Option<String>,
    pub html_url: String,
    pub created_at: String,
    pub updated_at: String,
}

/// One commit of a push.
#[derive(Debug, Clone)]
pub struct Commit {
    pub id: String,
    pub tree_id: String,
    pub distinct: bool,
    pub message: String,
    pub timestamp: String,
    pub url: String,
    pub author: CommitAuthor,
    pub committer: CommitAuthor,
    pub added: Vec<String>,
    pub removed: Vec<String>,
    pub modified: Vec<String>,
}

/// The author or committer of a commit.
#[derive(Debug, Clone)]
pub struct CommitAuthor {
    pub name: String,
    pub email: String,
    pub username: Option<String>,
}

/// An issue, or the issue side of a pull request.
#[derive(Debug, Clone)]
pub struct Issue {
    pub id: u64,
    pub node_id: String,
    pub url: String,
    pub repository_url: String,
    pub labels_url: String,
    pub comments_url: String,
    pub events_url: String,
    pub html_url: String,
    pub number: u64,
    pub state: String,
    pub title: String,
    pub body: Option<String>,
    pub user: User,
    pub labels: Vec<Label>,
    pub assignee: Option<User>,
    pub assignees: Vec<User>,
    pub milestone: Option<serde_json::Value>,
    pub locked: bool,
    pub active_lock_reason: Option<String>,
    pub comments: u64,
    pub pull_request: Option<serde_json::Value>,
    pub closed_at: Option<String>,
    pub created_at: String,
    pub updated_at: String,
    pub author_association: String,
}

/// A label on an issue or a pull request.
#[derive(Debug, Clone)]
pub struct Label {
    pub id: u64,
    pub node_id: String,
    pub url: String,
    pub name: String,
    pub description: Option<String>,
    pub color: String,
    pub default: bool,
}

/// A pull request.
#[derive(Debug, Clone)]
pub struct PullRequest {
    pub id: u64,
    pub node_id: String,
    pub url: String,
    pub html_url: String,
    pub diff_url: String,
    pub patch_url: String,
    pub issue_url: String,
    pub commits_url: String,
    pub review_comments_url: String,
    pub review_comment_url: String,
    pub comments_url: String,
    pub statuses_url: String,
    pub number: u64,
    pub state: String,
    pub locked: bool,
    pub title: String,
    pub user: User,
    pub body: Option<String>,
    pub labels: Vec<Label>,
    pub milestone: Option<serde_json::Value>,
    pub active_lock_reason: Option<String>,
    pub created_at: String,
    pub updated_at: String,
    pub closed_at: Option<String>,
    pub merged_at: Option<String>,
    pub merge_commit_sha: Option<String>,
    pub assignee: Option<User>,
    pub assignees: Vec<User>,
    pub requested_reviewers: Vec<User>,
    pub requested_teams: Vec<serde_json::Value>,
    pub head: PullRequestRef,
    pub base: PullRequestRef,
    pub author_association: String,
    pub draft: bool,
    pub merged: bool,
    pub mergeable: Option<bool>,
    pub rebaseable: Option<bool>,
    pub mergeable_state: String,
    pub merged_by: Option<User>,
    pub comments: u64,
    pub review_comments: u64,
    pub maintainer_can_modify: bool,
    pub commits: u64,
    pub additions: u64,
    pub deletions: u64,
    pub changed_files: u64,
}

/// One end of a pull request: its head or its base.
#[derive(Debug, Clone)]
pub struct PullRequestRef {
    pub label: String,
    pub ref_field: String,
    pub sha: String,
    pub user: User,
    pub repo: Option<Repository>,
}

/// A published release.
#[derive(Debug, Clone)]
pub struct Release {
    pub id: u64,
    pub node_id: String,
    pub url: String,
    pub html_url: String,
    pub assets_url: String,
    pub upload_url: String,
    pub tarball_url: Option<String>,
    pub zipball_url: Option<String>,
    pub tag_name: String,
    pub target_commitish: String,
    pub name: Option<String>,
    pub body: Option<String>,
    pub draft: bool,
    pub prerelease: bool,
    pub created_at: String,
    pub published_at: Option<String>,
    pub author: User,
    pub assets: Vec<serde_json::Value>,
}

/// A comment on an issue.
#[derive(Debug, Clone)]
pub struct Comment {
    pub id: u64,
    pub node_id: String,
    pub url: String,
    pub html_url: String,
    pub body: String,
    pub user: User,
    pub created_at: String,
    pub updated_at: String,
    pub issue_url: Option<String>,
    pub author_association: String,
}

/// An event together with its tag, as an envelope carries it.
#[derive(Debug, Clone)]
pub enum WebhookEvent {
    Push(PushEvent),
    PullRequest(PullRequestEvent),
    Issues(IssuesEvent),
    IssueComment(IssueCommentEvent),
    Create(CreateEvent),
    Delete(DeleteEvent),
    Fork(ForkEvent),
    Release(ReleaseEvent),
    Unknown,
}

/// Commits were pushed to a ref.
#[derive(Debug, Clone)]
pub struct PushEvent {
    pub ref_field: String,
    pub before: String,
    pub after: String,
    pub repository: Repository,
    pub pusher: Pusher,
    pub organization: Option<Organization>,
    pub sender: User,
    pub created: bool,
    pub deleted: bool,
    pub forced: bool,
    pub base_ref: Option<String>,
    pub compare: String,
    pub commits: Vec<Commit>,
    pub head_commit: Option<Commit>,
    pub installation: Option<Installation>,
    pub enterprise: Option<Enterprise>,
}

/// Who pushed.
#[derive(Debug, Clone)]
pub struct Pusher {
    pub name: String,
    pub email: String,
}

/// A pull request was opened, changed or closed.
#[derive(Debug, Clone)]
pub struct PullRequestEvent {
    pub action: String,
    pub number: u64,
    pub pull_request: PullRequest,
    pub repository: Repository,
    pub organization: Option<Organization>,
    pub installation: Option<Installation>,
    pub sender: User,
    pub enterprise: Option<Enterprise>,
}

/// An issue was opened, changed or closed.
#[derive(Debug, Clone)]
pub struct IssuesEvent {
    pub action: String,
    pub issue: Issue,
    pub repository: Repository,
    pub sender: User,
    pub organization: Option<Organization>,
    pub installation: Option<Installation>,
    pub enterprise: Option<Enterprise>,
}

/// A comment on an issue was added, edited or removed.
#[derive(Debug, Clone)]
pub struct IssueCommentEvent {
    pub action: String,
    pub issue: Issue,
    pub comment: Comment,
    pub repository: Repository,
    pub sender: User,
    pub organization: Option<Organization>,
    pub installation: Option<Installation>,
    pub enterprise: Option<Enterprise>,
}

/// A branch or a tag was created.
#[derive(Debug, Clone)]
pub struct CreateEvent {
    pub ref_field: String,
    pub ref_type: String,
    pub master_branch: String,
    pub description: Option<String>,
    pub pusher_type: String,
    pub repository: Repository,
    pub sender: User,
    pub organization: Option<Organization>,
    pub installation: Option<Installation>,
    pub enterprise: Option<Enterprise>,
}

/// A branch or a tag was deleted.
#[derive(Debug, Clone)]
pub struct DeleteEvent {
    pub ref_field: String,
    pub ref_type: String,
    pub pusher_type: String,
    pub repository: Repository,
    pub sender: User,
    pub organization: Option<Organization>,
    pub installation: Option<Installation>,
    pub enterprise: Option<Enterprise>,
}

/// The repository was forked.
#[derive(Debug, Clone)]
pub struct ForkEvent {
    pub forkee: Repository,
    pub repository: Repository,
    pub sender: User,
    pub organization: Option<Organization>,
    pub installation: Option<Installation>,
    pub enterprise: Option<Enterprise>,
}

/// A release was published, changed or removed.
#[derive(Debug, Clone)]
pub struct ReleaseEvent {
    pub action: String,
    pub release: Release,
    pub repository: Repository,
    pub sender: User,
    pub organization: Option<Organization>,
    pub installation: Option<Installation>,
    pub enterprise: Option<Enterprise>,
}

/// An event body, decoded into the shape that its tag selects.
#[derive(Debug, Clone)]
pub enum GitHubWebhookPayload {
    Push(PushEvent),
    PullRequest(PullRequestEvent),
    Issues(IssuesEvent),
    IssueComment(IssueCommentEvent),
    Create(CreateEvent),
    Delete(DeleteEvent),
    Fork(ForkEvent),
    Release(ReleaseEvent),
    Generic(GenericPayload),
}

/// The fields that every event shares, with all other top-level fields kept as they came.
#[derive(Debug, Clone)]
pub struct GenericPayload {
    pub repository: Option<Repository>,
    pub sender: Option<User>,
    pub organization: Option<Organization>,
    pub installation: Option<Installation>,
    pub enterprise: Option<Enterprise>,
    pub other: HashMap<String, serde_json::Value>,
}

/// The event shapes that a tag can select.
#[derive(Debug, Clone, Copy, PartialEq, Eq, Structural)]
pub enum EventKind {
    Push,
    PullRequest,
    Issues,
    IssueComment,
    Create,
    Delete,
    Fork,
    Release,
}

/// The shape that a decoded payload has, where it is one of the known events.
pub open spec fn kind_of(p: GitHubWebhookPayload) -> Option<EventKind> {
    match p {
        GitHubWebhookPayload::Push(_) => Some(EventKind::Push),
        GitHubWebhookPayload::PullRequest(_) => Some(EventKind::PullRequest),
        GitHubWebhookPayload::Issues(_) => Some(EventKind::Issues),
        GitHubWebhookPayload::IssueComment(_) => Some(EventKind::IssueComment),
        GitHubWebhookPayload::Create(_) => Some(EventKind::Create),
        GitHubWebhookPayload::Delete(_) => Some(EventKind::Delete),
        GitHubWebhookPayload::Fork(_) => Some(EventKind::Fork),
        GitHubWebhookPayload::Release(_) => Some(EventKind::Release),
        GitHubWebhookPayload::Generic(_) => None,
    }
}

/// Whether the fields that tell the event apart are filled in: the ref of a
/// push, a positive number for a pull request, an action for issue, comment
/// and release events, ref name and ref type for a created or deleted ref,
/// and a repository or a sender for any other event.
pub open spec fn required_fields_present(p: GitHubWebhookPayload) -> bool {
    match p {
        GitHubWebhookPayload::Push(e) => e.ref_field@.len() > 0,
        GitHubWebhookPayload::PullRequest(e) => e.number > 0,
        GitHubWebhookPayload::Issues(e) => e.action@.len() > 0,
        GitHubWebhookPayload::IssueComment(e) => e.action@.len() > 0,
        GitHubWebhookPayload::Create(e) => e.ref_field@.len() > 0 && e.ref_type@.len() > 0,
        GitHubWebhookPayload::Delete(e) => e.ref_field@.len() > 0 && e.ref_type@.len() > 0,
        GitHubWebhookPayload::Fork(_) => true,
        GitHubWebhookPayload::Release(e) => e.action@.len() > 0,
        GitHubWebhookPayload::Generic(e) => e.repository is Some || e.sender is Some,
    }
}

impl GitHubWebhookPayload {
    /// Checks that the fields the event cannot do without are filled in.
    pub fn validate_required_fields(&self) -> (r: bool)
        ensures
            r == required_fields_present(*self),
    {
        match self {
            GitHubWebhookPayload::Push(e) => !e.ref_field.as_str().is_empty(),
            GitHubWebhookPayload::PullRequest(e) => e.number > 0,
            GitHubWebhookPayload::Issues(e) => !e.action.as_str().is_empty(),
            GitHubWebhookPayload::IssueComment(e) => !e.action.as_str().is_empty(),
            GitHubWebhookPayload::Create(e) => !e.ref_field.as_str().is_empty() && !e.ref_type.as_str().is_empty(),
            GitHubWebhookPayload::Delete(e) => !e.ref_field.as_str().is_empty() && !e.ref_type.as_str().is_empty(),
            GitHubWebhookPayload::Fork(_) => true,
            GitHubWebhookPayload::Release(e) => !e.action.as_str().is_empty(),
            GitHubWebhookPayload::Generic(e) => e.repository.is_some() || e.sender.is_some(),
        }
    }

    /// The event shape of this payload; `None` for the generic fallback.
    pub fn kind(&self) -> (r: Option<EventKind>)
        ensures
            r == kind_of(*self),
    {
        match self {
            GitHubWebhookPayload::Push(_) => Some(EventKind::Push),
            GitHubWebhookPayload::PullRequest(_) => Some(EventKind::PullRequest),
            GitHubWebhookPayload::Issues(_) => Some(EventKind::Issues),
            GitHubWebhookPayload::IssueComment(_) => Some(EventKind::IssueComment),
            GitHubWebhookPayload::Create(_) => Some(EventKind::Create),
            GitHubWebhookPayload::Delete(_) => Some(EventKind::Delete),
            GitHubWebhookPayload::Fork(_) => Some(EventKind::Fork),
            GitHubWebhookPayload::Release(_) => Some(EventKind::Release),
            GitHubWebhookPayload::Generic(_) => None,
        }
    }
}

} // verus!
