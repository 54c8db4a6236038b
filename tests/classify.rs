use std::collections::HashMap;

use github_jenkins_proxy::error::ProxyError;
use github_jenkins_proxy::github_types::{
    Comment, Commit, CommitAuthor, CreateEvent, DeleteEvent, Enterprise, EventKind, ForkEvent,
    GenericPayload, GitHubWebhookPayload, Installation, Issue, IssueCommentEvent, IssuesEvent,
    Label, Organization, PullRequest, PullRequestEvent, PullRequestRef, PushEvent, Pusher, Release,
    ReleaseEvent, Repository, User,
};
use github_jenkins_proxy::destination::resolve_destination;
use github_jenkins_proxy::forward::forward_header;
use github_jenkins_proxy::webhook::{authenticate, classify_payload, event_kind, DecodeError};
use hmac::{Hmac, Mac};
use sha2::Sha256;

fn user() -> User {
    User {
        login: "x".to_string(),
        id: 1,
        node_id: "x".to_string(),
        avatar_url: "x".to_string(),
        gravatar_id: None,
        url: "x".to_string(),
        html_url: "x".to_string(),
        followers_url: "x".to_string(),
        following_url: "x".to_string(),
        gists_url: "x".to_string(),
        starred_url: "x".to_string(),
        subscriptions_url: "x".to_string(),
        organizations_url: "x".to_string(),
        repos_url: "x".to_string(),
        events_url: "x".to_string(),
        received_events_url: "x".to_string(),
        user_type: "x".to_string(),
        site_admin: false,
    }
}

fn repository() -> Repository {
    Repository {
        id: 1,
        node_id: "x".to_string(),
        name: "x".to_string(),
        full_name: "x".to_string(),
        private: false,
        owner: user(),
        html_url: "x".to_string(),
        description: None,
        fork: false,
        url: "x".to_string(),
        created_at: "x".to_string(),
        updated_at: "x".to_string(),
        pushed_at: None,
        git_url: "x".to_string(),
        ssh_url: "x".to_string(),
        clone_url: "x".to_string(),
        svn_url: "x".to_string(),
        homepage: None,
        size: 1,
        stargazers_count: 1,
        watchers_count: 1,
        language: None,
        has_issues: false,
        has_projects: false,
        has_downloads: false,
        has_wiki: false,
        has_pages: false,
        has_discussions: None,
        forks_count: 1,
        archived: false,
        disabled: false,
        open_issues_count: 1,
        license: None,
        allow_forking: None,
        is_template: None,
        web_commit_signoff_required: None,
        topics: None,
        visibility: None,
        forks: 1,
        open_issues: 1,
        watchers: 1,
        default_branch: "x".to_string(),
    }
}

fn organization() -> Organization {
    Organization {
        login: "x".to_string(),
        id: 1,
        node_id: "x".to_string(),
        url: "x".to_string(),
        repos_url: "x".to_string(),
        events_url: "x".to_string(),
        hooks_url: "x".to_string(),
        issues_url: "x".to_string(),
        members_url: "x".to_string(),
        public_members_url: "x".to_string(),
        avatar_url: "x".to_string(),
        description: None,
    }
}

fn installation() -> Installation {
    Installation {
        id: 1,
        node_id: "x".to_string(),
    }
}

fn enterprise() -> Enterprise {
    Enterprise {
        id: 1,
        slug: "x".to_string(),
        name: "x".to_string(),
        node_id: "x".to_string(),
        avatar_url: "x".to_string(),
        description: None,
        website_url: None,
        html_url: "x".to_string(),
        created_at: "x".to_string(),
        updated_at: "x".to_string(),
    }
}

fn commit() -> Commit {
    Commit {
        id: "x".to_string(),
        tree_id: "x".to_string(),
        distinct: false,
        message: "x".to_string(),
        timestamp: "x".to_string(),
        url: "x".to_string(),
        author: commit_author(),
        committer: commit_author(),
        added: vec![],
        removed: vec![],
        modified: vec![],
    }
}

fn commit_author() -> CommitAuthor {
    CommitAuthor {
        name: "x".to_string(),
        email: "x".to_string(),
        username: None,
    }
}

fn issue() -> Issue {
    Issue {
        id: 1,
        node_id: "x".to_string(),
        url: "x".to_string(),
        repository_url: "x".to_string(),
        labels_url: "x".to_string(),
        comments_url: "x".to_string(),
        events_url: "x".to_string(),
        html_url: "x".to_string(),
        number: 1,
        state: "x".to_string(),
        title: "x".to_string(),
        body: None,
        user: user(),
        labels: vec![],
        assignee: None,
        assignees: vec![],
        milestone: None,
        locked: false,
        active_lock_reason: None,
        comments: 1,
        pull_request: None,
        closed_at: None,
        created_at: "x".to_string(),
        updated_at: "x".to_string(),
        author_association: "x".to_string(),
    }
}

fn label() -> Label {
    Label {
        id: 1,
        node_id: "x".to_string(),
        url: "x".to_string(),
        name: "x".to_string(),
        description: None,
        color: "x".to_string(),
        default: false,
    }
}

fn pull_request() -> PullRequest {
    PullRequest {
        id: 1,
        node_id: "x".to_string(),
        url: "x".to_string(),
        html_url: "x".to_string(),
        diff_url: "x".to_string(),
        patch_url: "x".to_string(),
        issue_url: "x".to_string(),
        commits_url: "x".to_string(),
        review_comments_url: "x".to_string(),
        review_comment_url: "x".to_string(),
        comments_url: "x".to_string(),
        statuses_url: "x".to_string(),
        number: 1,
        state: "x".to_string(),
        locked: false,
        title: "x".to_string(),
        user: user(),
        body: None,
        labels: vec![],
        milestone: None,
        active_lock_reason: None,
        created_at: "x".to_string(),
        updated_at: "x".to_string(),
        closed_at: None,
        merged_at: None,
        merge_commit_sha: None,
        assignee: None,
        assignees: vec![],
        requested_reviewers: vec![],
        requested_teams: vec![],
        head: pull_request_ref(),
        base: pull_request_ref(),
        author_association: "x".to_string(),
        draft: false,
        merged: false,
        mergeable: None,
        rebaseable: None,
        mergeable_state: "x".to_string(),
        merged_by: None,
        comments: 1,
        review_comments: 1,
        maintainer_can_modify: false,
        commits: 1,
        additions: 1,
        deletions: 1,
        changed_files: 1,
    }
}

fn pull_request_ref() -> PullRequestRef {
    PullRequestRef {
        label: "x".to_string(),
        ref_field: "x".to_string(),
        sha: "x".to_string(),
        user: user(),
        repo: None,
    }
}

fn release() -> Release {
    Release {
        id: 1,
        node_id: "x".to_string(),
        url: "x".to_string(),
        html_url: "x".to_string(),
        assets_url: "x".to_string(),
        upload_url: "x".to_string(),
        tarball_url: None,
        zipball_url: None,
        tag_name: "x".to_string(),
        target_commitish: "x".to_string(),
        name: None,
        body: None,
        draft: false,
        prerelease: false,
        created_at: "x".to_string(),
        published_at: None,
        author: user(),
        assets: vec![],
    }
}

fn comment() -> Comment {
    Comment {
        id: 1,
        node_id: "x".to_string(),
        url: "x".to_string(),
        html_url: "x".to_string(),
        body: "x".to_string(),
        user: user(),
        created_at: "x".to_string(),
        updated_at: "x".to_string(),
        issue_url: None,
        author_association: "x".to_string(),
    }
}

fn push_event() -> PushEvent {
    PushEvent {
        ref_field: "x".to_string(),
        before: "x".to_string(),
        after: "x".to_string(),
        repository: repository(),
        pusher: pusher(),
        organization: None,
        sender: user(),
        created: false,
        deleted: false,
        forced: false,
        base_ref: None,
        compare: "x".to_string(),
        commits: vec![],
        head_commit: None,
        installation: None,
        enterprise: None,
    }
}

fn pusher() -> Pusher {
    Pusher {
        name: "x".to_string(),
        email: "x".to_string(),
    }
}

fn pull_request_event() -> PullRequestEvent {
    PullRequestEvent {
        action: "x".to_string(),
        number: 1,
        pull_request: pull_request(),
        repository: repository(),
        organization: None,
        installation: None,
        sender: user(),
        enterprise: None,
    }
}

fn issues_event() -> IssuesEvent {
    IssuesEvent {
        action: "x".to_string(),
        issue: issue(),
        repository: repository(),
        sender: user(),
        organization: None,
        installation: None,
        enterprise: None,
    }
}

fn issue_comment_event() -> IssueCommentEvent {
    IssueCommentEvent {
        action: "x".to_string(),
        issue: issue(),
        comment: comment(),
        repository: repository(),
        sender: user(),
        organization: None,
        installation: None,
        enterprise: None,
    }
}

fn create_event() -> CreateEvent {
    CreateEvent {
        ref_field: "x".to_string(),
        ref_type: "x".to_string(),
        master_branch: "x".to_string(),
        description: None,
        pusher_type: "x".to_string(),
        repository: repository(),
        sender: user(),
        organization: None,
        installation: None,
        enterprise: None,
    }
}

fn delete_event() -> DeleteEvent {
    DeleteEvent {
        ref_field: "x".to_string(),
        ref_type: "x".to_string(),
        pusher_type: "x".to_string(),
        repository: repository(),
        sender: user(),
        organization: None,
        installation: None,
        enterprise: None,
    }
}

fn fork_event() -> ForkEvent {
    ForkEvent {
        forkee: repository(),
        repository: repository(),
        sender: user(),
        organization: None,
        installation: None,
        enterprise: None,
    }
}

fn release_event() -> ReleaseEvent {
    ReleaseEvent {
        action: "x".to_string(),
        release: release(),
        repository: repository(),
        sender: user(),
        organization: None,
        installation: None,
        enterprise: None,
    }
}

#[allow(dead_code)]
fn unused_shapes() -> (Commit, CommitAuthor, Label, Organization, Installation, Enterprise) {
    (commit(), commit_author(), label(), organization(), installation(), enterprise())
}

fn generic(with_repository: bool, with_sender: bool) -> GenericPayload {
    GenericPayload {
        repository: if with_repository { Some(repository()) } else { None },
        sender: if with_sender { Some(user()) } else { None },
        organization: None,
        installation: None,
        enterprise: None,
        other: HashMap::new(),
    }
}

fn minimal(kind: EventKind) -> GitHubWebhookPayload {
    match kind {
        EventKind::Push => GitHubWebhookPayload::Push(push_event()),
        EventKind::PullRequest => GitHubWebhookPayload::PullRequest(pull_request_event()),
        EventKind::Issues => GitHubWebhookPayload::Issues(issues_event()),
        EventKind::IssueComment => GitHubWebhookPayload::IssueComment(issue_comment_event()),
        EventKind::Create => GitHubWebhookPayload::Create(create_event()),
        EventKind::Delete => GitHubWebhookPayload::Delete(delete_event()),
        EventKind::Fork => GitHubWebhookPayload::Fork(fork_event()),
        EventKind::Release => GitHubWebhookPayload::Release(release_event()),
    }
}

const TAGS: [(&str, EventKind); 8] = [
    ("push", EventKind::Push),
    ("pull_request", EventKind::PullRequest),
    ("issues", EventKind::Issues),
    ("issue_comment", EventKind::IssueComment),
    ("create", EventKind::Create),
    ("delete", EventKind::Delete),
    ("fork", EventKind::Fork),
    ("release", EventKind::Release),
];

#[test]
fn every_supported_tag_classifies_a_minimal_body() {
    for (tag, kind) in TAGS {
        assert_eq!(event_kind(tag), Ok(kind));
        let accepted = classify_payload(kind, Ok(minimal(kind))).unwrap();
        assert_eq!(accepted.kind(), Some(kind));
        assert!(accepted.validate_required_fields());
    }
}

#[test]
fn unsupported_tags_are_named_in_the_error() {
    for tag in ["", "unknown", "Push", "PUSH", "pull-request", "ping", "push "] {
        assert_eq!(
            event_kind(tag),
            Err(ProxyError::UnsupportedEventType(tag.to_string()))
        );
    }
}

#[test]
fn unsupported_tag_answers_bad_request() {
    assert_eq!(event_kind("ping").unwrap_err().status_code(), 400);
}

#[test]
fn create_with_empty_ref_is_incomplete() {
    let mut e = create_event();
    e.ref_field = String::new();
    let r = classify_payload(EventKind::Create, Ok(GitHubWebhookPayload::Create(e)));
    assert_eq!(r.unwrap_err(), ProxyError::IncompletePayload);
}

#[test]
fn delete_with_empty_ref_is_incomplete() {
    let mut e = delete_event();
    e.ref_field = String::new();
    let r = classify_payload(EventKind::Delete, Ok(GitHubWebhookPayload::Delete(e)));
    assert_eq!(r.unwrap_err(), ProxyError::IncompletePayload);
}

#[test]
fn create_with_empty_ref_type_is_incomplete() {
    let mut e = create_event();
    e.ref_type = String::new();
    let r = classify_payload(EventKind::Create, Ok(GitHubWebhookPayload::Create(e)));
    assert_eq!(r.unwrap_err(), ProxyError::IncompletePayload);
}

#[test]
fn pull_request_number_zero_is_incomplete() {
    let mut e = pull_request_event();
    e.number = 0;
    let r = classify_payload(EventKind::PullRequest, Ok(GitHubWebhookPayload::PullRequest(e)));
    assert_eq!(r.unwrap_err(), ProxyError::IncompletePayload);
}

#[test]
fn push_with_empty_ref_is_incomplete() {
    let mut e = push_event();
    e.ref_field = String::new();
    assert!(!GitHubWebhookPayload::Push(e).validate_required_fields());
}

#[test]
fn actions_are_required() {
    let mut a = issues_event();
    a.action = String::new();
    assert!(!GitHubWebhookPayload::Issues(a).validate_required_fields());
    let mut b = issue_comment_event();
    b.action = String::new();
    assert!(!GitHubWebhookPayload::IssueComment(b).validate_required_fields());
    let mut c = release_event();
    c.action = String::new();
    assert!(!GitHubWebhookPayload::Release(c).validate_required_fields());
}

#[test]
fn fork_needs_nothing_more() {
    assert!(GitHubWebhookPayload::Fork(fork_event()).validate_required_fields());
}

#[test]
fn generic_needs_repository_or_sender() {
    assert!(!GitHubWebhookPayload::Generic(generic(false, false)).validate_required_fields());
    assert!(GitHubWebhookPayload::Generic(generic(true, false)).validate_required_fields());
    assert!(GitHubWebhookPayload::Generic(generic(false, true)).validate_required_fields());
    assert_eq!(GitHubWebhookPayload::Generic(generic(true, true)).kind(), None);
}

#[test]
fn decode_failure_keeps_its_path() {
    let e = DecodeError { path: "repository.owner.id".to_string() };
    let r = classify_payload(EventKind::Push, Err(e));
    assert_eq!(
        r.unwrap_err(),
        ProxyError::MalformedPayload { path: "repository.owner.id".to_string() }
    );
}

#[test]
fn payload_of_another_shape_is_malformed() {
    let r = classify_payload(EventKind::Push, Ok(minimal(EventKind::Fork)));
    assert_eq!(r.unwrap_err(), ProxyError::MalformedPayload { path: String::new() });
    let g = classify_payload(EventKind::Push, Ok(GitHubWebhookPayload::Generic(generic(true, true))));
    assert!(matches!(g, Err(ProxyError::MalformedPayload { .. })));
}

#[test]
fn malformed_and_incomplete_answer_bad_request() {
    assert_eq!(ProxyError::IncompletePayload.status_code(), 400);
    let m = ProxyError::MalformedPayload { path: String::new() };
    assert_eq!(m.status_code(), 400);
}

#[test]
fn signed_push_is_accepted_and_routed_to_the_webhook_path() {
    let body = br#"{"ref":"refs/heads/main"}"#.to_vec();
    let mut mac = Hmac::<Sha256>::new_from_slice(b"secret").unwrap();
    mac.update(&body);
    let token = format!("sha256={}", hex::encode(mac.finalize().into_bytes()));

    assert_eq!(authenticate(&body, Some(Some(&token)), "secret"), Ok(()));
    let kind = event_kind("push").unwrap();
    let mut e = push_event();
    e.ref_field = "refs/heads/main".to_string();
    let payload = classify_payload(kind, Ok(GitHubWebhookPayload::Push(e))).unwrap();
    assert_eq!(payload.kind(), Some(EventKind::Push));
    assert_eq!(
        resolve_destination("http://jenkins.local/").unwrap(),
        "http://jenkins.local/github-webhook/"
    );
    let headers = [
        ("X-GitHub-Event", "push"),
        ("X-Hub-Signature-256", token.as_str()),
        ("Cookie", "secret=1"),
        ("Content-Type", "application/json"),
    ];
    let kept: Vec<&str> =
        headers.iter().filter(|(n, _)| forward_header(n)).map(|(n, _)| *n).collect();
    assert_eq!(kept, vec!["X-GitHub-Event", "Content-Type"]);
}
