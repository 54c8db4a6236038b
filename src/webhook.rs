use vstd::prelude::*;
use vstd::string::StringExecFns;
use crate::error::ProxyError;
use crate::text::str_eq;
use crate::github_types::{EventKind, GitHubWebhookPayload, kind_of, required_fields_present};
use crate::signature::{
    hex_digit,
    hex_lower,
    hmac_sha256_of,
    signature_token,
    signature_valid,
    verify_signature,
};
use vstd::string::StringSliceAdditionalSpecFns;

verus! {

/// Request bodies above this many bytes are refused before anything else.
pub const MAX_PAYLOAD_SIZE: usize = 26214400;

/// The header that carries the signature token.
pub const GITHUB_SIGNATURE_HEADER: &'static str = "X-Hub-Signature-256";

/// The header that carries the event tag.
pub const GITHUB_EVENT_HEADER: &'static str = "X-GitHub-Event";

/// The configuration that every request reads and none changes.
pub struct AppState {
    pub jenkins_url: String,
    pub github_secret: String,
}

/// Where decoding a body into its event's shape failed.
#[derive(Debug, Clone)]
pub struct DecodeError {
    /// The path of fields down to the one that did not decode.
    pub path: String,
}

/// The event shape that a tag names, exactly and with case.
pub open spec fn kind_of_tag(t: Seq<char>) -> Option<EventKind> {
    if t == seq!['p', 'u', 's', 'h'] {
        Some(EventKind::Push)
    } else if t == seq!['p', 'u', 'l', 'l', '_', 'r', 'e', 'q', 'u', 'e', 's', 't'] {
        Some(EventKind::PullRequest)
    } else if t == seq!['i', 's', 's', 'u', 'e', 's'] {
        Some(EventKind::Issues)
    } else if t == seq!['i', 's', 's', 'u', 'e', '_', 'c', 'o', 'm', 'm', 'e', 'n', 't'] {
        Some(EventKind::IssueComment)
    } else if t == seq!['c', 'r', 'e', 'a', 't', 'e'] {
        Some(EventKind::Create)
    } else if t == seq!['d', 'e', 'l', 'e', 't', 'e'] {
        Some(EventKind::Delete)
    } else if t == seq!['f', 'o', 'r', 'k'] {
        Some(EventKind::Fork)
    } else if t == seq!['r', 'e', 'l', 'e', 'a', 's', 'e'] {
        Some(EventKind::Release)
    } else {
        None
    }
}

/// The tag that names each event shape.
pub open spec fn tag_of(k: EventKind) -> Seq<char> {
    match k {
        EventKind::Push => seq!['p', 'u', 's', 'h'],
        EventKind::PullRequest => seq!['p', 'u', 'l', 'l', '_', 'r', 'e', 'q', 'u', 'e', 's', 't'],
        EventKind::Issues => seq!['i', 's', 's', 'u', 'e', 's'],
        EventKind::IssueComment => seq![
            'i',
            's',
            's',
            'u',
            'e',
            '_',
            'c',
            'o',
            'm',
            'm',
            'e',
            'n',
            't',
        ],
        EventKind::Create => seq!['c', 'r', 'e', 'a', 't', 'e'],
        EventKind::Delete => seq!['d', 'e', 'l', 'e', 't', 'e'],
        EventKind::Fork => seq!['f', 'o', 'r', 'k'],
        EventKind::Release => seq!['r', 'e', 'l', 'e', 'a', 's', 'e'],
    }
}

/// Selects the event shape for a tag. The match is exact and case-sensitive;
/// any other tag, the empty one included, is refused and named in the error.
pub fn event_kind(event_type: &str) -> (r: Result<EventKind, ProxyError>)
    ensures
        kind_of_tag(event_type@) matches Some(k) ==> r == Ok::<EventKind, ProxyError>(k),
        kind_of_tag(event_type@) is None ==> (r matches Err(ProxyError::UnsupportedEventType(t))
            && t@ == event_type@),
{
    proof {
        reveal_strlit("push");
        reveal_strlit("pull_request");
        reveal_strlit("issues");
        reveal_strlit("issue_comment");
        reveal_strlit("create");
        reveal_strlit("delete");
        reveal_strlit("fork");
        reveal_strlit("release");
        assert("push"@ =~= tag_of(EventKind::Push));
        assert("pull_request"@ =~= tag_of(EventKind::PullRequest));
        assert("issues"@ =~= tag_of(EventKind::Issues));
        assert("issue_comment"@ =~= tag_of(EventKind::IssueComment));
        assert("create"@ =~= tag_of(EventKind::Create));
        assert("delete"@ =~= tag_of(EventKind::Delete));
        assert("fork"@ =~= tag_of(EventKind::Fork));
        assert("release"@ =~= tag_of(EventKind::Release));
    }
    if str_eq(event_type, "push") {
        Ok(EventKind::Push)
    } else if str_eq(event_type, "pull_request") {
        Ok(EventKind::PullRequest)
    } else if str_eq(event_type, "issues") {
        Ok(EventKind::Issues)
    } else if str_eq(event_type, "issue_comment") {
        Ok(EventKind::IssueComment)
    } else if str_eq(event_type, "create") {
        Ok(EventKind::Create)
    } else if str_eq(event_type, "delete") {
        Ok(EventKind::Delete)
    } else if str_eq(event_type, "fork") {
        Ok(EventKind::Fork)
    } else if str_eq(event_type, "release") {
        Ok(EventKind::Release)
    } else {
        Err(ProxyError::UnsupportedEventType(String::from_str(event_type)))
    }
}

/// Takes the outcome of decoding a body into the shape that `kind` selects.
/// A decoding failure keeps its field path and nothing else; a payload of
/// another shape is malformed at the top level; one that decoded but lacks a field its event cannot do without
/// is incomplete; any other payload is accepted unchanged.
pub fn classify_payload(kind: EventKind, decoded: Result<GitHubWebhookPayload, DecodeError>) -> (r:
    Result<GitHubWebhookPayload, ProxyError>)
    ensures
        decoded matches Err(e) ==> r == Err::<GitHubWebhookPayload, ProxyError>(
            ProxyError::MalformedPayload { path: e.path },
        ),
        decoded matches Ok(p) ==> {
            if kind_of(p) != Some(kind) {
                r matches Err(ProxyError::MalformedPayload { path }) && path@.len() == 0
            } else if !required_fields_present(p) {
                r == Err::<GitHubWebhookPayload, ProxyError>(ProxyError::IncompletePayload)
            } else {
                r == Ok::<GitHubWebhookPayload, ProxyError>(p)
            }
        },
{
    match decoded {
        Err(e) => Err(ProxyError::MalformedPayload { path: e.path }),
        Ok(p) => {
            let same = match p.kind() {
                Some(k) => k == kind,
                None => false,
            };
            if !same {
                Err(ProxyError::MalformedPayload { path: String::new() })
            } else if !p.validate_required_fields() {
                Err(ProxyError::IncompletePayload)
            } else {
                Ok(p)
            }
        },
    }
}

/// The checks that come before the body is read as JSON, in order: the size
/// ceiling, the presence of the signature header, that its value is text, and
/// the signature itself. `signature` is `None` where the header is absent and
/// `Some(None)` where its value is not visible ASCII.
pub fn authenticate(body: &[u8], signature: Option<Option<&str>>, secret: &str) -> (r: Result<
    (),
    ProxyError,
>)
    ensures
        body@.len() > MAX_PAYLOAD_SIZE ==> r == Err::<(), ProxyError>(ProxyError::PayloadTooLarge),
        body@.len() <= MAX_PAYLOAD_SIZE ==> match signature {
            None => r == Err::<(), ProxyError>(ProxyError::MissingSignature),
            Some(None) => r matches Err(ProxyError::InvalidHeader(_)),
            Some(Some(t)) => if signature_valid(body@, t@, secret.spec_bytes()) {
                r == Ok::<(), ProxyError>(())
            } else {
                r == Err::<(), ProxyError>(ProxyError::InvalidSignature)
            },
        },
{
    if body.len() > MAX_PAYLOAD_SIZE {
        return Err(ProxyError::PayloadTooLarge);
    }
    let token = match signature {
        None => return Err(ProxyError::MissingSignature),
        Some(None) => return Err(
            ProxyError::InvalidHeader(String::from_str("Invalid signature header")),
        ),
        Some(Some(t)) => t,
    };
    match verify_signature(body, token, secret) {
        Ok(true) => Ok(()),
        Ok(false) => Err(ProxyError::InvalidSignature),
        Err(e) => Err(e),
    }
}

/// Each tag names its own event shape, and the shapes have distinct tags.
pub proof fn lemma_tags_select_their_shape(k: EventKind)
    ensures
        kind_of_tag(tag_of(k)) == Some(k),
{
}

proof fn lemma_hex_digit_injective(n: u8, m: u8)
    requires
        n < 16,
        m < 16,
        hex_digit(n) == hex_digit(m),
    ensures
        n == m,
{
}

proof fn lemma_hex_injective(a: Seq<u8>, b: Seq<u8>)
    requires
        hex_lower(a) == hex_lower(b),
    ensures
        a == b,
{
    let ha = hex_lower(a);
    let hb = hex_lower(b);
    assert(ha.len() == 2 * a.len());
    assert(hb.len() == 2 * b.len());
    assert(a.len() == b.len());
    assert forall|i: int| 0 <= i < a.len() implies a[i] == b[i] by {
        let j = 2 * i;
        assert(j / 2 == i && j % 2 == 0);
        assert((j + 1) / 2 == i && (j + 1) % 2 == 1);
        assert(ha[j] == hex_digit(a[i] / 16));
        assert(hb[j] == hex_digit(b[i] / 16));
        assert(ha[j + 1] == hex_digit(a[i] % 16));
        assert(hb[j + 1] == hex_digit(b[i] % 16));
        lemma_hex_digit_injective(a[i] / 16, b[i] / 16);
        lemma_hex_digit_injective(a[i] % 16, b[i] % 16);
        assert(a[i] == (a[i] / 16) * 16 + a[i] % 16);
        assert(b[i] == (b[i] / 16) * 16 + b[i] % 16);
    }
    assert(a =~= b);
}

/// A token made for one body does not authenticate another body whose tag
/// differs: the request is refused as unauthorized before anything else is
/// done with it.
pub proof fn lemma_stale_signature_rejected(signed: Seq<u8>, sent: Seq<u8>, key: Seq<u8>)
    requires
        hmac_sha256_of(key, signed)@ != hmac_sha256_of(key, sent)@,
    ensures
        !signature_valid(sent, signature_token(signed, key), key),
{
    let t = signature_token(signed, key);
    assert(t.subrange(7, t.len() as int) =~= hex_lower(hmac_sha256_of(key, signed)@));
    if signature_valid(sent, t, key) {
        lemma_hex_injective(hmac_sha256_of(key, signed)@, hmac_sha256_of(key, sent)@);
    }
}

} // verus!
