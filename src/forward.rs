use vstd::prelude::*;
use crate::text::{ascii_lower_seq, chars_of, eq_ignore_ascii_case, starts_with_ignore_ascii_case};

verus! {

/// The outbound call gives up after this many seconds.
pub const FORWARD_TIMEOUT_SECS: u64 = 30;

pub open spec fn event_prefix() -> Seq<char> {
    seq!['x', '-', 'g', 'i', 't', 'h', 'u', 'b', '-']
}

pub open spec fn forwarded_prefix() -> Seq<char> {
    seq!['x', '-', 'f', 'o', 'r', 'w', 'a', 'r', 'd', 'e', 'd', '-']
}

pub open spec fn host_name() -> Seq<char> {
    seq!['h', 'o', 's', 't']
}

pub open spec fn accept_name() -> Seq<char> {
    seq!['a', 'c', 'c', 'e', 'p', 't']
}

pub open spec fn content_type_name() -> Seq<char> {
    seq!['c', 'o', 'n', 't', 'e', 'n', 't', '-', 't', 'y', 'p', 'e']
}

pub open spec fn starts_with_lower(name: Seq<char>, prefix: Seq<char>) -> bool {
    prefix.len() <= name.len() && ascii_lower_seq(name.subrange(0, prefix.len() as int))
        == prefix
}

/// The allow-list, read without regard to ASCII case: event metadata
/// (`x-github-*`), forwarding metadata (`x-forwarded-*`), `host`, `accept`
/// and `content-type`. The signature header is not on it.
pub open spec fn header_allowed(name: Seq<char>) -> bool {
    ||| starts_with_lower(name, event_prefix())
    ||| starts_with_lower(name, forwarded_prefix())
    ||| ascii_lower_seq(name) == host_name()
    ||| ascii_lower_seq(name) == accept_name()
    ||| ascii_lower_seq(name) == content_type_name()
}

proof fn lemma_lower_fixed(s: Seq<char>)
    requires
        forall|i: int| 0 <= i < s.len() ==> !('A' <= #[trigger] s[i] && s[i] <= 'Z'),
    ensures
        ascii_lower_seq(s) == s,
{
    assert(ascii_lower_seq(s) =~= s);
}

/// Whether a header of the inbound request travels to the destination.
pub fn forward_header(name: &str) -> (r: bool)
    ensures
        r == header_allowed(name@),
{
    let n = chars_of(name);
    let event = chars_of("x-github-");
    let forwarded = chars_of("x-forwarded-");
    let host = chars_of("host");
    let accept = chars_of("accept");
    let content_type = chars_of("content-type");
    proof {
        reveal_strlit("x-github-");
        reveal_strlit("x-forwarded-");
        reveal_strlit("host");
        reveal_strlit("accept");
        reveal_strlit("content-type");
        assert(event@ =~= event_prefix());
        assert(forwarded@ =~= forwarded_prefix());
        assert(host@ =~= host_name());
        assert(accept@ =~= accept_name());
        assert(content_type@ =~= content_type_name());
        lemma_lower_fixed(event@);
        lemma_lower_fixed(forwarded@);
        lemma_lower_fixed(host@);
        lemma_lower_fixed(accept@);
        lemma_lower_fixed(content_type@);
    }
    starts_with_ignore_ascii_case(&n, &event) || starts_with_ignore_ascii_case(&n, &forwarded)
        || eq_ignore_ascii_case(&n, &host) || eq_ignore_ascii_case(&n, &accept)
        || eq_ignore_ascii_case(&n, &content_type)
}

/// The signature header itself, `x-hub-signature-256` in any ASCII case.
pub open spec fn signature_header_name() -> Seq<char> {
    seq![
        'x',
        '-',
        'h',
        'u',
        'b',
        '-',
        's',
        'i',
        'g',
        'n',
        'a',
        't',
        'u',
        'r',
        'e',
        '-',
        '2',
        '5',
        '6',
    ]
}

/// The signature header is never forwarded, whatever the case of its name.
pub proof fn lemma_signature_header_not_forwarded(name: Seq<char>)
    requires
        ascii_lower_seq(name) == signature_header_name(),
    ensures
        !header_allowed(name),
{
    let l = ascii_lower_seq(name);
    assert(l.len() == 19);
    assert(name.len() == 19);
    assert(l[2] == 'h');
    assert(ascii_lower_seq(name.subrange(0, 9))[2] == l[2]);
    assert(ascii_lower_seq(name.subrange(0, 12))[2] == l[2]);
    assert(event_prefix()[2] == 'g');
    assert(forwarded_prefix()[2] == 'f');
}

} // verus!
