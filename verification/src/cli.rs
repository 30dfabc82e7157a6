//! The decisions of the command line: exit codes, secrets from standard input, and when to go on
//! asking.

use vstd::prelude::*;
use vstd::string::*;

use crate::ids::{uuid_text, Uuid};
use crate::outside::{joined_url, url_join};
use crate::text::{
    contains_part, has_part, join, lowered, result_view, same_text, starts_with, to_lower_chars,
    trim, trimmed,
};

verus! {

/// Whether one of two texts occurs in a message.
pub open spec fn names_either(message: Seq<char>, first: Seq<char>, second: Seq<char>) -> bool {
    has_part(message, first) || has_part(message, second)
}

/// The exit code for an error, by what its message names; letters count in either case.
pub open spec fn exit_code(message: Seq<char>) -> u8 {
    let text = lowered(message);
    if names_either(text, "config"@, "identity"@) {
        2
    } else if has_part(text, "auth"@) || names_either(text, "401"@, "403"@) {
        3
    } else if has_part(text, "network"@) || names_either(text, "dns"@, "connection"@) {
        4
    } else if has_part(text, "protocol"@) {
        5
    } else if names_either(text, "server busy"@, "503"@) {
        6
    } else if names_either(text, "rate limit"@, "429"@) {
        7
    } else {
        1
    }
}

/// The exit code for an error.
pub fn classify_error(message: &str) -> (code: u8)
    ensures
        code == exit_code(message@),
        1 <= code <= 7,
        ({
            let text = lowered(message@);
            let settings = has_part(text, "config"@) || has_part(text, "identity"@);
            let refused = has_part(text, "auth"@) || has_part(text, "401"@) || has_part(
                text,
                "403"@,
            );
            let lost = has_part(text, "network"@) || has_part(text, "dns"@) || has_part(
                text,
                "connection"@,
            );
            let garbled = has_part(text, "protocol"@);
            let busy = has_part(text, "server busy"@) || has_part(text, "503"@);
            let limited = has_part(text, "rate limit"@) || has_part(text, "429"@);
            &&& code == 2 <==> settings
            &&& code == 3 <==> !settings && refused
            &&& code == 4 <==> !settings && !refused && lost
            &&& code == 5 <==> !settings && !refused && !lost && garbled
            &&& code == 6 <==> !settings && !refused && !lost && !garbled && busy
            &&& code == 7 <==> !settings && !refused && !lost && !garbled && !busy && limited
        }),
{
    let text = to_lower_chars(message);
    if contains_part(&text, "config") || contains_part(&text, "identity") {
        2
    } else if contains_part(&text, "auth") || contains_part(&text, "401") || contains_part(
        &text,
        "403",
    ) {
        3
    } else if contains_part(&text, "network") || contains_part(&text, "dns") || contains_part(
        &text,
        "connection",
    ) {
        4
    } else if contains_part(&text, "protocol") {
        5
    } else if contains_part(&text, "server busy") || contains_part(&text, "503") {
        6
    } else if contains_part(&text, "rate limit") || contains_part(&text, "429") {
        7
    } else {
        1
    }
}

/// Whether a text can be an enrollment token.
pub open spec fn is_enrollment_token(token: Seq<char>) -> bool {
    "aingle_enroll_"@.is_prefix_of(token)
}

/// The enrollment token in what was read from standard input, without the white space around it.
pub fn read_secret(stdin: &str) -> (token: Result<String, String>)
    ensures
        is_enrollment_token(trimmed(stdin@)) ==> (token matches Ok(secret) && secret@ == trimmed(
            stdin@,
        )),
        !is_enrollment_token(trimmed(stdin@)) ==> (token matches Err(cause) && cause@
            == "invalid enrollment token on stdin"@),
        token is Ok <==> "aingle_enroll_"@.is_prefix_of(trimmed(stdin@)),
{
    let value = trim(stdin);
    if !starts_with(value, "aingle_enroll_") {
        return Err("invalid enrollment token on stdin".to_owned());
    }
    Ok(value.to_owned())
}

/// What the initialisation does next.
#[derive(Debug, Clone, Copy, PartialEq, Eq, Structural)]
pub enum InitStep {
    /// Report an identity that the server does not know of.
    ReportLocal,
    /// Read an enrollment token, enroll, forget a pending claim and report.
    Enroll,
    /// Try to authenticate.
    Authenticate,
    /// Forget a pending claim and report that the agent is active.
    ReportActive,
    /// Claim the identity, keep the claim and report it.
    Claim,
}

/// What the initialisation does once identity and configuration are there.
pub fn init_start(offline: bool, enrollment_token_stdin: bool) -> (step: InitStep)
    ensures
        step == if offline {
            InitStep::ReportLocal
        } else if enrollment_token_stdin {
            InitStep::Enroll
        } else {
            InitStep::Authenticate
        },
{
    if offline {
        InitStep::ReportLocal
    } else if enrollment_token_stdin {
        InitStep::Enroll
    } else {
        InitStep::Authenticate
    }
}

/// What the initialisation does once it was seen whether the agent can authenticate.
pub fn init_authenticated(authenticated: bool) -> (step: InitStep)
    ensures
        step == if authenticated {
            InitStep::ReportActive
        } else {
            InitStep::Claim
        },
{
    if authenticated {
        InitStep::ReportActive
    } else {
        InitStep::Claim
    }
}

/// What to do with a status that the server gave.
#[derive(Debug, Clone, Copy, PartialEq, Eq, Structural)]
pub enum Poll {
    /// Keep the session that was approved and report the operator.
    Accept,
    /// Report it; whether what is pending is settled and can be forgotten.
    Report(bool),
    /// Ask again in a moment.
    Wait,
}

/// What to do with the status of a claim.
pub open spec fn claim_step(status: Seq<char>, wait: bool) -> Poll {
    if status == "pending"@ && wait {
        Poll::Wait
    } else {
        Poll::Report(status == "approved"@ || status == "denied"@ || status == "expired"@)
    }
}

/// What to do with the status of a claim.
pub fn claim_poll(status: &str, wait: bool) -> (poll: Poll)
    ensures
        poll == claim_step(status@, wait),
        poll is Wait <==> status@ == "pending"@ && wait,
        poll matches Poll::Report(settled) ==> (settled <==> status@ == "approved"@ || status@
            == "denied"@ || status@ == "expired"@),
        !(poll is Accept),
{
    if same_text(status, "pending") && wait {
        Poll::Wait
    } else {
        Poll::Report(
            same_text(status, "approved") || same_text(status, "denied") || same_text(
                status,
                "expired",
            ),
        )
    }
}

/// What to do with the status of a login.
pub open spec fn login_step(status: Seq<char>, wait: bool) -> Poll {
    if status == "approved"@ {
        Poll::Accept
    } else if status == "pending"@ && wait {
        Poll::Wait
    } else {
        Poll::Report(status == "denied"@ || status == "expired"@)
    }
}

/// What to do with the status of a login.
pub fn login_poll(status: &str, wait: bool) -> (poll: Poll)
    ensures
        poll == login_step(status@, wait),
        poll is Accept <==> status@ == "approved"@,
        poll is Wait <==> status@ == "pending"@ && wait,
        poll matches Poll::Report(settled) ==> (settled <==> status@ == "denied"@ || status@
            == "expired"@),
{
    proof {
        reveal_strlit("pending");
        reveal_strlit("approved");
        assert("pending"@[0] == 'p' && "approved"@[0] == 'a');
    }

    if same_text(status, "approved") {
        Poll::Accept
    } else if same_text(status, "pending") && wait {
        Poll::Wait
    } else {
        Poll::Report(same_text(status, "denied") || same_text(status, "expired"))
    }
}

/// Law: what is pending is never forgotten while it is undecided, and nothing decided is asked for
/// again.
pub proof fn law_pending_is_kept(status: Seq<char>, wait: bool)
    ensures
        status == "pending"@ ==> claim_step(status, wait) != Poll::Report(true) && login_step(
            status,
            wait,
        ) != Poll::Report(true),
        status != "pending"@ ==> claim_step(status, wait) != Poll::Wait && login_step(status, wait)
            != Poll::Wait,
        !wait ==> claim_step(status, wait) != Poll::Wait && login_step(status, wait) != Poll::Wait,
{
    reveal_strlit("pending");
    reveal_strlit("approved");
    reveal_strlit("denied");
    reveal_strlit("expired");
    assert("pending"@[0] == 'p' && "approved"@[0] == 'a' && "denied"@[0] == 'd' && "expired"@[0]
        == 'e');
}

/// The URL under which the server keeps a conversation.
pub fn conversation_url(base: &str, id: &Uuid) -> (url: Result<String, String>)
    ensures
        result_view(url) == joined_url(base@, "/v1/conversations/"@ + uuid_text(id@)),
{
    url_join(base, join("/v1/conversations/", id.to_text().as_str()).as_str())
}

/// The URL under which a conversation is reported.
pub fn report_url(base: &str, id: &Uuid) -> (url: Result<String, String>)
    ensures
        result_view(url) == joined_url(
            base@,
            "/v1/conversations/"@ + uuid_text(id@) + "/report"@,
        ),
{
    let path = join("/v1/conversations/", id.to_text().as_str());
    url_join(base, join(path.as_str(), "/report").as_str())
}

/// The URL under which the server says whether it is well.
pub fn health_url(base: &str) -> (url: Result<String, String>)
    ensures
        result_view(url) == joined_url(base@, "/health"@),
{
    url_join(base, "/health")
}

/// Law: a message leads to the code of the first kind of trouble that it names, in either case of its
/// letters: settings, a refusal, the network, the protocol, a busy server, a limit, or anything else.
pub proof fn law_exit_codes_by_kind(message: Seq<char>)
    ensures
        ({
            let text = lowered(message);
            let settings = has_part(text, "config"@) || has_part(text, "identity"@);
            let refused = has_part(text, "auth"@) || has_part(text, "401"@) || has_part(
                text,
                "403"@,
            );
            let lost = has_part(text, "network"@) || has_part(text, "dns"@) || has_part(
                text,
                "connection"@,
            );
            exit_code(message) == if settings {
                2u8
            } else if refused {
                3u8
            } else if lost {
                4u8
            } else if has_part(text, "protocol"@) {
                5u8
            } else if has_part(text, "server busy"@) || has_part(text, "503"@) {
                6u8
            } else if has_part(text, "rate limit"@) || has_part(text, "429"@) {
                7u8
            } else {
                1u8
            }
        }),
{
}

/// Law: what is pending is asked for again exactly while it is waited for; an approved login is
/// taken; and a decision, and nothing else, lets what was pending be forgotten.
pub proof fn law_decisions_settle_what_is_pending(status: Seq<char>, wait: bool)
    ensures
        claim_step(status, wait) == if status == "pending"@ && wait {
            Poll::Wait
        } else {
            Poll::Report(status == "approved"@ || status == "denied"@ || status == "expired"@)
        },
        login_step(status, wait) == if status == "approved"@ {
            Poll::Accept
        } else if status == "pending"@ && wait {
            Poll::Wait
        } else {
            Poll::Report(status == "denied"@ || status == "expired"@)
        },
{
}

/// Law: an enrollment token is `aingle_enroll_` with anything behind it.
pub proof fn law_enrollment_tokens_by_their_prefix(rest: Seq<char>, token: Seq<char>)
    ensures
        is_enrollment_token("aingle_enroll_"@ + rest),
        is_enrollment_token(token) ==> token.len() >= 14 && token.take(14) == "aingle_enroll_"@,
{
    reveal_strlit("aingle_enroll_");
    assert(("aingle_enroll_"@ + rest).subrange(0, 14) =~= "aingle_enroll_"@);
    if is_enrollment_token(token) {
        assert(token.take(14) =~= "aingle_enroll_"@);
    }
}

} // verus!
