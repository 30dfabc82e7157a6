//! Authentication: what is signed, and what is asked of the server.

use vstd::prelude::*;
use vstd::string::*;
use vstd::utf8::*;

use crate::bytes::put_bytes;
use crate::encoding::base64_text;
use crate::identity::{agent_name, Identity, IdentityView};
use crate::outside::{
    base64_decode, base64_decoded, base64_encode, ed25519_public, ed25519_signature, joined_url,
    os_random, sha256_digest, sha256_hash, url_join,
};
use crate::text::{join, option_view};

verus! {

/// An authenticated session.
#[derive(Debug, Clone)]
pub struct Session {
    pub token: String,
    pub expires_at: String,
    pub agent_id: String,
}

/// A claim that an operator has still to approve.
#[derive(Debug, Clone)]
pub struct AgentClaim {
    pub status: String,
    pub agent_id: String,
    pub claim_token: String,
    pub verification_uri: String,
    pub user_code: String,
    pub expires_at: String,
}

/// How far a claim has come.
#[derive(Debug, Clone)]
pub struct AgentClaimStatus {
    pub agent_id: String,
    pub status: String,
    pub expires_at: i64,
}

/// A login of an operator that is still to be approved in a browser.
#[derive(Debug, Clone)]
pub struct OperatorDeviceAuthorization {
    pub status: String,
    pub device_code: String,
    pub user_code: String,
    pub session_token: String,
    pub verification_uri: String,
    pub expires_at: String,
}

/// How far a login has come.
#[derive(Debug, Clone)]
pub struct OperatorDeviceStatus {
    pub status: String,
    pub operator_id: Option<String>,
    pub expires_at: i64,
}

/// An operator.
#[derive(Debug, Clone)]
pub struct OperatorProfile {
    pub id: String,
    pub email: String,
    pub status: String,
    pub identities: Vec<OperatorIdentity>,
}

/// An account by which an operator logs in.
#[derive(Debug, Clone)]
pub struct OperatorIdentity {
    pub provider: String,
    pub email: String,
}

/// A token by which agents may enroll.
#[derive(Debug, Clone)]
pub struct EnrollmentCapability {
    pub token: String,
    pub max_uses: u32,
    pub expires_at: String,
}

/// Why authentication failed.
#[derive(Debug)]
pub enum AuthError {
    Request(String),
    InvalidUrl,
    InvalidChallenge(String),
}

/// An error in words.
pub open spec fn auth_error_text(error: AuthError) -> Seq<char> {
    match error {
        AuthError::Request(cause) => "request failed: "@ + cause@,
        AuthError::InvalidUrl => "invalid API URL"@,
        AuthError::InvalidChallenge(cause) => "invalid challenge: "@ + cause@,
    }
}

impl AuthError {
    /// The error in words.
    pub fn message(&self) -> (text: String)
        ensures
            text@ == auth_error_text(*self),
    {
        match self {
            AuthError::Request(cause) => join("request failed: ", cause.as_str()),
            AuthError::InvalidUrl => "invalid API URL".to_owned(),
            AuthError::InvalidChallenge(cause) => join("invalid challenge: ", cause.as_str()),
        }
    }
}

/// What an activation statement is for.
#[derive(Debug, Clone, Copy, PartialEq, Eq, Structural)]
pub enum ActivationKind {
    Claim,
    Enroll,
}

/// The bytes that keep statements of different kinds apart.
pub open spec fn domain_bytes(kind: ActivationKind) -> Seq<u8> {
    match kind {
        ActivationKind::Claim => encode_utf8("aingle-agent-claim-v1\0"@),
        ActivationKind::Enroll => encode_utf8("aingle-agent-enrollment-v1\0"@),
    }
}

/// The digest of a display name; a missing name counts as an empty one.
pub open spec fn display_digest(display_name: Option<Seq<char>>) -> Seq<u8> {
    match display_name {
        Some(name) => sha256_digest(encode_utf8(name)),
        None => sha256_digest(encode_utf8(""@)),
    }
}

/// The digest of an enrollment token; zeros where there is none.
pub open spec fn token_digest(enrollment_token: Option<Seq<char>>) -> Seq<u8> {
    match enrollment_token {
        Some(token) => sha256_digest(encode_utf8(token)),
        None => Seq::new(32, |i: int| 0u8),
    }
}

/// A statement made of its parts.
pub open spec fn statement_of(
    kind: ActivationKind,
    nonce: Seq<u8>,
    name_digest: Seq<u8>,
    secret_digest: Seq<u8>,
) -> Seq<u8> {
    domain_bytes(kind) + nonce + name_digest + secret_digest
}

/// The statement that an agent signs to be activated.
pub open spec fn statement_bytes(
    kind: ActivationKind,
    nonce: Seq<u8>,
    display_name: Option<Seq<char>>,
    enrollment_token: Option<Seq<char>>,
) -> Seq<u8> {
    statement_of(kind, nonce, display_digest(display_name), token_digest(enrollment_token))
}

/// The statement that an agent signs to be activated: it binds the kind of the request, the nonce,
/// the display name and the enrollment token.
pub fn activation_statement(
    kind: ActivationKind,
    nonce: &[u8; 32],
    display_name: Option<&str>,
    enrollment_token: Option<&str>,
) -> (statement: Vec<u8>)
    ensures
        statement@ == statement_bytes(
            kind,
            nonce@,
            option_view(display_name),
            option_view(enrollment_token),
        ),
        statement@.len() == domain_bytes(kind).len() + 96,
        statement@ == (match kind {
            ActivationKind::Claim => encode_utf8("aingle-agent-claim-v1\0"@),
            ActivationKind::Enroll => encode_utf8("aingle-agent-enrollment-v1\0"@),
        }) + nonce@ + sha256_digest(
            encode_utf8(
                match display_name {
                    Some(name) => name@,
                    None => ""@,
                },
            ),
        ) + (match enrollment_token {
            Some(token) => sha256_digest(encode_utf8(token@)),
            None => Seq::new(32, |i: int| 0u8),
        }),
{
    let domain = match kind {
        ActivationKind::Claim => "aingle-agent-claim-v1\0",
        ActivationKind::Enroll => "aingle-agent-enrollment-v1\0",
    };
    let name = match display_name {
        Some(name) => name,
        None => "",
    };
    let name_digest = sha256_hash(name.as_bytes());
    let secret_digest = match enrollment_token {
        Some(token) => sha256_hash(token.as_bytes()),
        None => [0u8; 32],
    };
    assert(enrollment_token is None ==> secret_digest@ =~= Seq::new(32, |i: int| 0u8));
    let mut statement: Vec<u8> = Vec::new();
    put_bytes(&mut statement, domain.as_bytes());
    put_bytes(&mut statement, nonce.as_slice());
    put_bytes(&mut statement, name_digest.as_slice());
    put_bytes(&mut statement, secret_digest.as_slice());
    assert(statement@ =~= statement_bytes(
        kind,
        nonce@,
        option_view(display_name),
        option_view(enrollment_token),
    ));
    statement
}

proof fn lemma_domain_lengths()
    ensures
        domain_bytes(ActivationKind::Claim).len() == 22,
        domain_bytes(ActivationKind::Enroll).len() == 27,
{
    reveal_strlit("aingle-agent-claim-v1\0");
    reveal_strlit("aingle-agent-enrollment-v1\0");
    is_ascii_chars_encode_utf8("aingle-agent-claim-v1\0"@);
    is_ascii_chars_encode_utf8("aingle-agent-enrollment-v1\0"@);
}

/// Law: a statement binds its kind, the nonce, the digest of the name and that of the token. Two
/// statements are the same only if all four are.
pub proof fn law_statement_binds_its_parts(
    kind: ActivationKind,
    nonce: Seq<u8>,
    name_digest: Seq<u8>,
    secret_digest: Seq<u8>,
    other_kind: ActivationKind,
    other_nonce: Seq<u8>,
    other_name_digest: Seq<u8>,
    other_secret_digest: Seq<u8>,
)
    requires
        nonce.len() == 32,
        name_digest.len() == 32,
        secret_digest.len() == 32,
        other_nonce.len() == 32,
        other_name_digest.len() == 32,
        other_secret_digest.len() == 32,
        statement_of(kind, nonce, name_digest, secret_digest) == statement_of(
            other_kind,
            other_nonce,
            other_name_digest,
            other_secret_digest,
        ),
    ensures
        kind == other_kind,
        nonce == other_nonce,
        name_digest == other_name_digest,
        secret_digest == other_secret_digest,
{
    lemma_domain_lengths();
    let left = statement_of(kind, nonce, name_digest, secret_digest);
    let right = statement_of(other_kind, other_nonce, other_name_digest, other_secret_digest);
    assert(left.len() == right.len());
    assert(kind == other_kind);
    let n = domain_bytes(kind).len() as int;
    assert(left.subrange(n, n + 32) =~= nonce);
    assert(right.subrange(n, n + 32) =~= other_nonce);
    assert(left.subrange(n + 32, n + 64) =~= name_digest);
    assert(right.subrange(n + 32, n + 64) =~= other_name_digest);
    assert(left.subrange(n + 64, n + 96) =~= secret_digest);
    assert(right.subrange(n + 64, n + 96) =~= other_secret_digest);
}

/// A fresh nonce; `None` where the operating system gives no random bytes.
pub fn random_nonce() -> (nonce: Option<[u8; 32]>) {
    os_random()
}

/// The HTTP methods that the server understands.
#[derive(Debug, Clone, Copy, PartialEq, Eq, Structural)]
pub enum Method {
    Get,
    Post,
}

/// The body of a request to be claimed by an operator.
#[derive(Debug)]
pub struct AgentActivationRequest {
    pub public_key: String,
    pub nonce: String,
    pub signature: String,
    pub display_name: Option<String>,
}

/// The body of a request to enroll.
#[derive(Debug)]
pub struct EnrollRequest {
    pub enrollment_token: String,
    pub public_key: String,
    pub nonce: String,
    pub signature: String,
    pub display_name: Option<String>,
}

/// The challenge that the server sets.
#[derive(Debug)]
pub struct ChallengeResponse {
    pub challenge_id: String,
    pub nonce: String,
}

/// The body of an answer to a challenge.
#[derive(Debug)]
pub struct SessionRequest {
    pub agent_id: String,
    pub challenge_id: String,
    pub signature: String,
}

/// The body of a request.
#[derive(Debug)]
pub enum Body {
    Empty,
    Claim(AgentActivationRequest),
    ClaimStatus { claim_token: String },
    Enroll(EnrollRequest),
    DeviceStatus { device_code: String },
    EnrollmentCapability { max_uses: u32, expires_in_seconds: u64 },
    Challenge { agent_id: String },
    Session(SessionRequest),
}

/// A request to the server.
#[derive(Debug)]
pub struct HttpRequest {
    pub method: Method,
    pub url: String,
    pub bearer: Option<String>,
    pub body: Body,
}

/// What the body of a request says.
pub enum BodyView {
    Empty,
    Claim {
        public_key: Seq<char>,
        nonce: Seq<char>,
        signature: Seq<char>,
        display_name: Option<Seq<char>>,
    },
    ClaimStatus { claim_token: Seq<char> },
    Enroll {
        enrollment_token: Seq<char>,
        public_key: Seq<char>,
        nonce: Seq<char>,
        signature: Seq<char>,
        display_name: Option<Seq<char>>,
    },
    DeviceStatus { device_code: Seq<char> },
    EnrollmentCapability { max_uses: u32, expires_in_seconds: u64 },
    Challenge { agent_id: Seq<char> },
    Session { agent_id: Seq<char>, challenge_id: Seq<char>, signature: Seq<char> },
}

/// What a request says.
pub struct RequestView {
    pub method: Method,
    pub url: Seq<char>,
    pub bearer: Option<Seq<char>>,
    pub body: BodyView,
}

impl View for Body {
    type V = BodyView;

    open spec fn view(&self) -> BodyView {
        match self {
            Body::Empty => BodyView::Empty,
            Body::Claim(request) => BodyView::Claim {
                public_key: request.public_key@,
                nonce: request.nonce@,
                signature: request.signature@,
                display_name: option_view(request.display_name),
            },
            Body::ClaimStatus { claim_token } => BodyView::ClaimStatus {
                claim_token: claim_token@,
            },
            Body::Enroll(request) => BodyView::Enroll {
                enrollment_token: request.enrollment_token@,
                public_key: request.public_key@,
                nonce: request.nonce@,
                signature: request.signature@,
                display_name: option_view(request.display_name),
            },
            Body::DeviceStatus { device_code } => BodyView::DeviceStatus {
                device_code: device_code@,
            },
            Body::EnrollmentCapability { max_uses, expires_in_seconds } =>
                BodyView::EnrollmentCapability {
                max_uses: *max_uses,
                expires_in_seconds: *expires_in_seconds,
            },
            Body::Challenge { agent_id } => BodyView::Challenge { agent_id: agent_id@ },
            Body::Session(request) => BodyView::Session {
                agent_id: request.agent_id@,
                challenge_id: request.challenge_id@,
                signature: request.signature@,
            },
        }
    }
}

impl View for HttpRequest {
    type V = RequestView;

    open spec fn view(&self) -> RequestView {
        RequestView {
            method: self.method,
            url: self.url@,
            bearer: option_view(self.bearer),
            body: self.body@,
        }
    }
}

/// What is to become of a request to `path`: it goes to the URL to which the path leads from the
/// server's, and is refused where it leads nowhere.
pub open spec fn is_request(
    outcome: Result<HttpRequest, AuthError>,
    base: Seq<char>,
    path: Seq<char>,
    method: Method,
    bearer: Option<Seq<char>>,
    body: BodyView,
) -> bool {
    match joined_url(base, path) {
        Ok(url) => outcome is Ok && outcome->Ok_0@ == (RequestView { method, url, bearer, body }),
        Err(_) => outcome == Err::<HttpRequest, _>(AuthError::InvalidUrl),
    }
}

/// The body of a claim: the public key, and a signed statement over the nonce and the name.
pub open spec fn claim_body(
    identity: IdentityView,
    nonce: Seq<u8>,
    display_name: Option<Seq<char>>,
) -> BodyView {
    let statement = statement_bytes(ActivationKind::Claim, nonce, display_name, None);
    BodyView::Claim {
        public_key: base64_text(ed25519_public(identity.secret)),
        nonce: base64_text(nonce),
        signature: base64_text(ed25519_signature(identity.secret, statement)),
        display_name,
    }
}

/// The body of an enrollment: as for a claim, with the token bound into the statement.
pub open spec fn enroll_body(
    enrollment_token: Seq<char>,
    identity: IdentityView,
    nonce: Seq<u8>,
    display_name: Option<Seq<char>>,
) -> BodyView {
    let statement = statement_bytes(
        ActivationKind::Enroll,
        nonce,
        display_name,
        Some(enrollment_token),
    );
    BodyView::Enroll {
        enrollment_token,
        public_key: base64_text(ed25519_public(identity.secret)),
        nonce: base64_text(nonce),
        signature: base64_text(ed25519_signature(identity.secret, statement)),
        display_name,
    }
}

/// The body of the answer to a challenge: the challenge's nonce, signed.
pub open spec fn session_body(
    identity: IdentityView,
    challenge_id: Seq<char>,
    nonce: Seq<u8>,
) -> BodyView {
    BodyView::Session {
        agent_id: agent_name(ed25519_public(identity.secret)),
        challenge_id,
        signature: base64_text(ed25519_signature(identity.secret, nonce)),
    }
}

/// What the answer to a challenge asks of the server; a nonce that is not base64 is refused first.
pub open spec fn is_session_request(
    outcome: Result<HttpRequest, AuthError>,
    base: Seq<char>,
    identity: IdentityView,
    challenge: ChallengeResponse,
) -> bool {
    match base64_decoded(challenge.nonce@) {
        Ok(nonce) => is_request(
            outcome,
            base,
            "/v1/auth/session"@,
            Method::Post,
            None,
            session_body(identity, challenge.challenge_id@, nonce),
        ),
        Err(cause) => match outcome {
            Err(AuthError::InvalidChallenge(text)) => text@ == cause,
            _ => false,
        },
    }
}

/// A client of the server's HTTP interface: it says what to ask.
#[derive(Debug)]
pub struct AuthClient {
    pub base_url: String,
}

fn name_of(display_name: &Option<String>) -> (name: Option<&str>)
    ensures
        option_view(name) == option_view(*display_name),
{
    match display_name {
        Some(name) => Some(name.as_str()),
        None => None,
    }
}

impl AuthClient {
    /// A client of the server at `base_url`.
    pub fn new(base_url: String) -> (client: AuthClient)
        ensures
            client.base_url@ == base_url@,
    {
        AuthClient { base_url }
    }

    /// The URL to which a path leads from the server's; refused where it leads nowhere.
    fn endpoint(&self, path: &str) -> (url: Result<String, AuthError>)
        ensures
            match joined_url(self.base_url@, path@) {
                Ok(text) => url is Ok && url->Ok_0@ == text,
                Err(_) => url == Err::<String, _>(AuthError::InvalidUrl),
            },
    {
        match url_join(self.base_url.as_str(), path) {
            Ok(url) => Ok(url),
            Err(_) => Err(AuthError::InvalidUrl),
        }
    }

    /// A request to one of the server's paths.
    fn request(&self, path: &str, method: Method, bearer: Option<String>, body: Body) -> (request:
        Result<HttpRequest, AuthError>)
        ensures
            is_request(request, self.base_url@, path@, method, option_view(bearer), body@),
            request matches Ok(sent) ==> sent.method == method && sent.bearer == bearer && sent.body
                == body,
    {
        let url = self.endpoint(path)?;
        Ok(HttpRequest { method, url, bearer, body })
    }

    /// Asks to be claimed, with a given nonce.
    pub fn create_claim_with(
        &self,
        identity: &Identity,
        display_name: Option<String>,
        nonce: &[u8; 32],
    ) -> (request: Result<HttpRequest, AuthError>)
        ensures
            is_request(
                request,
                self.base_url@,
                "/v1/agent-claims"@,
                Method::Post,
                None,
                claim_body(identity@, nonce@, option_view(display_name)),
            ),
            joined_url(self.base_url@, "/v1/agent-claims"@) is Err ==> request == Err::<HttpRequest, _>(
                AuthError::InvalidUrl,
            ),
            joined_url(self.base_url@, "/v1/agent-claims"@) matches Ok(url) ==> (request matches Ok(sent)
                && sent.url@ == url && sent.method == Method::Post && sent.bearer is None
                && (sent.body matches Body::Claim(body) && {
                    let name = match display_name {
                        Some(name) => name@,
                        None => ""@,
                    };
                    let statement = encode_utf8("aingle-agent-claim-v1\0"@) + nonce@
                        + sha256_digest(encode_utf8(name)) + Seq::new(32, |i: int| 0u8);
                    &&& body.public_key@ == base64_text(ed25519_public(identity@.secret))
                    &&& body.nonce@ == base64_text(nonce@)
                    &&& body.signature@ == base64_text(
                        ed25519_signature(identity@.secret, statement),
                    )
                    &&& body.display_name == display_name
                })),
    {
        let statement = activation_statement(
            ActivationKind::Claim,
            nonce,
            name_of(&display_name),
            None,
        );
        let signature = identity.sign(statement.as_slice());
        let body = AgentActivationRequest {
            public_key: identity.public_key_text(),
            nonce: base64_encode(nonce.as_slice()),
            signature: base64_encode(signature.as_slice()),
            display_name,
        };
        self.request("/v1/agent-claims", Method::Post, None, Body::Claim(body))
    }

    /// Asks to be claimed, with a fresh nonce; `None` where there are no random bytes for it. A
    /// server to which no such request can be made is refused before any are asked for.
    pub fn create_claim(&self, identity: &Identity, display_name: Option<String>) -> (request:
        Option<Result<HttpRequest, AuthError>>)
        ensures
            joined_url(self.base_url@, "/v1/agent-claims"@) is Err ==> request == Some(
                Err::<HttpRequest, _>(AuthError::InvalidUrl),
            ),
            request matches Some(outcome) ==> exists|nonce: Seq<u8>|
                nonce.len() == 32 && is_request(
                    outcome,
                    self.base_url@,
                    "/v1/agent-claims"@,
                    Method::Post,
                    None,
                    #[trigger] claim_body(identity@, nonce, option_view(display_name)),
                ),
            request matches Some(Ok(sent)) ==> {
                &&& joined_url(self.base_url@, "/v1/agent-claims"@) == Ok::<_, Seq<char>>(sent.url@)
                &&& sent.method == Method::Post && sent.bearer is None
                &&& sent.body matches Body::Claim(body) && {
                    let name = match display_name {
                        Some(name) => name@,
                        None => ""@,
                    };
                    &&& body.public_key@ == base64_text(ed25519_public(identity@.secret))
                    &&& body.display_name == display_name
                    &&& exists|nonce: Seq<u8>|
                        nonce.len() == 32 && body.nonce@ == #[trigger] base64_text(nonce)
                            && body.signature@ == base64_text(
                            ed25519_signature(
                                identity@.secret,
                                encode_utf8("aingle-agent-claim-v1\0"@) + nonce + sha256_digest(
                                    encode_utf8(name),
                                ) + Seq::new(32, |i: int| 0u8),
                            ),
                        )
                }
            },
    {
        if let Err(refusal) = self.endpoint("/v1/agent-claims") {
            let ghost unsent = claim_body(
                identity@,
                Seq::new(32, |i: int| 0u8),
                option_view(display_name),
            );
            return Some(Err(refusal));
        }
        let nonce = random_nonce()?;
        let ghost body = claim_body(identity@, nonce@, option_view(display_name));
        Some(self.create_claim_with(identity, display_name, &nonce))
    }

    /// Asks how far a claim has come.
    pub fn claim_status(&self, claim_token: &str) -> (request: Result<HttpRequest, AuthError>)
        ensures
            is_request(
                request,
                self.base_url@,
                "/v1/agent-claims/status"@,
                Method::Post,
                None,
                BodyView::ClaimStatus { claim_token: claim_token@ },
            ),
            joined_url(self.base_url@, "/v1/agent-claims/status"@) is Err ==> request == Err::<HttpRequest, _>(
                AuthError::InvalidUrl,
            ),
            joined_url(self.base_url@, "/v1/agent-claims/status"@) matches Ok(url) ==> (request matches Ok(sent)
                && sent.url@ == url && sent.method == Method::Post && sent.bearer is None
                && (sent.body matches Body::ClaimStatus { claim_token: asked } && asked@ == claim_token@)),
    {
        let body = Body::ClaimStatus { claim_token: claim_token.to_owned() };
        self.request("/v1/agent-claims/status", Method::Post, None, body)
    }

    /// Asks to enroll by a token, with a given nonce.
    pub fn enroll_with(
        &self,
        enrollment_token: String,
        identity: &Identity,
        display_name: Option<String>,
        nonce: &[u8; 32],
    ) -> (request: Result<HttpRequest, AuthError>)
        ensures
            is_request(
                request,
                self.base_url@,
                "/v1/agents/enroll"@,
                Method::Post,
                None,
                enroll_body(enrollment_token@, identity@, nonce@, option_view(display_name)),
            ),
            joined_url(self.base_url@, "/v1/agents/enroll"@) is Err ==> request == Err::<HttpRequest, _>(
                AuthError::InvalidUrl,
            ),
            joined_url(self.base_url@, "/v1/agents/enroll"@) matches Ok(url) ==> (request matches Ok(sent)
                && sent.url@ == url && sent.method == Method::Post && sent.bearer is None
                && (sent.body matches Body::Enroll(body) && {
                    let name = match display_name {
                        Some(name) => name@,
                        None => ""@,
                    };
                    let statement = encode_utf8("aingle-agent-enrollment-v1\0"@) + nonce@
                        + sha256_digest(encode_utf8(name)) + sha256_digest(
                        encode_utf8(enrollment_token@),
                    );
                    &&& body.enrollment_token@ == enrollment_token@
                    &&& body.public_key@ == base64_text(ed25519_public(identity@.secret))
                    &&& body.nonce@ == base64_text(nonce@)
                    &&& body.signature@ == base64_text(
                        ed25519_signature(identity@.secret, statement),
                    )
                    &&& body.display_name == display_name
                })),
    {
        let statement = activation_statement(
            ActivationKind::Enroll,
            nonce,
            name_of(&display_name),
            Some(enrollment_token.as_str()),
        );
        let signature = identity.sign(statement.as_slice());
        let body = EnrollRequest {
            enrollment_token,
            public_key: identity.public_key_text(),
            nonce: base64_encode(nonce.as_slice()),
            signature: base64_encode(signature.as_slice()),
            display_name,
        };
        self.request("/v1/agents/enroll", Method::Post, None, Body::Enroll(body))
    }

    /// Asks to enroll by a token, with a fresh nonce; `None` where there are no random bytes for
    /// it. A server to which no such request can be made is refused before any are asked for.
    pub fn enroll(
        &self,
        enrollment_token: String,
        identity: &Identity,
        display_name: Option<String>,
    ) -> (request: Option<Result<HttpRequest, AuthError>>)
        ensures
            joined_url(self.base_url@, "/v1/agents/enroll"@) is Err ==> request == Some(
                Err::<HttpRequest, _>(AuthError::InvalidUrl),
            ),
            request matches Some(outcome) ==> exists|nonce: Seq<u8>|
                nonce.len() == 32 && is_request(
                    outcome,
                    self.base_url@,
                    "/v1/agents/enroll"@,
                    Method::Post,
                    None,
                    #[trigger] enroll_body(
                        enrollment_token@,
                        identity@,
                        nonce,
                        option_view(display_name),
                    ),
                ),
            request matches Some(Ok(sent)) ==> {
                &&& joined_url(self.base_url@, "/v1/agents/enroll"@) == Ok::<_, Seq<char>>(
                    sent.url@,
                )
                &&& sent.method == Method::Post && sent.bearer is None
                &&& sent.body matches Body::Enroll(body) && {
                    let name = match display_name {
                        Some(name) => name@,
                        None => ""@,
                    };
                    &&& body.enrollment_token@ == enrollment_token@
                    &&& body.public_key@ == base64_text(ed25519_public(identity@.secret))
                    &&& body.display_name == display_name
                    &&& exists|nonce: Seq<u8>|
                        nonce.len() == 32 && body.nonce@ == #[trigger] base64_text(nonce)
                            && body.signature@ == base64_text(
                            ed25519_signature(
                                identity@.secret,
                                encode_utf8("aingle-agent-enrollment-v1\0"@) + nonce
                                    + sha256_digest(encode_utf8(name)) + sha256_digest(
                                    encode_utf8(enrollment_token@),
                                ),
                            ),
                        )
                }
            },
    {
        if let Err(refusal) = self.endpoint("/v1/agents/enroll") {
            let ghost unsent = enroll_body(
                enrollment_token@,
                identity@,
                Seq::new(32, |i: int| 0u8),
                option_view(display_name),
            );
            return Some(Err(refusal));
        }
        let nonce = random_nonce()?;
        let ghost body = enroll_body(
            enrollment_token@,
            identity@,
            nonce@,
            option_view(display_name),
        );
        Some(self.enroll_with(enrollment_token, identity, display_name, &nonce))
    }

    /// Asks to log an operator in from this device.
    pub fn create_operator_device_authorization(&self) -> (request: Result<HttpRequest, AuthError>)
        ensures
            is_request(
                request,
                self.base_url@,
                "/v1/operator/device-authorizations"@,
                Method::Post,
                None,
                BodyView::Empty,
            ),
            joined_url(self.base_url@, "/v1/operator/device-authorizations"@) is Err ==> request == Err::<HttpRequest, _>(
                AuthError::InvalidUrl,
            ),
            joined_url(self.base_url@, "/v1/operator/device-authorizations"@) matches Ok(url) ==> (request matches Ok(sent)
                && sent.url@ == url && sent.method == Method::Post && sent.bearer is None
                && sent.body is Empty),
    {
        self.request("/v1/operator/device-authorizations", Method::Post, None, Body::Empty)
    }

    /// Asks how far a login has come.
    pub fn operator_device_status(&self, device_code: &str) -> (request: Result<
        HttpRequest,
        AuthError,
    >)
        ensures
            is_request(
                request,
                self.base_url@,
                "/v1/operator/device-authorizations/status"@,
                Method::Post,
                None,
                BodyView::DeviceStatus { device_code: device_code@ },
            ),
            joined_url(self.base_url@, "/v1/operator/device-authorizations/status"@) is Err ==> request == Err::<HttpRequest, _>(
                AuthError::InvalidUrl,
            ),
            joined_url(self.base_url@, "/v1/operator/device-authorizations/status"@) matches Ok(url) ==> (request matches Ok(sent)
                && sent.url@ == url && sent.method == Method::Post && sent.bearer is None
                && (sent.body matches Body::DeviceStatus { device_code: asked } && asked@ == device_code@)),
    {
        let body = Body::DeviceStatus { device_code: device_code.to_owned() };
        self.request("/v1/operator/device-authorizations/status", Method::Post, None, body)
    }

    /// Asks who the operator of a session is.
    pub fn operator_profile(&self, session_token: &str) -> (request: Result<HttpRequest, AuthError>)
        ensures
            is_request(
                request,
                self.base_url@,
                "/v1/operator/me"@,
                Method::Get,
                Some(session_token@),
                BodyView::Empty,
            ),
            joined_url(self.base_url@, "/v1/operator/me"@) is Err ==> request == Err::<HttpRequest, _>(
                AuthError::InvalidUrl,
            ),
            joined_url(self.base_url@, "/v1/operator/me"@) matches Ok(url) ==> (request matches Ok(sent)
                && sent.url@ == url && sent.method == Method::Get && (sent.bearer matches Some(token) && token@ == session_token@)
                && sent.body is Empty),
    {
        self.request("/v1/operator/me", Method::Get, Some(session_token.to_owned()), Body::Empty)
    }

    /// Asks for a token by which agents may enroll.
    pub fn create_enrollment_capability(
        &self,
        session_token: &str,
        max_uses: u32,
        expires_in_seconds: u64,
    ) -> (request: Result<HttpRequest, AuthError>)
        ensures
            is_request(
                request,
                self.base_url@,
                "/v1/operator/enrollment-tokens"@,
                Method::Post,
                Some(session_token@),
                BodyView::EnrollmentCapability { max_uses, expires_in_seconds },
            ),
            joined_url(self.base_url@, "/v1/operator/enrollment-tokens"@) is Err ==> request == Err::<HttpRequest, _>(
                AuthError::InvalidUrl,
            ),
            joined_url(self.base_url@, "/v1/operator/enrollment-tokens"@) matches Ok(url) ==> (request matches Ok(sent)
                && sent.url@ == url && sent.method == Method::Post && (sent.bearer matches Some(token) && token@ == session_token@)
                && sent.body == (Body::EnrollmentCapability { max_uses, expires_in_seconds })),
    {
        self.request(
            "/v1/operator/enrollment-tokens",
            Method::Post,
            Some(session_token.to_owned()),
            Body::EnrollmentCapability { max_uses, expires_in_seconds },
        )
    }

    /// Asks to end an operator's session.
    pub fn operator_logout(&self, session_token: &str) -> (request: Result<HttpRequest, AuthError>)
        ensures
            is_request(
                request,
                self.base_url@,
                "/v1/operator/logout"@,
                Method::Post,
                Some(session_token@),
                BodyView::Empty,
            ),
            joined_url(self.base_url@, "/v1/operator/logout"@) is Err ==> request == Err::<HttpRequest, _>(
                AuthError::InvalidUrl,
            ),
            joined_url(self.base_url@, "/v1/operator/logout"@) matches Ok(url) ==> (request matches Ok(sent)
                && sent.url@ == url && sent.method == Method::Post && (sent.bearer matches Some(token) && token@ == session_token@)
                && sent.body is Empty),
    {
        self.request("/v1/operator/logout", Method::Post, Some(session_token.to_owned()), Body::Empty)
    }

    /// Asks for a challenge, which opens an authentication.
    pub fn authenticate(&self, identity: &Identity) -> (request: Result<HttpRequest, AuthError>)
        ensures
            is_request(
                request,
                self.base_url@,
                "/v1/auth/challenge"@,
                Method::Post,
                None,
                BodyView::Challenge { agent_id: agent_name(ed25519_public(identity@.secret)) },
            ),
            joined_url(self.base_url@, "/v1/auth/challenge"@) is Err ==> request == Err::<HttpRequest, _>(
                AuthError::InvalidUrl,
            ),
            joined_url(self.base_url@, "/v1/auth/challenge"@) matches Ok(url) ==> (request matches Ok(sent)
                && sent.url@ == url && sent.method == Method::Post && sent.bearer is None
                && (sent.body matches Body::Challenge { agent_id } && agent_id@ == agent_name(ed25519_public(identity@.secret)))),
    {
        let body = Body::Challenge { agent_id: identity.agent_id() };
        self.request("/v1/auth/challenge", Method::Post, None, body)
    }

    /// Answers a challenge, which completes an authentication.
    pub fn answer_challenge(&self, identity: &Identity, challenge: ChallengeResponse) -> (request:
        Result<HttpRequest, AuthError>)
        ensures
            is_session_request(request, self.base_url@, identity@, challenge),
            forall|nonce: Seq<u8>|
                challenge.nonce@ == #[trigger] base64_text(nonce) ==> is_request(
                    request,
                    self.base_url@,
                    "/v1/auth/session"@,
                    Method::Post,
                    None,
                    session_body(identity@, challenge.challenge_id@, nonce),
                ),
            base64_decoded(challenge.nonce@) matches Err(cause) ==> (request matches Err(
                AuthError::InvalidChallenge(text),
            ) && text@ == cause),
            base64_decoded(challenge.nonce@) is Ok && joined_url(
                self.base_url@,
                "/v1/auth/session"@,
            ) is Err ==> request == Err::<HttpRequest, _>(AuthError::InvalidUrl),
            forall|nonce: Seq<u8>|
                (challenge.nonce@ == #[trigger] base64_text(nonce)) && joined_url(
                    self.base_url@,
                    "/v1/auth/session"@,
                ) is Ok ==> (request matches Ok(sent) && joined_url(
                    self.base_url@,
                    "/v1/auth/session"@,
                ) == Ok::<_, Seq<char>>(sent.url@) && sent.method == Method::Post
                    && sent.bearer is None && (sent.body matches Body::Session(body)
                    && body.agent_id@ == agent_name(ed25519_public(identity@.secret))
                    && body.challenge_id@ == challenge.challenge_id@ && body.signature@
                    == base64_text(ed25519_signature(identity@.secret, nonce)))),
    {
        let nonce = match base64_decode(challenge.nonce.as_str()) {
            Ok(nonce) => nonce,
            Err(cause) => return Err(AuthError::InvalidChallenge(cause)),
        };
        let signature = identity.sign(nonce.as_slice());
        let body = SessionRequest {
            agent_id: identity.agent_id(),
            challenge_id: challenge.challenge_id,
            signature: base64_encode(signature.as_slice()),
        };
        self.request("/v1/auth/session", Method::Post, None, Body::Session(body))
    }
}

/// Law: what answers a challenge is the signature, by the identity's key, of exactly the bytes that
/// the challenge's nonce encodes, together with the challenge's own number and the agent's name; it
/// is posted to the path for sessions without a token.
pub proof fn law_challenge_is_answered_by_its_signature(
    outcome: Result<HttpRequest, AuthError>,
    base: Seq<char>,
    url: Seq<char>,
    identity: IdentityView,
    challenge: ChallengeResponse,
    nonce: Seq<u8>,
)
    requires
        is_session_request(outcome, base, identity, challenge),
        base64_decoded(challenge.nonce@) == Ok::<_, Seq<char>>(nonce),
        joined_url(base, "/v1/auth/session"@) == Ok::<_, Seq<char>>(url),
    ensures
        outcome matches Ok(sent) && sent.url@ == url && sent.method == Method::Post
            && sent.bearer is None && (sent.body matches Body::Session(body) && body.signature@
            == base64_text(ed25519_signature(identity.secret, nonce)) && body.challenge_id@
            == challenge.challenge_id@ && body.agent_id@ == agent_name(
            ed25519_public(identity.secret),
        )),
{
}

/// Law: a statement is the words that name its kind, then the nonce, then the digest of the name,
/// and then that of the token, or zeros where there is none.
pub proof fn law_statement_is_its_parts_in_order(
    kind: ActivationKind,
    nonce: Seq<u8>,
    name: Option<Seq<char>>,
    token: Option<Seq<char>>,
)
    ensures
        statement_bytes(kind, nonce, name, token) == (match kind {
            ActivationKind::Claim => encode_utf8("aingle-agent-claim-v1\0"@),
            ActivationKind::Enroll => encode_utf8("aingle-agent-enrollment-v1\0"@),
        }) + nonce + sha256_digest(
            encode_utf8(
                match name {
                    Some(text) => text,
                    None => ""@,
                },
            ),
        ) + (match token {
            Some(text) => sha256_digest(encode_utf8(text)),
            None => Seq::new(32, |i: int| 0u8),
        }),
{
}

/// Law: requests say what they hold.
pub proof fn law_requests_say_what_they_hold(request: HttpRequest)
    ensures
        request@.method == request.method,
        request@.url == request.url@,
        match request.bearer {
            Some(token) => request@.bearer == Some(token@),
            None => request@.bearer is None,
        },
        match request.body {
            Body::Empty => request@.body == BodyView::Empty,
            Body::Claim(body) => request@.body matches BodyView::Claim {
                public_key,
                nonce,
                signature,
                display_name,
            } && public_key == body.public_key@ && nonce == body.nonce@ && signature
                == body.signature@ && (display_name is Some <==> body.display_name is Some) && (
            body.display_name matches Some(name) ==> display_name == Some(name@)),
            Body::ClaimStatus { claim_token } => request@.body == (BodyView::ClaimStatus {
                claim_token: claim_token@,
            }),
            Body::Enroll(body) => request@.body matches BodyView::Enroll {
                enrollment_token,
                public_key,
                nonce,
                signature,
                display_name,
            } && enrollment_token == body.enrollment_token@ && public_key == body.public_key@
                && nonce == body.nonce@ && signature == body.signature@ && (display_name is Some
                <==> body.display_name is Some) && (body.display_name matches Some(name)
                ==> display_name == Some(name@)),
            Body::DeviceStatus { device_code } => request@.body == (BodyView::DeviceStatus {
                device_code: device_code@,
            }),
            Body::EnrollmentCapability { max_uses, expires_in_seconds } => request@.body == (
            BodyView::EnrollmentCapability { max_uses, expires_in_seconds }),
            Body::Challenge { agent_id } => request@.body == (BodyView::Challenge {
                agent_id: agent_id@,
            }),
            Body::Session(body) => request@.body == (BodyView::Session {
                agent_id: body.agent_id@,
                challenge_id: body.challenge_id@,
                signature: body.signature@,
            }),
        },
{
}

/// Law: an error says what failed and why.
pub proof fn law_auth_errors_in_words(error: AuthError)
    ensures
        auth_error_text(error) == match error {
            AuthError::Request(cause) => "request failed: "@ + cause@,
            AuthError::InvalidUrl => "invalid API URL"@,
            AuthError::InvalidChallenge(cause) => "invalid challenge: "@ + cause@,
        },
{
}

/// Law: a claim and an enrollment hold the public key, the nonce, the name and the signature, by the
/// identity's key, of the words for their kind, the nonce, the digest of the name and that of the
/// token, of which a claim has none.
pub proof fn law_activations_are_signed_statements(
    token: Seq<char>,
    identity: IdentityView,
    nonce: Seq<u8>,
    name: Seq<char>,
)
    ensures
        ({
            let key = base64_text(ed25519_public(identity.secret));
            let named = sha256_digest(encode_utf8(name));
            let claimed = encode_utf8("aingle-agent-claim-v1\0"@) + nonce + named + Seq::new(
                32,
                |i: int| 0u8,
            );
            let enrolled = encode_utf8("aingle-agent-enrollment-v1\0"@) + nonce + named
                + sha256_digest(encode_utf8(token));
            &&& claim_body(identity, nonce, Some(name)) == BodyView::Claim {
                public_key: key,
                nonce: base64_text(nonce),
                signature: base64_text(ed25519_signature(identity.secret, claimed)),
                display_name: Some(name),
            }
            &&& enroll_body(token, identity, nonce, Some(name)) == BodyView::Enroll {
                enrollment_token: token,
                public_key: key,
                nonce: base64_text(nonce),
                signature: base64_text(ed25519_signature(identity.secret, enrolled)),
                display_name: Some(name),
            }
            &&& claim_body(identity, nonce, None)->Claim_display_name is None
            &&& enroll_body(token, identity, nonce, None)->Enroll_display_name is None
        }),
{
    law_statement_is_its_parts_in_order(ActivationKind::Claim, nonce, Some(name), None);
    law_statement_is_its_parts_in_order(ActivationKind::Enroll, nonce, Some(name), Some(token));
}

} // verus!
