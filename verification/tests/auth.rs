use aingle::auth::{
    activation_statement, random_nonce, ActivationKind, AuthClient, AuthError, Body,
    ChallengeResponse, Method,
};
use aingle::client::ClientError;
use aingle::config::Config;
use aingle::identity::{secret_source, stored_secret, Identity, SecretSource};
use aingle::ids::Uuid;
use aingle::operator::OperatorSession;

fn unhex(text: &str) -> Vec<u8> {
    (0..text.len() / 2).map(|i| u8::from_str_radix(&text[2 * i..2 * i + 2], 16).unwrap()).collect()
}

const SECRET: &str = "9d61b19deffd5a60ba844af492ec2cc44449c5697b326919703bac031cae7f60";
const PUBLIC: &str = "d75a980182b10ab7d54bfed3c964073a0ee172f3daa62325af021a68f707511a";
const EMPTY_SIGNATURE: &str = "e5564300c360ac729086e2cc806e828a84877f1eb8e5d974d873e065224901555fb8821590a33bacc61e39701cf9b46bd25bf5f0595bbe24655141438e7a100b";

fn identity() -> Identity {
    Identity::from_secret(unhex(SECRET).try_into().unwrap(), "/tmp/identity".into())
}

fn client() -> AuthClient {
    AuthClient::new("https://api.example.net/base".into())
}

#[test]
fn activation_statements_bind_kind_name_and_enrollment_token() {
    let nonce = [7_u8; 32];
    let claim = activation_statement(ActivationKind::Claim, &nonce, Some("agent"), None);
    let enrollment = activation_statement(
        ActivationKind::Enroll,
        &nonce,
        Some("agent"),
        Some("aingle_enroll_secret"),
    );

    assert_ne!(claim, enrollment);
    assert_ne!(
        enrollment,
        activation_statement(
            ActivationKind::Enroll,
            &nonce,
            Some("other"),
            Some("aingle_enroll_secret")
        )
    );
}

#[test]
fn a_statement_has_its_exact_bytes() {
    let nonce = [9_u8; 32];
    let statement = activation_statement(ActivationKind::Claim, &nonce, None, None);
    let mut expected = b"aingle-agent-claim-v1\0".to_vec();
    expected.extend([9_u8; 32]);
    expected.extend(unhex("e3b0c44298fc1c149afbf4c8996fb92427ae41e4649b934ca495991b7852b855"));
    expected.extend([0_u8; 32]);
    assert_eq!(statement, expected);
    let enrolled = activation_statement(ActivationKind::Enroll, &nonce, Some(""), Some("abc"));
    let mut expected = b"aingle-agent-enrollment-v1\0".to_vec();
    expected.extend([9_u8; 32]);
    expected.extend(unhex("e3b0c44298fc1c149afbf4c8996fb92427ae41e4649b934ca495991b7852b855"));
    expected.extend(unhex("ba7816bf8f01cfea414140de5dae2223b00361a396177a9cb410ff61f20015ad"));
    assert_eq!(enrolled, expected);
}

#[test]
fn keys_and_signatures_are_those_of_the_scheme() {
    let identity = identity();
    assert_eq!(identity.public_key().to_vec(), unhex(PUBLIC));
    assert_eq!(identity.sign(b"").to_vec(), unhex(EMPTY_SIGNATURE));
    assert_eq!(identity.signing_key().to_vec(), unhex(SECRET));
    assert_eq!(identity.path(), "/tmp/identity");
    assert_eq!(
        identity.public_key_text(),
        "11qYAYKxCrfVS/7TyWQHOg7hcvPapiMlrwIaaPcHURo="
    );
}

#[test]
fn agent_names_come_from_the_public_key() {
    let identity = identity();
    let digest = blake3::hash(&unhex(PUBLIC));
    let expected = format!(
        "agent_{}",
        data_encoding::BASE32_NOPAD.encode(digest.as_bytes())[..27].to_ascii_lowercase()
    );
    assert_eq!(identity.agent_id(), expected);
    assert_eq!(identity.agent_id().len(), 33);
    let other = Identity::from_secret([7; 32], String::new());
    assert_ne!(other.agent_id(), expected);
}

#[test]
fn a_saved_identity_is_loaded_again() {
    let first = Identity::from_secret([7; 32], "a".into());
    let encoded = first.encoded_secret();
    assert_eq!(encoded, "BwcHBwcHBwcHBwcHBwcHBwcHBwcHBwcHBwcHBwcHBwc=");
    let file = stored_secret(&encoded, false);
    match secret_source(&format!(" {}\n", file)) {
        SecretSource::Inline(secret) => {
            let loaded = Identity::load("b".into(), &secret).unwrap();
            assert_eq!(loaded.signing_key(), &[7; 32]);
            assert_eq!(loaded.path(), "b");
        }
        SecretSource::Keychain => panic!("sent to the keychain"),
    }
    assert_eq!(stored_secret(&encoded, true), "keychain");
    assert!(matches!(secret_source("\tkeychain\n"), SecretSource::Keychain));
}

#[test]
fn broken_secrets_are_named() {
    match Identity::load(String::new(), "AAAA") {
        Err(ClientError::Config(cause)) => assert_eq!(cause, "identity has invalid length"),
        _ => panic!("accepted"),
    }
    match Identity::load(String::new(), "!!!!") {
        Err(ClientError::Config(cause)) => assert_eq!(cause, "Invalid symbol 33, offset 0."),
        _ => panic!("accepted"),
    }
}

#[test]
fn an_identity_is_generated_once() {
    match Identity::generate("/x/identity".into(), true) {
        Err(ClientError::Config(cause)) => {
            assert_eq!(cause, "identity already exists at /x/identity");
        }
        _ => panic!("generated"),
    }
    let first = Identity::generate("p".into(), false).unwrap().unwrap();
    let second = Identity::generate("p".into(), false).unwrap().unwrap();
    assert_ne!(first.signing_key(), second.signing_key());
    assert_ne!(random_nonce().unwrap(), random_nonce().unwrap());
}

#[test]
fn requests_go_to_their_paths() {
    let client = client();
    let claim = client.create_claim_with(&identity(), Some("me".into()), &[1; 32]).unwrap();
    assert_eq!(claim.url, "https://api.example.net/v1/agent-claims");
    assert_eq!(claim.method, Method::Post);
    assert!(claim.bearer.is_none());
    match claim.body {
        Body::Claim(body) => {
            let statement =
                activation_statement(ActivationKind::Claim, &[1; 32], Some("me"), None);
            let signature = identity().sign(&statement);
            assert_eq!(
                body.signature,
                base64::Engine::encode(&base64::engine::general_purpose::STANDARD, signature)
            );
            assert_eq!(body.nonce, "AQEBAQEBAQEBAQEBAQEBAQEBAQEBAQEBAQEBAQEBAQE=");
            assert_eq!(body.public_key, identity().public_key_text());
            assert_eq!(body.display_name.as_deref(), Some("me"));
        }
        other => panic!("unexpected {:?}", other),
    }
    let profile = client.operator_profile("aingle_ops_x").unwrap();
    assert_eq!(profile.url, "https://api.example.net/v1/operator/me");
    assert_eq!(profile.method, Method::Get);
    assert_eq!(profile.bearer.as_deref(), Some("aingle_ops_x"));
    assert_eq!(
        client.claim_status("t").unwrap().url,
        "https://api.example.net/v1/agent-claims/status"
    );
    assert_eq!(
        client.create_operator_device_authorization().unwrap().url,
        "https://api.example.net/v1/operator/device-authorizations"
    );
    assert_eq!(
        client.operator_device_status("d").unwrap().url,
        "https://api.example.net/v1/operator/device-authorizations/status"
    );
    assert_eq!(
        client.operator_logout("s").unwrap().url,
        "https://api.example.net/v1/operator/logout"
    );
    let capability = client.create_enrollment_capability("s", 3, 60).unwrap();
    assert_eq!(capability.url, "https://api.example.net/v1/operator/enrollment-tokens");
    assert!(matches!(
        capability.body,
        Body::EnrollmentCapability { max_uses: 3, expires_in_seconds: 60 }
    ));
}

#[test]
fn enrollment_binds_its_token() {
    let request =
        client().enroll_with("aingle_enroll_t".into(), &identity(), None, &[2; 32]).unwrap();
    assert_eq!(request.url, "https://api.example.net/v1/agents/enroll");
    match request.body {
        Body::Enroll(body) => {
            let statement = activation_statement(
                ActivationKind::Enroll,
                &[2; 32],
                None,
                Some("aingle_enroll_t"),
            );
            assert_eq!(body.enrollment_token, "aingle_enroll_t");
            assert_eq!(
                body.signature,
                base64::Engine::encode(
                    &base64::engine::general_purpose::STANDARD,
                    identity().sign(&statement)
                )
            );
        }
        other => panic!("unexpected {:?}", other),
    }
    assert!(client().enroll("t".into(), &identity(), None).unwrap().is_ok());
    assert!(client().create_claim(&identity(), None).unwrap().is_ok());
}

#[test]
fn a_challenge_is_answered_with_a_signature() {
    let client = client();
    let opened = client.authenticate(&identity()).unwrap();
    assert_eq!(opened.url, "https://api.example.net/v1/auth/challenge");
    match opened.body {
        Body::Challenge { agent_id } => assert_eq!(agent_id, identity().agent_id()),
        other => panic!("unexpected {:?}", other),
    }
    let challenge = ChallengeResponse { challenge_id: "c".into(), nonce: "".into() };
    let answer = client.answer_challenge(&identity(), challenge).unwrap();
    assert_eq!(answer.url, "https://api.example.net/v1/auth/session");
    match answer.body {
        Body::Session(body) => {
            assert_eq!(body.challenge_id, "c");
            assert_eq!(body.agent_id, identity().agent_id());
            assert_eq!(
                body.signature,
                base64::Engine::encode(
                    &base64::engine::general_purpose::STANDARD,
                    unhex(EMPTY_SIGNATURE)
                )
            );
        }
        other => panic!("unexpected {:?}", other),
    }
    let broken = ChallengeResponse { challenge_id: "c".into(), nonce: "a".into() };
    assert!(matches!(
        client.answer_challenge(&identity(), broken),
        Err(AuthError::InvalidChallenge(_))
    ));
}

#[test]
fn a_server_without_paths_is_refused() {
    let client = AuthClient::new("mailto:someone@example.net".into());
    assert!(matches!(client.claim_status("t"), Err(AuthError::InvalidUrl)));
    assert!(matches!(
        client.create_claim(&identity(), None),
        Some(Err(AuthError::InvalidUrl))
    ));
    assert!(matches!(
        client.enroll("t".into(), &identity(), None),
        Some(Err(AuthError::InvalidUrl))
    ));
    assert_eq!(AuthError::InvalidUrl.message(), "invalid API URL");
    assert_eq!(AuthError::Request("x".into()).message(), "request failed: x");
    assert_eq!(AuthError::InvalidChallenge("y".into()).message(), "invalid challenge: y");
}

#[test]
fn only_operator_tokens_make_a_session() {
    let session = OperatorSession::new("aingle_ops_1".into()).unwrap();
    assert_eq!(session.token(), "aingle_ops_1");
    assert_eq!(session.clone().token(), "aingle_ops_1");
    match OperatorSession::new("aingle_enroll_1".into()) {
        Err(ClientError::Config(cause)) => assert_eq!(cause, "invalid operator session token"),
        _ => panic!("accepted"),
    }
}

#[test]
fn the_initial_configuration_names_the_server() {
    let config = Config::initial(Some("/data".into()));
    assert_eq!(config.api_url, "https://api.aingl.net");
    assert_eq!(config.websocket_url, "wss://api.aingl.net/v1/socket");
    assert_eq!(config.history_dir.as_deref(), Some("/data"));
}

#[test]
fn identifiers_are_written_and_read() {
    let id = Uuid::from_bytes([
        0x12, 0x34, 0x56, 0x78, 0x9a, 0xbc, 0xde, 0xf0, 1, 2, 3, 4, 5, 6, 7, 8,
    ]);
    assert_eq!(id.to_text(), "12345678-9abc-def0-0102-030405060708");
    assert_eq!(id.to_simple(), "123456789abcdef00102030405060708");
    assert_eq!(Uuid::parse_str(&id.to_text()), Some(id));
    assert_eq!(Uuid::parse_str(&id.to_simple()), Some(id));
    assert_eq!(Uuid::parse_str("not an identifier"), None);
    assert_eq!(Uuid::from_slice(&[0; 15]), None);
    assert!(Uuid::from_slice(&[0; 16]).unwrap().same(&Uuid::nil()));
}
