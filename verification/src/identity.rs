//! The Ed25519 identity of an agent.

use vstd::prelude::*;
use vstd::string::*;
use vstd::utf8::*;

use crate::client::ClientError;
use crate::encoding::{base32_text, base64_text, lemma_base32_digits, lemma_base64_has_no_space};
use crate::outside::{
    base32_encode, base64_decode, base64_decoded, base64_encode, blake3_digest, blake3_hash,
    ed25519_public, ed25519_public_key, ed25519_sign, ed25519_signature, os_random,
};
use crate::text::{is_space, join, lowered, same_text, to_lower_ascii, trim, trimmed};

verus! {

/// An agent's signing key, and the path of the file that keeps it.
pub struct Identity {
    secret: [u8; 32],
    path: String,
}

/// What an identity is made of.
pub struct IdentityView {
    pub secret: Seq<u8>,
    pub path: Seq<char>,
}

impl View for Identity {
    type V = IdentityView;

    closed spec fn view(&self) -> IdentityView {
        IdentityView { secret: self.secret@, path: self.path@ }
    }
}

/// Where a stored secret is to be found.
#[derive(Debug)]
pub enum SecretSource {
    /// In the keychain of the operating system.
    Keychain,
    /// In the file itself.
    Inline(String),
}

/// Whether the contents of a file send the reader to the keychain.
pub open spec fn names_keychain(stored: Seq<char>) -> bool {
    trimmed(stored) == "keychain"@
}

/// Where the secret is that a file stands for. White space around the contents is of no account.
pub fn secret_source(stored: &str) -> (source: SecretSource)
    ensures
        match source {
            SecretSource::Keychain => names_keychain(stored@),
            SecretSource::Inline(secret) => !names_keychain(stored@) && secret@ == trimmed(stored@),
        },
        source is Keychain <==> trimmed(stored@) == "keychain"@,
{
    let text = trim(stored);
    if same_text(text, "keychain") {
        SecretSource::Keychain
    } else {
        SecretSource::Inline(text.to_owned())
    }
}

/// The contents of the file for a secret, which is written there only if the keychain did not
/// take it.
pub open spec fn stored_text(secret: Seq<char>, in_keychain: bool) -> Seq<char> {
    if in_keychain {
        "keychain"@
    } else {
        secret
    }
}

/// The contents of the file for a secret.
pub fn stored_secret(secret: &str, in_keychain: bool) -> (stored: String)
    ensures
        stored@ == stored_text(secret@, in_keychain),
        in_keychain ==> stored@ == "keychain"@,
        !in_keychain ==> stored@ == secret@,
{
    if in_keychain {
        "keychain".to_owned()
    } else {
        secret.to_owned()
    }
}

/// The name of the agent with the given public key.
pub open spec fn agent_name(public_key: Seq<u8>) -> Seq<char> {
    "agent_"@ + lowered(base32_text(blake3_digest(public_key)).take(27))
}

/// The shape of every agent's name: `agent_`, then twenty-seven small letters or digits from two to
/// seven.
pub open spec fn is_agent_name(id: Seq<char>) -> bool {
    &&& id.len() == 33
    &&& id.take(6) == "agent_"@
    &&& forall|i: int| 6 <= i < 33 ==> ('a' <= #[trigger] id[i] <= 'z' || '2' <= id[i] <= '7')
}

/// What the reading of an encoded secret gives.
pub open spec fn secret_parse(encoded: Seq<char>) -> Result<Seq<u8>, Seq<char>> {
    match base64_decoded(encoded) {
        Err(cause) => Err(cause),
        Ok(secret) => if secret.len() == 32 {
            Ok(secret)
        } else {
            Err("identity has invalid length"@)
        },
    }
}

fn to_array(bytes: &Vec<u8>) -> (array: [u8; 32])
    requires
        bytes@.len() == 32,
    ensures
        array@ == bytes@,
{
    let mut array: [u8; 32] = [0u8; 32];
    let mut index: usize = 0;
    while index < 32
        invariant
            index <= 32,
            bytes@.len() == 32,
            forall|i: int| 0 <= i < index ==> array@[i] == bytes@[i],
        decreases 32 - index,
    {
        array[index] = bytes[index];
        index = index + 1;
    }
    assert(array@ =~= bytes@);
    array
}

impl Identity {
    /// The identity with a given secret key.
    pub fn from_secret(secret: [u8; 32], path: String) -> (identity: Identity)
        ensures
            identity@ == (IdentityView { secret: secret@, path: path@ }),
    {
        Identity { secret, path }
    }

    /// A new identity for a path at which there is none yet; `Ok(None)` where the operating system
    /// gives no random bytes.
    pub fn generate(path: String, exists: bool) -> (identity: Result<Option<Identity>, ClientError>)
        ensures
            identity is Err <==> exists,
            identity matches Err(error) ==> (error matches ClientError::Config(cause) && cause@
                == "identity already exists at "@ + path@),
            identity matches Ok(Some(created)) ==> created@.path == path@ && created@.secret.len()
                == 32,
    {
        if exists {
            return Err(ClientError::Config(join("identity already exists at ", path.as_str())));
        }
        match os_random() {
            Some(secret) => Ok(Some(Identity::from_secret(secret, path))),
            None => Ok(None),
        }
    }

    /// The identity whose secret key was written as `encoded`.
    pub fn load(path: String, encoded: &str) -> (identity: Result<Identity, ClientError>)
        ensures
            secret_parse(encoded@) matches Ok(secret) ==> (identity matches Ok(loaded) && loaded@
                == (IdentityView { secret, path: path@ })),
            secret_parse(encoded@) matches Err(cause) ==> (identity matches Err(
                ClientError::Config(text),
            ) && text@ == cause),
            forall|secret: Seq<u8>|
                secret.len() == 32 && encoded@ == #[trigger] base64_text(secret) ==> identity is Ok
                    && identity->Ok_0@.secret == secret,
            match base64_decoded(encoded@) {
                Ok(secret) => if secret.len() == 32 {
                    identity matches Ok(loaded) && loaded@.secret == secret && loaded@.path == path@
                } else {
                    identity matches Err(ClientError::Config(text)) && text@
                        == "identity has invalid length"@
                },
                Err(cause) => identity matches Err(ClientError::Config(text)) && text@ == cause,
            },
    {
        let bytes = match base64_decode(encoded) {
            Ok(bytes) => bytes,
            Err(cause) => return Err(ClientError::Config(cause)),
        };
        if bytes.len() != 32 {
            return Err(ClientError::Config("identity has invalid length".to_owned()));
        }
        Ok(Identity { secret: to_array(&bytes), path })
    }

    /// The secret key, as it is kept in the file or in the keychain.
    pub fn encoded_secret(&self) -> (encoded: String)
        ensures
            encoded@ == base64_text(self@.secret),
    {
        base64_encode(self.secret.as_slice())
    }

    /// The public key.
    pub fn public_key(&self) -> (key: [u8; 32])
        ensures
            key@ == ed25519_public(self@.secret),
    {
        ed25519_public_key(&self.secret)
    }

    /// The public key, as it is shown to the user and to the server.
    pub fn public_key_text(&self) -> (text: String)
        ensures
            text@ == base64_text(ed25519_public(self@.secret)),
    {
        base64_encode(self.public_key().as_slice())
    }

    /// The secret key.
    pub fn signing_key(&self) -> (secret: &[u8; 32])
        ensures
            secret@ == self@.secret,
    {
        &self.secret
    }

    /// The signature of a message with this identity's key.
    pub fn sign(&self, message: &[u8]) -> (signature: [u8; 64])
        ensures
            signature@ == ed25519_signature(self@.secret, message@),
    {
        ed25519_sign(&self.secret, message)
    }

    /// The path of the file that keeps the identity.
    pub fn path(&self) -> (path: &str)
        ensures
            path@ == self@.path,
    {
        self.path.as_str()
    }

    /// The agent's name on the network, which its public key determines.
    pub fn agent_id(&self) -> (id: String)
        ensures
            id@ == agent_name(ed25519_public(self@.secret)),
            is_agent_name(id@),
            id@ == "agent_"@ + lowered(
                base32_text(blake3_digest(ed25519_public(self@.secret))).subrange(0, 27),
            ),
    {
        let key = self.public_key();
        let digest = blake3_hash(key.as_slice());
        let text = base32_encode(digest.as_slice());
        proof {
            lemma_base32_digits(digest@);
            assert(text@.len() == 52);
        }
        let short = text.as_str().substring_char(0, 27);
        proof {
            assert(short@ =~= text@.take(27));
            assert forall|i: int| 0 <= i < short@.len() implies '\0' <= #[trigger] short@[i]
                <= '\u{7f}' by {
                assert(short@[i] == base32_text(digest@)[i]);
            }
            assert(is_ascii_chars(short@));
        }
        let id = join("agent_", to_lower_ascii(short).as_str());
        proof {
            reveal_strlit("agent_");
            assert("agent_"@.len() == 6);
            assert(id@.take(6) =~= "agent_"@);
            assert forall|i: int| 6 <= i < 33 implies ('a' <= #[trigger] id@[i] <= 'z' || '2'
                <= id@[i] <= '7') by {
                let c = base32_text(digest@)[i - 6];
                assert('A' <= c <= 'Z' || '2' <= c <= '7');
                assert(short@[i - 6] == c);
            }
            assert(base32_text(digest@).take(27) =~= base32_text(digest@).subrange(0, 27));
        }
        id
    }
}

proof fn lemma_trim_without_space(s: Seq<char>)
    requires
        forall|i: int| 0 <= i < s.len() ==> !is_space(#[trigger] s[i]),
    ensures
        trimmed(s) == s,
{
    if s.len() > 0 {
        assert(!is_space(s[0]));
        assert(!is_space(s[s.len() - 1]));
    }
}

/// Law: a stored secret is found again where it was put: in the keychain if the keychain took it,
/// and otherwise in the file, unchanged. `Identity::load` gives the identity back from there.
pub proof fn law_stored_secret_is_found(secret: Seq<u8>, in_keychain: bool)
    requires
        secret.len() == 32,
    ensures
        ({
            let stored = stored_text(base64_text(secret), in_keychain);
            &&& names_keychain(stored) == in_keychain
            &&& !in_keychain ==> trimmed(stored) == base64_text(secret)
        }),
{
    reveal_strlit("keychain");
    let encoded = base64_text(secret);
    lemma_base64_has_no_space(secret);
    lemma_trim_without_space(encoded);
    assert(encoded.len() == 44);
    assert("keychain"@.len() == 8);
    assert forall|i: int| 0 <= i < "keychain"@.len() implies !is_space(
        #[trigger] "keychain"@[i],
    ) by {}
    lemma_trim_without_space("keychain"@);
}

/// Law: the name of an agent is `agent_` and the first twenty-seven digits, in small letters, of the
/// base32 notation of the digest of its public key, so that agents with the same key have the same
/// name.
pub proof fn law_agent_name_is_a_digest_of_the_key(public_key: Seq<u8>)
    ensures
        agent_name(public_key) == "agent_"@ + lowered(
            base32_text(blake3_digest(public_key)).subrange(0, 27),
        ),
{
    assert(base32_text(blake3_digest(public_key)).take(27) == base32_text(
        blake3_digest(public_key),
    ).subrange(0, 27));
}

/// Law: a stored secret key is read exactly where it decodes to thirty-two bytes, which it then is.
pub proof fn law_stored_secrets_have_their_length(encoded: Seq<char>)
    ensures
        match base64_decoded(encoded) {
            Ok(bytes) => if bytes.len() == 32 {
                secret_parse(encoded) == Ok::<_, Seq<char>>(bytes)
            } else {
                secret_parse(encoded) == Err::<Seq<u8>, _>("identity has invalid length"@)
            },
            Err(cause) => secret_parse(encoded) == Err::<Seq<u8>, _>(cause),
        },
{
}

} // verus!
