//! What is kept of an operator between two calls.

use vstd::prelude::*;
use vstd::string::*;

use crate::auth::{AgentClaim, OperatorDeviceAuthorization};
use crate::client::ClientError;
use crate::text::starts_with;

verus! {

/// The session of an operator who is logged in.
#[derive(Debug)]
pub struct OperatorSession {
    token: String,
}

impl View for OperatorSession {
    type V = Seq<char>;

    closed spec fn view(&self) -> Seq<char> {
        self.token@
    }
}

/// A claim that was made and is still to be decided.
#[derive(Debug, Clone)]
pub struct PendingAgentClaim {
    pub claim: AgentClaim,
}

/// A login that was begun and is still to be decided.
#[derive(Debug, Clone)]
pub struct PendingOperatorLogin {
    pub authorization: OperatorDeviceAuthorization,
}

impl Clone for OperatorSession {
    fn clone(&self) -> (copy: Self)
        ensures
            copy@ == self@,
    {
        proof {
            use_type_invariant(self);
        }
        OperatorSession { token: self.token.clone() }
    }
}

/// Whether a text can be the token of an operator's session.
pub open spec fn is_operator_token(token: Seq<char>) -> bool {
    "aingle_ops_"@.is_prefix_of(token)
}

impl OperatorSession {
    /// Every session holds a token of the right form.
    #[verifier::type_invariant]
    spec fn wf(self) -> bool {
        is_operator_token(self.token@)
    }

    /// The session with a given token; only operator tokens are accepted.
    pub fn new(token: String) -> (session: Result<Self, ClientError>)
        ensures
            session is Ok <==> is_operator_token(token@),
            session is Ok <==> "aingle_ops_"@.is_prefix_of(token@),
            session matches Ok(s) ==> s@ == token@,
            session matches Err(error) ==> (error matches ClientError::Config(cause) && cause@
                == "invalid operator session token"@),
    {
        if !starts_with(token.as_str(), "aingle_ops_") {
            return Err(ClientError::Config("invalid operator session token".to_owned()));
        }
        Ok(OperatorSession { token })
    }

    /// The token.
    pub fn token(&self) -> (token: &str)
        ensures
            token@ == self@,
            is_operator_token(token@),
    {
        proof {
            use_type_invariant(self);
        }
        self.token.as_str()
    }
}

/// Law: an operator's token is `aingle_ops_` with anything behind it.
pub proof fn law_operator_tokens_by_their_prefix(rest: Seq<char>, token: Seq<char>)
    ensures
        is_operator_token("aingle_ops_"@ + rest),
        is_operator_token(token) ==> token.len() >= 11 && token.take(11) == "aingle_ops_"@,
{
    reveal_strlit("aingle_ops_");
    assert(("aingle_ops_"@ + rest).subrange(0, 11) =~= "aingle_ops_"@);
    if is_operator_token(token) {
        assert(token.take(11) =~= "aingle_ops_"@);
    }
}

} // verus!
