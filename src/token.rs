//! Token types and the backend each one resolves to.

use vstd::prelude::*;
use crate::config::{CoCoASConfig, KbsConfig, TokenConfigs};
use crate::error::AgentError;

verus! {

/// The token backends.
#[derive(Clone, Copy, Debug, PartialEq, Eq, Structural)]
pub enum TokenType {
    /// A key broker service.
    Kbs,
    /// An attestation service.
    CoCoAS,
}

impl TokenType {
    /// The name a caller gives for this token type.
    pub open spec fn spec_name(self) -> Seq<char> {
        match self {
            TokenType::Kbs => seq!['k', 'b', 's'],
            TokenType::CoCoAS => seq!['c', 'o', 'c', 'o', '_', 'a', 's'],
        }
    }

    /// The token type named `name`, if any.
    pub fn from_name(name: &str) -> (r: Option<TokenType>)
        ensures
            r matches Some(t) ==> t.spec_name() == name@,
            r is None ==> forall|t: TokenType| t.spec_name() != name@,
    {
        proof {
            reveal_strlit("kbs");
            reveal_strlit("coco_as");
        }
        if str_eq(name, "kbs") {
            Some(TokenType::Kbs)
        } else if str_eq(name, "coco_as") {
            Some(TokenType::CoCoAS)
        } else {
            proof {
                assert(TokenType::Kbs.spec_name() =~= "kbs"@);
                assert(TokenType::CoCoAS.spec_name() =~= "coco_as"@);
            }
            None
        }
    }
}

/// Whether two strings hold the same characters.
pub fn str_eq(a: &str, b: &str) -> (r: bool)
    ensures
        r == (a@ == b@),
{
    let n = a.unicode_len();
    if n != b.unicode_len() {
        return false;
    }
    let mut i: usize = 0;
    while i < n
        invariant
            n as nat == a@.len(),
            n as nat == b@.len(),
            i <= n,
            forall|j: int| 0 <= j < i ==> a@[j] == b@[j],
        decreases n - i,
    {
        if a.get_char(i) != b.get_char(i) {
            return false;
        }
        i = i + 1;
    }
    assert(a@ =~= b@);
    true
}

/// A token request resolved to its backend and that backend's settings.
#[derive(Clone, Debug)]
pub enum TokenRequest {
    Kbs(KbsConfig),
    CoCoAS(CoCoASConfig),
}

impl TokenRequest {
    pub open spec fn token_type(&self) -> TokenType {
        match self {
            TokenRequest::Kbs(_) => TokenType::Kbs,
            TokenRequest::CoCoAS(_) => TokenType::CoCoAS,
        }
    }
}

/// Resolves `token_type` to the configured backend that serves it.
pub fn resolve_token_request(configs: &TokenConfigs, token_type: &str) -> (r: Result<
    TokenRequest,
    AgentError,
>)
    ensures
        (forall|t: TokenType| t.spec_name() != token_type@) <==> r matches Err(
            AgentError::UnsupportedTokenType(_),
        ),
        r matches Err(AgentError::UnsupportedTokenType(s)) ==> s@ == token_type@,
        r matches Err(AgentError::TokenNotConfigured(s)) ==> s@ == token_type@,
        r is Err ==> r matches Err(AgentError::UnsupportedTokenType(_)) || r matches Err(
            AgentError::TokenNotConfigured(_),
        ),
        token_type@ == TokenType::Kbs.spec_name() ==> match r {
            Ok(TokenRequest::Kbs(c)) => configs.kbs == Some(c),
            Ok(TokenRequest::CoCoAS(_)) => false,
            Err(e) => configs.kbs is None && e matches AgentError::TokenNotConfigured(_),
        },
        token_type@ == TokenType::CoCoAS.spec_name() ==> match r {
            Ok(TokenRequest::CoCoAS(c)) => configs.coco_as == Some(c),
            Ok(TokenRequest::Kbs(_)) => false,
            Err(e) => configs.coco_as is None && e matches AgentError::TokenNotConfigured(_),
        },
{
    match TokenType::from_name(token_type) {
        None => Err(AgentError::UnsupportedTokenType(token_type.to_owned())),
        Some(TokenType::Kbs) => match &configs.kbs {
            Some(c) => Ok(TokenRequest::Kbs(c.duplicate())),
            None => Err(AgentError::TokenNotConfigured(token_type.to_owned())),
        },
        Some(TokenType::CoCoAS) => match &configs.coco_as {
            Some(c) => Ok(TokenRequest::CoCoAS(c.duplicate())),
            None => Err(AgentError::TokenNotConfigured(token_type.to_owned())),
        },
    }
}

} // verus!
