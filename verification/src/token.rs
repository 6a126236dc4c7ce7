//! Referrer authentication.
//!
//! The process is started with a fixed set of referrer credentials: each
//! referrer identity owns one shared secret.  An inbound create request
//! carries a credential out of band; it is authenticated by exact equality
//! against that set, and nothing else.  (The comparison is a plain equality
//! check, not a constant-time one — a known weakness of the scheme, kept as
//! it is rather than silently hardened.)  A missing credential and an
//! unknown credential are reported apart internally but both must surface
//! as the same unauthorized status, so that a caller cannot tell which of
//! the two happened.

use vstd::prelude::*;
use vstd::string::*;

verus! {

/// One referrer identity and the shared secret that authenticates it.
pub struct ReferrerToken {
    pub referrer: String,
    pub secret: String,
}

/// Proof of a successful authentication, carrying the resolved referrer
/// identity.
pub struct Token {
    pub referrer: String,
}

/// Why an authentication failed.  Both variants map to the same
/// unauthorized status outside.
#[derive(Debug)]
pub enum AuthError {
    /// No credential accompanied the request.
    MissingCredential,
    /// A credential was given but matches no known referrer.
    UnknownCredential,
}

/// Whether some entry of `tokens` has the secret `credential`.
pub open spec fn credential_known(tokens: Seq<ReferrerToken>, credential: Seq<char>) -> bool {
    exists|i: int| 0 <= i < tokens.len() && tokens[i].secret@ == credential
}

/// The referrer of the first entry whose secret is `credential`.
pub open spec fn referrer_of(tokens: Seq<ReferrerToken>, credential: Seq<char>) -> Seq<char>
    decreases tokens.len(),
{
    if tokens.len() == 0 {
        Seq::empty()
    } else if tokens[0].secret@ == credential {
        tokens[0].referrer@
    } else {
        referrer_of(tokens.skip(1), credential)
    }
}

/// Looks the credential up in the preloaded token set by exact match.
///
/// Succeeds exactly when a credential is present and equals the secret of
/// some referrer; the first matching entry decides the identity.  The two
/// failure reasons stay distinct here and are collapsed by the transport
/// into one unauthorized status.
pub fn authenticate(tokens: &Vec<ReferrerToken>, credential: Option<&String>) -> (r: Result<
    Token,
    AuthError,
>)
    ensures
        credential is None ==> r == Err::<Token, AuthError>(AuthError::MissingCredential),
        credential matches Some(c) ==> ((!credential_known(tokens@, c@) ==> r == Err::<
            Token,
            AuthError,
        >(AuthError::UnknownCredential)) && (credential_known(tokens@, c@) ==> (r matches Ok(t)
            && t.referrer@ == referrer_of(tokens@, c@)))),
{
    let c = match credential {
        None => {
            return Err(AuthError::MissingCredential);
        },
        Some(c) => c,
    };
    let mut i: usize = 0;
    while i < tokens.len()
        invariant
            credential == Some(c),
            0 <= i <= tokens.len(),
            forall|j: int| 0 <= j < i ==> tokens@[j].secret@ != c@,
        decreases tokens.len() - i,
    {
        if tokens[i].secret.eq(c) {
            proof {
                lemma_referrer_of_first(tokens@, c@, i as int);
            }
            return Ok(Token { referrer: tokens[i].referrer.clone() });
        }
        i = i + 1;
    }
    Err(AuthError::UnknownCredential)
}

/// `referrer_of` picks the first matching entry.
proof fn lemma_referrer_of_first(tokens: Seq<ReferrerToken>, credential: Seq<char>, i: int)
    requires
        0 <= i < tokens.len(),
        tokens[i].secret@ == credential,
        forall|j: int| 0 <= j < i ==> tokens[j].secret@ != credential,
    ensures
        referrer_of(tokens, credential) == tokens[i].referrer@,
    decreases i,
{
    if i > 0 {
        assert(forall|j: int| 0 <= j < tokens.skip(1).len() ==> tokens.skip(1)[j] == tokens[j + 1]);
        lemma_referrer_of_first(tokens.skip(1), credential, i - 1);
    }
}

/// The unauthorized message for an authentication failure, as the transport
/// reports it.
pub fn auth_error_message(e: &AuthError) -> (msg: String)
    ensures
        *e is MissingCredential ==> msg@ == "no token"@,
        *e is UnknownCredential ==> msg@ == "unauthorized token"@,
{
    match e {
        AuthError::MissingCredential => String::from_str("no token"),
        AuthError::UnknownCredential => String::from_str("unauthorized token"),
    }
}

} // verus!
