//! Key layout of the revocation store.
//!
//! Revocation records live under `auth/invalidated_auth_token:<access token>`,
//! refresh records under `auth/refresh_token:<refresh token>`. The two
//! namespaces are disjoint, so writes about access tokens can never shadow
//! refresh records and vice versa.

use vstd::prelude::*;
use vstd::string::StringExecFns;

verus! {

/// Store key under which an access token is recorded as invalidated.
pub open spec fn invalid_token_key_of(token: Seq<char>) -> Seq<char> {
    "auth/invalidated_auth_token:"@ + token
}

/// Store key under which a refresh token's record lives.
pub open spec fn refresh_token_key_of(token: Seq<char>) -> Seq<char> {
    "auth/refresh_token:"@ + token
}

pub fn get_invalid_token_key(token: &str) -> (key: String)
    ensures
        key@ == invalid_token_key_of(token@),
{
    let mut key = "auth/invalidated_auth_token:".to_owned();
    key.append(token);
    key
}

pub fn get_refresh_token_key(token: &str) -> (key: String)
    ensures
        key@ == refresh_token_key_of(token@),
{
    let mut key = "auth/refresh_token:".to_owned();
    key.append(token);
    key
}

/// The two key namespaces never collide: no revocation key equals a refresh
/// key, whatever the two tokens are.
pub proof fn lemma_key_namespaces_disjoint(t1: Seq<char>, t2: Seq<char>)
    ensures
        invalid_token_key_of(t1) != refresh_token_key_of(t2),
{
    reveal_strlit("auth/invalidated_auth_token:");
    reveal_strlit("auth/refresh_token:");
    assert(invalid_token_key_of(t1)[5] == 'i');
    assert(refresh_token_key_of(t2)[5] == 'r');
}

/// Distinct access tokens get distinct revocation keys.
pub proof fn lemma_invalid_token_key_injective(t1: Seq<char>, t2: Seq<char>)
    requires
        t1 != t2,
    ensures
        invalid_token_key_of(t1) != invalid_token_key_of(t2),
{
    if invalid_token_key_of(t1) == invalid_token_key_of(t2) {
        assert(invalid_token_key_of(t1).skip(28) == t1) by {
            reveal_strlit("auth/invalidated_auth_token:");
            assert(invalid_token_key_of(t1) =~= "auth/invalidated_auth_token:"@ + t1);
            assert(("auth/invalidated_auth_token:"@ + t1).skip(28) =~= t1);
        }
        assert(invalid_token_key_of(t2).skip(28) == t2) by {
            reveal_strlit("auth/invalidated_auth_token:");
            assert(("auth/invalidated_auth_token:"@ + t2).skip(28) =~= t2);
        }
    }
}

} // verus!
