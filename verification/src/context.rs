use vstd::prelude::*;

verus! {

/// Why no authenticated session is present.
#[derive(Clone, Copy, Debug, PartialEq, Eq, Structural)]
pub enum Reason {
    /// No session was ever established.
    NewSession,
    /// A session existed and lapsed.
    Expired,
    /// The user explicitly ended the session.
    Logout,
}

/// The mathematical model of an authentication state: the same four variants,
/// with every string read as its sequence of characters.
pub ghost enum AuthState {
    /// No provider has produced a value yet.
    NotInitialized,
    /// No valid session; the reason says why.
    NotAuthenticated { reason: Reason },
    /// A valid session with its token material.
    Authenticated {
        access_token: Seq<char>,
        refresh_token: Option<Seq<char>>,
        expires: Option<u64>,
    },
    /// An unrecoverable provider-side error.
    Failed(Seq<char>),
}

/// The authentication state a provider holds and broadcasts to its consumers.
/// Immutable value type: a transition is a full replacement, never a mutation.
#[derive(Clone, Debug, Eq)]
pub enum OAuth2Context {
    /// No provider has produced a value yet.
    NotInitialized,
    /// No valid session; the reason says why.
    NotAuthenticated {
        /// Why the session is absent.
        reason: Reason,
    },
    /// A valid session.
    Authenticated {
        /// The token a consumer presents to protected resources.
        access_token: String,
        /// The token with which the session can be renewed, when one exists.
        refresh_token: Option<String>,
        /// The absolute expiry instant, when known.
        expires: Option<u64>,
    },
    /// An unrecoverable provider-side error, with its message.
    Failed(String),
}

impl View for OAuth2Context {
    type V = AuthState;

    open spec fn view(&self) -> AuthState {
        match self {
            OAuth2Context::NotInitialized => AuthState::NotInitialized,
            OAuth2Context::NotAuthenticated { reason } => AuthState::NotAuthenticated {
                reason: *reason,
            },
            OAuth2Context::Authenticated { access_token, refresh_token, expires } => {
                AuthState::Authenticated {
                    access_token: access_token@,
                    refresh_token: match refresh_token {
                        Some(t) => Some(t@),
                        None => None,
                    },
                    expires: *expires,
                }
            },
            OAuth2Context::Failed(message) => AuthState::Failed(message@),
        }
    }
}

impl PartialEq for OAuth2Context {
    fn eq(&self, other: &Self) -> bool {
        match (self, other) {
            (OAuth2Context::NotInitialized, OAuth2Context::NotInitialized) => true,
            (
                OAuth2Context::NotAuthenticated { reason: r1 },
                OAuth2Context::NotAuthenticated { reason: r2 },
            ) => r1 == r2,
            (
                OAuth2Context::Authenticated {
                    access_token: t1,
                    refresh_token: r1,
                    expires: e1,
                },
                OAuth2Context::Authenticated {
                    access_token: t2,
                    refresh_token: r2,
                    expires: e2,
                },
            ) => {
                let token_eq = *t1 == *t2;
                let refresh_eq = match (r1, r2) {
                    (None, None) => true,
                    (Some(x), Some(y)) => *x == *y,
                    _ => false,
                };
                let expires_eq = match (e1, e2) {
                    (None, None) => true,
                    (Some(x), Some(y)) => *x == *y,
                    _ => false,
                };
                token_eq && refresh_eq && expires_eq
            },
            (OAuth2Context::Failed(m1), OAuth2Context::Failed(m2)) => *m1 == *m2,
            _ => false,
        }
    }
}

impl vstd::std_specs::cmp::PartialEqSpecImpl for OAuth2Context {
    open spec fn obeys_eq_spec() -> bool {
        true
    }

    open spec fn eq_spec(&self, other: &Self) -> bool {
        self@ == other@
    }
}

impl OAuth2Context {
    /// The access token of an authenticated session; no value for every other
    /// variant. Total: it never fails, whatever the variant.
    pub fn access_token(&self) -> (r: Option<String>)
        ensures
            match self@ {
                AuthState::Authenticated { access_token, .. } => r matches Some(t) && t@
                    == access_token,
                _ => r is None,
            },
    {
        match self {
            OAuth2Context::Authenticated { access_token, .. } => Some(access_token.clone()),
            _ => None,
        }
    }

    /// An equal copy of the state, for handing a snapshot out while the
    /// original stays where it is.
    pub fn duplicate(&self) -> (r: Self)
        ensures
            r@ == self@,
    {
        match self {
            OAuth2Context::NotInitialized => OAuth2Context::NotInitialized,
            OAuth2Context::NotAuthenticated { reason } => OAuth2Context::NotAuthenticated {
                reason: *reason,
            },
            OAuth2Context::Authenticated { access_token, refresh_token, expires } => {
                OAuth2Context::Authenticated {
                    access_token: access_token.clone(),
                    refresh_token: match refresh_token {
                        Some(t) => Some(t.clone()),
                        None => None,
                    },
                    expires: *expires,
                }
            },
            OAuth2Context::Failed(message) => OAuth2Context::Failed(message.clone()),
        }
    }
}

/// Equality on `OAuth2Context` is structural: `a == b` holds exactly when the
/// models agree; two `Authenticated` values are equal exactly when all three
/// fields are, and two `NotAuthenticated` values exactly when their reasons
/// are.
pub proof fn lemma_eq_is_structural(a: &OAuth2Context, b: &OAuth2Context)
    ensures
        vstd::std_specs::cmp::PartialEqSpec::eq_spec(a, b) <==> a@ == b@,
        a@ matches AuthState::Authenticated { access_token: t1, refresh_token: r1, expires: e1 }
            ==> (b@ matches AuthState::Authenticated {
            access_token: t2,
            refresh_token: r2,
            expires: e2,
        } ==> (a@ == b@ <==> t1 == t2 && r1 == r2 && e1 == e2)),
        a@ matches AuthState::NotAuthenticated { reason: r1 } ==> (b@
            matches AuthState::NotAuthenticated { reason: r2 } ==> (a@ == b@ <==> r1 == r2)),
{
}

} // verus!
