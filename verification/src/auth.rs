use vstd::prelude::*;

verus! {

/// The closed set of credential strategies a client can hold. Exactly one is
/// active per client, fixed at construction, and applied identically to every
/// request issued through that client.
#[derive(Debug)]
pub enum AuthMethod {
    /// No credential attached.
    NoAuth,
    /// Username and optional password; an absent password is sent as an
    /// empty credential.
    Basic { user: String, password: Option<String> },
    /// An opaque bearer token.
    Bearer { token: String },
}

impl AuthMethod {
    /// A value-equal copy.
    pub fn duplicate(&self) -> (r: AuthMethod)
        ensures
            r == *self,
    {
        match self {
            AuthMethod::NoAuth => AuthMethod::NoAuth,
            AuthMethod::Basic { user, password } => AuthMethod::Basic {
                user: user.clone(),
                password: match password {
                    Some(p) => Some(p.clone()),
                    None => None,
                },
            },
            AuthMethod::Bearer { token } => AuthMethod::Bearer { token: token.clone() },
        }
    }
}

/// Common base of the credential objects an embedding may subclass.
#[derive(Debug)]
pub struct AuthBase {}

impl AuthBase {
    pub fn new() -> (r: AuthBase) {
        AuthBase {}
    }
}

/// A credential object resolves to exactly one method.
pub trait GetAuthMethod {
    /// The method this credential object stands for.
    spec fn spec_method(&self) -> AuthMethod;

    /// Resolve the credential object into its method.
    fn get_method(&self) -> (m: AuthMethod)
        ensures
            m == self.spec_method(),
    ;
}

/// Username/optional-password credentials.
#[derive(Debug)]
pub struct BasicAuth {
    method: AuthMethod,
}

impl BasicAuth {
    /// Wrap a username and an optional password.
    pub fn new(user: &str, password: Option<String>) -> (r: BasicAuth)
        ensures
            r.spec_method() matches AuthMethod::Basic { user: u, password: p } && u@ == user@ && p
                == password,
    {
        BasicAuth { method: AuthMethod::Basic { user: user.to_owned(), password } }
    }
}

impl GetAuthMethod for BasicAuth {
    closed spec fn spec_method(&self) -> AuthMethod {
        self.method
    }

    fn get_method(&self) -> (m: AuthMethod) {
        self.method.duplicate()
    }
}

/// Opaque bearer-token credentials.
#[derive(Debug)]
pub struct BearerAuth {
    method: AuthMethod,
}

impl BearerAuth {
    /// Wrap a bearer token.
    pub fn new(token: &str) -> (r: BearerAuth)
        ensures
            r.spec_method() matches AuthMethod::Bearer { token: t } && t@ == token@,
    {
        BearerAuth { method: AuthMethod::Bearer { token: token.to_owned() } }
    }
}

impl GetAuthMethod for BearerAuth {
    closed spec fn spec_method(&self) -> AuthMethod {
        self.method
    }

    fn get_method(&self) -> (m: AuthMethod) {
        self.method.duplicate()
    }
}

} // verus!
