use vstd::prelude::*;

verus! {

/// `i` is the first place of `c` in `s`.
pub open spec fn first_at(s: Seq<char>, c: char, i: int) -> bool {
    &&& 0 <= i < s.len()
    &&& s[i] == c
    &&& forall|j: int| 0 <= j < i ==> s[j] != c
}

/// The view of an optional text.
pub open spec fn option_view(s: Option<String>) -> Option<Seq<char>> {
    match s {
        Some(v) => Some(v@),
        None => None,
    }
}

/// An optional field value as a rendering shows it.
pub open spec fn option_debug(s: Option<Seq<char>>) -> Seq<char> {
    match s {
        Some(v) => "Some(\""@ + v + "\")"@,
        None => "None"@,
    }
}

fn option_debug_string(s: &Option<String>) -> (r: String)
    ensures
        r@ == option_debug(option_view(*s)),
{
    match s {
        Some(v) => {
            let mut r = String::from_str("Some(\"");
            r.append(v.as_str());
            r.append("\")");
            r
        },
        None => String::from_str("None"),
    }
}

fn option_as_str(s: &Option<String>) -> (r: Option<&str>)
    ensures
        match r {
            Some(v) => option_view(*s) == Some(v@),
            None => option_view(*s) is None,
        },
{
    match s {
        Some(v) => Some(v.as_str()),
        None => None,
    }
}

/// Credentials for direct SQL Server authentication.
#[derive(Clone, PartialEq, Eq)]
pub struct SqlServerAuth {
    user: String,
    password: String,
}

impl SqlServerAuth {
    pub closed spec fn user_spec(&self) -> Seq<char> {
        self.user@
    }

    pub closed spec fn password_spec(&self) -> Seq<char> {
        self.password@
    }

    /// The rendering: the user verbatim, the password hidden.
    pub open spec fn debug_spec(&self) -> Seq<char> {
        "SqlServerAuth { user: \""@ + self.user_spec() + "\", password: \"<HIDDEN>\" }"@
    }

    pub fn user(&self) -> (r: &str)
        ensures
            r@ == self.user_spec(),
    {
        self.user.as_str()
    }

    pub fn password(&self) -> (r: &str)
        ensures
            r@ == self.password_spec(),
    {
        self.password.as_str()
    }

    /// A rendering for diagnostics, with the password hidden.
    pub fn debug_string(&self) -> (r: String)
        ensures
            r@ == self.debug_spec(),
    {
        let mut r = String::from_str("SqlServerAuth { user: \"");
        r.append(self.user.as_str());
        r.append("\", password: \"<HIDDEN>\" }");
        r
    }
}

/// Credentials for Windows authentication; the domain comes from the part of
/// the user name before its first backslash.
#[derive(Clone, PartialEq, Eq)]
pub struct WindowsAuth {
    user: String,
    password: String,
    domain: Option<String>,
}

impl WindowsAuth {
    pub closed spec fn user_spec(&self) -> Seq<char> {
        self.user@
    }

    pub closed spec fn password_spec(&self) -> Seq<char> {
        self.password@
    }

    pub closed spec fn domain_spec(&self) -> Option<Seq<char>> {
        option_view(self.domain)
    }

    /// The rendering: user and domain verbatim, the password hidden.
    pub open spec fn debug_spec(&self) -> Seq<char> {
        "WindowsAuth { user: \""@ + self.user_spec() + "\", password: \"<HIDDEN>\", domain: "@
            + option_debug(self.domain_spec()) + " }"@
    }

    pub fn user(&self) -> (r: &str)
        ensures
            r@ == self.user_spec(),
    {
        self.user.as_str()
    }

    pub fn password(&self) -> (r: &str)
        ensures
            r@ == self.password_spec(),
    {
        self.password.as_str()
    }

    pub fn domain(&self) -> (r: Option<&str>)
        ensures
            match r {
                Some(d) => self.domain_spec() == Some(d@),
                None => self.domain_spec() is None,
            },
    {
        option_as_str(&self.domain)
    }

    /// A rendering for diagnostics, with the password hidden.
    pub fn debug_string(&self) -> (r: String)
        ensures
            r@ == self.debug_spec(),
    {
        let mut r = String::from_str("WindowsAuth { user: \"");
        r.append(self.user.as_str());
        r.append("\", password: \"<HIDDEN>\", domain: ");
        let d = option_debug_string(&self.domain);
        r.append(d.as_str());
        r.append(" }");
        r
    }
}

/// A managed identity: the system-assigned or sole user-assigned one when no
/// client id is given.
#[derive(Clone, PartialEq, Eq)]
pub struct AADManagedIdentityAuth {
    client_id: Option<String>,
}

impl AADManagedIdentityAuth {
    pub closed spec fn client_id_spec(&self) -> Option<Seq<char>> {
        option_view(self.client_id)
    }

    /// The rendering: the client id verbatim.
    pub open spec fn debug_spec(&self) -> Seq<char> {
        "AADManagedIdentityAuth { client_id: "@ + option_debug(self.client_id_spec()) + " }"@
    }

    pub fn client_id(&self) -> (r: Option<&str>)
        ensures
            match r {
                Some(c) => self.client_id_spec() == Some(c@),
                None => self.client_id_spec() is None,
            },
    {
        option_as_str(&self.client_id)
    }

    /// A rendering for diagnostics.
    pub fn debug_string(&self) -> (r: String)
        ensures
            r@ == self.debug_spec(),
    {
        let mut r = String::from_str("AADManagedIdentityAuth { client_id: ");
        let c = option_debug_string(&self.client_id);
        r.append(c.as_str());
        r.append(" }");
        r
    }
}

/// A service principal: a client id and its secret.
#[derive(Clone, PartialEq, Eq)]
pub struct AADServicePrincipalAuth {
    client_id: String,
    client_secret: String,
}

impl AADServicePrincipalAuth {
    pub closed spec fn client_id_spec(&self) -> Seq<char> {
        self.client_id@
    }

    pub closed spec fn client_secret_spec(&self) -> Seq<char> {
        self.client_secret@
    }

    /// The rendering: the client id verbatim, the secret hidden.
    pub open spec fn debug_spec(&self) -> Seq<char> {
        "AADServicePrincipalAuth { client_id: \""@ + self.client_id_spec()
            + "\", client_secret: \"<HIDDEN>\" }"@
    }

    pub fn client_id(&self) -> (r: &str)
        ensures
            r@ == self.client_id_spec(),
    {
        self.client_id.as_str()
    }

    pub fn client_secret(&self) -> (r: &str)
        ensures
            r@ == self.client_secret_spec(),
    {
        self.client_secret.as_str()
    }

    /// A rendering for diagnostics, with the secret hidden.
    pub fn debug_string(&self) -> (r: String)
        ensures
            r@ == self.debug_spec(),
    {
        let mut r = String::from_str("AADServicePrincipalAuth { client_id: \"");
        r.append(self.client_id.as_str());
        r.append("\", client_secret: \"<HIDDEN>\" }");
        r
    }
}

/// The method of authentication to the server.
#[derive(Clone, PartialEq, Eq)]
pub enum AuthMethod {
    /// Authenticate directly with SQL Server.
    SqlServer(SqlServerAuth),
    /// Authenticate with Windows credentials.
    Windows(WindowsAuth),
    /// Authenticate as the user logged in to the operating system.
    Integrated,
    /// Authenticate with an AAD token for a user or service principal that
    /// has access to the server.
    AADToken(String),
    /// Authenticate as a managed identity, with an optional client id.
    AADManagedIdentity(AADManagedIdentityAuth),
    /// Authenticate as a service principal with a client id and secret.
    AADServicePrincipal(AADServicePrincipalAuth),
    /// No method configured yet.
    NotConfigured,
}

/// `w` holds the user name `s` split at its first backslash: the part before
/// it is the domain, the part after it the user; with no backslash there is
/// no domain and the user is `s`.
pub open spec fn windows_split(s: Seq<char>, w: WindowsAuth) -> bool {
    match w.domain_spec() {
        Some(d) => exists|i: int|
            first_at(s, '\\', i) && d == s.subrange(0, i) && w.user_spec() == s.subrange(
                i + 1,
                s.len() as int,
            ),
        None => (forall|i: int| 0 <= i < s.len() ==> s[i] != '\\') && w.user_spec() == s,
    }
}

impl AuthMethod {
    /// The rendering for diagnostics: non-secret fields verbatim, every
    /// secret replaced by `"<HIDDEN>"`.
    pub open spec fn debug_spec(&self) -> Seq<char> {
        match self {
            AuthMethod::SqlServer(a) => "SqlServer("@ + a.debug_spec() + ")"@,
            AuthMethod::Windows(a) => "Windows("@ + a.debug_spec() + ")"@,
            AuthMethod::Integrated => "Integrated"@,
            AuthMethod::AADToken(_) => "AADToken(\"<HIDDEN>\")"@,
            AuthMethod::AADManagedIdentity(a) => "AADManagedIdentity("@ + a.debug_spec() + ")"@,
            AuthMethod::AADServicePrincipal(a) => "AADServicePrincipal("@ + a.debug_spec() + ")"@,
            AuthMethod::NotConfigured => "NotConfigured"@,
        }
    }

    /// A rendering for diagnostics that shows no secret.
    pub fn debug_string(&self) -> (r: String)
        ensures
            r@ == self.debug_spec(),
    {
        match self {
            AuthMethod::SqlServer(a) => {
                let mut r = String::from_str("SqlServer(");
                let inner = a.debug_string();
                r.append(inner.as_str());
                r.append(")");
                r
            },
            AuthMethod::Windows(a) => {
                let mut r = String::from_str("Windows(");
                let inner = a.debug_string();
                r.append(inner.as_str());
                r.append(")");
                r
            },
            AuthMethod::Integrated => String::from_str("Integrated"),
            AuthMethod::AADToken(_) => String::from_str("AADToken(\"<HIDDEN>\")"),
            AuthMethod::AADManagedIdentity(a) => {
                let mut r = String::from_str("AADManagedIdentity(");
                let inner = a.debug_string();
                r.append(inner.as_str());
                r.append(")");
                r
            },
            AuthMethod::AADServicePrincipal(a) => {
                let mut r = String::from_str("AADServicePrincipal(");
                let inner = a.debug_string();
                r.append(inner.as_str());
                r.append(")");
                r
            },
            AuthMethod::NotConfigured => String::from_str("NotConfigured"),
        }
    }

    /// SQL Server authentication with a user name and password.
    pub fn sql_server(user: &str, password: &str) -> (r: Self)
        ensures
            r matches AuthMethod::SqlServer(a) && a.user_spec() == user@ && a.password_spec()
                == password@,
    {
        AuthMethod::SqlServer(
            SqlServerAuth { user: String::from_str(user), password: String::from_str(password) },
        )
    }

    /// Windows authentication; a user name `domain\user` gives the domain.
    pub fn windows(user: &str, password: &str) -> (r: Self)
        ensures
            r matches AuthMethod::Windows(a) && windows_split(user@, a) && a.password_spec()
                == password@,
    {
        let n = user.unicode_len();
        let mut i: usize = 0;
        while i < n && user.get_char(i) != '\\'
            invariant
                n == user@.len(),
                i <= n,
                forall|j: int| 0 <= j < i ==> user@[j] != '\\',
            decreases n - i,
        {
            i = i + 1;
        }
        let w = if i < n {
            let domain = user.substring_char(0, i);
            let rest = user.substring_char(i + 1, n);
            let w = WindowsAuth {
                user: String::from_str(rest),
                password: String::from_str(password),
                domain: Some(String::from_str(domain)),
            };
            assert(first_at(user@, '\\', i as int));
            w
        } else {
            WindowsAuth {
                user: String::from_str(user),
                password: String::from_str(password),
                domain: None,
            }
        };
        AuthMethod::Windows(w)
    }

    /// AAD authentication with a token obtained beforehand.
    pub fn aad_token(token: &str) -> (r: Self)
        ensures
            r matches AuthMethod::AADToken(t) && t@ == token@,
    {
        AuthMethod::AADToken(String::from_str(token))
    }

    /// The system-assigned managed identity, or the single user-assigned one.
    pub fn aad_managed_identity() -> (r: Self)
        ensures
            r matches AuthMethod::AADManagedIdentity(a) && a.client_id_spec() is None,
    {
        AuthMethod::AADManagedIdentity(AADManagedIdentityAuth { client_id: None })
    }

    /// The managed identity with the given client id.
    pub fn aad_managed_identity_with_client_id(client_id: &str) -> (r: Self)
        ensures
            r matches AuthMethod::AADManagedIdentity(a) && a.client_id_spec() == Some(client_id@),
    {
        AuthMethod::AADManagedIdentity(
            AADManagedIdentityAuth { client_id: Some(String::from_str(client_id)) },
        )
    }

    /// A service principal with a client id and secret.
    pub fn aad_service_principal(client_id: &str, client_secret: &str) -> (r: Self)
        ensures
            r matches AuthMethod::AADServicePrincipal(a) && a.client_id_spec() == client_id@
                && a.client_secret_spec() == client_secret@,
    {
        AuthMethod::AADServicePrincipal(
            AADServicePrincipalAuth {
                client_id: String::from_str(client_id),
                client_secret: String::from_str(client_secret),
            },
        )
    }
}

/// Two configurations of the same kind that differ only in their secrets
/// (password, client secret, bearer token) render the same: no secret
/// reaches the rendering.
pub proof fn lemma_debug_ignores_secrets(a: AuthMethod, b: AuthMethod)
    requires
        match (a, b) {
            (AuthMethod::SqlServer(x), AuthMethod::SqlServer(y)) => x.user_spec() == y.user_spec(),
            (AuthMethod::Windows(x), AuthMethod::Windows(y)) => x.user_spec() == y.user_spec()
                && x.domain_spec() == y.domain_spec(),
            (AuthMethod::AADToken(_), AuthMethod::AADToken(_)) => true,
            (AuthMethod::AADServicePrincipal(x), AuthMethod::AADServicePrincipal(y)) => x.client_id_spec()
                == y.client_id_spec(),
            _ => false,
        },
    ensures
        a.debug_spec() == b.debug_spec(),
{
}

} // verus!
