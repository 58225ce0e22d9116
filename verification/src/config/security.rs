use vstd::prelude::*;
use vstd::string::StringExecFns;

verus! {

/// TLS settings of the HTTP server.
#[derive(Debug)]
pub struct HttpsConfig {
    pub enabled: bool,
    pub cert_path: String,
    pub key_path: String,
}

/// TLS settings in specifications.
pub struct HttpsView {
    pub enabled: bool,
    pub cert_path: Seq<char>,
    pub key_path: Seq<char>,
}

impl HttpsView {
    /// TLS switched off, with the certificate and the key expected in
    /// `cert.pem` and `key.pem`.
    pub open spec fn initial() -> HttpsView {
        HttpsView { enabled: false, cert_path: "cert.pem"@, key_path: "key.pem"@ }
    }
}

impl View for HttpsConfig {
    type V = HttpsView;

    open spec fn view(&self) -> HttpsView {
        HttpsView {
            enabled: self.enabled,
            cert_path: self.cert_path@,
            key_path: self.key_path@,
        }
    }
}

impl Clone for HttpsConfig {
    fn clone(&self) -> (copy: Self)
        ensures
            copy@ == self@,
    {
        HttpsConfig {
            enabled: self.enabled,
            cert_path: self.cert_path.clone(),
            key_path: self.key_path.clone(),
        }
    }
}

impl Default for HttpsConfig {
    fn default() -> (https: Self)
        ensures
            https@ == HttpsView::initial(),
    {
        HttpsConfig {
            enabled: false,
            cert_path: String::from_str("cert.pem"),
            key_path: String::from_str("key.pem"),
        }
    }
}

/// OAuth settings. They are read and kept, and nothing enforces them.
#[derive(Debug)]
pub struct OAuthConfig {
    pub enabled: bool,
    pub provider: String,
    pub client_id: String,
    pub client_secret: String,
    /// The OAuth authorization endpoint URL.
    pub auth_url: String,
    /// The OAuth token endpoint URL.
    pub token_url: String,
    /// The redirect URL for OAuth callbacks.
    pub redirect_url: String,
    /// Optional scopes for OAuth.
    pub scopes: Vec<String>,
}

/// OAuth settings in specifications.
pub struct OAuthView {
    pub enabled: bool,
    pub provider: Seq<char>,
    pub client_id: Seq<char>,
    pub client_secret: Seq<char>,
    pub auth_url: Seq<char>,
    pub token_url: Seq<char>,
    pub redirect_url: Seq<char>,
    pub scopes: Seq<Seq<char>>,
}

impl OAuthView {
    /// OAuth switched off, with every text empty and no scope.
    pub open spec fn initial() -> OAuthView {
        OAuthView {
            enabled: false,
            provider: Seq::empty(),
            client_id: Seq::empty(),
            client_secret: Seq::empty(),
            auth_url: Seq::empty(),
            token_url: Seq::empty(),
            redirect_url: Seq::empty(),
            scopes: Seq::empty(),
        }
    }

    /// The line that says, at startup, that OAuth is switched on.
    pub open spec fn notice(self) -> Option<Seq<char>> {
        if self.enabled {
            Some("OAuth is enabled for provider: "@ + self.provider)
        } else {
            None
        }
    }
}

impl View for OAuthConfig {
    type V = OAuthView;

    open spec fn view(&self) -> OAuthView {
        OAuthView {
            enabled: self.enabled,
            provider: self.provider@,
            client_id: self.client_id@,
            client_secret: self.client_secret@,
            auth_url: self.auth_url@,
            token_url: self.token_url@,
            redirect_url: self.redirect_url@,
            scopes: self.scopes.deep_view(),
        }
    }
}

impl Clone for OAuthConfig {
    fn clone(&self) -> (copy: Self)
        ensures
            copy@ == self@,
    {
        let mut scopes: Vec<String> = Vec::new();
        let n = self.scopes.len();
        let mut i: usize = 0;
        while i < n
            invariant
                n == self.scopes@.len(),
                i <= n,
                scopes@.len() == i,
                forall|k: int| 0 <= k < i ==> scopes@[k]@ == self.scopes@[k]@,
            decreases n - i,
        {
            scopes.push(self.scopes[i].clone());
            i = i + 1;
        }
        assert(scopes.deep_view() =~= self.scopes.deep_view());
        OAuthConfig {
            enabled: self.enabled,
            provider: self.provider.clone(),
            client_id: self.client_id.clone(),
            client_secret: self.client_secret.clone(),
            auth_url: self.auth_url.clone(),
            token_url: self.token_url.clone(),
            redirect_url: self.redirect_url.clone(),
            scopes,
        }
    }
}

impl OAuthConfig {
    /// The line to print at startup where OAuth is switched on; the settings
    /// are not enforced anywhere.
    pub fn startup_notice(&self) -> (line: Option<String>)
        ensures
            match line {
                Some(text) => self@.notice() == Some(text@),
                None => self@.notice() is None,
            },
    {
        if self.enabled {
            let mut text = String::from_str("OAuth is enabled for provider: ");
            text.append(self.provider.as_str());
            Some(text)
        } else {
            None
        }
    }
}

impl Default for OAuthConfig {
    fn default() -> (oauth: Self)
        ensures
            oauth@ == OAuthView::initial(),
    {
        let oauth = OAuthConfig {
            enabled: false,
            provider: String::new(),
            client_id: String::new(),
            client_secret: String::new(),
            auth_url: String::new(),
            token_url: String::new(),
            redirect_url: String::new(),
            scopes: Vec::new(),
        };
        assert(oauth.scopes.deep_view() =~= Seq::<Seq<char>>::empty());
        oauth
    }
}

/// Security settings of the server.
#[derive(Debug)]
pub struct SecurityConfig {
    pub oauth: OAuthConfig,
    pub https: HttpsConfig,
}

/// Security settings in specifications.
pub struct SecurityView {
    pub oauth: OAuthView,
    pub https: HttpsView,
}

impl SecurityView {
    /// Both OAuth and TLS as they are initially.
    pub open spec fn initial() -> SecurityView {
        SecurityView { oauth: OAuthView::initial(), https: HttpsView::initial() }
    }
}

impl View for SecurityConfig {
    type V = SecurityView;

    open spec fn view(&self) -> SecurityView {
        SecurityView { oauth: self.oauth@, https: self.https@ }
    }
}

impl Clone for SecurityConfig {
    fn clone(&self) -> (copy: Self)
        ensures
            copy@ == self@,
    {
        SecurityConfig { oauth: self.oauth.clone(), https: self.https.clone() }
    }
}

impl Default for SecurityConfig {
    fn default() -> (security: Self)
        ensures
            security@ == SecurityView::initial(),
    {
        SecurityConfig { oauth: OAuthConfig::default(), https: HttpsConfig::default() }
    }
}

} // verus!
