//! Credentials, client identity and the headers they contribute to the
//! connection request.

use base64::Engine;
use vstd::prelude::*;

use crate::codec::ascii_text;
use crate::sentence::{rendered, Sentence};

verus! {

/// The request headers this client sets.
#[derive(Clone, Copy, Debug, PartialEq, Eq, Structural)]
pub enum HeaderKey {
    Host,
    UserAgent,
    NtripVersion,
    SwiftClientId,
    Authorization,
    NtripGga,
}

impl HeaderKey {
    /// The header's name on the wire.
    pub fn name(&self) -> (r: &'static str)
        ensures
            r@ == match self {
                HeaderKey::Host => "host"@,
                HeaderKey::UserAgent => "user-agent"@,
                HeaderKey::NtripVersion => "ntrip-version"@,
                HeaderKey::SwiftClientId => "x-swiftnav-client-id"@,
                HeaderKey::Authorization => "authorization"@,
                HeaderKey::NtripGga => "ntrip-gga"@,
            },
    {
        match self {
            HeaderKey::Host => "host",
            HeaderKey::UserAgent => "user-agent",
            HeaderKey::NtripVersion => "ntrip-version",
            HeaderKey::SwiftClientId => "x-swiftnav-client-id",
            HeaderKey::Authorization => "authorization",
            HeaderKey::NtripGga => "ntrip-gga",
        }
    }
}

/// Standard base64, with padding, of the UTF-8 bytes of `s`.
pub uninterp spec fn base64_of(s: Seq<char>) -> Seq<char>;

/// Relies on base64's `STANDARD` engine `encode`: the encoding of the UTF-8
/// bytes of `s`, which depends on `s` alone.
#[verifier::external_body]
fn base64_encode(s: &str) -> (r: String)
    ensures
        r@ == base64_of(s@),
{
    base64::engine::general_purpose::STANDARD.encode(s)
}

/// The value of a basic `Authorization` header for `credentials`, which are
/// `user:password`.
pub open spec fn basic_auth(credentials: Seq<char>) -> Seq<char> {
    "Basic "@ + base64_of(credentials)
}

/// `Basic <encoded>`, for credentials already in base64.
pub fn basic_auth_from_encoded(encoded: &str) -> (r: String)
    ensures
        r@ == "Basic "@ + encoded@,
{
    String::from_str("Basic ").concat(encoded)
}

/// `Basic <base64 of credentials>`.
pub fn basic_auth_value(credentials: &str) -> (r: String)
    ensures
        r@ == basic_auth(credentials@),
{
    let encoded = base64_encode(credentials);
    basic_auth_from_encoded(encoded.as_str())
}

/// Basic-auth credentials. The password never appears in debug output.
pub struct Auth {
    pub username: String,
    pub password: String,
}

impl Auth {
    pub fn new(username: &str, password: &str) -> (r: Auth)
        ensures
            r.username@ == username@,
            r.password@ == password@,
    {
        Auth { username: username.to_owned(), password: password.to_owned() }
    }

    /// `user:password`, the text that basic authentication encodes.
    pub open spec fn credentials(&self) -> Seq<char> {
        self.username@ + ":"@ + self.password@
    }
}

/// `core::fmt::Formatter`, opaque: only handed to the debug formatter below.
#[verifier::external_type_specification]
#[verifier::external_body]
pub struct ExFormatter<'a>(core::fmt::Formatter<'a>);

/// `core::fmt::Error`, opaque: the error of `core::fmt::Result`.
#[verifier::external_type_specification]
#[verifier::external_body]
pub struct ExFmtError(core::fmt::Error);

impl core::fmt::Debug for Auth {
    /// Relies on `Formatter::debug_struct`; the password is written as `***`.
    #[verifier::external_body]
    fn fmt(&self, f: &mut core::fmt::Formatter<'_>) -> core::fmt::Result {
        f.debug_struct("Auth").field("username", &self.username).field("password", &"***").finish()
    }
}


/// The client identity sent when none is configured.
pub open spec fn default_client_id() -> Seq<char> {
    "00000000-0000-0000-0000-000000000000"@
}

/// A header with its value viewed as characters.
pub open spec fn header_view(h: (HeaderKey, String)) -> (HeaderKey, Seq<char>) {
    (h.0, h.1@)
}

/// Settings of the connection request: credentials, identity and an
/// optional sentence declared in the request headers.
pub struct Client {
    pub auth: Option<Auth>,
    pub client_id: Option<String>,
    pub ntrip_gga: Option<Sentence>,
}

impl Client {
    /// The headers `c` contributes: the identity (the all-zero placeholder
    /// when unset), then basic authentication, then the declared sentence.
    pub open spec fn spec_headers(&self) -> Seq<(HeaderKey, Seq<char>)> {
        let id = match self.client_id {
            Some(id) => id@,
            None => default_client_id(),
        };
        let auth = match self.auth {
            Some(a) => seq![(HeaderKey::Authorization, basic_auth(a.credentials()))],
            None => seq![],
        };
        let gga = match self.ntrip_gga {
            Some(s) => seq![(HeaderKey::NtripGga, ascii_text(rendered(s, false)))],
            None => seq![],
        };
        seq![(HeaderKey::SwiftClientId, id)] + auth + gga
    }

    pub fn new() -> (r: Client)
        ensures
            r.auth is None,
            r.client_id is None,
            r.ntrip_gga is None,
    {
        Client { auth: None, client_id: None, ntrip_gga: None }
    }

    pub fn with_auth(self, auth: Option<Auth>) -> (r: Client)
        ensures
            r == (Client { auth, ..self }),
    {
        Client { auth, ..self }
    }

    pub fn with_client_id(self, client_id: Option<String>) -> (r: Client)
        ensures
            r == (Client { client_id, ..self }),
    {
        Client { client_id, ..self }
    }

    pub fn with_ntrip_gga(self, ntrip_gga: Option<Sentence>) -> (r: Client)
        ensures
            r == (Client { ntrip_gga, ..self }),
    {
        Client { ntrip_gga, ..self }
    }

    /// The headers this client adds to the connection request.
    pub fn headers(&self) -> (r: Vec<(HeaderKey, String)>)
        ensures
            r@.map_values(|h: (HeaderKey, String)| header_view(h)) == self.spec_headers(),
    {
        let mut out: Vec<(HeaderKey, String)> = Vec::new();
        let id = match &self.client_id {
            Some(id) => id.clone(),
            None => String::from_str("00000000-0000-0000-0000-000000000000"),
        };
        out.push((HeaderKey::SwiftClientId, id));
        let ghost id_part = out@.map_values(|h: (HeaderKey, String)| header_view(h));
        assert(id_part =~= seq![(HeaderKey::SwiftClientId, out@[0].1@)]);
        if let Some(auth) = &self.auth {
            let credentials = auth.username.clone().concat(":").concat(auth.password.as_str());
            out.push((HeaderKey::Authorization, basic_auth_value(credentials.as_str())));
        }
        let ghost auth_part = out@.map_values(|h: (HeaderKey, String)| header_view(h));
        if let Some(s) = self.ntrip_gga {
            out.push((HeaderKey::NtripGga, s.to_string(false)));
        }
        let ghost all = out@.map_values(|h: (HeaderKey, String)| header_view(h));
        assert(all =~= self.spec_headers());
        out
    }
}

} // verus!
