use ntripping::client::{basic_auth_from_encoded, basic_auth_value, Auth, Client, HeaderKey};
use ntripping::error::check_status;
use ntripping::request::{plan_request, Target};
use ntripping::sentence::{Cra, Sentence};
use ntripping::Error;

fn headers(client: &Client) -> Vec<(HeaderKey, String)> {
    client.headers()
}

#[test]
fn client_headers() {
    let client = Client::new();
    assert_eq!(
        headers(&client),
        vec![(
            HeaderKey::SwiftClientId,
            "00000000-0000-0000-0000-000000000000".to_string()
        )]
    );

    let client = client.with_client_id(Some("123".to_string()));
    assert_eq!(
        headers(&client),
        vec![(HeaderKey::SwiftClientId, "123".to_string()),]
    );

    let client = client.with_auth(Some(Auth::new("user", "secret")));
    assert_eq!(
        headers(&client),
        vec![
            (HeaderKey::SwiftClientId, "123".to_string()),
            (HeaderKey::Authorization, "Basic dXNlcjpzZWNyZXQ=".to_string())
        ]
    );

    let client = client.with_ntrip_gga(Some(Sentence::CRA(
        Cra::new().with_request_counter(Some(0)).with_area_id(Some(1)),
    )));
    assert_eq!(
        headers(&client),
        vec![
            (HeaderKey::SwiftClientId, "123".to_string()),
            (HeaderKey::Authorization, "Basic dXNlcjpzZWNyZXQ=".to_string()),
            (HeaderKey::NtripGga, "$PSWTCRA,0,1,,*51".to_string())
        ]
    );

    let client = client
        .with_auth(None)
        .with_ntrip_gga(None)
        .with_client_id(None);
    assert_eq!(
        headers(&client),
        vec![(
            HeaderKey::SwiftClientId,
            "00000000-0000-0000-0000-000000000000".to_string()
        )]
    );
}

#[test]
fn auth_debug_hidden() {
    let auth = format!("{:?}", Auth::new("user", "secret"));
    assert!(!auth.contains("secret"));
}

#[test]
fn auth_debug_shows_username() {
    let auth = format!("{:?}", Auth::new("user", "secret"));
    assert!(auth.contains("user"));
    assert!(auth.contains("***"));
}

#[test]
fn header_names() {
    assert_eq!(HeaderKey::SwiftClientId.name(), "x-swiftnav-client-id");
    assert_eq!(HeaderKey::NtripGga.name(), "ntrip-gga");
    assert_eq!(HeaderKey::NtripVersion.name(), "ntrip-version");
    assert_eq!(HeaderKey::Authorization.name(), "authorization");
    assert_eq!(HeaderKey::Host.name(), "host");
    assert_eq!(HeaderKey::UserAgent.name(), "user-agent");
}

fn target(authority: Option<&str>, host: &str, port: Option<u16>) -> Target {
    Target {
        authority: authority.map(|a| a.to_string()),
        host: host.to_string(),
        port,
    }
}

#[test]
fn plan_without_authority_is_invalid() {
    let r = plan_request(&target(None, "", None), Vec::new());
    assert!(matches!(r, Err(Error::InvalidUri("invalid authority"))));
}

#[test]
fn plan_uses_default_port() {
    let plan = plan_request(&target(Some("caster.example"), "caster.example", None), Vec::new()).ok().unwrap();
    assert_eq!(plan.address, "caster.example:2101");
    assert_eq!(
        plan.headers,
        vec![
            (HeaderKey::Host, "caster.example".to_string()),
            (HeaderKey::UserAgent, "NTRIP ntrip-client/1.0".to_string()),
            (HeaderKey::NtripVersion, "Ntrip/2.0".to_string()),
        ]
    );
    let plan = plan_request(&target(Some("caster.example:80"), "caster.example", Some(80)), Vec::new()).ok().unwrap();
    assert_eq!(plan.address, "caster.example:80");
}

#[test]
fn plan_adds_inline_credentials() {
    let client = Client::new();
    let plan = plan_request(
        &target(Some("user:secret@caster.example:2102"), "caster.example", Some(2102)),
        client.headers(),
    )
    .ok()
    .unwrap();
    assert_eq!(plan.address, "caster.example:2102");
    assert_eq!(plan.headers.len(), 5);
    assert_eq!(plan.headers[3].0, HeaderKey::SwiftClientId);
    assert_eq!(
        plan.headers[4],
        (HeaderKey::Authorization, "Basic dXNlcjpzZWNyZXQ=".to_string())
    );
}

#[test]
fn plan_keeps_explicit_authorization() {
    let client = Client::new().with_auth(Some(Auth::new("other", "pw")));
    let explicit = client.headers();
    let plan = plan_request(
        &target(Some("user:secret@caster.example"), "caster.example", None),
        explicit.clone(),
    )
    .ok()
    .unwrap();
    assert_eq!(plan.headers.len(), 5);
    assert_eq!(plan.headers[4], explicit[1]);
    assert_eq!(plan.headers[4].1, "Basic b3RoZXI6cHc=");
}

#[test]
fn status_check() {
    assert!(check_status(200).is_ok());
    assert!(matches!(check_status(401), Err(Error::BadStatus(401))));
    assert!(matches!(check_status(201), Err(Error::BadStatus(201))));
}

#[test]
fn error_messages() {
    assert_eq!(Error::InvalidUri("invalid authority").message(), "invalid uri: invalid authority");
    assert_eq!(Error::BadStatus(404).message(), "bad status: 404");
    assert_eq!(Error::Io("refused".to_string()).message(), "io error: refused");
    assert_eq!(Error::Hyper("closed".to_string()).message(), "hyper error: closed");
    assert_eq!(Error::Http("bad header".to_string()).message(), "http error: bad header");
}

#[test]
fn basic_auth_encodes_credentials() {
    assert_eq!(basic_auth_from_encoded("abc="), "Basic abc=");
    assert_eq!(basic_auth_value("user:secret"), "Basic dXNlcjpzZWNyZXQ=");
    assert_eq!(basic_auth_value(""), "Basic ");
}
