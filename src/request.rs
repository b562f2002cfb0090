//! What the connection request is made of: the address to dial and the
//! headers to send, decided from the target and the client's headers.

use vstd::prelude::*;

use crate::client::{basic_auth, basic_auth_value, header_view, HeaderKey};
use crate::codec::{ascii_string, ascii_text, decimal, lemma_decimal_digits, push_decimal};
use crate::error::Error;

verus! {

/// The port of a caster when the target names none.
pub const DEFAULT_PORT: u16 = 2101;

/// The parts of a connection target the request is built from.
pub struct Target {
    /// The authority as written, `user:info@host:port` included.
    pub authority: Option<String>,
    pub host: String,
    pub port: Option<u16>,
}

/// The address to dial and the headers of the request.
pub struct RequestPlan {
    pub address: String,
    pub headers: Vec<(HeaderKey, String)>,
}

/// Index of the first `c` in `s` at or after `i`.
pub open spec fn find_char(s: Seq<char>, c: char, i: nat) -> Option<nat>
    decreases s.len() - i,
{
    if i >= s.len() {
        None
    } else if s[i as int] == c {
        Some(i)
    } else {
        find_char(s, c, i + 1)
    }
}

pub open spec fn has_key(hs: Seq<(HeaderKey, Seq<char>)>, k: HeaderKey) -> bool {
    exists|j: int| 0 <= j < hs.len() && #[trigger] hs[j].0 == k
}

/// The headers every request carries, before the client's own.
pub open spec fn fixed_headers(authority: Seq<char>) -> Seq<(HeaderKey, Seq<char>)> {
    seq![
        (HeaderKey::Host, authority),
        (HeaderKey::UserAgent, "NTRIP ntrip-client/1.0"@),
        (HeaderKey::NtripVersion, "Ntrip/2.0"@),
    ]
}

/// The fixed headers, then the client's; when the authority embeds
/// `user:info@` and no `Authorization` header is among them, one more made
/// from the inline credentials.
pub open spec fn request_headers(
    authority: Seq<char>,
    extra: Seq<(HeaderKey, Seq<char>)>,
) -> Seq<(HeaderKey, Seq<char>)> {
    let base = fixed_headers(authority) + extra;
    match find_char(authority, '@', 0) {
        Some(i) => if has_key(base, HeaderKey::Authorization) {
            base
        } else {
            base.push((HeaderKey::Authorization, basic_auth(authority.subrange(0, i as int))))
        },
        None => base,
    }
}

/// `host:port`, with the default port when none is given.
pub open spec fn address_of(host: Seq<char>, port: Option<u16>) -> Seq<char> {
    let p = match port {
        Some(p) => p,
        None => DEFAULT_PORT,
    };
    host + ":"@ + ascii_text(decimal(p as nat))
}

fn find_at(s: &str) -> (r: Option<usize>)
    ensures
        match r {
            Some(i) => find_char(s@, '@', 0) == Some(i as nat),
            None => find_char(s@, '@', 0) is None,
        },
{
    let n = s.unicode_len();
    let mut i: usize = 0;
    while i < n
        invariant
            n == s@.len(),
            i <= n,
            find_char(s@, '@', 0) == find_char(s@, '@', i as nat),
        decreases n - i,
    {
        if s.get_char(i) == '@' {
            return Some(i);
        }
        i = i + 1;
    }
    None
}

/// A found index lies in the string and holds the character sought.
proof fn lemma_find_char_found(s: Seq<char>, c: char, i: nat)
    ensures
        find_char(s, c, i) matches Some(k) ==> i <= k < s.len() && s[k as int] == c,
    decreases s.len() - i,
{
    if i < s.len() && s[i as int] != c {
        lemma_find_char_found(s, c, i + 1);
    }
}

fn contains_key(hs: &Vec<(HeaderKey, String)>, k: HeaderKey) -> (r: bool)
    ensures
        r == has_key(hs@.map_values(|h: (HeaderKey, String)| header_view(h)), k),
{
    let ghost v = hs@.map_values(|h: (HeaderKey, String)| header_view(h));
    let mut i: usize = 0;
    while i < hs.len()
        invariant
            i <= hs@.len(),
            v == hs@.map_values(|h: (HeaderKey, String)| header_view(h)),
            forall|j: int| 0 <= j < i ==> v[j].0 != k,
        decreases hs@.len() - i,
    {
        if hs[i].0 == k {
            assert(v[i as int].0 == k);
            return true;
        }
        i = i + 1;
    }
    false
}

/// The address and headers of the request to `target`, or `InvalidUri` when
/// the target has no authority.
pub fn plan_request(target: &Target, headers: Vec<(HeaderKey, String)>) -> (r: Result<
    RequestPlan,
    Error,
>)
    ensures
        r is Err <==> target.authority is None,
        target.authority is None ==> r == Err::<RequestPlan, Error>(
            Error::InvalidUri("invalid authority"),
        ),
        r matches Ok(plan) ==> plan.address@ == address_of(target.host@, target.port)
            && plan.headers@.map_values(|h: (HeaderKey, String)| header_view(h))
            == request_headers(
            target.authority->Some_0@,
            headers@.map_values(|h: (HeaderKey, String)| header_view(h)),
        ),
{
    let authority = match &target.authority {
        Some(a) => a,
        None => {
            return Err(Error::InvalidUri("invalid authority"));
        },
    };
    let port: u16 = match target.port {
        Some(p) => p,
        None => DEFAULT_PORT,
    };
    let mut digits: Vec<u8> = Vec::new();
    push_decimal(&mut digits, port as u64);
    proof {
        lemma_decimal_digits(port as nat);
    }
    assert(digits@ =~= decimal(port as nat));
    let port_text = ascii_string(digits);
    let address = target.host.clone().concat(":").concat(port_text.as_str());

    let mut out: Vec<(HeaderKey, String)> = Vec::new();
    out.push((HeaderKey::Host, authority.clone()));
    out.push((HeaderKey::UserAgent, String::from_str("NTRIP ntrip-client/1.0")));
    out.push((HeaderKey::NtripVersion, String::from_str("Ntrip/2.0")));
    let ghost fixed = out@.map_values(|h: (HeaderKey, String)| header_view(h));
    assert(fixed =~= fixed_headers(authority@));
    let ghost extra = headers@.map_values(|h: (HeaderKey, String)| header_view(h));
    let mut i: usize = 0;
    while i < headers.len()
        invariant
            i <= headers@.len(),
            extra == headers@.map_values(|h: (HeaderKey, String)| header_view(h)),
            out@.map_values(|h: (HeaderKey, String)| header_view(h)) =~= fixed
                + extra.subrange(0, i as int),
        decreases headers@.len() - i,
    {
        let ghost before = out@.map_values(|h: (HeaderKey, String)| header_view(h));
        assert(extra[i as int] == header_view(headers@[i as int]));
        out.push((headers[i].0, headers[i].1.clone()));
        assert(out@.map_values(|h: (HeaderKey, String)| header_view(h)) =~= before.push(
            extra[i as int],
        ));
        assert(extra.subrange(0, i + 1) =~= extra.subrange(0, i as int).push(extra[i as int]));
        i = i + 1;
        assert(out@.map_values(|h: (HeaderKey, String)| header_view(h)) =~= fixed
            + extra.subrange(0, i as int));
    }
    assert(extra.subrange(0, headers@.len() as int) =~= extra);
    if let Some(at) = find_at(authority.as_str()) {
        proof {
            lemma_find_char_found(authority@, '@', 0);
        }
        if !contains_key(&out, HeaderKey::Authorization) {
            let userinfo = authority.as_str().substring_char(0, at);
            out.push((HeaderKey::Authorization, basic_auth_value(userinfo)));
            let ghost all = out@.map_values(|h: (HeaderKey, String)| header_view(h));
            assert(all =~= request_headers(authority@, extra));
        }
    }
    Ok(RequestPlan { address, headers: out })
}

} // verus!
