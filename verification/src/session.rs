//! Session management: an opaque, tamper-evident cookie binding a request
//! to a user identity.
//!
//! A session key seals a user id into a cookie value by authenticated
//! encryption, and resolves a presented cookie value back to the id only
//! when the value opens under the same key. Opening is fail-closed: a value
//! that does not open, or whose payload is not a rendered id, resolves to
//! nothing, which downstream is the ordinary anonymous state.

use vstd::prelude::*;
use crate::codec::{parse_id, parse_spec, render_id};

verus! {

/// What opening a candidate cookie value under a key yields: the sealed
/// payload when the value authenticates under the key, nothing otherwise.
/// Opening is deterministic decryption, a function of key and value alone.
pub uninterp spec fn open_of(key: Seq<u8>, value: Seq<char>) -> Option<Seq<char>>;

/// The id a cookie value stands for under a key: the parse of whatever the
/// value opens to, if anything.
pub open spec fn resolve_spec(key: Seq<u8>, value: Seq<char>) -> Option<i32> {
    match open_of(key, value) {
        Some(p) => parse_spec(p),
        None => None,
    }
}

/// Relies on cookie::Key::generate and cookie::Key::master (cookie 0.18):
/// generate draws a fresh 64-byte master key from OS randomness and master
/// hands those 64 bytes back.
#[verifier::external_body]
fn generate_key_bytes() -> (r: Vec<u8>)
    ensures
        r@.len() == 64,
{
    cookie::Key::generate().master().to_vec()
}

/// Relies on cookie::PrivateJar::add (cookie 0.18): it seals the value with
/// AES-256-GCM under the encryption half of the key, with the cookie name as
/// associated data, and its own documentation states that a value sealed by
/// a private jar always opens under the same key and name. cookie::Key::from
/// panics only below 64 bytes, which the precondition rules out.
#[verifier::external_body]
fn seal_value(key: &Vec<u8>, payload: &str) -> (r: String)
    requires
        key@.len() == 64,
    ensures
        open_of(key@, r@) == Some(payload@),
{
    let k = cookie::Key::from(key);
    let mut jar = cookie::CookieJar::new();
    jar.private_mut(&k).add(cookie::Cookie::new("user_id", payload.to_string()));
    match jar.get("user_id") {
        Some(c) => c.value().to_string(),
        None => String::new(),
    }
}

/// Relies on cookie::PrivateJar::decrypt (cookie 0.18): it base64-decodes
/// the value and verifies and decrypts it with AES-256-GCM under the
/// encryption half of the key, with the cookie name as associated data;
/// both steps are deterministic in key and value, and failure of either
/// yields None.
#[verifier::external_body]
fn open_value(key: &Vec<u8>, value: &str) -> (r: Option<String>)
    requires
        key@.len() == 64,
    ensures
        r matches Some(p) ==> open_of(key@, value@) == Some(p@),
        r is None ==> open_of(key@, value@) is None,
{
    let k = cookie::Key::from(key);
    let jar = cookie::CookieJar::new();
    jar.private(&k).decrypt(cookie::Cookie::new("user_id", value.to_string())).map(
        |c| c.value().to_string(),
    )
}

/// The name under which the session cookie travels.
pub fn session_cookie_name() -> (r: &'static str)
    ensures
        r@ == "user_id"@,
{
    "user_id"
}

/// A process-wide signing secret: 64 bytes of key material, fixed for the
/// life of the process.
pub struct SessionKey {
    bytes: Vec<u8>,
}

impl View for SessionKey {
    type V = Seq<u8>;

    closed spec fn view(&self) -> Seq<u8> {
        self.bytes@
    }
}

impl SessionKey {
    /// A session key holds exactly 64 bytes of material.
    pub open spec fn wf(&self) -> bool {
        self@.len() == 64
    }

    /// Draws a fresh key from OS randomness.
    pub fn generate() -> (k: SessionKey)
        ensures
            k.wf(),
    {
        SessionKey { bytes: generate_key_bytes() }
    }

    /// Adopts fixed key material, of exactly 64 bytes; anything else is
    /// refused.
    pub fn from_bytes(bytes: Vec<u8>) -> (r: Option<SessionKey>)
        ensures
            r matches Some(k) ==> k.wf() && k@ == bytes@,
            (r is Some) == (bytes@.len() == 64),
    {
        if bytes.len() == 64 {
            Some(SessionKey { bytes })
        } else {
            None
        }
    }

    /// Issues a session cookie value for a user id: the id rendered in
    /// decimal, sealed under this key. The value resolves back to exactly
    /// that id.
    pub fn issue(&self, user_id: i32) -> (c: String)
        requires
            self.wf(),
        ensures
            resolve_spec(self@, c@) == Some(user_id),
    {
        let payload = render_id(user_id);
        seal_value(&self.bytes, payload.as_str())
    }

    /// Resolves a presented cookie value to the user id it stands for under
    /// this key, or to nothing: absence is the normal anonymous state, not
    /// an error.
    pub fn resolve(&self, value: &str) -> (r: Option<i32>)
        requires
            self.wf(),
        ensures
            r == resolve_spec(self@, value@),
    {
        match open_value(&self.bytes, value) {
            Some(p) => parse_id(p.as_str()),
            None => None,
        }
    }
}

} // verus!
