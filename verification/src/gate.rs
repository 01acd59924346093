//! The auth gate: the login, logout and profile handlers, composed from the
//! password verifier, the session manager and the credential store.
//!
//! Per request the state machine is: anonymous, until a successful login
//! issues a session cookie; authenticated while the presented cookie
//! resolves under the key; anonymous again once logout instructs the client
//! to discard the cookie.

use vstd::prelude::*;
use crate::password::{bcrypt_matches, bcrypt_valid_hash, verify_password};
use crate::session::{resolve_spec, SessionKey};
use crate::store::{
    has_id, has_name, same_record, table_wf, user_named, user_with_id, CredStore, UserRecord,
};

verus! {

/// How a request fails: bad credentials, or a backend fault. An unknown
/// username and a wrong password fail the same way on purpose, so a
/// response never reveals whether a username exists.
#[derive(Clone, Copy, Debug, PartialEq, Eq, Structural)]
pub enum AuthError {
    /// The credentials were not accepted.
    Unauthorized,
    /// The backend failed: here, a stored digest that does not parse.
    ServerError,
}

/// A successful login: the session cookie value to set, and the redirect
/// with its one-shot flash message.
#[derive(Debug)]
pub struct LoginGrant {
    pub cookie: String,
    pub redirect_to: String,
    pub flash: String,
}

/// A logout response: the instruction to discard the session cookie, and
/// the redirect with its one-shot flash message.
#[derive(Debug)]
pub struct LogoutResponse {
    pub clear_cookie: bool,
    pub redirect_to: String,
    pub flash: String,
}

/// The placeholder payload of the transit-times endpoint.
#[derive(Debug)]
pub struct TransitTimesResponse {}

/// What a login attempt decides, as a function of the table and the
/// submitted credentials: the id to bind on success, or how it fails.
pub open spec fn login_decision(
    store: Seq<UserRecord>,
    name: Seq<char>,
    pass: Seq<char>,
) -> Result<i32, AuthError> {
    if !has_name(store, name) {
        Err(AuthError::Unauthorized)
    } else {
        let u = user_named(store, name);
        if !bcrypt_valid_hash(u.password_hash@) {
            Err(AuthError::ServerError)
        } else if bcrypt_matches(pass, u.password_hash@) {
            Ok(u.id)
        } else {
            Err(AuthError::Unauthorized)
        }
    }
}

/// The cookie value a request presented, if any.
pub open spec fn cookie_view(cookie: Option<&String>) -> Option<Seq<char>> {
    match cookie {
        Some(c) => Some(c@),
        None => None,
    }
}

/// What the profile endpoint serves: the record of the user the presented
/// cookie resolves to, and nothing whenever there is no cookie, the cookie
/// does not resolve, or the resolved id is gone from the table.
pub open spec fn profile_spec(
    store: Seq<UserRecord>,
    key: Seq<u8>,
    cookie: Option<Seq<char>>,
) -> Option<UserRecord> {
    match cookie {
        None => None,
        Some(c) => match resolve_spec(key, c) {
            None => None,
            Some(id) => if has_id(store, id) {
                Some(user_with_id(store, id))
            } else {
                None
            },
        },
    }
}

/// Handles a login request. Exactly when the username is present, its
/// stored digest is well formed and the password matches, a session cookie
/// bound to that user's id is issued, with the success redirect and flash;
/// otherwise the decision's error comes back and no session exists.
pub fn login(store: &CredStore, key: &SessionKey, username: &String, password: &String) -> (r:
    Result<LoginGrant, AuthError>)
    requires
        store.wf(),
        key.wf(),
    ensures
        (r is Ok) == (login_decision(store@, username@, password@) is Ok),
        r matches Err(e) ==> login_decision(store@, username@, password@) == Err::<
            i32,
            AuthError,
        >(e),
        r matches Ok(g) ==> {
            &&& resolve_spec(key@, g.cookie@) == Some(
                user_named(store@, username@).id,
            )
            &&& g.redirect_to@ == "/profile"@
            &&& g.flash@ == "Login successful!"@
        },
{
    match store.find_by_username(username) {
        None => Err(AuthError::Unauthorized),
        Some(user) => match verify_password(password, &user.password_hash) {
            Err(_) => Err(AuthError::ServerError),
            Ok(false) => Err(AuthError::Unauthorized),
            Ok(true) => {
                let cookie = key.issue(user.id);
                Ok(
                    LoginGrant {
                        cookie,
                        redirect_to: String::from_str("/profile"),
                        flash: String::from_str("Login successful!"),
                    },
                )
            },
        },
    }
}

/// Handles a logout request: instructs the client to discard the session
/// cookie and redirects with the flash message.
pub open spec fn logout_post(r: LogoutResponse) -> bool {
    &&& r.clear_cookie
    &&& r.redirect_to@ == "/"@
    &&& r.flash@ == "Logout successful!"@
}

/// Logout always succeeds, whether or not a session exists: revoking twice
/// is not an error.
pub fn logout() -> (r: LogoutResponse)
    ensures
        logout_post(r),
{
    LogoutResponse {
        clear_cookie: true,
        redirect_to: String::from_str("/"),
        flash: String::from_str("Logout successful!"),
    }
}

/// Handles a profile request: serves the record of the user the presented
/// session cookie resolves to, or nothing — absence, not an error — when
/// the request carries no resolvable session or the user is gone.
pub fn profile(store: &CredStore, key: &SessionKey, cookie: Option<&String>) -> (r: Option<
    UserRecord,
>)
    requires
        store.wf(),
        key.wf(),
    ensures
        (r is Some) == (profile_spec(store@, key@, cookie_view(cookie)) is Some),
        r matches Some(u) ==> same_record(u, profile_spec(store@, key@, cookie_view(cookie))->0),
{
    match cookie {
        None => None,
        Some(c) => match key.resolve(c.as_str()) {
            None => None,
            Some(id) => match store.find_by_id(id) {
                None => None,
                Some(u) => Some(u.clone()),
            },
        },
    }
}

/// Handles the transit-times request: an empty placeholder structure.
pub fn transit_times() -> (r: TransitTimesResponse)
    ensures
        r == (TransitTimesResponse {  }),
{
    TransitTimesResponse {  }
}

/// Renders the landing page, with the one-shot flash message, if any, in
/// its paragraph.
pub open spec fn index_page(msg: Seq<char>) -> Seq<char> {
    "\n        <html>\n        <head>\n            <title>Rust Web App</title>\n        </head>\n        <body>\n            <h1>Welcome to the Rust Web App!</h1>\n            <p>"@
        + msg
        + "</p>\n            <a href=\"/login\">Login</a>\n        </body>\n        </html>\n        "@
}

/// The flash message a request carries, or empty text.
pub open spec fn flash_view(flash: Option<&String>) -> Seq<char> {
    match flash {
        Some(m) => m@,
        None => Seq::<char>::empty(),
    }
}

/// Renders the landing page around the presented flash message.
pub fn index(flash: Option<&String>) -> (r: String)
    ensures
        r@ == index_page(flash_view(flash)),
{
    let mut page = String::from_str(
        "\n        <html>\n        <head>\n            <title>Rust Web App</title>\n        </head>\n        <body>\n            <h1>Welcome to the Rust Web App!</h1>\n            <p>",
    );
    match flash {
        Some(m) => page.append(m.as_str()),
        None => (),
    }
    page.append(
        "</p>\n            <a href=\"/login\">Login</a>\n        </body>\n        </html>\n        ",
    );
    proof {
        assert(page@ =~= index_page(flash_view(flash)));
    }
    page
}

/// A granted session opens the profile: when a login decision accepts a
/// user and a cookie resolves to that user's id, the profile endpoint
/// serves exactly that user's record.
pub proof fn lemma_login_grants_profile(
    store: Seq<UserRecord>,
    key: Seq<u8>,
    name: Seq<char>,
    cookie: Seq<char>,
)
    requires
        table_wf(store),
        has_name(store, name),
        resolve_spec(key, cookie) == Some(user_named(store, name).id),
    ensures
        profile_spec(store, key, Some(cookie)) matches Some(u) && same_record(
            u,
            user_named(store, name),
        ),
{
    let u = user_named(store, name);
    let i = choose|i: int| 0 <= i < store.len() && #[trigger] store[i].username@ == name;
    assert(store[i] == u);
    assert(has_id(store, u.id));
    let j = choose|j: int| 0 <= j < store.len() && #[trigger] store[j].id == u.id;
    assert(store[j].id == store[i].id);
    assert(j == i);
    assert(user_with_id(store, u.id) == u);
}

/// Failures are indistinguishable: a login with a username the table does
/// not hold decides exactly as a login with a known username and a wrong
/// password — the same error, nothing more.
pub proof fn lemma_failures_indistinguishable(
    store: Seq<UserRecord>,
    name_a: Seq<char>,
    pass_a: Seq<char>,
    name_b: Seq<char>,
    pass_b: Seq<char>,
)
    requires
        !has_name(store, name_a),
        has_name(store, name_b),
        bcrypt_valid_hash(user_named(store, name_b).password_hash@),
        !bcrypt_matches(pass_b, user_named(store, name_b).password_hash@),
    ensures
        login_decision(store, name_a, pass_a) == Err::<i32, AuthError>(AuthError::Unauthorized),
        login_decision(store, name_b, pass_b) == Err::<i32, AuthError>(AuthError::Unauthorized),
        login_decision(store, name_a, pass_a) == login_decision(store, name_b, pass_b),
{
}

/// Without a session cookie the profile is absent, whatever the table, the
/// key, or any session that existed before.
pub proof fn lemma_profile_absent_without_cookie(store: Seq<UserRecord>, key: Seq<u8>)
    ensures
        profile_spec(store, key, None) is None,
{
}

/// Logout is idempotent: any two logout responses are observably the same.
pub proof fn lemma_logout_idempotent(r1: LogoutResponse, r2: LogoutResponse)
    requires
        logout_post(r1),
        logout_post(r2),
    ensures
        r1.clear_cookie == r2.clear_cookie,
        r1.redirect_to@ == r2.redirect_to@,
        r1.flash@ == r2.flash@,
{
}

} // verus!
