//! Identifier and token newtypes shared by the whole service.

use vstd::prelude::*;

verus! {

/// Database id of a stored image.
#[derive(Clone, Copy, Debug, PartialEq, Eq, Hash, Structural)]
pub struct ImageId(pub i32);

/// Database id of a registered user.
#[derive(Clone, Copy, Debug, PartialEq, Eq, Hash, Structural)]
pub struct UserId(pub i32);

/// Database id of a stored receipt.
#[derive(Clone, Copy, Debug, PartialEq, Eq, Hash, Structural)]
pub struct ReceiptId(pub i32);

/// Opaque session identifier handed to the browser in the `sid` cookie.
#[derive(Clone, Debug, PartialEq, Eq, Hash)]
pub struct SessionId(pub String);

/// E-mail address reported by the identity provider.
#[derive(Clone, Debug, PartialEq, Eq, Hash)]
pub struct Email(pub String);

/// Name of the identity provider (for example `google`).
#[derive(Clone, Debug, PartialEq, Eq, Hash)]
pub struct Provider(pub String);

/// Subject identifier of a user at the identity provider.
#[derive(Clone, Debug, PartialEq, Eq, Hash)]
pub struct Sub(pub String);

/// PKCE code challenge.
pub struct PKCEChallenge(pub String);

/// PKCE code verifier kept in the `pkce_v` cookie.
pub struct PKCEVerifier(pub String);

/// CSRF token kept in the `oauth_state` cookie.
pub struct CSRFToken(pub String);

/// Authorization code returned by the identity provider.
pub struct AuthCode(pub String);

/// Access token obtained from the identity provider.
pub struct AccessToken(pub String);

/// The user a live session belongs to.
#[derive(Clone, Debug)]
pub struct SessionUser {
    pub user_id: UserId,
    pub email: Email,
}

impl View for SessionId {
    type V = Seq<char>;

    open spec fn view(&self) -> Seq<char> {
        self.0@
    }
}

impl View for Email {
    type V = Seq<char>;

    open spec fn view(&self) -> Seq<char> {
        self.0@
    }
}

impl View for Provider {
    type V = Seq<char>;

    open spec fn view(&self) -> Seq<char> {
        self.0@
    }
}

impl View for Sub {
    type V = Seq<char>;

    open spec fn view(&self) -> Seq<char> {
        self.0@
    }
}

impl AsRef<str> for AccessToken {
    fn as_ref(&self) -> (r: &str)
        ensures
            r@ == self.0@,
    {
        self.0.as_str()
    }
}

impl AsRef<str> for CSRFToken {
    fn as_ref(&self) -> (r: &str)
        ensures
            r@ == self.0@,
    {
        self.0.as_str()
    }
}

impl AsRef<str> for PKCEVerifier {
    fn as_ref(&self) -> (r: &str)
        ensures
            r@ == self.0@,
    {
        self.0.as_str()
    }
}

impl AsRef<i32> for UserId {
    fn as_ref(&self) -> (r: &i32)
        ensures
            *r == self.0,
    {
        &self.0
    }
}

impl AsRef<str> for SessionId {
    fn as_ref(&self) -> (r: &str)
        ensures
            r@ == self.0@,
    {
        self.0.as_str()
    }
}

impl From<SessionId> for String {
    fn from(value: SessionId) -> (r: String)
        ensures
            r@ == value@,
    {
        value.0
    }
}

impl vstd::std_specs::convert::FromSpecImpl<SessionId> for String {
    open spec fn obeys_from_spec() -> bool {
        true
    }

    open spec fn from_spec(v: SessionId) -> String {
        v.0
    }
}

} // verus!
