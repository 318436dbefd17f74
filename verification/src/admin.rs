use vstd::prelude::*;

verus! {

/// The credentials that an admin request carries.
#[derive(Debug, Clone)]
pub struct Admin {
    name: String,
    passwd: String,
}

/// The answer to an admin request.
#[derive(Debug, Clone)]
pub struct AdminResponse {
    message: String,
}

impl Admin {
    /// Admin credentials with the given name and password.
    pub fn new(name: String, passwd: String) -> (a: Self)
        ensures
            a.name_view() == name@,
            a.passwd_view() == passwd@,
    {
        Admin { name, passwd }
    }

    /// The admin's name.
    pub closed spec fn name_view(&self) -> Seq<char> {
        self.name@
    }

    /// The admin's password.
    pub closed spec fn passwd_view(&self) -> Seq<char> {
        self.passwd@
    }

    /// The admin's name.
    pub fn name(&self) -> (r: &str)
        ensures
            r@ == self.name_view(),
    {
        self.name.as_str()
    }

    /// The admin's password.
    pub fn passwd(&self) -> (r: &str)
        ensures
            r@ == self.passwd_view(),
    {
        self.passwd.as_str()
    }
}

impl AdminResponse {
    /// A response with the given message.
    pub fn new(message: String) -> (r: Self)
        ensures
            r.message_view() == message@,
    {
        AdminResponse { message }
    }

    /// The response's message.
    pub closed spec fn message_view(&self) -> Seq<char> {
        self.message@
    }

    /// The response's message.
    pub fn message(&self) -> (r: &str)
        ensures
            r@ == self.message_view(),
    {
        self.message.as_str()
    }
}

/// Why an admin request is turned away.
#[derive(Debug, Clone, Copy, PartialEq, Eq, Structural)]
pub enum AuthRejection {
    /// The request has no `Authorization` header that reads as text.
    Unauthorized,
}

impl AuthRejection {
    /// The HTTP status code of the rejection (401).
    pub fn status_code(&self) -> (code: u16)
        ensures
            code == 401,
    {
        401
    }
}

/// A header byte that reads as text: visible ASCII or a tab (what
/// `HeaderValue::to_str` accepts).
pub open spec fn is_visible_ascii(b: u8) -> bool {
    (32 <= b && b < 127) || b == 9
}

/// True when a header value reads as text.
pub open spec fn header_is_text(value: Seq<u8>) -> bool {
    forall|i: int| 0 <= i < value.len() ==> is_visible_ascii(#[trigger] value[i])
}

/// Whether every byte of a header value reads as text.
pub fn header_value_is_text(value: &[u8]) -> (r: bool)
    ensures
        r == header_is_text(value@),
{
    let mut i: usize = 0;
    while i < value.len()
        invariant
            i <= value@.len(),
            forall|j: int| 0 <= j < i ==> is_visible_ascii(#[trigger] value@[j]),
        decreases value@.len() - i,
    {
        let b = value[i];
        if !((32 <= b && b < 127) || b == 9) {
            return false;
        }
        i = i + 1;
    }
    true
}

/// The admin gate: a request passes on to the handler when it carries an
/// `Authorization` header whose value reads as text, and is turned away with
/// 401 otherwise. `authorization` is the header's raw value, if present.
pub fn admin_auth(authorization: Option<&[u8]>) -> (r: Result<(), AuthRejection>)
    ensures
        r is Ok <==> (authorization matches Some(v) && header_is_text(v@)),
        r is Err ==> r == Err::<(), AuthRejection>(AuthRejection::Unauthorized),
{
    match authorization {
        Some(value) => {
            if header_value_is_text(value) {
                Ok(())
            } else {
                Err(AuthRejection::Unauthorized)
            }
        },
        None => Err(AuthRejection::Unauthorized),
    }
}

} // verus!
