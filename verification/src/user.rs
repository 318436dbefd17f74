use vstd::prelude::*;

verus! {

/// A footager user's download request: who asks, and for which URL.
#[derive(Debug, Clone)]
pub struct FootageUserRequest {
    name: String,
    pub url: String,
}

/// How a footager request ended.
#[derive(Debug, Clone, Copy, PartialEq, Eq, Structural)]
pub enum FootageUserResponse {
    Success,
    InternalError,
    BadRequest,
}

impl FootageUserRequest {
    /// A request by `name` for `url`.
    pub fn new(name: String, url: String) -> (r: Self)
        ensures
            r.name_view() == name@,
            r.url_view() == url@,
    {
        FootageUserRequest { name, url }
    }

    /// The URL of the footage asked for.
    pub closed spec fn url_view(&self) -> Seq<char> {
        self.url@
    }

    /// The URL of the footage asked for.
    pub fn url(&self) -> (r: &str)
        ensures
            r@ == self.url_view(),
    {
        self.url.as_str()
    }

    /// The name of the user who asks.
    pub closed spec fn name_view(&self) -> Seq<char> {
        self.name@
    }

    /// The name of the user who asks.
    pub fn name(&self) -> (r: &str)
        ensures
            r@ == self.name_view(),
    {
        self.name.as_str()
    }
}

} // verus!
