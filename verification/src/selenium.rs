use vstd::prelude::*;

verus! {

/// `fantoccini::Client`, a connection to a web driver.
#[verifier::external_type_specification]
#[verifier::external_body]
pub struct ExFantocciniClient(fantoccini::Client);

/// The browser session: the connection to the web driver, once there is one.
#[derive(Clone)]
pub struct Selenium {
    pub current_driver: Option<fantoccini::Client>,
}

impl Selenium {
    /// A session that is not connected yet.
    pub fn new() -> (s: Self)
        ensures
            s.current_driver is None,
    {
        Selenium { current_driver: None }
    }

    /// The connection, if the session has one.
    pub fn get_driver(&self) -> (r: Option<&fantoccini::Client>)
        ensures
            r is Some <==> self.current_driver is Some,
            r matches Some(c) ==> *c == self.current_driver.unwrap(),
    {
        match &self.current_driver {
            Some(c) => Some(c),
            None => None,
        }
    }
}

} // verus!
