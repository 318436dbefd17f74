use vstd::prelude::*;

use crate::text::str_eq;

verus! {

/// The footage sites that the scraper knows, and a catch-all for the rest.
#[derive(Debug, Clone, Copy, PartialEq, Eq, Structural)]
pub enum ChooseDomain {
    Artgrid,
    Artlist,
    Envato,
    BadDomain,
}

/// The cookie file kept for a site.
pub open spec fn cookie_file(d: ChooseDomain) -> Seq<char> {
    match d {
        ChooseDomain::Artgrid => "artgrid_cookies.json"@,
        ChooseDomain::Artlist => "artlist_cookies.json"@,
        ChooseDomain::Envato => "envato_cookies.json"@,
        ChooseDomain::BadDomain => "bad"@,
    }
}

/// The home page of a site.
pub open spec fn origin_of(d: ChooseDomain) -> Seq<char> {
    match d {
        ChooseDomain::Artgrid => "https://artgrid.io/"@,
        ChooseDomain::Artlist => "https://artlist.io"@,
        ChooseDomain::Envato => "https://elements.envato.com"@,
        ChooseDomain::BadDomain => "bad"@,
    }
}

/// The host name under which a site is shown to users.
pub open spec fn host_name(d: ChooseDomain) -> Seq<char> {
    match d {
        ChooseDomain::Artgrid => "artgrid.io"@,
        ChooseDomain::Artlist => "artlist.io"@,
        ChooseDomain::Envato => "elements.envato.com"@,
        ChooseDomain::BadDomain => "bad domain"@,
    }
}

/// The site that a URL's host names: one of the three known hosts, else
/// `BadDomain` (also when there is no host).
pub open spec fn domain_of_host(host: Option<Seq<char>>) -> ChooseDomain {
    match host {
        Some(h) => if h == "artgrid.io"@ {
            ChooseDomain::Artgrid
        } else if h == "artlist.io"@ {
            ChooseDomain::Artlist
        } else if h == "elements.envato.com"@ {
            ChooseDomain::Envato
        } else {
            ChooseDomain::BadDomain
        },
        None => ChooseDomain::BadDomain,
    }
}

impl ChooseDomain {
    /// The cookie file of the site.
    pub fn get_domain(&self) -> (r: &str)
        ensures
            r@ == cookie_file(*self),
    {
        match self {
            ChooseDomain::Artgrid => "artgrid_cookies.json",
            ChooseDomain::Artlist => "artlist_cookies.json",
            ChooseDomain::Envato => "envato_cookies.json",
            ChooseDomain::BadDomain => "bad",
        }
    }

    /// The home page of the site.
    pub fn get_origin_domain(&self) -> (r: &str)
        ensures
            r@ == origin_of(*self),
    {
        match self {
            ChooseDomain::Artgrid => "https://artgrid.io/",
            ChooseDomain::Artlist => "https://artlist.io",
            ChooseDomain::Envato => "https://elements.envato.com",
            ChooseDomain::BadDomain => "bad",
        }
    }

    /// Whether the user's site is this one.
    pub fn compare_domain(&self, user_domain: ChooseDomain) -> (r: bool)
        ensures
            r == (*self == user_domain),
    {
        *self == user_domain
    }

    /// The host name of the site as it is shown (`bad domain` for the rest).
    pub fn to_string(&self) -> (r: String)
        ensures
            r@ == host_name(*self),
    {
        match self {
            ChooseDomain::Artgrid => "artgrid.io".to_owned(),
            ChooseDomain::Artlist => "artlist.io".to_owned(),
            ChooseDomain::Envato => "elements.envato.com".to_owned(),
            ChooseDomain::BadDomain => "bad domain".to_owned(),
        }
    }
}

/// The name under which a site is shown leads back to that site: reading a
/// site's shown name as a host gives the same site.
pub proof fn law_shown_name_reads_back(d: ChooseDomain)
    ensures
        domain_of_host(Some(host_name(d))) == d,
{
    reveal_strlit("artgrid.io");
    reveal_strlit("artlist.io");
    reveal_strlit("elements.envato.com");
    reveal_strlit("bad domain");
    match d {
        ChooseDomain::Artgrid => {},
        ChooseDomain::Artlist => {
            assert("artlist.io"@[4] != "artgrid.io"@[4]);
        },
        ChooseDomain::Envato => {
            assert("elements.envato.com"@.len() != "artgrid.io"@.len());
            assert("elements.envato.com"@.len() != "artlist.io"@.len());
        },
        ChooseDomain::BadDomain => {
            assert("bad domain"@[0] != "artgrid.io"@[0]);
            assert("bad domain"@[0] != "artlist.io"@[0]);
            assert("bad domain"@.len() != "elements.envato.com"@.len());
        },
    }
}

impl<'a> From<Option<&'a str>> for ChooseDomain {
    fn from(value: Option<&'a str>) -> (r: Self) {
        if let Some(domain) = value {
            if str_eq(domain, "artgrid.io") {
                ChooseDomain::Artgrid
            } else if str_eq(domain, "artlist.io") {
                ChooseDomain::Artlist
            } else if str_eq(domain, "elements.envato.com") {
                ChooseDomain::Envato
            } else {
                ChooseDomain::BadDomain
            }
        } else {
            ChooseDomain::BadDomain
        }
    }
}

impl<'a> vstd::std_specs::convert::FromSpecImpl<Option<&'a str>> for ChooseDomain {
    open spec fn obeys_from_spec() -> bool {
        true
    }

    open spec fn from_spec(v: Option<&'a str>) -> ChooseDomain {
        domain_of_host(
            match v {
                Some(h) => Some(h@),
                None => None,
            },
        )
    }
}

} // verus!
