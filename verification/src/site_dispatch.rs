use vstd::prelude::*;

use crate::domain::{domain_of_host, ChooseDomain};
use crate::text::{chars_match_at, chars_of};
use crate::user::FootageUserRequest;

verus! {

/// What `reqwest::Url::parse` makes of a string: `None` when it is no URL,
/// else the URL's serialization and its host, if it has one.
pub uninterp spec fn parsed_url(input: Seq<char>) -> Option<(Seq<char>, Option<Seq<char>>)>;

/// A parse result as plain values.
pub open spec fn parts_view(p: Option<(String, Option<String>)>) -> Option<
    (Seq<char>, Option<Seq<char>>),
> {
    match p {
        Some((s, h)) => Some(
            (
                s@,
                match h {
                    Some(x) => Some(x@),
                    None => None,
                },
            ),
        ),
        None => None,
    }
}

/// Parses a URL with `reqwest::Url::parse` (the `url` crate's parser) and
/// hands back the URL's serialization (`Url::as_str`) and its host
/// (`Url::host_str`), or `None` when parsing fails. The contract names the
/// result `parsed_url` of the input: what the parser makes of a string is
/// not stated here.
#[verifier::external_body]
fn parse_with_reqwest(input: &str) -> (r: Option<(String, Option<String>)>)
    ensures
        parts_view(r) == parsed_url(input@),
{
    match reqwest::Url::parse(input) {
        Ok(url) => {
            let host = match url.host_str() {
                Some(h) => Some(h.to_owned()),
                None => None,
            };
            Some((url.as_str().to_owned(), host))
        },
        Err(_) => None,
    }
}

/// The number of non-overlapping occurrences of `p` in `s`, counted from the
/// left (what `str::matches(p).count()` gives for a pattern that is not
/// empty).
pub open spec fn count_matches(s: Seq<char>, p: Seq<char>) -> nat
    decreases s.len(),
{
    if s.len() == 0 || p.len() == 0 {
        0
    } else if p.len() <= s.len() && s.take(p.len() as int) =~= p {
        1 + count_matches(s.skip(p.len() as int), p)
    } else {
        count_matches(s.skip(1), p)
    }
}

/// The characters of `https://`.
pub open spec fn https_scheme() -> Seq<char> {
    seq!['h', 't', 't', 'p', 's', ':', '/', '/']
}

/// The number of non-overlapping occurrences of `p` in `s`.
pub fn count_chars_matches(s: &Vec<char>, p: &Vec<char>) -> (n: usize)
    requires
        p@.len() > 0,
    ensures
        n == count_matches(s@, p@),
{
    let mut n: usize = 0;
    let mut i: usize = 0;
    assert(s@.skip(0) =~= s@);
    while i < s.len()
        invariant
            p@.len() > 0,
            i <= s@.len(),
            n <= i,
            n + count_matches(s@.skip(i as int), p@) == count_matches(s@, p@),
        decreases s@.len() - i,
    {
        let ghost rest = s@.skip(i as int);
        if p.len() <= s.len() - i && chars_match_at(s, p, i) {
            assert(rest.take(p@.len() as int) =~= s@.subrange(i as int, i + p@.len()));
            assert(rest.skip(p@.len() as int) =~= s@.skip(i + p@.len()));
            n = n + 1;
            i = i + p.len();
        } else {
            assert(!(p@.len() <= rest.len() && rest.take(p@.len() as int) =~= p@)) by {
                if p@.len() <= rest.len() {
                    assert(rest.take(p@.len() as int) =~= s@.subrange(i as int, i + p@.len()));
                }
            }
            assert(rest.skip(1) =~= s@.skip(i + 1));
            i = i + 1;
        }
    }
    assert(s@.skip(i as int) =~= Seq::<char>::empty());
    n
}

/// What a footager request for a URL leads to.
#[derive(Debug, Clone, PartialEq, Eq)]
pub enum SiteChoice {
    /// Run the Artgrid download for the URL.
    RunArtgrid,
    /// Answer at once with this text.
    Answer(String),
    /// Turn the request away (as a wait timeout).
    Reject,
}

/// A site choice as plain values.
pub enum SiteChoiceView {
    RunArtgrid,
    Answer(Seq<char>),
    Reject,
}

impl View for SiteChoice {
    type V = SiteChoiceView;

    open spec fn view(&self) -> SiteChoiceView {
        match self {
            SiteChoice::RunArtgrid => SiteChoiceView::RunArtgrid,
            SiteChoice::Answer(s) => SiteChoiceView::Answer(s@),
            SiteChoice::Reject => SiteChoiceView::Reject,
        }
    }
}

/// The choice for a parse result: a URL that parses, holds `https://`
/// exactly once, and has a known host goes to that site's handling; anything
/// else is turned away.
pub open spec fn site_choice(parsed: Option<(Seq<char>, Option<Seq<char>>)>) -> SiteChoiceView {
    match parsed {
        Some((serialized, host)) => if count_matches(serialized, https_scheme()) == 1 {
            match domain_of_host(host) {
                ChooseDomain::Artgrid => SiteChoiceView::RunArtgrid,
                ChooseDomain::Artlist => SiteChoiceView::Answer("ChooseDomain::Artlist"@),
                ChooseDomain::Envato => SiteChoiceView::Answer("ChooseDomain::Envato"@),
                ChooseDomain::BadDomain => SiteChoiceView::Reject,
            }
        } else {
            SiteChoiceView::Reject
        },
        None => SiteChoiceView::Reject,
    }
}

/// The choice for a given parse result of the user's URL.
pub fn choose_site(parsed: Option<(String, Option<String>)>) -> (r: SiteChoice)
    ensures
        r@ == site_choice(parts_view(parsed)),
{
    match parsed {
        Some((serialized, host)) => {
            let scheme = vec!['h', 't', 't', 'p', 's', ':', '/', '/'];
            assert(scheme@ =~= https_scheme());
            let chars = chars_of(serialized.as_str());
            if count_chars_matches(&chars, &scheme) == 1 {
                let domain = match &host {
                    Some(h) => ChooseDomain::from(Some(h.as_str())),
                    None => ChooseDomain::from(None),
                };
                match domain {
                    ChooseDomain::Artgrid => SiteChoice::RunArtgrid,
                    ChooseDomain::Artlist => SiteChoice::Answer("ChooseDomain::Artlist".to_owned()),
                    ChooseDomain::Envato => SiteChoice::Answer("ChooseDomain::Envato".to_owned()),
                    ChooseDomain::BadDomain => SiteChoice::Reject,
                }
            } else {
                SiteChoice::Reject
            }
        },
        None => SiteChoice::Reject,
    }
}

/// Validates the user's URL and chooses what to do with it.
pub fn choose_url_site(user_url: &str) -> (r: SiteChoice)
    ensures
        r@ == site_choice(parsed_url(user_url@)),
{
    choose_site(parse_with_reqwest(user_url))
}

/// The decision of `run_site_instance`: without a browser the request is
/// turned away; with one, a new tab is opened and the URL's site choice is
/// followed.
pub fn run_site_instance(has_driver: bool, req: &FootageUserRequest) -> (r: Option<SiteChoice>)
    ensures
        !has_driver ==> r is None,
        has_driver ==> (r matches Some(c) && c@ == site_choice(parsed_url(req.url_view()))),
{
    if has_driver {
        Some(choose_url_site(req.url()))
    } else {
        None
    }
}

/// Only a URL with a known host and a single `https://` is acted on; every
/// other parse, and a string that does not parse, is turned away.
pub proof fn law_unknown_sites_are_rejected(parsed: Option<(Seq<char>, Option<Seq<char>>)>)
    ensures
        parsed is None ==> site_choice(parsed) == SiteChoiceView::Reject,
        parsed matches Some((s, h)) && domain_of_host(h) == ChooseDomain::BadDomain
            ==> site_choice(parsed) == SiteChoiceView::Reject,
        parsed matches Some((s, h)) && count_matches(s, https_scheme()) != 1
            ==> site_choice(parsed) == SiteChoiceView::Reject,
{
}

/// A URL that parses and holds `https://` exactly once goes to its site's
/// handling whatever its path: an Artgrid URL is run, an Artlist or Envato
/// URL is answered with its site, and any other host is turned away.
pub proof fn law_known_sites_are_handled(s: Seq<char>, host: Option<Seq<char>>)
    requires
        count_matches(s, https_scheme()) == 1,
    ensures
        host == Some("artgrid.io"@) ==> site_choice(Some((s, host))) == SiteChoiceView::RunArtgrid,
        host == Some("artlist.io"@) ==> site_choice(Some((s, host))) == SiteChoiceView::Answer(
            "ChooseDomain::Artlist"@,
        ),
        host == Some("elements.envato.com"@) ==> site_choice(Some((s, host)))
            == SiteChoiceView::Answer("ChooseDomain::Envato"@),
        host != Some("artgrid.io"@) && host != Some("artlist.io"@) && host != Some(
            "elements.envato.com"@,
        ) ==> site_choice(Some((s, host))) == SiteChoiceView::Reject,
{
    reveal_strlit("artgrid.io");
    reveal_strlit("artlist.io");
    reveal_strlit("elements.envato.com");
    assert("artlist.io"@[3] != "artgrid.io"@[3]);
    assert("elements.envato.com"@.len() != "artgrid.io"@.len());
    assert("elements.envato.com"@.len() != "artlist.io"@.len());
}

} // verus!
