use footager::artgrid::ArtgridRun;
use footager::artlist::ArtlistRun;
use footager::browser::{BrowserAction, Locator, Outcome, Step};
use footager::site_dispatch::{choose_site, choose_url_site, run_site_instance, SiteChoice};
use footager::user::FootageUserRequest;

const CLIP: &str = "https://artgrid.io/clip/302105/boat-river-buildings-clouds";

fn action(step: &Step) -> BrowserAction {
    match step {
        Step::Perform(a) => a.clone(),
        other => panic!("expected an action, got {:?}", other),
    }
}

/// Runs an Artgrid run to its end, answering `Found` or `Missing` to the
/// probe and `Done` to everything else; gives the actions and the last step.
fn run_artgrid(signed_in: bool) -> (Vec<BrowserAction>, Step) {
    let (mut run, mut step) = ArtgridRun::start(CLIP);
    let mut actions = Vec::new();
    loop {
        match &step {
            Step::Perform(a) => {
                actions.push(a.clone());
                let outcome = match a {
                    BrowserAction::FindOptional(..) => {
                        if signed_in {
                            Outcome::Found
                        } else {
                            Outcome::Missing
                        }
                    }
                    _ => Outcome::Done,
                };
                step = run.step(outcome);
            }
            _ => return (actions, step),
        }
    }
}

#[test]
fn artgrid_run_signed_in() {
    let (actions, last) = run_artgrid(true);
    assert_eq!(actions[0], BrowserAction::Goto("https://artgrid.io".to_string()));
    assert_eq!(actions[1], BrowserAction::MaximizeWindow);
    assert_eq!(actions[2], BrowserAction::FindOptional(Locator::Css("art-user".to_string()), 0));
    assert_eq!(actions[3], BrowserAction::Goto(CLIP.to_string()));
    assert_eq!(actions.len(), 3 + 22);
    assert!(!actions.iter().any(|a| matches!(a, BrowserAction::LoadEnv(..))));
    assert_eq!(
        actions[3 + 19],
        BrowserAction::Find(
            Locator::XPath("//a[@href='/clip/302105/boat-river-buildings-clouds']".to_string()),
            8
        )
    );
    assert_eq!(actions.last().unwrap(), &BrowserAction::RunDownloadScript(8));
    assert_eq!(last, Step::Succeed("302105".to_string()));
}

#[test]
fn artgrid_run_signs_in_when_needed() {
    let (actions, last) = run_artgrid(false);
    assert_eq!(actions.len(), 3 + 12 + 22);
    assert_eq!(actions[3], BrowserAction::Goto("https://artgrid.io/signin".to_string()));
    assert_eq!(
        actions[7],
        BrowserAction::LoadEnv(
            "ARTGRID_EMAIL".to_string(),
            "Can`t load .env variable for login".to_string(),
            0
        )
    );
    assert_eq!(actions[3 + 12], BrowserAction::Goto(CLIP.to_string()));
    assert_eq!(last, Step::Succeed("302105".to_string()));
}

#[test]
fn artgrid_run_stops_at_failure() {
    let (mut run, first) = ArtgridRun::start(CLIP);
    assert_eq!(action(&first), BrowserAction::Goto("https://artgrid.io".to_string()));
    assert_eq!(action(&run.step(Outcome::Done)), BrowserAction::MaximizeWindow);
    assert_eq!(run.step(Outcome::Failed), Step::FailWithLastError);
}

#[test]
fn artgrid_run_aborts_on_short_url() {
    let (mut run, mut step) = ArtgridRun::start("x/y");
    let mut last_action = None;
    while let Step::Perform(a) = &step {
        last_action = Some(a.clone());
        if let BrowserAction::Abort(_) = a {
            break;
        }
        let outcome = match a {
            BrowserAction::FindOptional(..) => Outcome::Found,
            _ => Outcome::Done,
        };
        step = run.step(outcome);
    }
    assert_eq!(
        last_action,
        Some(BrowserAction::Abort("the URL ends before the collection link".to_string()))
    );
}

/// Runs an Artlist run to its end with the given answers to the dialog look
/// and the account text.
fn run_artlist(url: &str, popup: bool, text: &str) -> (Vec<BrowserAction>, Step) {
    let (mut run, mut step) = ArtlistRun::start(url);
    let mut actions = Vec::new();
    loop {
        match &step {
            Step::Perform(a) => {
                actions.push(a.clone());
                let outcome = match a {
                    BrowserAction::FindOptional(..) => {
                        if popup {
                            Outcome::Found
                        } else {
                            Outcome::Missing
                        }
                    }
                    BrowserAction::ReadText(_) => Outcome::Text(text.to_string()),
                    _ => Outcome::Done,
                };
                step = run.step(outcome);
            }
            _ => return (actions, step),
        }
    }
}

#[test]
fn artlist_run_signed_in_without_popup() {
    let url = "https://artlist.io/royalty-free-music/song/morning-has-come/127054";
    let (actions, last) = run_artlist(url, false, "My account");
    assert_eq!(actions.len(), 3 + 2 + 7);
    assert_eq!(actions[3], BrowserAction::Find(Locator::Css(".flex.items-center.px-4".to_string()), 1));
    assert_eq!(actions[4], BrowserAction::ReadText(1));
    assert_eq!(actions[5], BrowserAction::Goto(url.to_string()));
    assert_eq!(last, Step::Succeed("morning has come".to_string()));
}

#[test]
fn artlist_run_closes_popup_and_signs_in() {
    let url = "https://artlist.io/sfx/track/bora-wind---forest-strong-wind-dead-leaves-rustling/54298";
    let (actions, last) = run_artlist(url, true, "Sign in or Sign up");
    assert_eq!(actions.len(), 3 + 3 + 13 + 7);
    assert_eq!(actions[3], BrowserAction::Click(0));
    assert_eq!(actions[6], BrowserAction::Find(Locator::XPath("//div[3]/div/div/div".to_string()), 2));
    assert_eq!(
        last,
        Step::Succeed("bora wind - forest strong wind dead leaves rustling".to_string())
    );
}

#[test]
fn artlist_run_failure() {
    let (mut run, _) = ArtlistRun::start("https://artlist.io/song/a/1");
    assert_eq!(run.step(Outcome::Failed), Step::FailWithLastError);
}

#[test]
fn site_choice_for_urls() {
    assert_eq!(choose_url_site(CLIP), SiteChoice::RunArtgrid);
    assert_eq!(
        choose_url_site("https://artlist.io/royalty-free-music/song/hero/114919"),
        SiteChoice::Answer("ChooseDomain::Artlist".to_string())
    );
    assert_eq!(
        choose_url_site("https://elements.envato.com/x"),
        SiteChoice::Answer("ChooseDomain::Envato".to_string())
    );
    assert_eq!(choose_url_site("https://example.com/x"), SiteChoice::Reject);
    assert_eq!(choose_url_site("not a url"), SiteChoice::Reject);
    assert_eq!(choose_url_site("http://artgrid.io/clip/1/x"), SiteChoice::Reject);
    assert_eq!(
        choose_url_site("https://artgrid.io/https://artgrid.io/clip/1/x"),
        SiteChoice::Reject
    );
}

#[test]
fn site_choice_for_given_parse() {
    assert_eq!(choose_site(None), SiteChoice::Reject);
    assert_eq!(
        choose_site(Some(("https://artgrid.io/".to_string(), Some("artgrid.io".to_string())))),
        SiteChoice::RunArtgrid
    );
    assert_eq!(
        choose_site(Some(("https://artgrid.io/".to_string(), None))),
        SiteChoice::Reject
    );
    assert_eq!(
        choose_site(Some(("ftp://artgrid.io/".to_string(), Some("artgrid.io".to_string())))),
        SiteChoice::Reject
    );
}

#[test]
fn site_dispatch_needs_driver() {
    let req = FootageUserRequest::new("user".to_string(), CLIP.to_string());
    assert_eq!(run_site_instance(false, &req), None);
    assert_eq!(run_site_instance(true, &req), Some(SiteChoice::RunArtgrid));
}
