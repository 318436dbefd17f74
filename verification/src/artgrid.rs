use vstd::prelude::*;

use crate::browser::{
    css, goto, id, load_env, typed_into, typing_after, views, xpath, ActionView, BrowserAction,
    LocatorView, Outcome, Runner, Step, StepView,
};
use crate::footage_url::{footage_id, get_footage_id, href_offset_ok, href_value, href_value_checked};

verus! {

/// Where the Artgrid run starts: the home page, maximized, and a look for the
/// signed-in user's button.
pub open spec fn artgrid_opening() -> Seq<ActionView> {
    seq![
        ActionView::Goto("https://artgrid.io"@),
        ActionView::MaximizeWindow,
        ActionView::FindOptional(LocatorView::Css("art-user"@), 0),
    ]
}

/// Signing in to Artgrid with the credentials from the environment.
pub open spec fn artgrid_login() -> Seq<ActionView> {
    seq![
        ActionView::Goto("https://artgrid.io/signin"@),
        ActionView::Sleep(3),
        ActionView::Find(LocatorView::Id("mat-input-4"@), 1),
        ActionView::Find(LocatorView::Id("mat-input-5"@), 2),
        ActionView::LoadEnv("ARTGRID_EMAIL"@, "Can`t load .env variable for login"@, 0),
        ActionView::LoadEnv("ARTGRID_PASSWD"@, "Can`t load .env variable for password"@, 1),
        ActionView::SendKeys(1, 0),
        ActionView::SendKeys(2, 1),
        ActionView::Sleep(2),
        ActionView::Find(
            LocatorView::XPath(
                "//mat-dialog-container[@id='LoginDialog']/art-login/div/div/div[2]/div/form/div[2]/art-spinner-button/div/button"@,
            ),
            3,
        ),
        ActionView::Click(3),
        ActionView::Sleep(4),
    ]
}

/// The message with which a run stops when the collection link of a URL
/// cannot be taken.
pub open spec fn short_url_message() -> Seq<char> {
    "the URL ends before the collection link"@
}

/// Finding the footage in the user's collection by the link of the URL.
pub open spec fn artgrid_collection_lookup(url: Seq<char>) -> ActionView {
    if href_offset_ok(url) {
        ActionView::Find(LocatorView::XPath(href_value(url)), 8)
    } else {
        ActionView::Abort(short_url_message())
    }
}

/// Buying the footage of the URL and downloading it from the collection.
pub open spec fn artgrid_download(url: Seq<char>) -> Seq<ActionView> {
    seq![
        ActionView::Goto(url),
        ActionView::Sleep(2),
        ActionView::Find(LocatorView::Id("main-logo-mobile"@), 4),
        ActionView::Click(4),
        ActionView::Back,
        ActionView::Sleep(2),
        ActionView::Find(LocatorView::Css(".art-main-btn-t1.lg"@), 5),
        ActionView::Click(5),
        ActionView::Sleep(2),
        ActionView::Goto("https://artgrid.io/my-cart"@),
        ActionView::Sleep(2),
        ActionView::Find(
            LocatorView::XPath(
                "/html/body/div[5]/div[2]/div/mat-dialog-container/art-my-cart/div/div/div[2]/button"@,
            ),
            6,
        ),
        ActionView::HoverAndPause(6),
        ActionView::Click(6),
        ActionView::ReleaseActions,
        ActionView::Sleep(2),
        ActionView::Find(LocatorView::XPath("//button[@class='art-user']"@), 7),
        ActionView::Click(7),
        ActionView::Sleep(2),
        artgrid_collection_lookup(url),
        ActionView::PrintHref(8),
        ActionView::RunDownloadScript(8),
    ]
}

/// What follows the look for the user's button: signing in first when it was
/// not found, then the download.
pub open spec fn artgrid_after_probe(url: Seq<char>, signed_in: bool) -> Seq<ActionView> {
    if signed_in {
        artgrid_download(url)
    } else {
        artgrid_login() + artgrid_download(url)
    }
}

/// The opening actions.
fn opening_actions() -> (v: Vec<BrowserAction>)
    ensures
        views(v@) == artgrid_opening(),
{
    let mut v: Vec<BrowserAction> = Vec::new();
    v.push(goto("https://artgrid.io"));
    v.push(BrowserAction::MaximizeWindow);
    v.push(BrowserAction::FindOptional(css("art-user"), 0));
    assert(views(v@) =~= artgrid_opening());
    v
}

/// The sign-in actions, appended to `v`.
fn push_login_actions(v: &mut Vec<BrowserAction>)
    ensures
        views(final(v)@) == views(old(v)@) + artgrid_login(),
{
    let ghost start = views(v@);
    v.push(goto("https://artgrid.io/signin"));
    v.push(BrowserAction::Sleep(3));
    v.push(BrowserAction::Find(id("mat-input-4"), 1));
    v.push(BrowserAction::Find(id("mat-input-5"), 2));
    v.push(load_env("ARTGRID_EMAIL", "Can`t load .env variable for login", 0));
    v.push(load_env("ARTGRID_PASSWD", "Can`t load .env variable for password", 1));
    v.push(BrowserAction::SendKeys(1, 0));
    v.push(BrowserAction::SendKeys(2, 1));
    v.push(BrowserAction::Sleep(2));
    v.push(
        BrowserAction::Find(
            xpath(
                "//mat-dialog-container[@id='LoginDialog']/art-login/div/div/div[2]/div/form/div[2]/art-spinner-button/div/button",
            ),
            3,
        ),
    );
    v.push(BrowserAction::Click(3));
    v.push(BrowserAction::Sleep(4));
    assert(views(v@) =~= start + artgrid_login());
}

/// The download actions, appended to `v`.
fn push_download_actions(v: &mut Vec<BrowserAction>, url: &str)
    ensures
        views(final(v)@) == views(old(v)@) + artgrid_download(url@),
{
    let ghost start = views(v@);
    v.push(goto(url));
    v.push(BrowserAction::Sleep(2));
    v.push(BrowserAction::Find(id("main-logo-mobile"), 4));
    v.push(BrowserAction::Click(4));
    v.push(BrowserAction::Back);
    v.push(BrowserAction::Sleep(2));
    v.push(BrowserAction::Find(css(".art-main-btn-t1.lg"), 5));
    v.push(BrowserAction::Click(5));
    v.push(BrowserAction::Sleep(2));
    v.push(goto("https://artgrid.io/my-cart"));
    v.push(BrowserAction::Sleep(2));
    v.push(
        BrowserAction::Find(
            xpath(
                "/html/body/div[5]/div[2]/div/mat-dialog-container/art-my-cart/div/div/div[2]/button",
            ),
            6,
        ),
    );
    v.push(BrowserAction::HoverAndPause(6));
    v.push(BrowserAction::Click(6));
    v.push(BrowserAction::ReleaseActions);
    v.push(BrowserAction::Sleep(2));
    v.push(BrowserAction::Find(xpath("//button[@class='art-user']"), 7));
    v.push(BrowserAction::Click(7));
    v.push(BrowserAction::Sleep(2));
    match href_value_checked(url) {
        Some(href) => v.push(BrowserAction::Find(crate::browser::Locator::XPath(href), 8)),
        None => v.push(BrowserAction::Abort("the URL ends before the collection link".to_owned())),
    }
    v.push(BrowserAction::PrintHref(8));
    v.push(BrowserAction::RunDownloadScript(8));
    assert(views(v@) =~= start + artgrid_download(url@));
}

/// The actions after the look for the user's button.
pub fn after_probe_actions(url: &str, signed_in: bool) -> (v: Vec<BrowserAction>)
    ensures
        views(v@) == artgrid_after_probe(url@, signed_in),
{
    let mut v: Vec<BrowserAction> = Vec::new();
    if !signed_in {
        push_login_actions(&mut v);
    }
    push_download_actions(&mut v, url);
    assert(views(v@) =~= artgrid_after_probe(url@, signed_in));
    v
}

/// Where an Artgrid run stands.
#[derive(Debug, Clone, Copy, PartialEq, Eq, Structural)]
pub enum Stage {
    /// Opening the site and looking for the signed-in user.
    Opening,
    /// Signing in where needed, buying and downloading.
    Download,
    /// The run has ended.
    Over,
}

/// The Artgrid download run for one footage URL, one browser action at a
/// time: the caller carries out each action it is given and reports the
/// outcome, until the run succeeds with the footage id or fails with the
/// error of the last action.
pub struct ArtgridRun {
    url: String,
    stage: Stage,
    runner: Runner,
}

impl ArtgridRun {
    /// The URL of the footage.
    pub closed spec fn url_view(&self) -> Seq<char> {
        self.url@
    }

    /// Where the run stands.
    pub closed spec fn stage(&self) -> Stage {
        self.stage
    }

    /// The actions of the current stage.
    pub closed spec fn actions(&self) -> Seq<ActionView> {
        self.runner@.actions
    }

    /// How many actions of the current stage were handed out.
    pub closed spec fn handed_out(&self) -> nat {
        self.runner@.next
    }

    /// True when the run is sound: the stage's actions are the ones the run
    /// prescribes, and at least one of them was handed out.
    pub closed spec fn wf(&self) -> bool {
        &&& self.runner.wf()
        &&& 1 <= self.runner@.next
        &&& self.stage == Stage::Opening ==> self.runner@.actions == artgrid_opening()
        &&& self.stage == Stage::Download ==> (self.runner@.actions == artgrid_after_probe(
            self.url@,
            true,
        ) || self.runner@.actions == artgrid_after_probe(self.url@, false))
    }

    /// Starts a run for `user_url`; the first step opens the home page.
    pub fn start(user_url: &str) -> (r: (ArtgridRun, Step))
        ensures
            r.0.wf(),
            r.0.url_view() == user_url@,
            r.0.stage() == Stage::Opening,
            r.0.handed_out() == 1,
            r.1@ == StepView::Perform(artgrid_opening()[0]),
    {
        let mut runner = Runner::new(opening_actions());
        let first = runner.next_action();
        (ArtgridRun { url: user_url.to_owned(), stage: Stage::Opening, runner }, Step::Perform(first))
    }

    /// The next step, given the outcome of the last action: a failure ends
    /// the run with that action's error; otherwise the stage's next action
    /// follows. After the look for the user's button, the run signs in first
    /// unless the button was found. After the last action the run succeeds
    /// with the footage id of the URL.
    pub fn step(&mut self, outcome: Outcome) -> (r: Step)
        requires
            old(self).wf(),
            old(self).stage() != Stage::Over,
        ensures
            final(self).wf(),
            final(self).url_view() == old(self).url_view(),
            match outcome {
                Outcome::Failed => r@ == StepView::FailWithLastError && final(self).stage()
                    == Stage::Over,
                _ => if old(self).handed_out() < old(self).actions().len() {
                    &&& r@ == StepView::Perform(old(self).actions()[old(self).handed_out() as int])
                    &&& final(self).stage() == old(self).stage()
                    &&& final(self).actions() == old(self).actions()
                    &&& final(self).handed_out() == old(self).handed_out() + 1
                } else if old(self).stage() == Stage::Opening {
                    &&& final(self).stage() == Stage::Download
                    &&& final(self).actions() == artgrid_after_probe(
                        old(self).url_view(),
                        outcome is Found,
                    )
                    &&& final(self).handed_out() == 1
                    &&& r@ == StepView::Perform(final(self).actions()[0])
                } else {
                    &&& final(self).stage() == Stage::Over
                    &&& r@ == StepView::Succeed(footage_id(old(self).url_view()))
                },
            },
    {
        match outcome {
            Outcome::Failed => {
                self.stage = Stage::Over;
                Step::FailWithLastError
            },
            _ => {
                if !self.runner.is_done() {
                    Step::Perform(self.runner.next_action())
                } else if self.stage == Stage::Opening {
                    let signed_in = match outcome {
                        Outcome::Found => true,
                        _ => false,
                    };
                    let actions = after_probe_actions(self.url.as_str(), signed_in);
                    assert(views(actions@).len() > 0);
                    let mut runner = Runner::new(actions);
                    let first = runner.next_action();
                    self.runner = runner;
                    self.stage = Stage::Download;
                    Step::Perform(first)
                } else {
                    self.stage = Stage::Over;
                    Step::Succeed(get_footage_id(self.url.as_str()))
                }
            },
        }
    }
}

/// The text of the collection download script.
pub open spec fn download_script_text() -> Seq<char> {
    r#"
        const hrefValue = arguments[1];
        let done = arguments[arguments.length - 1];

        // The target anchor selector might need adjustments
        const anchor = document.querySelector(`a[href*="${hrefValue}"]`);
        let hover;
        if (anchor) {
            // Trigger the download by hover and a click
            hover = anchor.parentNode.parentNode.parentNode;
            console.log(hover);
            hover.dispatchEvent(new MouseEvent('mouseenter', { 'bubbles': true }));
            let download = document.getElementsByClassName('art-download-to-action__link')[0];
            console.log("Hidden download button:", download);
            download.click();
            done(true); // Notify Selenium that the operation is successful
        } else {
            done(false); // Notify Selenium that the operation failed - anchor not found
        }
    "#@
}

/// The script that the browser runs on the collection page: it hovers the
/// footage whose link it is given and clicks the hidden download button.
pub fn collection_download_script() -> (s: &'static str)
    ensures
        s@ == download_script_text(),
{
    r#"
        const hrefValue = arguments[1];
        let done = arguments[arguments.length - 1];

        // The target anchor selector might need adjustments
        const anchor = document.querySelector(`a[href*="${hrefValue}"]`);
        let hover;
        if (anchor) {
            // Trigger the download by hover and a click
            hover = anchor.parentNode.parentNode.parentNode;
            console.log(hover);
            hover.dispatchEvent(new MouseEvent('mouseenter', { 'bubbles': true }));
            let download = document.getElementsByClassName('art-download-to-action__link')[0];
            console.log("Hidden download button:", download);
            download.click();
            done(true); // Notify Selenium that the operation is successful
        } else {
            done(false); // Notify Selenium that the operation failed - anchor not found
        }
    "#
}

/// The credentials are read only when the browser is not signed in: the run
/// that found the user's button reads no environment variable, and the one
/// that did not signs in first and then does the same as the other.
pub proof fn law_signs_in_only_when_signed_out(url: Seq<char>)
    ensures
        artgrid_after_probe(url, false) == artgrid_login() + artgrid_after_probe(url, true),
        forall|i: int|
            0 <= i < artgrid_after_probe(url, true).len() ==> !(#[trigger] artgrid_after_probe(
                url,
                true,
            )[i] is LoadEnv),
        artgrid_after_probe(url, false)[4] is LoadEnv,
{
    let d = artgrid_download(url);
    assert forall|i: int| 0 <= i < d.len() implies !(#[trigger] d[i] is LoadEnv) by {
        if i == 19 {
            assert(d[19] == artgrid_collection_lookup(url));
        }
    }
}

/// The download goes to the user's URL, and the footage is looked up in the
/// collection by that URL's link, or the run stops where the link cannot be
/// taken.
pub proof fn law_download_follows_the_url(url: Seq<char>, signed_in: bool)
    ensures
        artgrid_download(url)[0] == ActionView::Goto(url),
        href_offset_ok(url) ==> artgrid_download(url)[19] == ActionView::Find(
            LocatorView::XPath(href_value(url)),
            8,
        ),
        !href_offset_ok(url) ==> artgrid_download(url)[19] == ActionView::Abort(
            short_url_message(),
        ),
{
}

/// Signing in types the value of `ARTGRID_EMAIL` into the input with id
/// `mat-input-4` and that of `ARTGRID_PASSWD` into `mat-input-5`, and nothing
/// else; a browser that is signed in has nothing typed at all.
pub proof fn law_artgrid_credentials_go_to_their_fields(url: Seq<char>)
    ensures
        typed_into(artgrid_after_probe(url, false)) == map![
            LocatorView::Id("mat-input-4"@) => "ARTGRID_EMAIL"@,
            LocatorView::Id("mat-input-5"@) => "ARTGRID_PASSWD"@,
        ],
        typed_into(artgrid_after_probe(url, true)) == Map::<LocatorView, Seq<char>>::empty(),
{
    reveal_with_fuel(typing_after, 35);
    let p = artgrid_after_probe(url, false);
    assert(p.len() == 34);
    let q = artgrid_after_probe(url, true);
    assert(q.len() == 22);
}

} // verus!
