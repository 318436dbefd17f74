use vstd::prelude::*;

use crate::browser::{
    css, goto, load_env, typed_into, typing_after, views, xpath, ActionView, BrowserAction,
    LocatorView, Outcome, Runner, Step, StepView,
};
use crate::footage_url::{footage_name, get_footage_name};
use crate::text::{chars_of, contains, contains_chars};

verus! {

/// The CSS class list of the dialog that Artlist may open over its home page.
pub open spec fn popup_css() -> Seq<char> {
    ".flex.justify-center.items-center.disabled\\:cursor-not-allowed.disabled\\:text-primary.disabled\\:bg-gray-300.disabled\\:border-gray-300.transition-smooth.disabled\\:text-gray-300.bg-transparent.disabled\\:bg-transparent.text-gray-100.hover\\:text-white.underline.p-0.text-base.leading-5"@
}

/// Where the Artlist run starts: the home page, maximized, and a look for the
/// dialog.
pub open spec fn artlist_opening() -> Seq<ActionView> {
    seq![
        ActionView::Goto("https://artlist.io"@),
        ActionView::MaximizeWindow,
        ActionView::FindOptional(LocatorView::Css(popup_css()), 0),
    ]
}

/// Reading the text of the account area.
pub open spec fn artlist_account_check() -> Seq<ActionView> {
    seq![
        ActionView::Find(LocatorView::Css(".flex.items-center.px-4"@), 1),
        ActionView::ReadText(1),
    ]
}

/// What follows the look for the dialog: closing it when it is there, then
/// reading the account area.
pub open spec fn artlist_after_popup(popup_found: bool) -> Seq<ActionView> {
    if popup_found {
        seq![ActionView::Click(0)] + artlist_account_check()
    } else {
        artlist_account_check()
    }
}

/// Signing in to Artlist with the credentials from the environment.
pub open spec fn artlist_login() -> Seq<ActionView> {
    seq![
        ActionView::Find(LocatorView::XPath("//div[3]/div/div/div"@), 2),
        ActionView::Click(2),
        ActionView::Sleep(2),
        ActionView::Find(LocatorView::XPath("//input[@type='email']"@), 3),
        ActionView::Find(LocatorView::XPath("//input[@type='password']"@), 4),
        ActionView::LoadEnv("ARTLIST_EMAIL"@, "login env should be loaded"@, 0),
        ActionView::SendKeys(3, 0),
        ActionView::LoadEnv("ARTLIST_PASSWORD"@, "password env should be loaded"@, 1),
        ActionView::SendKeys(4, 1),
        ActionView::Sleep(2),
        ActionView::Find(LocatorView::XPath("//button[@type='submit']"@), 5),
        ActionView::Click(5),
        ActionView::Sleep(2),
    ]
}

/// Opening the track and downloading it as WAV.
pub open spec fn artlist_download(url: Seq<char>) -> Seq<ActionView> {
    seq![
        ActionView::Goto(url),
        ActionView::Sleep(3),
        ActionView::Find(
            LocatorView::XPath(
                "//div[@id='song-page-react']/div/div[3]/div/div/div/div/div/div/div/div/button"@,
            ),
            6,
        ),
        ActionView::Click(6),
        ActionView::Sleep(1),
        ActionView::Find(LocatorView::XPath("//button[contains(.,'WAV')]"@), 7),
        ActionView::Click(7),
    ]
}

/// The words that show that nobody is signed in.
pub open spec fn sign_in_words() -> Seq<char> {
    seq!['S', 'i', 'g', 'n', ' ', 'i', 'n']
}

/// True when the account area's text asks to sign in.
pub open spec fn asks_to_sign_in(outcome: Outcome) -> bool {
    outcome matches Outcome::Text(t) && contains(t@, sign_in_words())
}

/// What follows the account check: signing in first when the text asks for
/// it, then the download.
pub open spec fn artlist_after_check(url: Seq<char>, signed_out: bool) -> Seq<ActionView> {
    if signed_out {
        artlist_login() + artlist_download(url)
    } else {
        artlist_download(url)
    }
}

/// The opening actions.
fn opening_actions() -> (v: Vec<BrowserAction>)
    ensures
        views(v@) == artlist_opening(),
{
    let mut v: Vec<BrowserAction> = Vec::new();
    v.push(goto("https://artlist.io"));
    v.push(BrowserAction::MaximizeWindow);
    v.push(
        BrowserAction::FindOptional(
            css(
                ".flex.justify-center.items-center.disabled\\:cursor-not-allowed.disabled\\:text-primary.disabled\\:bg-gray-300.disabled\\:border-gray-300.transition-smooth.disabled\\:text-gray-300.bg-transparent.disabled\\:bg-transparent.text-gray-100.hover\\:text-white.underline.p-0.text-base.leading-5",
            ),
            0,
        ),
    );
    assert(views(v@) =~= artlist_opening());
    v
}

/// The actions after the look for the dialog.
pub fn after_popup_actions(popup_found: bool) -> (v: Vec<BrowserAction>)
    ensures
        views(v@) == artlist_after_popup(popup_found),
{
    let mut v: Vec<BrowserAction> = Vec::new();
    if popup_found {
        v.push(BrowserAction::Click(0));
    }
    v.push(BrowserAction::Find(css(".flex.items-center.px-4"), 1));
    v.push(BrowserAction::ReadText(1));
    assert(views(v@) =~= artlist_after_popup(popup_found));
    v
}

/// The actions after the account check.
pub fn after_check_actions(url: &str, signed_out: bool) -> (v: Vec<BrowserAction>)
    ensures
        views(v@) == artlist_after_check(url@, signed_out),
{
    let mut v: Vec<BrowserAction> = Vec::new();
    if signed_out {
        v.push(BrowserAction::Find(xpath("//div[3]/div/div/div"), 2));
        v.push(BrowserAction::Click(2));
        v.push(BrowserAction::Sleep(2));
        v.push(BrowserAction::Find(xpath("//input[@type='email']"), 3));
        v.push(BrowserAction::Find(xpath("//input[@type='password']"), 4));
        v.push(load_env("ARTLIST_EMAIL", "login env should be loaded", 0));
        v.push(BrowserAction::SendKeys(3, 0));
        v.push(load_env("ARTLIST_PASSWORD", "password env should be loaded", 1));
        v.push(BrowserAction::SendKeys(4, 1));
        v.push(BrowserAction::Sleep(2));
        v.push(BrowserAction::Find(xpath("//button[@type='submit']"), 5));
        v.push(BrowserAction::Click(5));
        v.push(BrowserAction::Sleep(2));
    }
    v.push(goto(url));
    v.push(BrowserAction::Sleep(3));
    v.push(
        BrowserAction::Find(
            xpath("//div[@id='song-page-react']/div/div[3]/div/div/div/div/div/div/div/div/button"),
            6,
        ),
    );
    v.push(BrowserAction::Click(6));
    v.push(BrowserAction::Sleep(1));
    v.push(BrowserAction::Find(xpath("//button[contains(.,'WAV')]"), 7));
    v.push(BrowserAction::Click(7));
    assert(views(v@) =~= artlist_after_check(url@, signed_out));
    v
}

/// Whether the account area's text asks to sign in.
pub fn text_asks_to_sign_in(outcome: &Outcome) -> (r: bool)
    ensures
        r == asks_to_sign_in(*outcome),
{
    match outcome {
        Outcome::Text(t) => {
            let words = vec!['S', 'i', 'g', 'n', ' ', 'i', 'n'];
            assert(words@ =~= sign_in_words());
            contains_chars(&chars_of(t.as_str()), &words)
        },
        _ => false,
    }
}

/// Where an Artlist run stands.
#[derive(Debug, Clone, Copy, PartialEq, Eq, Structural)]
pub enum ArtlistStage {
    /// Opening the site and looking for the dialog.
    Opening,
    /// Closing the dialog and reading the account area.
    AccountCheck,
    /// Signing in where needed, and downloading.
    Download,
    /// The run has ended.
    Over,
}

/// The Artlist download run for one track URL, one browser action at a time:
/// the caller carries out each action it is given and reports the outcome,
/// until the run succeeds with the file name of the track or fails with the
/// error of the last action.
pub struct ArtlistRun {
    url: String,
    stage: ArtlistStage,
    runner: Runner,
}

impl ArtlistRun {
    /// The URL of the track.
    pub closed spec fn url_view(&self) -> Seq<char> {
        self.url@
    }

    /// Where the run stands.
    pub closed spec fn stage(&self) -> ArtlistStage {
        self.stage
    }

    /// The actions of the current stage.
    pub closed spec fn actions(&self) -> Seq<ActionView> {
        self.runner@.actions
    }

    /// How many actions of the current stage were handed out.
    pub closed spec fn handed_out(&self) -> nat {
        self.runner@.next
    }

    /// True when the run is sound: the stage's actions are the ones the run
    /// prescribes, and at least one of them was handed out.
    pub closed spec fn wf(&self) -> bool {
        &&& self.runner.wf()
        &&& 1 <= self.runner@.next
        &&& self.stage == ArtlistStage::Opening ==> self.runner@.actions == artlist_opening()
        &&& self.stage == ArtlistStage::AccountCheck ==> (self.runner@.actions
            == artlist_after_popup(true) || self.runner@.actions == artlist_after_popup(false))
        &&& self.stage == ArtlistStage::Download ==> (self.runner@.actions == artlist_after_check(
            self.url@,
            true,
        ) || self.runner@.actions == artlist_after_check(self.url@, false))
    }

    /// Starts a run for `user_url`; the first step opens the home page.
    pub fn start(user_url: &str) -> (r: (ArtlistRun, Step))
        ensures
            r.0.wf(),
            r.0.url_view() == user_url@,
            r.0.stage() == ArtlistStage::Opening,
            r.0.handed_out() == 1,
            r.1@ == StepView::Perform(artlist_opening()[0]),
    {
        let mut runner = Runner::new(opening_actions());
        let first = runner.next_action();
        (
            ArtlistRun { url: user_url.to_owned(), stage: ArtlistStage::Opening, runner },
            Step::Perform(first),
        )
    }

    /// The next step, given the outcome of the last action: a failure ends
    /// the run with that action's error; otherwise the stage's next action
    /// follows. The dialog is closed when it was found; the run signs in
    /// first when the account area asks to sign in. After the last action
    /// the run succeeds with the file name of the track.
    pub fn step(&mut self, outcome: Outcome) -> (r: Step)
        requires
            old(self).wf(),
            old(self).stage() != ArtlistStage::Over,
        ensures
            final(self).wf(),
            final(self).url_view() == old(self).url_view(),
            match outcome {
                Outcome::Failed => r@ == StepView::FailWithLastError && final(self).stage()
                    == ArtlistStage::Over,
                _ => if old(self).handed_out() < old(self).actions().len() {
                    &&& r@ == StepView::Perform(old(self).actions()[old(self).handed_out() as int])
                    &&& final(self).stage() == old(self).stage()
                    &&& final(self).actions() == old(self).actions()
                    &&& final(self).handed_out() == old(self).handed_out() + 1
                } else if old(self).stage() == ArtlistStage::Opening {
                    &&& final(self).stage() == ArtlistStage::AccountCheck
                    &&& final(self).actions() == artlist_after_popup(outcome is Found)
                    &&& final(self).handed_out() == 1
                    &&& r@ == StepView::Perform(final(self).actions()[0])
                } else if old(self).stage() == ArtlistStage::AccountCheck {
                    &&& final(self).stage() == ArtlistStage::Download
                    &&& final(self).actions() == artlist_after_check(
                        old(self).url_view(),
                        asks_to_sign_in(outcome),
                    )
                    &&& final(self).handed_out() == 1
                    &&& r@ == StepView::Perform(final(self).actions()[0])
                } else {
                    &&& final(self).stage() == ArtlistStage::Over
                    &&& r@ == StepView::Succeed(footage_name(old(self).url_view()))
                },
            },
    {
        if let Outcome::Failed = outcome {
            self.stage = ArtlistStage::Over;
            return Step::FailWithLastError;
        }
        if !self.runner.is_done() {
            Step::Perform(self.runner.next_action())
        } else if self.stage == ArtlistStage::Opening {
            let found = match outcome {
                Outcome::Found => true,
                _ => false,
            };
            let mut runner = Runner::new(after_popup_actions(found));
            let first = runner.next_action();
            self.runner = runner;
            self.stage = ArtlistStage::AccountCheck;
            Step::Perform(first)
        } else if self.stage == ArtlistStage::AccountCheck {
            let signed_out = text_asks_to_sign_in(&outcome);
            let mut runner = Runner::new(after_check_actions(self.url.as_str(), signed_out));
            let first = runner.next_action();
            self.runner = runner;
            self.stage = ArtlistStage::Download;
            Step::Perform(first)
        } else {
            self.stage = ArtlistStage::Over;
            Step::Succeed(get_footage_name(self.url.as_str()))
        }
    }
}

/// The credentials are read only when the account area asks to sign in, and
/// the download that follows is the same either way.
pub proof fn law_artlist_signs_in_only_when_asked(url: Seq<char>)
    ensures
        artlist_after_check(url, true) == artlist_login() + artlist_after_check(url, false),
        forall|i: int|
            0 <= i < artlist_after_check(url, false).len() ==> !(#[trigger] artlist_after_check(
                url,
                false,
            )[i] is LoadEnv),
{
}

/// The dialog is clicked away exactly when it was found, and the account
/// area is read either way.
pub proof fn law_popup_closed_only_when_found(found: bool)
    ensures
        (artlist_after_popup(found)[0] == ActionView::Click(0)) <==> found,
        artlist_after_popup(found).last() == ActionView::ReadText(1),
{
}

/// Signing in types the value of `ARTLIST_EMAIL` into the email input and
/// that of `ARTLIST_PASSWORD` into the password input, and nothing else; a
/// browser that is signed in has nothing typed at all.
pub proof fn law_artlist_credentials_go_to_their_fields(url: Seq<char>)
    ensures
        typed_into(artlist_after_check(url, true)) == map![
            LocatorView::XPath("//input[@type='email']"@) => "ARTLIST_EMAIL"@,
            LocatorView::XPath("//input[@type='password']"@) => "ARTLIST_PASSWORD"@,
        ],
        typed_into(artlist_after_check(url, false)) == Map::<LocatorView, Seq<char>>::empty(),
{
    reveal_with_fuel(typing_after, 21);
    let p = artlist_after_check(url, true);
    assert(p.len() == 20);
    let q = artlist_after_check(url, false);
    assert(q.len() == 7);
}

} // verus!
