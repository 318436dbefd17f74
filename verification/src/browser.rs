use vstd::prelude::*;

verus! {

/// How an element of a page is found.
#[derive(Debug, Clone, PartialEq, Eq)]
pub enum Locator {
    Css(String),
    Id(String),
    XPath(String),
}

/// A locator as plain values.
pub enum LocatorView {
    Css(Seq<char>),
    Id(Seq<char>),
    XPath(Seq<char>),
}

impl View for Locator {
    type V = LocatorView;

    open spec fn view(&self) -> LocatorView {
        match self {
            Locator::Css(s) => LocatorView::Css(s@),
            Locator::Id(s) => LocatorView::Id(s@),
            Locator::XPath(s) => LocatorView::XPath(s@),
        }
    }
}

/// One thing for the browser to do. Elements that are found are kept in
/// numbered slots, and values read from the environment in numbered keys.
#[derive(Debug, Clone, PartialEq, Eq)]
pub enum BrowserAction {
    /// Open a URL.
    Goto(String),
    /// Maximize the window.
    MaximizeWindow,
    /// Go back one page.
    Back,
    /// Wait this many seconds.
    Sleep(u64),
    /// Find an element and keep it in a slot; failing to find it fails the run.
    Find(Locator, usize),
    /// Look for an element and keep it in a slot if it is there; the answer
    /// is `Found` or `Missing`, never a failure.
    FindOptional(Locator, usize),
    /// Click the element in a slot.
    Click(usize),
    /// Read the text of the element in a slot; the answer is `Text`.
    ReadText(usize),
    /// Read an environment variable into a key; when it is not set, stop
    /// with the message.
    LoadEnv(String, String, usize),
    /// Type the value of a key into the element in a slot.
    SendKeys(usize, usize),
    /// Move the mouse onto the element in a slot and pause for a second.
    HoverAndPause(usize),
    /// Release the mouse actions.
    ReleaseActions,
    /// Print the `href` of the element in a slot.
    PrintHref(usize),
    /// Run the collection download script on the element in a slot.
    RunDownloadScript(usize),
    /// Stop the run with the message.
    Abort(String),
}

/// A browser action as plain values.
pub enum ActionView {
    Goto(Seq<char>),
    MaximizeWindow,
    Back,
    Sleep(u64),
    Find(LocatorView, usize),
    FindOptional(LocatorView, usize),
    Click(usize),
    ReadText(usize),
    LoadEnv(Seq<char>, Seq<char>, usize),
    SendKeys(usize, usize),
    HoverAndPause(usize),
    ReleaseActions,
    PrintHref(usize),
    RunDownloadScript(usize),
    Abort(Seq<char>),
}

impl View for BrowserAction {
    type V = ActionView;

    open spec fn view(&self) -> ActionView {
        match self {
            BrowserAction::Goto(s) => ActionView::Goto(s@),
            BrowserAction::MaximizeWindow => ActionView::MaximizeWindow,
            BrowserAction::Back => ActionView::Back,
            BrowserAction::Sleep(n) => ActionView::Sleep(*n),
            BrowserAction::Find(l, k) => ActionView::Find(l@, *k),
            BrowserAction::FindOptional(l, k) => ActionView::FindOptional(l@, *k),
            BrowserAction::Click(k) => ActionView::Click(*k),
            BrowserAction::ReadText(k) => ActionView::ReadText(*k),
            BrowserAction::LoadEnv(v, m, k) => ActionView::LoadEnv(v@, m@, *k),
            BrowserAction::SendKeys(e, k) => ActionView::SendKeys(*e, *k),
            BrowserAction::HoverAndPause(k) => ActionView::HoverAndPause(*k),
            BrowserAction::ReleaseActions => ActionView::ReleaseActions,
            BrowserAction::PrintHref(k) => ActionView::PrintHref(*k),
            BrowserAction::RunDownloadScript(k) => ActionView::RunDownloadScript(*k),
            BrowserAction::Abort(m) => ActionView::Abort(m@),
        }
    }
}

/// The views of a list of actions.
pub open spec fn views(v: Seq<BrowserAction>) -> Seq<ActionView> {
    v.map_values(|a: BrowserAction| a@)
}

/// What the first `n` actions of a plan have done with the environment's
/// values: the locator by which the element in each slot was found, the
/// environment variable read into each key, and, for each locator, the
/// variable whose value was last typed into the element found by it.
pub open spec fn typing_after(plan: Seq<ActionView>, n: nat) -> (
    Map<usize, LocatorView>,
    Map<usize, Seq<char>>,
    Map<LocatorView, Seq<char>>,
)
    decreases n,
{
    if n == 0 || n > plan.len() {
        (Map::empty(), Map::empty(), Map::empty())
    } else {
        let prev = typing_after(plan, (n - 1) as nat);
        match plan[n - 1] {
            ActionView::Find(l, e) => (prev.0.insert(e, l), prev.1, prev.2),
            ActionView::FindOptional(l, e) => (prev.0.insert(e, l), prev.1, prev.2),
            ActionView::LoadEnv(var, _, k) => (prev.0, prev.1.insert(k, var), prev.2),
            ActionView::SendKeys(e, k) => if prev.0.contains_key(e) && prev.1.contains_key(k) {
                (prev.0, prev.1, prev.2.insert(prev.0[e], prev.1[k]))
            } else {
                prev
            },
            _ => prev,
        }
    }
}

/// What a whole plan types: for each locator, the environment variable whose
/// value ends up typed into the element found by it.
pub open spec fn typed_into(plan: Seq<ActionView>) -> Map<LocatorView, Seq<char>> {
    typing_after(plan, plan.len()).2
}

/// What the browser answered to the last action.
#[derive(Debug, Clone, PartialEq, Eq)]
pub enum Outcome {
    /// The action was carried out.
    Done,
    /// An optional element was found.
    Found,
    /// An optional element was not there.
    Missing,
    /// The text that was read.
    Text(String),
    /// The action failed; the run ends with its error.
    Failed,
}

/// What a script asks for next.
#[derive(Debug, Clone, PartialEq, Eq)]
pub enum Step {
    /// Carry out this action and report the outcome.
    Perform(BrowserAction),
    /// The run succeeded with this result.
    Succeed(String),
    /// The run failed with the error of the last action.
    FailWithLastError,
}

/// A step as plain values.
pub enum StepView {
    Perform(ActionView),
    Succeed(Seq<char>),
    FailWithLastError,
}

impl View for Step {
    type V = StepView;

    open spec fn view(&self) -> StepView {
        match self {
            Step::Perform(a) => StepView::Perform(a@),
            Step::Succeed(s) => StepView::Succeed(s@),
            Step::FailWithLastError => StepView::FailWithLastError,
        }
    }
}

/// A CSS locator.
pub fn css(s: &str) -> (l: Locator)
    ensures
        l@ == LocatorView::Css(s@),
{
    Locator::Css(s.to_owned())
}

/// An id locator.
pub fn id(s: &str) -> (l: Locator)
    ensures
        l@ == LocatorView::Id(s@),
{
    Locator::Id(s.to_owned())
}

/// An XPath locator.
pub fn xpath(s: &str) -> (l: Locator)
    ensures
        l@ == LocatorView::XPath(s@),
{
    Locator::XPath(s.to_owned())
}

/// Opening a URL.
pub fn goto(s: &str) -> (a: BrowserAction)
    ensures
        a@ == ActionView::Goto(s@),
{
    BrowserAction::Goto(s.to_owned())
}

/// Reading an environment variable.
pub fn load_env(var: &str, missing: &str, key: usize) -> (a: BrowserAction)
    ensures
        a@ == ActionView::LoadEnv(var@, missing@, key),
{
    BrowserAction::LoadEnv(var.to_owned(), missing.to_owned(), key)
}

/// A copy of a locator.
pub fn copy_locator(l: &Locator) -> (c: Locator)
    ensures
        c@ == l@,
{
    match l {
        Locator::Css(s) => Locator::Css(s.clone()),
        Locator::Id(s) => Locator::Id(s.clone()),
        Locator::XPath(s) => Locator::XPath(s.clone()),
    }
}

/// A copy of an action.
pub fn copy_action(a: &BrowserAction) -> (c: BrowserAction)
    ensures
        c@ == a@,
{
    match a {
        BrowserAction::Goto(s) => BrowserAction::Goto(s.clone()),
        BrowserAction::MaximizeWindow => BrowserAction::MaximizeWindow,
        BrowserAction::Back => BrowserAction::Back,
        BrowserAction::Sleep(n) => BrowserAction::Sleep(*n),
        BrowserAction::Find(l, k) => BrowserAction::Find(copy_locator(l), *k),
        BrowserAction::FindOptional(l, k) => BrowserAction::FindOptional(copy_locator(l), *k),
        BrowserAction::Click(k) => BrowserAction::Click(*k),
        BrowserAction::ReadText(k) => BrowserAction::ReadText(*k),
        BrowserAction::LoadEnv(v, m, k) => BrowserAction::LoadEnv(v.clone(), m.clone(), *k),
        BrowserAction::SendKeys(e, k) => BrowserAction::SendKeys(*e, *k),
        BrowserAction::HoverAndPause(k) => BrowserAction::HoverAndPause(*k),
        BrowserAction::ReleaseActions => BrowserAction::ReleaseActions,
        BrowserAction::PrintHref(k) => BrowserAction::PrintHref(*k),
        BrowserAction::RunDownloadScript(k) => BrowserAction::RunDownloadScript(*k),
        BrowserAction::Abort(m) => BrowserAction::Abort(m.clone()),
    }
}

/// A linear run of actions: it hands them out one by one while each one
/// succeeds, and stops at the first failure.
pub struct Runner {
    actions: Vec<BrowserAction>,
    next: usize,
}

/// A runner as plain values: its actions, and how many of them were handed out.
pub struct RunnerView {
    pub actions: Seq<ActionView>,
    pub next: nat,
}

impl View for Runner {
    type V = RunnerView;

    closed spec fn view(&self) -> RunnerView {
        RunnerView { actions: views(self.actions@), next: self.next as nat }
    }
}

impl Runner {
    /// True when the runner is sound: it never claims to have handed out more
    /// actions than it has.
    pub open spec fn wf(&self) -> bool {
        self@.next <= self@.actions.len()
    }

    /// A runner over `actions`, none handed out yet.
    pub fn new(actions: Vec<BrowserAction>) -> (r: Self)
        ensures
            r.wf(),
            r@.actions == views(actions@),
            r@.next == 0,
    {
        assert(views(actions@).len() == actions@.len());
        Runner { actions, next: 0 }
    }

    /// Whether every action was handed out.
    pub fn is_done(&self) -> (b: bool)
        requires
            self.wf(),
        ensures
            b == (self@.next == self@.actions.len()),
    {
        assert(views(self.actions@).len() == self.actions@.len());
        self.next == self.actions.len()
    }

    /// Hands out the next action.
    pub fn next_action(&mut self) -> (a: BrowserAction)
        requires
            old(self).wf(),
            old(self)@.next < old(self)@.actions.len(),
        ensures
            final(self).wf(),
            a@ == old(self)@.actions[old(self)@.next as int],
            final(self)@.actions == old(self)@.actions,
            final(self)@.next == old(self)@.next + 1,
    {
        let n = self.actions.len();
        assert(views(self.actions@).len() == self.actions@.len());
        let a = copy_action(&self.actions[self.next]);
        self.next = self.next + 1;
        assert(views(self.actions@).len() == self.actions@.len());
        a
    }
}

} // verus!
