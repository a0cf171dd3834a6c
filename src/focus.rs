//! The focus guard: the cached decision of the script on whether synthetic
//! input may go to the current foreground window.
use vstd::prelude::*;

verus! {

/// Handle of the foreground window as the window system reports it; zero
/// when no window has focus.
pub type WindowHandle = isize;

/// What the guard holds: the window it last checked, that window's title,
/// and the script's decision for it.
pub struct FocusView {
    pub window: WindowHandle,
    pub title: Option<Seq<char>>,
    pub accepts: bool,
}

/// Whether the script must be asked again, given the foreground window.
pub open spec fn needs_check(v: FocusView, foreground: WindowHandle) -> bool {
    foreground != v.window
}

/// The guard after the script answered `accepts` for `window`.
pub open spec fn after_check(
    window: WindowHandle,
    title: Option<Seq<char>>,
    accepts: bool,
) -> FocusView {
    FocusView { window, title, accepts }
}

/// The view of an optional title.
pub open spec fn title_view(t: Option<String>) -> Option<Seq<char>> {
    match t {
        Some(s) => Some(s@),
        None => None,
    }
}

/// The cached guard decision, refreshed only when the foreground window
/// changes.
pub struct FocusGuard {
    window: WindowHandle,
    title: Option<String>,
    accepts: bool,
}

impl FocusGuard {
    pub closed spec fn view(&self) -> FocusView {
        FocusView { window: self.window, title: title_view(self.title), accepts: self.accepts }
    }

    /// A guard that has checked no window yet and accepts nothing.
    pub fn new() -> (r: Self)
        ensures
            r@ == after_check(0, None, false),
    {
        FocusGuard { window: 0, title: None, accepts: false }
    }

    /// Whether `foreground` differs from the window last checked, so the
    /// script's `accepts` has to be asked again.
    pub fn changed(&self, foreground: WindowHandle) -> (r: bool)
        ensures
            r == needs_check(self@, foreground),
    {
        foreground != self.window
    }

    /// Caches the script's decision `accepts` for `window`, whose title is
    /// `title`.
    pub fn record(&mut self, window: WindowHandle, title: Option<String>, accepts: bool)
        ensures
            final(self)@ == after_check(window, title_view(title), accepts),
    {
        self.window = window;
        self.title = title;
        self.accepts = accepts;
    }

    /// The cached decision: whether input may go to the checked window.
    pub fn accepts(&self) -> (r: bool)
        ensures
            r == self@.accepts,
    {
        self.accepts
    }

    /// The handle of the window last checked.
    pub fn window(&self) -> (r: WindowHandle)
        ensures
            r == self@.window,
    {
        self.window
    }

    /// The title of the window last checked, if it had one.
    pub fn title(&self) -> (r: &Option<String>)
        ensures
            title_view(*r) == self@.title,
    {
        &self.title
    }
}

/// Once the script has been asked about a window, it is not asked again
/// while that window keeps focus, however many keys are dispatched; it is
/// asked again as soon as any other window has focus.
pub proof fn lemma_checked_once(
    v: FocusView,
    window: WindowHandle,
    title: Option<Seq<char>>,
    accepts: bool,
    next: WindowHandle,
)
    ensures
        !needs_check(after_check(window, title, accepts), window),
        needs_check(after_check(window, title, accepts), next) <==> next != window,
        needs_check(v, next) <==> next != v.window,
{
}

/// The guard after one key is dispatched while `foreground` has focus: the
/// script is asked, and answers `answer` for a window titled `title`, only
/// when the window differs from the one last checked.
pub open spec fn after_key(
    v: FocusView,
    foreground: WindowHandle,
    title: Option<Seq<char>>,
    answer: bool,
) -> FocusView {
    if needs_check(v, foreground) {
        after_check(foreground, title, answer)
    } else {
        v
    }
}

/// How often the script is asked while keys are dispatched one after
/// another by `keys::key_step`, which moves the guard by `after_key` and asks
/// exactly when `needs_check` holds, the `i`-th while `readings[i]` has focus, titled `titles[i]`,
/// with the script answering `answers[i]` when asked then.
pub open spec fn asks_over(
    v: FocusView,
    readings: Seq<WindowHandle>,
    titles: Seq<Option<Seq<char>>>,
    answers: Seq<bool>,
) -> nat
    decreases readings.len(),
{
    if readings.len() == 0 || titles.len() == 0 || answers.len() == 0 {
        0
    } else {
        (if needs_check(v, readings[0]) {
            1nat
        } else {
            0nat
        }) + asks_over(
            after_key(v, readings[0], titles[0], answers[0]),
            readings.drop_first(),
            titles.drop_first(),
            answers.drop_first(),
        )
    }
}

/// How often the foreground window changes along `readings`, starting from
/// `prev`.
pub open spec fn window_changes(prev: WindowHandle, readings: Seq<WindowHandle>) -> nat
    decreases readings.len(),
{
    if readings.len() == 0 {
        0
    } else {
        (if readings[0] != prev {
            1nat
        } else {
            0nat
        }) + window_changes(readings[0], readings.drop_first())
    }
}

/// Over any run of key dispatches, the script is asked exactly once per
/// change of the foreground window, never once per key: while one window
/// keeps focus it is asked at most once.
pub proof fn lemma_asked_once_per_change(
    v: FocusView,
    readings: Seq<WindowHandle>,
    titles: Seq<Option<Seq<char>>>,
    answers: Seq<bool>,
)
    requires
        titles.len() == readings.len(),
        answers.len() == readings.len(),
    ensures
        asks_over(v, readings, titles, answers) == window_changes(v.window, readings),
        (forall|i: int| 0 <= i < readings.len() ==> #[trigger] readings[i] == readings[0]) ==> asks_over(
            v,
            readings,
            titles,
            answers,
        ) <= 1,
    decreases readings.len(),
{
    if readings.len() > 0 {
        let next = after_key(v, readings[0], titles[0], answers[0]);
        lemma_asked_once_per_change(
            next,
            readings.drop_first(),
            titles.drop_first(),
            answers.drop_first(),
        );
        if forall|i: int| 0 <= i < readings.len() ==> #[trigger] readings[i] == readings[0] {
            lemma_steady_focus(readings[0], readings.drop_first());
        }
    }
}

/// The guard after the first `n` keys of a run, as in `asks_over`.
pub open spec fn after_keys(
    v: FocusView,
    readings: Seq<WindowHandle>,
    titles: Seq<Option<Seq<char>>>,
    answers: Seq<bool>,
    n: nat,
) -> FocusView
    decreases n,
{
    if n == 0 {
        v
    } else {
        after_key(
            after_keys(v, readings, titles, answers, (n - 1) as nat),
            readings[n - 1],
            titles[n - 1],
            answers[n - 1],
        )
    }
}

/// When the guard starts out rejecting and the script rejects every window
/// it is asked about, the guard rejects at every key of the run, so no key
/// request is dispatched.
pub proof fn lemma_rejecting_script_blocks_all(
    v: FocusView,
    readings: Seq<WindowHandle>,
    titles: Seq<Option<Seq<char>>>,
    answers: Seq<bool>,
)
    requires
        titles.len() == readings.len(),
        answers.len() == readings.len(),
        !v.accepts,
        forall|i: int| 0 <= i < answers.len() ==> !#[trigger] answers[i],
    ensures
        forall|n: nat|
            n <= readings.len() ==> !#[trigger] after_keys(v, readings, titles, answers, n).accepts,
{
    assert forall|n: nat| n <= readings.len() implies !#[trigger] after_keys(
        v,
        readings,
        titles,
        answers,
        n,
    ).accepts by {
        lemma_rejecting_prefix(v, readings, titles, answers, n);
    }
}

proof fn lemma_rejecting_prefix(
    v: FocusView,
    readings: Seq<WindowHandle>,
    titles: Seq<Option<Seq<char>>>,
    answers: Seq<bool>,
    n: nat,
)
    requires
        titles.len() == readings.len(),
        answers.len() == readings.len(),
        !v.accepts,
        forall|i: int| 0 <= i < answers.len() ==> !#[trigger] answers[i],
        n <= readings.len(),
    ensures
        !after_keys(v, readings, titles, answers, n).accepts,
    decreases n,
{
    if n > 0 {
        lemma_rejecting_prefix(v, readings, titles, answers, (n - 1) as nat);
        assert(!answers[n - 1]);
    }
}

/// Along readings that all name `w`, starting from `w`, focus never changes.
proof fn lemma_steady_focus(w: WindowHandle, readings: Seq<WindowHandle>)
    requires
        forall|i: int| 0 <= i < readings.len() ==> readings[i] == w,
    ensures
        window_changes(w, readings) == 0,
    decreases readings.len(),
{
    if readings.len() > 0 {
        lemma_steady_focus(w, readings.drop_first());
    }
}

} // verus!
