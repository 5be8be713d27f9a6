//! The onboarding screens as a state machine.
//!
//! Flow: Welcome → (Distro, on a Windows host) → Scan (installed vs. wanted)
//! → Install (streaming progress) → Summary (results + follow-up commands).
//!
//! The terminal front end feeds key presses and worker messages in, performs
//! the [`Action`] each key press asks for (listing WSL distros, running the
//! checks, running the installer), and draws the state.
use vstd::prelude::*;
use vstd::string::*;

use crate::detect::{Env, Platform};
use crate::exec::{Exec, ExecView};
use crate::software::{Location, Rule, SectionDef, Software, StepView};
use crate::text::{owned, trim, trim_ws};
use crate::theme;

verus! {

/// The screens.
#[derive(Clone, Copy, PartialEq, Eq, Debug, Structural)]
pub enum Screen {
    Welcome,
    /// Windows host only: pick the WSL distro dev tools install into.
    Distro,
    Scan,
    Install,
    Summary,
}

/// What the background workers report.
pub enum Msg {
    /// Scan result for item i: Some(version/detail) if installed.
    Check(usize, Option<String>),
    ScanDone,
    /// Install step `usize` started.
    StepStart(usize),
    Line(String),
    /// Install step `usize` finished; bool = success.
    StepDone(usize, bool),
    InstallDone,
}

/// What the scan knows of a tool.
#[derive(Clone)]
pub enum ItemState {
    Checking,
    Installed(String),
    Missing,
}

/// The mathematical value of an [`ItemState`].
pub enum ItemStateView {
    Checking,
    Installed(Seq<char>),
    Missing,
}

impl View for ItemState {
    type V = ItemStateView;

    open spec fn view(&self) -> ItemStateView {
        match self {
            ItemState::Checking => ItemStateView::Checking,
            ItemState::Installed(d) => ItemStateView::Installed(d@),
            ItemState::Missing => ItemStateView::Missing,
        }
    }
}

/// The progress of an install step.
#[derive(Clone, Copy, PartialEq, Eq, Debug, Structural)]
pub enum StepState {
    Pending,
    Running,
    Done,
    Failed,
}

impl StepState {
    /// The mark shown before the step.
    pub open spec fn symbol_spec(self) -> Seq<char> {
        match self {
            StepState::Pending => "·"@,
            StepState::Running => "…"@,
            StepState::Done => "✓"@,
            StepState::Failed => "✗"@,
        }
    }

    /// The mark shown before the step.
    pub fn symbol(self) -> (r: &'static str)
        ensures
            r@ == self.symbol_spec(),
    {
        match self {
            StepState::Pending => "·",
            StepState::Running => "…",
            StepState::Done => "✓",
            StepState::Failed => "✗",
        }
    }

    /// The style the step is drawn in: dim while pending, the accent while
    /// running, green when done, red when failed.
    pub open spec fn style_spec(self) -> theme::Style {
        match self {
            StepState::Pending => theme::Style { fg: Some(theme::spec_gray()), bg: None, bold: false },
            StepState::Running => theme::Style { fg: Some(theme::spec_orange()), bg: None, bold: true },
            StepState::Done => theme::Style {
                fg: Some(theme::spec_good_color()),
                bg: None,
                bold: false,
            },
            StepState::Failed => theme::Style {
                fg: Some(theme::spec_bad_color()),
                bg: None,
                bold: false,
            },
        }
    }

    /// The style the step is drawn in.
    pub fn style(self) -> (s: theme::Style)
        ensures
            s == self.style_spec(),
    {
        match self {
            StepState::Pending => theme::dim(),
            StepState::Running => theme::title(),
            StepState::Done => theme::good(),
            StepState::Failed => theme::bad(),
        }
    }
}

/// An install step on the install screen.
pub struct StepStatus {
    pub title: String,
    pub state: StepState,
}

/// A navigable row on the scan screen: a collapsed section's header, a
/// software item, or the Confirm button below the list.
#[derive(Clone, Copy, PartialEq, Eq, Debug, Structural)]
pub enum Nav {
    /// Section index.
    Header(usize),
    /// Item index.
    Item(usize),
    /// The Confirm button that starts the install.
    Confirm,
}

/// A key press, as far as the screens tell keys apart.
#[derive(Clone, Copy, PartialEq, Eq, Debug, Structural)]
pub enum Key {
    Char(char),
    Esc,
    Enter,
    Left,
    Right,
    Up,
    Down,
    Tab,
    Other,
}

/// What the front end must do after a key press.
pub enum Action {
    /// Nothing beyond drawing the new state.
    Nothing,
    /// Leave the program.
    Quit,
    /// List the WSL distros and hand them to [`App::show_distros`].
    ChooseDistro,
    /// Run the checks of [`App::check_jobs`]; the scan state is already reset.
    Scan,
    /// Run these install steps (title, command, where) in order; the install
    /// state is already set up.
    Install(Vec<(String, String, Exec)>),
}

/// The work a scan hands the front end to run.
pub enum ScanWork {
    /// Messages to deliver as they are, one after another.
    Simulated(Vec<Msg>),
    /// Checks to run, each giving a `Check` result, followed by the end of
    /// the scan.
    Checks(Vec<(usize, String, Exec)>),
}

/// What the front end must do after a worker message.
#[derive(Clone, Copy, PartialEq, Eq, Debug, Structural)]
pub enum MsgEffect {
    /// Keep draining messages.
    Continue,
    /// The scan is complete: drop the channel and stop draining.
    ScanFinished,
    /// The installer is done: after draining, finish the install.
    InstallFinished,
}

/// The whole state of the screens.
pub struct App {
    pub dry_run: bool,
    pub platform: Platform,
    pub items: Vec<Software>,
    /// Section definitions (titles + rules), in display order.
    pub sections: Vec<SectionDef>,
    /// One box per non-empty section (by section index). Each holds the item
    /// indices shown in that box.
    pub boxes: Vec<(usize, Vec<usize>)>,
    /// Per-section collapsed state (indexed by section index). Only ever true
    /// for collapsible sections.
    pub collapsed: Vec<bool>,
    /// Cursor position over the nav rows (see `nav_rows`).
    pub cursor: usize,
    /// One-shot warning shown in the footer (e.g. "pick an editor").
    pub notice: Option<String>,
    /// WSL distros found on a Windows host, and the picker cursor.
    pub distros: Vec<String>,
    pub distro_cursor: usize,
    pub states: Vec<ItemState>,
    pub selected: Vec<bool>,
    pub screen: Screen,
    /// 0 = Get Started, 1 = Exit
    pub welcome_btn: usize,
    pub scan_done: bool,
    pub steps: Vec<StepStatus>,
    pub log: Vec<String>,
    pub follow_ups: Vec<String>,
}

// ---------------------------------------------------------------------------
// Boxes and navigation rows
// ---------------------------------------------------------------------------

/// The indices of the first `n` items that belong to section `s`, in order.
pub open spec fn section_members(items: Seq<Software>, s: int, n: int) -> Seq<usize>
    decreases n,
{
    if n <= 0 {
        Seq::empty()
    } else {
        let rest = section_members(items, s, n - 1);
        if items[n - 1].section == s {
            rest.push((n - 1) as usize)
        } else {
            rest
        }
    }
}

/// One box per non-empty section among the first `s` sections, in section
/// order, each with its member items in item order.
pub open spec fn boxes_spec(items: Seq<Software>, s: int) -> Seq<(usize, Seq<usize>)>
    decreases s,
{
    if s <= 0 {
        Seq::empty()
    } else {
        let rest = boxes_spec(items, s - 1);
        let members = section_members(items, s - 1, items.len() as int);
        if members.len() > 0 {
            rest.push(((s - 1) as usize, members))
        } else {
            rest
        }
    }
}

/// The mathematical value of the boxes.
pub open spec fn boxes_view(boxes: Seq<(usize, Vec<usize>)>) -> Seq<(usize, Seq<usize>)> {
    boxes.map_values(|b: (usize, Vec<usize>)| (b.0, b.1@))
}

/// The rows a box contributes: its header when collapsed, else its items.
pub open spec fn box_rows(b: (usize, Seq<usize>), collapsed: Seq<bool>) -> Seq<Nav> {
    if collapsed[b.0 as int] {
        seq![Nav::Header(b.0)]
    } else {
        b.1.map_values(|i: usize| Nav::Item(i))
    }
}

/// The rows of the first `n` boxes, top to bottom.
pub open spec fn rows_upto(boxes: Seq<(usize, Seq<usize>)>, collapsed: Seq<bool>, n: int) -> Seq<
    Nav,
>
    decreases n,
{
    if n <= 0 {
        Seq::empty()
    } else {
        rows_upto(boxes, collapsed, n - 1) + box_rows(boxes[n - 1], collapsed)
    }
}

/// The index of the first row, from `k` on, that belongs to section `sec`.
pub open spec fn first_row_of(items: Seq<Software>, rows: Seq<Nav>, sec: usize, k: int) -> Option<
    int,
>
    decreases rows.len() - k,
{
    if k < 0 || k >= rows.len() {
        None
    } else if row_section(items, rows[k]) == Some(sec) {
        Some(k)
    } else {
        first_row_of(items, rows, sec, k + 1)
    }
}

/// The section a row belongs to; the Confirm button belongs to none.
pub open spec fn row_section(items: Seq<Software>, n: Nav) -> Option<usize> {
    match n {
        Nav::Header(s) => Some(s),
        Nav::Item(i) => Some(items[i as int].section),
        Nav::Confirm => None,
    }
}

/// `(a + d) mod len`, the wrapped cursor move.
pub open spec fn wrap_move(a: int, d: int, len: int) -> int {
    (a + d) % len
}

impl App {
    /// The consistency of the state: per-item and per-section vectors have
    /// matching lengths, every item belongs to a section, every box holds
    /// the items of its section, and the cursors and button are in range.
    pub open spec fn wf(&self) -> bool {
        &&& self.wf_core()
        &&& (self.cursor == 0 || self.cursor < self.rows_spec().len())
    }

    /// Everything of [`App::wf`] but the cursor's range.
    pub open spec fn wf_core(&self) -> bool {
        &&& self.states@.len() == self.items@.len()
        &&& self.selected@.len() == self.items@.len()
        &&& self.collapsed@.len() == self.sections@.len()
        &&& forall|i: int|
            0 <= i < self.items@.len() ==> #[trigger] self.items@[i].section
                < self.sections@.len()
        &&& forall|b: int|
            0 <= b < self.boxes@.len() ==> {
                &&& #[trigger] self.boxes@[b].0 < self.sections@.len()
                &&& self.boxes@[b].1@.len() > 0
                &&& forall|j: int|
                    0 <= j < self.boxes@[b].1@.len() ==> {
                        &&& #[trigger] self.boxes@[b].1@[j] < self.items@.len()
                        &&& self.items@[self.boxes@[b].1@[j] as int].section == self.boxes@[b].0
                    }
            }
        &&& self.welcome_btn <= 1
        &&& (self.distro_cursor == 0 || self.distro_cursor < self.distros@.len())
    }

    /// The scan screen's navigable rows, top to bottom: the rows of the
    /// boxes, then the Confirm button.
    pub open spec fn rows_spec(&self) -> Seq<Nav> {
        self.list_rows().push(Nav::Confirm)
    }

    /// The rows of the boxes, top to bottom.
    pub open spec fn list_rows(&self) -> Seq<Nav> {
        rows_upto(boxes_view(self.boxes@), self.collapsed@, self.boxes@.len() as int)
    }

    /// The row under the cursor.
    pub open spec fn cursor_nav_spec(&self) -> Option<Nav> {
        if self.cursor < self.rows_spec().len() {
            Some(self.rows_spec()[self.cursor as int])
        } else {
            None
        }
    }

    /// The rule governing item `i`'s section.
    pub open spec fn rule_spec(&self, i: int) -> Rule {
        self.sections@[self.items@[i].section as int].rule
    }

    /// Item `i` was found missing.
    pub open spec fn missing(&self, i: int) -> bool {
        self.states@[i]@ is Missing
    }

    /// Item `i` was found installed.
    pub open spec fn installed(&self, i: int) -> bool {
        self.states@[i]@ is Installed
    }

    /// Where item `i`'s commands run.
    pub open spec fn exec_spec(&self, i: int) -> ExecView {
        if self.platform.env == Env::WindowsHost {
            match self.items@[i].location {
                Location::Host => ExecView::WinCmd,
                Location::Dev => ExecView::Wsl(
                    match self.platform.wsl_distro {
                        Some(d) => d@,
                        None => Seq::empty(),
                    },
                ),
            }
        } else {
            ExecView::Bash
        }
    }

}

proof fn lemma_members_valid(items: Seq<Software>, s: int, n: int)
    requires
        0 <= n <= items.len(),
        items.len() <= usize::MAX,
    ensures
        forall|j: int|
            0 <= j < section_members(items, s, n).len() ==> {
                &&& #[trigger] section_members(items, s, n)[j] < n
                &&& items[section_members(items, s, n)[j] as int].section == s
            },
    decreases n,
{
    if n > 0 {
        lemma_members_valid(items, s, n - 1);
    }
}

proof fn lemma_boxes_valid(items: Seq<Software>, nsec: int, s: int)
    requires
        0 <= s <= nsec,
        items.len() <= usize::MAX,
    ensures
        forall|b: int|
            0 <= b < boxes_spec(items, s).len() ==> {
                &&& #[trigger] boxes_spec(items, s)[b].0 < nsec
                &&& boxes_spec(items, s)[b].1.len() > 0
                &&& forall|j: int|
                    0 <= j < boxes_spec(items, s)[b].1.len() ==> {
                        &&& #[trigger] boxes_spec(items, s)[b].1[j] < items.len()
                        &&& items[boxes_spec(items, s)[b].1[j] as int].section
                            == boxes_spec(items, s)[b].0
                    }
            },
    decreases s,
{
    if s > 0 {
        lemma_boxes_valid(items, nsec, s - 1);
        lemma_members_valid(items, s - 1, items.len() as int);
    }
}

proof fn lemma_rows_valid(app: App, n: int)
    requires
        0 <= n <= app.boxes@.len(),
        app.wf_core(),
    ensures
        forall|r: int|
            0 <= r < rows_upto(boxes_view(app.boxes@), app.collapsed@, n).len() ==> match #[trigger] rows_upto(
                boxes_view(app.boxes@),
                app.collapsed@,
                n,
            )[r] {
                Nav::Header(s) => s < app.sections@.len(),
                Nav::Item(i) => i < app.items@.len(),
                Nav::Confirm => false,
            },
    decreases n,
{
    if n > 0 {
        lemma_rows_valid(app, n - 1);
        let bv = boxes_view(app.boxes@);
        let prev = rows_upto(bv, app.collapsed@, n - 1);
        let here = box_rows(bv[n - 1], app.collapsed@);
        assert(rows_upto(bv, app.collapsed@, n) == prev + here);
        assert forall|r: int| 0 <= r < (prev + here).len() implies match #[trigger] (prev
            + here)[r] {
            Nav::Header(s) => s < app.sections@.len(),
            Nav::Item(i) => i < app.items@.len(),
            Nav::Confirm => false,
        } by {
            if r >= prev.len() {
                let k = r - prev.len();
                assert(app.boxes@[n - 1].0 < app.sections@.len());
                if !app.collapsed@[bv[n - 1].0 as int] {
                    assert(app.boxes@[n - 1].1@[k] < app.items@.len());
                }
            }
        }
    }
}

/// Every navigation row of a consistent state names an existing section or
/// item.
pub proof fn lemma_rows_in_range(app: App)
    requires
        app.wf_core(),
    ensures
        forall|r: int|
            0 <= r < app.rows_spec().len() ==> match #[trigger] app.rows_spec()[r] {
                Nav::Header(s) => s < app.sections@.len(),
                Nav::Item(i) => i < app.items@.len(),
                Nav::Confirm => r == app.rows_spec().len() - 1,
            },
{
    lemma_rows_valid(app, app.boxes@.len() as int);
    assert forall|r: int| 0 <= r < app.rows_spec().len() implies match #[trigger] app.rows_spec()[r] {
        Nav::Header(s) => s < app.sections@.len(),
        Nav::Item(i) => i < app.items@.len(),
        Nav::Confirm => r == app.rows_spec().len() - 1,
    } by {
        if r < app.list_rows().len() {
            assert(app.rows_spec()[r] == app.list_rows()[r]);
        }
    }
}

impl App {
    /// The initial state for the detected platform and the resolved registry:
    /// one box per non-empty section, collapsible sections collapsed, every
    /// tool still being checked, nothing selected, on the welcome screen.
    pub fn new(dry_run: bool, platform: Platform, sections: Vec<SectionDef>, items: Vec<Software>) -> (app: App)
        requires
            forall|i: int| 0 <= i < items@.len() ==> #[trigger] items@[i].section < sections@.len(),
        ensures
            app.wf(),
            app.dry_run == dry_run,
            app.platform == platform,
            app.items == items,
            app.sections == sections,
            boxes_view(app.boxes@) == boxes_spec(items@, sections@.len() as int),
            app.collapsed@ == sections@.map_values(|s: SectionDef| s.collapsible),
            app.cursor == 0,
            app.notice is None,
            app.distros@.len() == 0,
            app.distro_cursor == 0,
            app.states@.len() == items@.len(),
            forall|i: int| 0 <= i < items@.len() ==> #[trigger] app.states@[i]@ is Checking,
            app.selected@ == Seq::new(items@.len(), |i: int| false),
            app.screen == Screen::Welcome,
            app.welcome_btn == 0,
            !app.scan_done,
            app.steps@.len() == 0,
            app.log@.len() == 0,
            app.follow_ups@.len() == 0,
    {
        let n = items.len();
        let mut boxes: Vec<(usize, Vec<usize>)> = Vec::new();
        let mut s: usize = 0;
        while s < sections.len()
            invariant
                s <= sections@.len(),
                n == items@.len(),
                boxes_view(boxes@) =~= boxes_spec(items@, s as int),
            decreases sections@.len() - s,
        {
            let mut order: Vec<usize> = Vec::new();
            let mut i: usize = 0;
            while i < n
                invariant
                    i <= n,
                    n == items@.len(),
                    order@ =~= section_members(items@, s as int, i as int),
                decreases n - i,
            {
                if items[i].section == s {
                    order.push(i);
                }
                i = i + 1;
            }
            if order.len() > 0 {
                let ghost old_boxes = boxes@;
                boxes.push((s, order));
                assert(boxes_view(boxes@) =~= boxes_view(old_boxes).push(
                    (s, section_members(items@, s as int, n as int)),
                ));
            }
            s = s + 1;
        }
        let mut collapsed: Vec<bool> = Vec::new();
        let mut k: usize = 0;
        while k < sections.len()
            invariant
                k <= sections@.len(),
                collapsed@ =~= sections@.map_values(|s: SectionDef| s.collapsible).take(k as int),
            decreases sections@.len() - k,
        {
            collapsed.push(sections[k].collapsible);
            k = k + 1;
        }
        let mut states: Vec<ItemState> = Vec::new();
        let mut selected: Vec<bool> = Vec::new();
        let mut j: usize = 0;
        while j < n
            invariant
                j <= n,
                n == items@.len(),
                states@.len() == j,
                forall|x: int| 0 <= x < j ==> #[trigger] states@[x]@ is Checking,
                selected@ =~= Seq::new(j as nat, |i: int| false),
            decreases n - j,
        {
            states.push(ItemState::Checking);
            selected.push(false);
            j = j + 1;
        }
        proof {
            lemma_boxes_valid(items@, sections@.len() as int, sections@.len() as int);
            assert forall|b: int| 0 <= b < boxes@.len() implies #[trigger] boxes@[b].0
                < sections@.len() && boxes@[b].1@.len() > 0 && (forall|j: int|
                0 <= j < boxes@[b].1@.len() ==> {
                    &&& #[trigger] boxes@[b].1@[j] < items@.len()
                    &&& items@[boxes@[b].1@[j] as int].section == boxes@[b].0
                }) by {
                let bs = boxes_spec(items@, sections@.len() as int);
                assert(boxes_view(boxes@)[b] == (boxes@[b].0, boxes@[b].1@));
                assert(bs == boxes_view(boxes@));
                assert(bs[b] == (boxes@[b].0, boxes@[b].1@));
                assert(bs[b].0 < sections@.len());
                assert(bs[b].1.len() > 0);
                assert forall|j: int| 0 <= j < boxes@[b].1@.len() implies {
                    &&& #[trigger] boxes@[b].1@[j] < items@.len()
                    &&& items@[boxes@[b].1@[j] as int].section == boxes@[b].0
                } by {
                    assert(bs[b].1[j] == boxes@[b].1@[j]);
                    assert(bs[b].1[j] < items@.len());
                }
            }
        }
        App {
            dry_run,
            platform,
            items,
            sections,
            boxes,
            collapsed,
            cursor: 0,
            notice: None,
            distros: Vec::new(),
            distro_cursor: 0,
            states,
            selected,
            screen: Screen::Welcome,
            welcome_btn: 0,
            scan_done: false,
            steps: Vec::new(),
            log: Vec::new(),
            follow_ups: Vec::new(),
        }
    }

    /// The scan screen's navigable rows, top to bottom: a collapsed section
    /// contributes a single header row; every other section contributes its
    /// item rows; the Confirm button comes last.
    pub fn nav_rows(&self) -> (rows: Vec<Nav>)
        requires
            self.wf_core(),
        ensures
            rows@ == self.rows_spec(),
    {
        let mut rows: Vec<Nav> = Vec::new();
        let ghost bv = boxes_view(self.boxes@);
        let mut b: usize = 0;
        while b < self.boxes.len()
            invariant
                self.wf_core(),
                b <= self.boxes@.len(),
                bv == boxes_view(self.boxes@),
                rows@ == rows_upto(bv, self.collapsed@, b as int),
            decreases self.boxes@.len() - b,
        {
            let sec = self.boxes[b].0;
            let order = &self.boxes[b].1;
            let ghost before = rows@;
            assert(self.boxes@[b as int].0 < self.sections@.len());
            if self.collapsed[sec] {
                rows.push(Nav::Header(sec));
                assert(rows@ =~= before + box_rows(bv[b as int], self.collapsed@));
            } else {
                let mut j: usize = 0;
                while j < order.len()
                    invariant
                        j <= order@.len(),
                        rows@ =~= before + order@.take(j as int).map_values(|i: usize| Nav::Item(i)),
                    decreases order@.len() - j,
                {
                    rows.push(Nav::Item(order[j]));
                    j = j + 1;
                }
                assert(order@.take(order@.len() as int) =~= order@);
                assert(rows@ =~= before + box_rows(bv[b as int], self.collapsed@));
            }
            b = b + 1;
        }
        rows.push(Nav::Confirm);
        rows
    }
}


/// The wrapped cursor move computed without overflow equals the modular sum.
proof fn lemma_wrap(c: int, delta: int, len: int, r: int)
    requires
        0 <= c < len,
        delta >= 0 ==> (r == if c >= len - delta % len {
            c - (len - delta % len)
        } else {
            c + delta % len
        }),
        delta < 0 ==> (r == if c >= (-delta) % len {
            c - (-delta) % len
        } else {
            c + (len - (-delta) % len)
        }),
    ensures
        r == wrap_move(c, delta, len),
        0 <= r < len,
{
    vstd::arithmetic::div_mod::lemma_mod_bound(delta, len);
    vstd::arithmetic::div_mod::lemma_mod_bound(-delta, len);
    if delta >= 0 {
        let d = delta % len;
        vstd::arithmetic::div_mod::lemma_add_mod_noop_right(c, delta, len);
        if c + d < len {
            vstd::arithmetic::div_mod::lemma_small_mod((c + d) as nat, len as nat);
        } else {
            vstd::arithmetic::div_mod::lemma_mod_sub_multiples_vanish(c + d, len);
            vstd::arithmetic::div_mod::lemma_small_mod((c + d - len) as nat, len as nat);
        }
    } else {
        let e = (-delta) % len;
        vstd::arithmetic::div_mod::lemma_sub_mod_noop_right(c, -delta, len);
        assert(c + delta == c - (-delta));
        if c >= e {
            vstd::arithmetic::div_mod::lemma_small_mod((c - e) as nat, len as nat);
        } else {
            vstd::arithmetic::div_mod::lemma_mod_add_multiples_vanish(c - e, len);
            vstd::arithmetic::div_mod::lemma_small_mod((c - e + len) as nat, len as nat);
        }
    }
}

/// The state after an expand/collapse request for section `sec`: nothing
/// changes unless the section is collapsible and not already in the wanted
/// state; otherwise only its collapse flag flips and the cursor moves to the
/// section's first row (its header when collapsed, its first item when
/// expanded), or to the top when it has none.
pub open spec fn collapse_step(old: App, new: App, sec: usize, want: bool) -> bool {
    if !old.sections@[sec as int].collapsible || old.collapsed@[sec as int] == want {
        new == old
    } else {
        &&& new == App { collapsed: new.collapsed, cursor: new.cursor, ..old }
        &&& new.collapsed@ == old.collapsed@.update(sec as int, want)
        &&& new.cursor == match first_row_of(new.items@, new.rows_spec(), sec, 0) {
            Some(k) => k as usize,
            None => 0usize,
        }
    }
}

impl App {
    /// The nav row under the cursor.
    pub fn cursor_nav(&self) -> (r: Option<Nav>)
        requires
            self.wf(),
        ensures
            r == self.cursor_nav_spec(),
    {
        let rows = self.nav_rows();
        if self.cursor < rows.len() {
            Some(rows[self.cursor])
        } else {
            None
        }
    }

    /// Moves the scan-screen cursor by `delta` rows, wrapping around.
    pub fn move_row(&mut self, delta: i32)
        requires
            old(self).wf(),
        ensures
            final(self).wf(),
            old(self).rows_spec().len() == 0 ==> *final(self) == *old(self),
            old(self).rows_spec().len() > 0 ==> *final(self) == (App {
                cursor: wrap_move(
                    old(self).cursor as int,
                    delta as int,
                    old(self).rows_spec().len() as int,
                ) as usize,
                ..*old(self)
            }),
    {
        let len = self.nav_rows().len();
        if len == 0 {
            return;
        }
        let c = self.cursor;
        let next = if delta >= 0 {
            let d = (delta as usize) % len;
            if c >= len - d {
                c - (len - d)
            } else {
                c + d
            }
        } else {
            let magnitude: u64 = (0i64 - (delta as i64)) as u64;
            let e = ((magnitude % (len as u64)) as usize);
            if c >= e {
                c - e
            } else {
                c + (len - e)
            }
        };
        proof {
            lemma_wrap(c as int, delta as int, len as int, next as int);
        }
        self.cursor = next;
    }

    /// The software item under the cursor, if the cursor is on an item row.
    pub fn cursor_item(&self) -> (r: Option<usize>)
        requires
            self.wf(),
        ensures
            r == match self.cursor_nav_spec() {
                Some(Nav::Item(i)) => Some(i),
                _ => None::<usize>,
            },
    {
        match self.cursor_nav() {
            Some(Nav::Item(i)) => Some(i),
            _ => None,
        }
    }

    /// The first row belonging to section `sec`, or the top.
    fn first_row_index(&self, rows: &Vec<Nav>, sec: usize) -> (r: usize)
        requires
            self.wf_core(),
            forall|k: int|
                0 <= k < rows@.len() ==> match #[trigger] rows@[k] {
                    Nav::Item(i) => i < self.items@.len(),
                    _ => true,
                },
        ensures
            r == match first_row_of(self.items@, rows@, sec, 0) {
                Some(k) => k as usize,
                None => 0usize,
            },
    {
        let mut k: usize = 0;
        while k < rows.len()
            invariant
                self.wf_core(),
                k <= rows@.len(),
                forall|k: int|
                    0 <= k < rows@.len() ==> match #[trigger] rows@[k] {
                        Nav::Item(i) => i < self.items@.len(),
                        _ => true,
                    },
                first_row_of(self.items@, rows@, sec, 0) == first_row_of(self.items@, rows@, sec, k as int),
            decreases rows@.len() - k,
        {
            let here = match rows[k] {
                Nav::Header(s) => s == sec,
                Nav::Item(i) => self.items[i].section == sec,
                Nav::Confirm => false,
            };
            if here {
                return k;
            }
            k = k + 1;
        }
        0
    }

    /// Expands or collapses section `sec`, keeping the cursor on that section
    /// (its header when collapsed, its first item when expanded).
    pub fn set_collapsed(&mut self, sec: usize, want: bool)
        requires
            old(self).wf(),
            sec < old(self).sections@.len(),
        ensures
            final(self).wf(),
            collapse_step(*old(self), *final(self), sec, want),
    {
        if !self.sections[sec].collapsible || self.collapsed[sec] == want {
            return;
        }
        self.collapsed.set(sec, want);
        proof {
            lemma_rows_in_range(*self);
        }
        let rows = self.nav_rows();
        let k = self.first_row_index(&rows, sec);
        proof {
            if let Some(j) = first_row_of(self.items@, rows@, sec, 0) {
                lemma_first_row_in_range(self.items@, rows@, sec, 0);
            }
        }
        self.cursor = k;
    }

    /// Flips the collapse state of the section under the cursor, if it is
    /// collapsible.
    pub fn toggle_collapse_at_cursor(&mut self)
        requires
            old(self).wf(),
        ensures
            final(self).wf(),
            match old(self).cursor_nav_spec() {
                Some(n) => match row_section(old(self).items@, n) {
                    Some(sec) => if old(self).sections@[sec as int].collapsible {
                        collapse_step(*old(self), *final(self), sec, !old(self).collapsed@[sec as int])
                    } else {
                        *final(self) == *old(self)
                    },
                    None => *final(self) == *old(self),
                },
                None => *final(self) == *old(self),
            },
    {
        proof {
            lemma_rows_in_range(*self);
        }
        let nav = self.cursor_nav();
        let sec = match nav {
            Some(Nav::Header(s)) => s,
            Some(Nav::Item(i)) => self.items[i].section,
            Some(Nav::Confirm) => return ,
            None => return ,
        };
        if self.sections[sec].collapsible {
            let want = !self.collapsed[sec];
            self.set_collapsed(sec, want);
        }
    }

    /// Where item `i`'s commands run: locally, or (from a Windows host) inside
    /// the chosen WSL distro for dev tools and on the host for GUI apps.
    pub fn exec_for(&self, i: usize) -> (r: Exec)
        requires
            i < self.items@.len(),
        ensures
            r@ == self.exec_spec(i as int),
    {
        if self.platform.windows_host() {
            match self.items[i].location {
                Location::Host => Exec::WinCmd,
                Location::Dev => Exec::Wsl(
                    match &self.platform.wsl_distro {
                        Some(d) => d.clone(),
                        None => String::new(),
                    },
                ),
            }
        } else {
            Exec::Bash
        }
    }

    /// The rule governing item `i`'s section.
    pub fn rule_of(&self, i: usize) -> (r: Rule)
        requires
            self.wf(),
            i < self.items@.len(),
        ensures
            r == self.rule_spec(i as int),
    {
        self.sections[self.items[i].section].rule
    }

    /// The (item index, check command, exec context) for every tool — the
    /// input to a parallel check run.
    pub fn check_jobs(&self) -> (jobs: Vec<(usize, String, Exec)>)
        ensures
            jobs@.len() == self.items@.len(),
            forall|i: int|
                0 <= i < jobs@.len() ==> {
                    &&& (#[trigger] jobs@[i]).0 == i
                    &&& jobs@[i].1@ == self.items@[i].check@
                    &&& jobs@[i].2@ == self.exec_spec(i)
                },
    {
        let mut jobs: Vec<(usize, String, Exec)> = Vec::new();
        let mut i: usize = 0;
        while i < self.items.len()
            invariant
                i <= self.items@.len(),
                jobs@.len() == i,
                forall|k: int|
                    0 <= k < i ==> {
                        &&& (#[trigger] jobs@[k]).0 == k
                        &&& jobs@[k].1@ == self.items@[k].check@
                        &&& jobs@[k].2@ == self.exec_spec(k)
                    },
            decreases self.items@.len() - i,
        {
            jobs.push((i, self.items[i].check.clone(), self.exec_for(i)));
            i = i + 1;
        }
        jobs
    }
}

proof fn lemma_first_row_in_range(items: Seq<Software>, rows: Seq<Nav>, sec: usize, k: int)
    ensures
        first_row_of(items, rows, sec, k) matches Some(j) ==> 0 <= j < rows.len(),
    decreases rows.len() - k,
{
    if !(k < 0 || k >= rows.len()) && row_section(items, rows[k]) != Some(sec) {
        lemma_first_row_in_range(items, rows, sec, k + 1);
    }
}


/// The mathematical value of a list of install steps as shown.
pub open spec fn steps_view(v: Seq<StepStatus>) -> Seq<(Seq<char>, StepState)> {
    v.map_values(|s: StepStatus| (s.title@, s.state))
}

/// The mathematical value of an install work list.
pub open spec fn work_view(w: Seq<(String, String, Exec)>) -> Seq<(Seq<char>, Seq<char>, ExecView)> {
    w.map_values(|t: (String, String, Exec)| (t.0@, t.1@, t.2@))
}

/// The mathematical value of item states.
pub open spec fn states_view(v: Seq<ItemState>) -> Seq<ItemStateView> {
    v.map_values(|s: ItemState| s@)
}

/// The state a check result gives a tool.
pub open spec fn check_state(detail: Option<Seq<char>>) -> ItemStateView {
    match detail {
        Some(d) => ItemStateView::Installed(d),
        None => ItemStateView::Missing,
    }
}

/// The item states after applying the first `k` check results in order.
pub open spec fn apply_results(
    states: Seq<ItemStateView>,
    results: Seq<(usize, Option<Seq<char>>)>,
    k: int,
) -> Seq<ItemStateView>
    decreases k,
{
    if k <= 0 {
        states
    } else {
        apply_results(states, results, k - 1).update(
            results[k - 1].0 as int,
            check_state(results[k - 1].1),
        )
    }
}

/// The mathematical value of check results.
pub open spec fn results_view(r: Seq<(usize, Option<String>)>) -> Seq<(usize, Option<Seq<char>>)> {
    r.map_values(
        |x: (usize, Option<String>)|
            (
                x.0,
                match x.1 {
                    Some(d) => Some(d@),
                    None => None,
                },
            ),
    )
}

impl App {
    /// Section `si` is a pick-one section that has tools here but none of them
    /// installed or selected.
    pub open spec fn section_unsatisfied(&self, si: int) -> bool {
        &&& self.sections@[si].rule == Rule::PickOne
        &&& exists|i: int| 0 <= i < self.items@.len() && #[trigger] self.items@[i].section == si
        &&& forall|i: int|
            0 <= i < self.items@.len() && #[trigger] self.items@[i].section == si ==> !self.installed(i)
                && !self.selected@[i]
    }

    /// The first unsatisfied pick-one section from `k` on.
    pub open spec fn first_unsatisfied_from(&self, k: int) -> Option<int>
        decreases self.sections@.len() - k,
    {
        if k < 0 || k >= self.sections@.len() {
            None
        } else if self.section_unsatisfied(k) {
            Some(k)
        } else {
            self.first_unsatisfied_from(k + 1)
        }
    }

    /// The install work for the selected tools among the first `n`, in item
    /// order: each step's title, command, and where it runs.
    pub open spec fn plan_upto(&self, n: int) -> Seq<(Seq<char>, Seq<char>, ExecView)>
        decreases n,
    {
        if n <= 0 {
            Seq::empty()
        } else {
            let rest = self.plan_upto(n - 1);
            if self.selected@[n - 1] {
                rest + self.items@[n - 1]@.install.map_values(
                    |s: StepView| (s.title, s.cmd, self.exec_spec(n - 1)),
                )
            } else {
                rest
            }
        }
    }

    /// The follow-up commands of the selected tools among the first `n`.
    pub open spec fn follow_upto(&self, n: int) -> Seq<Seq<char>>
        decreases n,
    {
        if n <= 0 {
            Seq::empty()
        } else {
            let rest = self.follow_upto(n - 1);
            if self.selected@[n - 1] {
                rest + self.items@[n - 1]@.follow_up
            } else {
                rest
            }
        }
    }

    /// The install work for all selected tools.
    pub open spec fn plan(&self) -> Seq<(Seq<char>, Seq<char>, ExecView)> {
        self.plan_upto(self.items@.len() as int)
    }

    /// Some tool is selected.
    pub open spec fn any_selected(&self) -> bool {
        exists|i: int| 0 <= i < self.selected@.len() && self.selected@[i]
    }
}

/// The state after a scan starts: every tool being checked again, nothing
/// selected, scan not done, on the scan screen; nothing else changes.
pub open spec fn scan_reset(old: App, new: App) -> bool {
    &&& new == App {
        states: new.states,
        selected: new.selected,
        scan_done: false,
        screen: Screen::Scan,
        ..old
    }
    &&& new.states@.len() == old.items@.len()
    &&& forall|i: int| 0 <= i < old.items@.len() ==> #[trigger] new.states@[i]@ is Checking
    &&& new.selected@ == Seq::new(old.items@.len(), |i: int| false)
}

/// The state after an install starts: the install screen lists the planned
/// steps, all pending, the follow-up commands of the selected tools are
/// collected and the output log is empty; nothing else changes.
pub open spec fn install_started(old: App, new: App) -> bool {
    &&& new == App {
        steps: new.steps,
        follow_ups: new.follow_ups,
        log: new.log,
        screen: Screen::Install,
        ..old
    }
    &&& steps_view(new.steps@) == old.plan().map_values(
        |w: (Seq<char>, Seq<char>, ExecView)| (w.0, StepState::Pending),
    )
    &&& strings_view_of(new.follow_ups@) == old.follow_upto(old.items@.len() as int)
    &&& new.log@.len() == 0
}

/// The views of a list of strings.
pub open spec fn strings_view_of(v: Seq<String>) -> Seq<Seq<char>> {
    v.map_values(|s: String| s@)
}

impl App {
    /// The first `pick-one` section that has tools available but none
    /// installed or selected, by its trimmed title. Sections with no tools on
    /// this platform (e.g. GUI-only on a server) count as satisfied.
    pub fn unsatisfied_pick_one(&self) -> (r: Option<String>)
        requires
            self.wf(),
        ensures
            match r {
                Some(t) => self.first_unsatisfied_from(0) matches Some(si) && t@ == trim_ws(
                    self.sections@[si].title@,
                ),
                None => self.first_unsatisfied_from(0) is None,
            },
    {
        let mut si: usize = 0;
        while si < self.sections.len()
            invariant
                self.wf(),
                si <= self.sections@.len(),
                self.first_unsatisfied_from(0) == self.first_unsatisfied_from(si as int),
            decreases self.sections@.len() - si,
        {
            if self.sections[si].rule == Rule::PickOne {
                let mut has_items = false;
                let mut satisfied = false;
                let mut i: usize = 0;
                while i < self.items.len() && !satisfied
                    invariant
                        self.wf(),
                        si < self.sections@.len(),
                        i <= self.items@.len(),
                        has_items == exists|j: int|
                            0 <= j < i && #[trigger] self.items@[j].section == si,
                        satisfied == exists|j: int|
                            0 <= j < i && #[trigger] self.items@[j].section == si && (
                            self.installed(j) || self.selected@[j]),
                    decreases self.items@.len() - i,
                {
                    if self.items[i].section == si {
                        has_items = true;
                        let inst = match &self.states[i] {
                            ItemState::Installed(_) => true,
                            _ => false,
                        };
                        if inst || self.selected[i] {
                            satisfied = true;
                        }
                    }
                    i = i + 1;
                }
                if has_items && !satisfied {
                    assert(self.section_unsatisfied(si as int));
                    let title = trim(self.sections[si].title.as_str());
                    return Some(owned(title));
                }
                assert(!self.section_unsatisfied(si as int));
            }
            si = si + 1;
        }
        None
    }

    /// Resets the scan state and shows the scan screen; the front end then
    /// runs the checks.
    pub fn begin_scan(&mut self)
        requires
            old(self).wf(),
        ensures
            final(self).wf(),
            scan_reset(*old(self), *final(self)),
    {
        let n = self.items.len();
        let mut states: Vec<ItemState> = Vec::new();
        let mut selected: Vec<bool> = Vec::new();
        let mut j: usize = 0;
        while j < n
            invariant
                j <= n,
                states@.len() == j,
                forall|x: int| 0 <= x < j ==> #[trigger] states@[x]@ is Checking,
                selected@ =~= Seq::new(j as nat, |i: int| false),
            decreases n - j,
        {
            states.push(ItemState::Checking);
            selected.push(false);
            j = j + 1;
        }
        self.states = states;
        self.selected = selected;
        self.scan_done = false;
        self.screen = Screen::Scan;
    }

    /// Sets up the install of the selected tools: the steps to show, the
    /// follow-up commands to collect, and the work to run. Nothing happens
    /// when no tool is selected.
    pub fn begin_install(&mut self) -> (work: Option<Vec<(String, String, Exec)>>)
        requires
            old(self).wf(),
        ensures
            final(self).wf(),
            !old(self).any_selected() ==> work is None && *final(self) == *old(self),
            old(self).any_selected() ==> (work matches Some(w) && work_view(w@) == old(self).plan()
                && install_started(*old(self), *final(self))),
    {
        let n = self.items.len();
        let mut any = false;
        let mut k: usize = 0;
        while k < n && !any
            invariant
                self.wf(),
                n == self.items@.len(),
                k <= n,
                any == exists|j: int| 0 <= j < k && self.selected@[j],
            decreases n - k,
        {
            if self.selected[k] {
                any = true;
            }
            k = k + 1;
        }
        if !any {
            return None;
        }
        let mut steps: Vec<StepStatus> = Vec::new();
        let mut follow_ups: Vec<String> = Vec::new();
        let mut work: Vec<(String, String, Exec)> = Vec::new();
        let mut i: usize = 0;
        while i < n
            invariant
                self.wf(),
                n == self.items@.len(),
                i <= n,
                work_view(work@) == self.plan_upto(i as int),
                steps_view(steps@) == self.plan_upto(i as int).map_values(
                    |w: (Seq<char>, Seq<char>, ExecView)| (w.0, StepState::Pending),
                ),
                strings_view_of(follow_ups@) == self.follow_upto(i as int),
            decreases n - i,
        {
            if self.selected[i] {
                let item = &self.items[i];
                let ghost f = |s: StepView| (s.title, s.cmd, self.exec_spec(i as int));
                let ghost base_work = work_view(work@);
                let ghost base_steps = steps_view(steps@);
                let ghost raw_work = work@;
                let ghost raw_steps = steps@;
                let mut t: usize = 0;
                while t < item.install.len()
                    invariant
                        self.wf(),
                        i < n,
                        n == self.items@.len(),
                        item == &self.items@[i as int],
                        f == (|s: StepView| (s.title, s.cmd, self.exec_spec(i as int))),
                        t <= item.install@.len(),
                        work@.len() == base_work.len() + t,
                        steps@.len() == base_steps.len() + t,
                        base_steps.len() == base_work.len(),
                        base_work == work_view(raw_work),
                        base_steps == steps_view(raw_steps),
                        raw_work.len() == base_work.len(),
                        raw_steps.len() == base_steps.len(),
                        forall|j: int| 0 <= j < raw_work.len() ==> #[trigger] work@[j] == raw_work[j],
                        forall|j: int| 0 <= j < raw_steps.len() ==> #[trigger] steps@[j] == raw_steps[j],
                        forall|j: int|
                            0 <= j < t ==> {
                                let w = #[trigger] work@[raw_work.len() + j];
                                (w.0@, w.1@, w.2@) == f(item@.install[j])
                            },
                        forall|j: int|
                            0 <= j < t ==> {
                                let st = #[trigger] steps@[raw_steps.len() + j];
                                (st.title@, st.state) == (f(item@.install[j]).0, StepState::Pending)
                            },
                    decreases item.install@.len() - t,
                {
                    let s = &item.install[t];
                    steps.push(StepStatus { title: s.title.clone(), state: StepState::Pending });
                    work.push((s.title.clone(), s.cmd.clone(), self.exec_for(i)));
                    proof {
                        assert(item@.install[t as int] == s@);
                    }
                    t = t + 1;
                }
                proof {
                    let target = base_work + item@.install.map_values(f);
                    assert forall|k: int| 0 <= k < work@.len() implies #[trigger] work_view(work@)[k] == target[k] by {
                        if k < raw_work.len() {
                            assert(work@[k] == raw_work[k]);
                        } else {
                            let j = k - raw_work.len();
                            assert(work@[raw_work.len() + j] == work@[k]);
                        }
                    }
                    let target2 = base_steps + item@.install.map_values(f).map_values(
                        |w: (Seq<char>, Seq<char>, ExecView)| (w.0, StepState::Pending),
                    );
                    assert forall|k: int| 0 <= k < steps@.len() implies #[trigger] steps_view(steps@)[k] == target2[k] by {
                        if k < raw_steps.len() {
                            assert(steps@[k] == raw_steps[k]);
                        } else {
                            let j = k - raw_steps.len();
                            assert(steps@[raw_steps.len() + j] == steps@[k]);
                        }
                    }
                    assert(work_view(work@) =~= base_work + item@.install.map_values(f));
                    assert(steps_view(steps@) =~= base_steps + item@.install.map_values(f).map_values(
                        |w: (Seq<char>, Seq<char>, ExecView)| (w.0, StepState::Pending),
                    ));
                    assert(self.plan_upto(i + 1) == base_work + item@.install.map_values(f));
                    assert((base_work + item@.install.map_values(f)).map_values(
                        |w: (Seq<char>, Seq<char>, ExecView)| (w.0, StepState::Pending),
                    ) =~= base_steps + item@.install.map_values(f).map_values(
                        |w: (Seq<char>, Seq<char>, ExecView)| (w.0, StepState::Pending),
                    ));
                }
                let ghost base_follow = strings_view_of(follow_ups@);
                let ghost raw_follow = follow_ups@;
                let mut u: usize = 0;
                while u < item.follow_up.len()
                    invariant
                        i < n,
                        n == self.items@.len(),
                        item == &self.items@[i as int],
                        u <= item.follow_up@.len(),
                        follow_ups@.len() == base_follow.len() + u,
                        base_follow == strings_view_of(raw_follow),
                        raw_follow.len() == base_follow.len(),
                        forall|j: int| 0 <= j < raw_follow.len() ==> #[trigger] follow_ups@[j] == raw_follow[j],
                        forall|j: int| 0 <= j < u ==> (#[trigger] follow_ups@[raw_follow.len() + j])@ == item@.follow_up[j],
                    decreases item.follow_up@.len() - u,
                {
                    follow_ups.push(item.follow_up[u].clone());
                    u = u + 1;
                }
                proof {
                    let target = base_follow + item@.follow_up;
                    assert forall|k: int| 0 <= k < follow_ups@.len() implies #[trigger] strings_view_of(follow_ups@)[k] == target[k] by {
                        if k < raw_follow.len() {
                            assert(follow_ups@[k] == raw_follow[k]);
                        } else {
                            let j = k - raw_follow.len();
                            assert(follow_ups@[raw_follow.len() + j] == follow_ups@[k]);
                        }
                    }
                    assert(strings_view_of(follow_ups@) =~= base_follow + item@.follow_up);
                }
            }
            i = i + 1;
        }
        self.steps = steps;
        self.follow_ups = follow_ups;
        self.log = Vec::new();
        self.screen = Screen::Install;
        Some(work)
    }
}


impl App {
    /// Shows the distro picker over the listed WSL distros, cursor on the
    /// first.
    pub fn show_distros(&mut self, distros: Vec<String>)
        requires
            old(self).wf(),
        ensures
            final(self).wf(),
            *final(self) == (App { distros, distro_cursor: 0, screen: Screen::Distro, ..*old(self) }),
    {
        self.distros = distros;
        self.distro_cursor = 0;
        self.screen = Screen::Distro;
    }

    /// Takes in one worker message. A check result updates that tool's state;
    /// the end of the scan locks in the missing required tools (optional and
    /// pick-one tools start unticked); install progress updates the step list
    /// and the output log.
    pub fn receive(&mut self, msg: Msg) -> (effect: MsgEffect)
        requires
            old(self).wf(),
            msg matches Msg::Check(i, _) ==> i < old(self).items@.len(),
        ensures
            final(self).wf(),
            match msg {
                Msg::Check(i, d) => {
                    &&& effect == MsgEffect::Continue
                    &&& *final(self) == (App { states: final(self).states, ..*old(self) })
                    &&& states_view(final(self).states@) == states_view(old(self).states@).update(
                        i as int,
                        check_state(
                            match d {
                                Some(x) => Some(x@),
                                None => None,
                            },
                        ),
                    )
                },
                Msg::ScanDone => {
                    &&& effect == MsgEffect::ScanFinished
                    &&& *final(self) == (App {
                        selected: final(self).selected,
                        scan_done: true,
                        ..*old(self)
                    })
                    &&& final(self).selected@ == Seq::new(
                        old(self).items@.len(),
                        |i: int| old(self).missing(i) && old(self).rule_spec(i) == Rule::Required,
                    )
                },
                Msg::StepStart(i) => {
                    &&& effect == MsgEffect::Continue
                    &&& i >= old(self).steps@.len() ==> *final(self) == *old(self)
                    &&& i < old(self).steps@.len() ==> {
                        &&& *final(self) == (App { steps: final(self).steps, ..*old(self) })
                        &&& steps_view(final(self).steps@) == steps_view(old(self).steps@).update(
                            i as int,
                            (old(self).steps@[i as int].title@, StepState::Running),
                        )
                    }
                },
                Msg::Line(l) => {
                    &&& effect == MsgEffect::Continue
                    &&& *final(self) == (App { log: final(self).log, ..*old(self) })
                    &&& final(self).log@ == old(self).log@.push(l)
                },
                Msg::StepDone(i, ok) => {
                    &&& effect == MsgEffect::Continue
                    &&& i >= old(self).steps@.len() ==> *final(self) == *old(self)
                    &&& i < old(self).steps@.len() ==> {
                        &&& *final(self) == (App { steps: final(self).steps, ..*old(self) })
                        &&& steps_view(final(self).steps@) == steps_view(old(self).steps@).update(
                            i as int,
                            (
                                old(self).steps@[i as int].title@,
                                if ok {
                                    StepState::Done
                                } else {
                                    StepState::Failed
                                },
                            ),
                        )
                    }
                },
                Msg::InstallDone => effect == MsgEffect::InstallFinished && *final(self)
                    == *old(self),
            },
    {
        match msg {
            Msg::Check(i, detail) => {
                let st = match detail {
                    Some(d) => ItemState::Installed(d),
                    None => ItemState::Missing,
                };
                self.states.set(i, st);
                proof {
                    assert(states_view(self.states@) =~= states_view(old(self).states@).update(
                        i as int,
                        self.states@[i as int]@,
                    ));
                }
                MsgEffect::Continue
            },
            Msg::ScanDone => {
                self.scan_done = true;
                let n = self.items.len();
                let mut selected: Vec<bool> = Vec::new();
                let mut i: usize = 0;
                while i < n
                    invariant
                        self.wf_core(),
                        n == self.items@.len(),
                        i <= n,
                        selected@ =~= Seq::new(
                            i as nat,
                            |k: int| self.missing(k) && self.rule_spec(k) == Rule::Required,
                        ),
                    decreases n - i,
                {
                    let miss = match &self.states[i] {
                        ItemState::Missing => true,
                        _ => false,
                    };
                    selected.push(miss && self.sections[self.items[i].section].rule == Rule::Required);
                    i = i + 1;
                }
                self.selected = selected;
                MsgEffect::ScanFinished
            },
            Msg::StepStart(i) => {
                if i < self.steps.len() {
                    self.steps[i].state = StepState::Running;
                    proof {
                        assert(steps_view(self.steps@) =~= steps_view(old(self).steps@).update(
                            i as int,
                            (old(self).steps@[i as int].title@, StepState::Running),
                        ));
                    }
                }
                MsgEffect::Continue
            },
            Msg::Line(l) => {
                self.log.push(l);
                MsgEffect::Continue
            },
            Msg::StepDone(i, ok) => {
                if i < self.steps.len() {
                    self.steps[i].state = if ok {
                        StepState::Done
                    } else {
                        StepState::Failed
                    };
                    proof {
                        assert(steps_view(self.steps@) =~= steps_view(old(self).steps@).update(
                            i as int,
                            (old(self).steps@[i as int].title@, self.steps@[i as int].state),
                        ));
                    }
                }
                MsgEffect::Continue
            },
            Msg::InstallDone => MsgEffect::InstallFinished,
        }
    }

    /// Ends a dry-run install on the summary screen, showing every selected
    /// tool as installed ("(dry-run)").
    pub fn finish_dry_run_install(&mut self)
        requires
            old(self).wf(),
        ensures
            final(self).wf(),
            *final(self) == (App {
                states: final(self).states,
                screen: Screen::Summary,
                ..*old(self)
            }),
            final(self).states@.len() == old(self).states@.len(),
            forall|i: int|
                0 <= i < old(self).states@.len() ==> if old(self).selected@[i] {
                    (#[trigger] final(self).states@[i])@ == ItemStateView::Installed("(dry-run)"@)
                } else {
                    final(self).states@[i] == old(self).states@[i]
                },
    {
        let n = self.items.len();
        let mut i: usize = 0;
        while i < n
            invariant
                self.wf(),
                n == self.items@.len(),
                i <= n,
                *self == (App { states: self.states, ..*old(self) }),
                forall|k: int|
                    0 <= k < n ==> if old(self).selected@[k] && k < i {
                        (#[trigger] self.states@[k])@ == ItemStateView::Installed("(dry-run)"@)
                    } else {
                        self.states@[k] == old(self).states@[k]
                    },
            decreases n - i,
        {
            if self.selected[i] {
                self.states.set(i, ItemState::Installed(owned("(dry-run)")));
            }
            i = i + 1;
        }
        self.screen = Screen::Summary;
    }

    /// Ends an install on the summary screen with the results of re-checking
    /// every tool, applied in the order they arrived.
    pub fn finish_install(&mut self, results: Vec<(usize, Option<String>)>)
        requires
            old(self).wf(),
            forall|k: int| 0 <= k < results@.len() ==> (#[trigger] results@[k]).0 < old(self).items@.len(),
        ensures
            final(self).wf(),
            *final(self) == (App {
                states: final(self).states,
                screen: Screen::Summary,
                ..*old(self)
            }),
            states_view(final(self).states@) == apply_results(
                states_view(old(self).states@),
                results_view(results@),
                results@.len() as int,
            ),
    {
        let ghost rv = results_view(results@);
        let mut k: usize = 0;
        let ghost start = states_view(self.states@);
        let ghost all = results@;
        while k < results.len()
            invariant
                self.wf(),
                *self == (App { states: self.states, ..*old(self) }),
                results@ == all,
                rv == results_view(all),
                start == states_view(old(self).states@),
                forall|j: int| 0 <= j < all.len() ==> (#[trigger] all[j]).0 < old(self).items@.len(),
                k <= all.len(),
                states_view(self.states@) == apply_results(start, rv, k as int),
            decreases all.len() - k,
        {
            let i = results[k].0;
            let st = match &results[k].1 {
                Some(d) => ItemState::Installed(d.clone()),
                None => ItemState::Missing,
            };
            let ghost before = states_view(self.states@);
            self.states.set(i, st);
            proof {
                assert(states_view(self.states@) =~= before.update(i as int, self.states@[i as int]@));
            }
            k = k + 1;
        }
        self.screen = Screen::Summary;
    }

    /// The checks to run again when an install ends: every tool's check, or
    /// none in a dry run.
    pub fn recheck_jobs(&self) -> (jobs: Vec<(usize, String, Exec)>)
        ensures
            self.dry_run ==> jobs@.len() == 0,
            !self.dry_run ==> {
                &&& jobs@.len() == self.items@.len()
                &&& forall|i: int|
                    0 <= i < jobs@.len() ==> {
                        &&& (#[trigger] jobs@[i]).0 == i
                        &&& jobs@[i].1@ == self.items@[i].check@
                        &&& jobs@[i].2@ == self.exec_spec(i)
                    }
            },
    {
        if self.dry_run {
            Vec::new()
        } else {
            self.check_jobs()
        }
    }

    /// Ends an install on the summary screen. A dry run previews the happy
    /// path: every selected tool shows as installed ("(dry-run)"). A real
    /// install applies the results of re-checking the tools, in the order
    /// they arrived.
    pub fn finish(&mut self, results: Vec<(usize, Option<String>)>)
        requires
            old(self).wf(),
            forall|k: int| 0 <= k < results@.len() ==> (#[trigger] results@[k]).0 < old(self).items@.len(),
        ensures
            final(self).wf(),
            *final(self) == (App {
                states: final(self).states,
                screen: Screen::Summary,
                ..*old(self)
            }),
            old(self).dry_run ==> {
                &&& final(self).states@.len() == old(self).states@.len()
                &&& forall|i: int|
                    0 <= i < old(self).states@.len() ==> if old(self).selected@[i] {
                        (#[trigger] final(self).states@[i])@ == ItemStateView::Installed(
                            "(dry-run)"@,
                        )
                    } else {
                        final(self).states@[i] == old(self).states@[i]
                    }
            },
            !old(self).dry_run ==> states_view(final(self).states@) == apply_results(
                states_view(old(self).states@),
                results_view(results@),
                results@.len() as int,
            ),
    {
        if self.dry_run {
            self.finish_dry_run_install();
        } else {
            self.finish_install(results);
        }
    }

    /// What a scan runs: in a dry run, a fresh machine is previewed, every
    /// tool reported missing top to bottom and then the end of the scan;
    /// otherwise every tool's check.
    pub fn scan_work(&self) -> (w: ScanWork)
        ensures
            self.dry_run ==> (w matches ScanWork::Simulated(m) && m@ == simulated_scan(
                self.items@.len(),
            )),
            !self.dry_run ==> (w matches ScanWork::Checks(jobs) && jobs@.len() == self.items@.len()
                && forall|i: int|
                0 <= i < jobs@.len() ==> {
                    &&& (#[trigger] jobs@[i]).0 == i
                    &&& jobs@[i].1@ == self.items@[i].check@
                    &&& jobs@[i].2@ == self.exec_spec(i)
                }),
    {
        if self.dry_run {
            let n = self.items.len();
            let mut msgs: Vec<Msg> = Vec::new();
            let mut i: usize = 0;
            while i < n
                invariant
                    i <= n,
                    msgs@ == Seq::new(i as nat, |k: int| Msg::Check(k as usize, None)),
                decreases n - i,
            {
                msgs.push(Msg::Check(i, None));
                proof {
                    assert(msgs@ =~= Seq::new((i + 1) as nat, |k: int| Msg::Check(k as usize, None)));
                }
                i = i + 1;
            }
            msgs.push(Msg::ScanDone);
            ScanWork::Simulated(msgs)
        } else {
            ScanWork::Checks(self.check_jobs())
        }
    }
}

/// The messages of a simulated scan of `n` tools: each reported missing, in
/// order, then the end of the scan.
pub open spec fn simulated_scan(n: nat) -> Seq<Msg> {
    Seq::new(n, |k: int| Msg::Check(k as usize, None)).push(Msg::ScanDone)
}


// ---------------------------------------------------------------------------
// Key handling
// ---------------------------------------------------------------------------

/// The welcome screen: `q`/Esc quit; ←/→/Tab/h/l switch between the two
/// buttons; Enter on "Get Started" asks for the distro picker on a Windows
/// host with no distro chosen yet and starts the scan otherwise; Enter on
/// "Exit" quits.
pub open spec fn welcome_step(old: App, key: Key, new: App, action: Action) -> bool {
    if key == Key::Char('q') || key == Key::Esc {
        action is Quit && new == old
    } else if key == Key::Left || key == Key::Right || key == Key::Tab || key == Key::Char('h')
        || key == Key::Char('l') {
        action is Nothing && new == (App { welcome_btn: (1 - old.welcome_btn) as usize, ..old })
    } else if key == Key::Enter {
        if old.welcome_btn == 0 {
            if old.platform.env == Env::WindowsHost && old.platform.wsl_distro is None {
                action is ChooseDistro && new == old
            } else {
                action is Scan && scan_reset(old, new)
            }
        } else {
            action is Quit && new == old
        }
    } else {
        action is Nothing && new == old
    }
}

/// The distro picker: `q` quits; Esc goes back to the welcome screen; ↑/k and
/// ↓/j move the cursor with wrap-around; Enter picks the distro under the
/// cursor and starts the scan.
pub open spec fn distro_step(old: App, key: Key, new: App, action: Action) -> bool {
    let len = old.distros@.len() as int;
    let c = old.distro_cursor as int;
    if key == Key::Char('q') {
        action is Quit && new == old
    } else if key == Key::Esc {
        action is Nothing && new == (App { screen: Screen::Welcome, ..old })
    } else if key == Key::Up || key == Key::Char('k') {
        action is Nothing && new == if len == 0 {
            old
        } else {
            App { distro_cursor: ((c + len - 1) % len) as usize, ..old }
        }
    } else if key == Key::Down || key == Key::Char('j') {
        action is Nothing && new == if len == 0 {
            old
        } else {
            App { distro_cursor: ((c + 1) % len) as usize, ..old }
        }
    } else if key == Key::Enter {
        if c < len {
            action is Scan && scan_reset(
                App {
                    platform: Platform { wsl_distro: Some(old.distros@[c]), ..old.platform },
                    ..old
                },
                new,
            )
        } else {
            action is Nothing && new == old
        }
    } else {
        action is Nothing && new == old
    }
}

/// The state after the cursor moves by `delta` rows on the scan screen.
pub open spec fn moved(old: App, delta: int) -> App {
    if old.rows_spec().len() == 0 {
        old
    } else {
        App {
            cursor: wrap_move(old.cursor as int, delta, old.rows_spec().len() as int) as usize,
            ..old
        }
    }
}

/// Space on the scan screen, once the scan is done: on a collapsed header it
/// expands the section; on a tool it clears the notice and flips the
/// selection of a missing tool unless its section is required.
pub open spec fn space_step(old: App, new: App) -> bool {
    match old.cursor_nav_spec() {
        Some(Nav::Header(sec)) => if old.sections@[sec as int].collapsible {
            collapse_step(old, new, sec, !old.collapsed@[sec as int])
        } else {
            new == old
        },
        Some(Nav::Item(i)) => {
            &&& new == (App { notice: None, selected: new.selected, ..old })
            &&& new.selected@ == if old.missing(i as int) && old.rule_spec(i as int)
                != Rule::Required {
                old.selected@.update(i as int, !old.selected@[i as int])
            } else {
                old.selected@
            }
        },
        _ => new == old,
    }
}

/// Enter on the Confirm button, once the scan is done: when a pick-one section
/// is unsatisfied, a notice names it; otherwise the install of the selected
/// tools starts (nothing happens when none is selected).
pub open spec fn confirm_step(old: App, new: App, action: Action) -> bool {
    match old.first_unsatisfied_from(0) {
        Some(si) => {
            &&& action is Nothing
            &&& new == (App { notice: new.notice, ..old })
            &&& new.notice matches Some(n) && n@ == "Pick at least one from:"@ + trim_ws(
                old.sections@[si].title@,
            )
        },
        None => if old.any_selected() {
            &&& action matches Action::Install(w) && work_view(w@) == old.plan()
            &&& install_started(old, new)
        } else {
            action is Nothing && new == old
        },
    }
}

/// The scan screen: `q` quits; Esc goes back to the welcome screen; ↑/k and
/// ↓/j move over the rows with wrap-around; →/l expands a collapsed section
/// under the cursor; ←/h collapses the section of the tool under the cursor;
/// and, once the scan is done, Space toggles, `r` rescans and Enter on the
/// Confirm button below the list confirms (Enter elsewhere does nothing).
pub open spec fn scan_step(old: App, key: Key, new: App, action: Action) -> bool {
    if key == Key::Char('q') {
        action is Quit && new == old
    } else if key == Key::Esc {
        action is Nothing && new == (App { screen: Screen::Welcome, ..old })
    } else if key == Key::Up || key == Key::Char('k') {
        action is Nothing && new == moved(old, -1)
    } else if key == Key::Down || key == Key::Char('j') {
        action is Nothing && new == moved(old, 1)
    } else if key == Key::Right || key == Key::Char('l') {
        action is Nothing && match old.cursor_nav_spec() {
            Some(Nav::Header(sec)) => collapse_step(old, new, sec, false),
            _ => new == old,
        }
    } else if key == Key::Left || key == Key::Char('h') {
        action is Nothing && match old.cursor_nav_spec() {
            Some(Nav::Item(i)) => collapse_step(old, new, old.items@[i as int].section, true),
            _ => new == old,
        }
    } else if key == Key::Char(' ') {
        action is Nothing && if old.scan_done {
            space_step(old, new)
        } else {
            new == old
        }
    } else if key == Key::Char('r') {
        if old.scan_done {
            action is Scan && scan_reset(App { notice: None, ..old }, new)
        } else {
            action is Nothing && new == old
        }
    } else if key == Key::Enter && old.scan_done && old.cursor_nav_spec() == Some(Nav::Confirm) {
        confirm_step(old, new, action)
    } else {
        action is Nothing && new == old
    }
}

/// The summary screen: `q`/Esc quit; Enter scans again.
pub open spec fn summary_step(old: App, key: Key, new: App, action: Action) -> bool {
    if key == Key::Char('q') || key == Key::Esc {
        action is Quit && new == old
    } else if key == Key::Enter {
        action is Scan && scan_reset(old, new)
    } else {
        action is Nothing && new == old
    }
}

/// What a key press does on the current screen; installs are not
/// cancellable, so the install screen ignores keys.
pub open spec fn key_transition(old: App, key: Key, new: App, action: Action) -> bool {
    match old.screen {
        Screen::Welcome => welcome_step(old, key, new, action),
        Screen::Distro => distro_step(old, key, new, action),
        Screen::Scan => scan_step(old, key, new, action),
        Screen::Install => action is Nothing && new == old,
        Screen::Summary => summary_step(old, key, new, action),
    }
}

impl App {
    fn welcome_key(&mut self, key: Key) -> (action: Action)
        requires
            old(self).wf(),
        ensures
            final(self).wf(),
            welcome_step(*old(self), key, *final(self), action),
    {
        if key == Key::Char('q') || key == Key::Esc {
            Action::Quit
        } else if key == Key::Left || key == Key::Right || key == Key::Tab || key == Key::Char('h')
            || key == Key::Char('l') {
            self.welcome_btn = 1 - self.welcome_btn;
            Action::Nothing
        } else if key == Key::Enter {
            if self.welcome_btn == 0 {
                let no_distro = match &self.platform.wsl_distro {
                    None => true,
                    Some(_) => false,
                };
                if self.platform.windows_host() && no_distro {
                    Action::ChooseDistro
                } else {
                    self.begin_scan();
                    Action::Scan
                }
            } else {
                Action::Quit
            }
        } else {
            Action::Nothing
        }
    }

    fn distro_key(&mut self, key: Key) -> (action: Action)
        requires
            old(self).wf(),
        ensures
            final(self).wf(),
            distro_step(*old(self), key, *final(self), action),
    {
        let len = self.distros.len();
        let c = self.distro_cursor;
        if key == Key::Char('q') {
            Action::Quit
        } else if key == Key::Esc {
            self.screen = Screen::Welcome;
            Action::Nothing
        } else if key == Key::Up || key == Key::Char('k') {
            if len > 0 {
                let next = if c == 0 {
                    len - 1
                } else {
                    c - 1
                };
                proof {
                    if c == 0 {
                        vstd::arithmetic::div_mod::lemma_small_mod((len - 1) as nat, len as nat);
                    } else {
                        vstd::arithmetic::div_mod::lemma_mod_add_multiples_vanish(c - 1, len as int);
                        vstd::arithmetic::div_mod::lemma_small_mod((c - 1) as nat, len as nat);
                    }
                }
                self.distro_cursor = next;
            }
            Action::Nothing
        } else if key == Key::Down || key == Key::Char('j') {
            if len > 0 {
                let next = if c + 1 == len {
                    0
                } else {
                    c + 1
                };
                proof {
                    if c + 1 == len {
                        vstd::arithmetic::div_mod::lemma_mod_self_0(len as int);
                    } else {
                        vstd::arithmetic::div_mod::lemma_small_mod((c + 1) as nat, len as nat);
                    }
                }
                self.distro_cursor = next;
            }
            Action::Nothing
        } else if key == Key::Enter {
            if c < len {
                let d = self.distros[c].clone();
                self.platform.wsl_distro = Some(d);
                self.begin_scan();
                Action::Scan
            } else {
                Action::Nothing
            }
        } else {
            Action::Nothing
        }
    }

    fn scan_key(&mut self, key: Key) -> (action: Action)
        requires
            old(self).wf(),
        ensures
            final(self).wf(),
            scan_step(*old(self), key, *final(self), action),
    {
        proof {
            lemma_rows_in_range(*self);
        }
        if key == Key::Char('q') {
            Action::Quit
        } else if key == Key::Esc {
            self.screen = Screen::Welcome;
            Action::Nothing
        } else if key == Key::Up || key == Key::Char('k') {
            self.move_row(-1);
            Action::Nothing
        } else if key == Key::Down || key == Key::Char('j') {
            self.move_row(1);
            Action::Nothing
        } else if key == Key::Right || key == Key::Char('l') {
            match self.cursor_nav() {
                Some(Nav::Header(sec)) => self.set_collapsed(sec, false),
                _ => {},
            }
            Action::Nothing
        } else if key == Key::Left || key == Key::Char('h') {
            match self.cursor_item() {
                Some(i) => {
                    let sec = self.items[i].section;
                    self.set_collapsed(sec, true);
                },
                None => {},
            }
            Action::Nothing
        } else if key == Key::Char(' ') {
            if self.scan_done {
                match self.cursor_nav() {
                    Some(Nav::Header(_)) => {
                        self.toggle_collapse_at_cursor();
                    },
                    Some(Nav::Item(i)) => {
                        self.notice = None;
                        let miss = match &self.states[i] {
                            ItemState::Missing => true,
                            _ => false,
                        };
                        if miss && self.rule_of(i) != Rule::Required {
                            let flipped = !self.selected[i];
                            self.selected.set(i, flipped);
                        }
                    },
                    _ => {},
                }
            }
            Action::Nothing
        } else if key == Key::Char('r') {
            if self.scan_done {
                self.notice = None;
                self.begin_scan();
                Action::Scan
            } else {
                Action::Nothing
            }
        } else if key == Key::Enter && self.scan_done && self.cursor_nav() == Some(Nav::Confirm) {
            match self.unsatisfied_pick_one() {
                None => match self.begin_install() {
                    Some(work) => Action::Install(work),
                    None => Action::Nothing,
                },
                Some(title) => {
                    let mut notice = owned("Pick at least one from:");
                    notice.append(title.as_str());
                    self.notice = Some(notice);
                    Action::Nothing
                },
            }
        } else {
            Action::Nothing
        }
    }

    fn summary_key(&mut self, key: Key) -> (action: Action)
        requires
            old(self).wf(),
        ensures
            final(self).wf(),
            summary_step(*old(self), key, *final(self), action),
    {
        if key == Key::Char('q') || key == Key::Esc {
            Action::Quit
        } else if key == Key::Enter {
            self.begin_scan();
            Action::Scan
        } else {
            Action::Nothing
        }
    }

    /// Takes in one key press on the current screen and says what the front
    /// end must do next.
    pub fn handle_key(&mut self, key: Key) -> (action: Action)
        requires
            old(self).wf(),
        ensures
            final(self).wf(),
            key_transition(*old(self), key, *final(self), action),
    {
        match self.screen {
            Screen::Welcome => self.welcome_key(key),
            Screen::Distro => self.distro_key(key),
            Screen::Scan => self.scan_key(key),
            Screen::Install => Action::Nothing,
            Screen::Summary => self.summary_key(key),
        }
    }
}

} // verus!
