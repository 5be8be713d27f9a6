//! Properties of the screens that hold across key presses and messages.
use vstd::prelude::*;

use crate::app::{
    box_rows, boxes_view, collapse_step, first_row_of, install_started, key_transition, moved,
    row_section, rows_upto, wrap_move, Action, App, Key, Nav, Screen,
};
use crate::detect::Env;
use crate::exec::ExecView;
use crate::software::{resolve_spec, Location, RawBlock, RawSoftware, Rule, Software};
use crate::tasks::{components_spec, uses_apt, uses_brew, Platform as TaskPlatform};

verus! {

/// On the scan screen after the scan, every missing tool of a required
/// section is selected.
pub open spec fn required_locked(a: App) -> bool {
    a.screen == Screen::Scan && a.scan_done ==> forall|i: int|
        0 <= i < a.items@.len() && a.missing(i) && a.rule_spec(i) == Rule::Required
            ==> #[trigger] a.selected@[i]
}

/// On the scan screen only missing tools are selected.
pub open spec fn only_missing_selected(a: App) -> bool {
    a.screen == Screen::Scan ==> forall|i: int|
        0 <= i < a.items@.len() && #[trigger] a.selected@[i] ==> a.missing(i)
}

/// A required tool that is missing cannot be cleared: once the scan has
/// locked the missing required tools in, no key press unselects one while
/// the scan screen shows the result.
pub proof fn lemma_required_stay_selected(old: App, key: Key, new: App, action: Action)
    requires
        old.wf(),
        key_transition(old, key, new, action),
        required_locked(old),
    ensures
        required_locked(new),
{
    if new.screen == Screen::Scan && new.scan_done {
        assert(old.screen == Screen::Scan);
        assert(old.scan_done);
        assert(new.items == old.items && new.sections == old.sections && new.states == old.states);
        assert forall|i: int|
            0 <= i < new.items@.len() && new.missing(i) && new.rule_spec(i)
                == Rule::Required implies #[trigger] new.selected@[i] by {
            assert(old.missing(i) && old.rule_spec(i) == Rule::Required);
            assert(old.selected@[i]);
            if key == Key::Char(' ') {
                assert(crate::app::space_step(old, new));
                crate::app::lemma_rows_in_range(old);
                match old.cursor_nav_spec() {
                    Some(Nav::Item(j)) => {
                        assert(old.rows_spec()[old.cursor as int] == Nav::Item(j));
                        assert(j < old.items@.len());
                        if j as int == i {
                            assert(new.selected@ == old.selected@);
                        } else {
                            assert(new.selected@[i] == old.selected@[i]);
                        }
                    },
                    _ => {},
                }
            }
        }
    }
}

/// Only missing tools can be selected: the scan starts with nothing selected
/// and Space only ticks a tool that is missing.
pub proof fn lemma_only_missing_selected(old: App, key: Key, new: App, action: Action)
    requires
        old.wf(),
        key_transition(old, key, new, action),
        only_missing_selected(old),
    ensures
        only_missing_selected(new),
{
    if new.screen == Screen::Scan {
        if old.screen == Screen::Scan && !(key == Key::Char('r') && old.scan_done) {
            assert(new.items == old.items && new.states == old.states);
            assert forall|i: int|
                0 <= i < new.items@.len() && #[trigger] new.selected@[i] implies new.missing(i) by {
                if key == Key::Char(' ') && old.scan_done {
                    assert(crate::app::space_step(old, new));
                    crate::app::lemma_rows_in_range(old);
                    match old.cursor_nav_spec() {
                        Some(Nav::Item(j)) => {
                            assert(old.rows_spec()[old.cursor as int] == Nav::Item(j));
                            assert(j < old.items@.len());
                            if j as int != i {
                                assert(new.selected@[i] == old.selected@[i]);
                                assert(old.selected@[i]);
                            } else if !(old.missing(i) && old.rule_spec(i) != Rule::Required) {
                                assert(new.selected@ == old.selected@);
                                assert(old.selected@[i]);
                            }
                        },
                        _ => {},
                    }
                } else {
                    assert(old.selected@[i]);
                }
            }
        }
    }
}

/// An install starts only from the scan screen after the scan, on Enter
/// with the cursor on the Confirm button, when no pick-one section is left
/// unsatisfied, and it runs exactly the
/// install steps of the selected tools, in item order. With
/// [`only_missing_selected`], it never reinstalls a tool that is present;
/// with [`required_locked`], every missing required tool is among them.
pub proof fn lemma_install_only_when_satisfied(
    old: App,
    key: Key,
    new: App,
    w: Vec<(String, String, crate::exec::Exec)>,
)
    requires
        old.wf(),
        key_transition(old, key, new, Action::Install(w)),
    ensures
        old.screen == Screen::Scan,
        old.scan_done,
        key == Key::Enter,
        old.cursor_nav_spec() == Some(Nav::Confirm),
        old.first_unsatisfied_from(0) is None,
        old.any_selected(),
        crate::app::work_view(w@) == old.plan(),
        install_started(old, new),
        only_missing_selected(old) ==> forall|i: int|
            0 <= i < old.items@.len() && #[trigger] old.selected@[i] ==> old.missing(i),
        required_locked(old) ==> forall|i: int|
            0 <= i < old.items@.len() && old.missing(i) && old.rule_spec(i) == Rule::Required
                ==> #[trigger] old.selected@[i],
{
}

/// The scan results lock in exactly the missing required tools: after the
/// scan-done message every missing required tool is selected and nothing
/// else is.
pub proof fn lemma_scan_done_selection(old: App, new: App)
    requires
        old.screen == Screen::Scan,
        new == (App { selected: new.selected, scan_done: true, ..old }),
        new.selected@ == Seq::new(
            old.items@.len(),
            |i: int| old.missing(i) && old.rule_spec(i) == Rule::Required,
        ),
    ensures
        required_locked(new),
        only_missing_selected(new),
{
}

/// Moving the scan cursor down one row and back up returns it to where it
/// was, and the cursor always stays on a row.
pub proof fn lemma_move_round_trip(a: App)
    requires
        a.wf(),
        0 < a.rows_spec().len() <= usize::MAX,
    ensures
        moved(moved(a, 1), -1) == a,
        moved(a, 1).cursor < a.rows_spec().len(),
        moved(a, -1).cursor < a.rows_spec().len(),
{
    let len = a.rows_spec().len() as int;
    let c = a.cursor as int;
    assert(c < len);
    vstd::arithmetic::div_mod::lemma_mod_bound(c + 1, len);
    vstd::arithmetic::div_mod::lemma_mod_bound(c - 1, len);
    let b = moved(a, 1);
    assert(b.rows_spec() == a.rows_spec());
    if c + 1 < len {
        vstd::arithmetic::div_mod::lemma_small_mod((c + 1) as nat, len as nat);
        vstd::arithmetic::div_mod::lemma_small_mod(c as nat, len as nat);
    } else {
        vstd::arithmetic::div_mod::lemma_mod_self_0(len);
        vstd::arithmetic::div_mod::lemma_mod_add_multiples_vanish(-1, len);
        vstd::arithmetic::div_mod::lemma_small_mod((len - 1) as nat, len as nat);
    }
    assert(b.cursor as int == wrap_move(c, 1, len));
    assert(moved(b, -1).cursor as int == wrap_move(b.cursor as int, -1, len));
    assert(moved(b, -1).cursor == a.cursor);
    assert(moved(b, -1) == a);
}

/// Moving the distro cursor down and back up returns it to where it was.
pub proof fn lemma_distro_round_trip(c: int, len: int)
    requires
        0 <= c < len,
    ensures
        (((c + 1) % len) + len - 1) % len == c,
        0 <= (c + 1) % len < len,
        0 <= (c + len - 1) % len < len,
{
    vstd::arithmetic::div_mod::lemma_mod_bound(c + 1, len);
    vstd::arithmetic::div_mod::lemma_mod_bound(c + len - 1, len);
    if c + 1 < len {
        vstd::arithmetic::div_mod::lemma_small_mod((c + 1) as nat, len as nat);
        vstd::arithmetic::div_mod::lemma_mod_add_multiples_vanish(c, len);
        vstd::arithmetic::div_mod::lemma_small_mod(c as nat, len as nat);
    } else {
        vstd::arithmetic::div_mod::lemma_mod_self_0(len);
        vstd::arithmetic::div_mod::lemma_small_mod((len - 1) as nat, len as nat);
    }
}

/// Switching the welcome button twice selects the same button again.
pub proof fn lemma_welcome_switch_twice(a: App, b: App, c: App, k1: Key, k2: Key, x1: Action, x2: Action)
    requires
        a.wf(),
        a.screen == Screen::Welcome,
        k1 == Key::Left || k1 == Key::Right || k1 == Key::Tab,
        k2 == Key::Left || k2 == Key::Right || k2 == Key::Tab,
        key_transition(a, k1, b, x1),
        key_transition(b, k2, c, x2),
    ensures
        c == a,
{
}

proof fn lemma_rows_prefix(boxes: Seq<(usize, Seq<usize>)>, collapsed: Seq<bool>, m: int, n: int)
    requires
        0 <= m <= n,
    ensures
        rows_upto(boxes, collapsed, m).len() <= rows_upto(boxes, collapsed, n).len(),
        forall|k: int|
            0 <= k < rows_upto(boxes, collapsed, m).len() ==> #[trigger] rows_upto(
                boxes,
                collapsed,
                n,
            )[k] == rows_upto(boxes, collapsed, m)[k],
    decreases n - m,
{
    if m < n {
        lemma_rows_prefix(boxes, collapsed, m, n - 1);
    }
}

proof fn lemma_first_row_found(items: Seq<Software>, rows: Seq<Nav>, sec: usize, k: int, k0: int)
    requires
        0 <= k <= k0 < rows.len(),
        row_section(items, rows[k0]) == Some(sec),
    ensures
        first_row_of(items, rows, sec, k) matches Some(j) && 0 <= j < rows.len() && row_section(
            items,
            rows[j],
        ) == Some(sec),
    decreases k0 - k,
{
    if row_section(items, rows[k]) != Some(sec) {
        lemma_first_row_found(items, rows, sec, k + 1, k0);
    }
}

/// Expanding or collapsing a section that is shown keeps the cursor on that
/// section: on its header when collapsed, on one of its tools when expanded.
pub proof fn lemma_collapse_keeps_cursor_on_section(old: App, new: App, sec: usize, want: bool, b: int)
    requires
        old.wf(),
        new.wf(),
        sec < old.sections@.len(),
        collapse_step(old, new, sec, want),
        old.sections@[sec as int].collapsible,
        old.collapsed@[sec as int] != want,
        0 <= b < old.boxes@.len(),
        old.boxes@[b].0 == sec,
        new.rows_spec().len() <= usize::MAX,
    ensures
        new.cursor < new.rows_spec().len(),
        row_section(new.items@, new.rows_spec()[new.cursor as int]) == Some(sec),
{
    let bv = boxes_view(new.boxes@);
    let n = new.boxes@.len() as int;
    let list = new.list_rows();
    let rows = new.rows_spec();
    let before = rows_upto(bv, new.collapsed@, b);
    let here = box_rows(bv[b], new.collapsed@);
    assert(rows_upto(bv, new.collapsed@, b + 1) == before + here);
    assert(bv[b] == (new.boxes@[b].0, new.boxes@[b].1@));
    assert(here.len() > 0);
    assert(new.boxes@[b].1@.len() > 0);
    assert(new.boxes@[b].1@[0] < new.items@.len());
    assert(row_section(new.items@, here[0]) == Some(sec));
    lemma_rows_prefix(bv, new.collapsed@, b + 1, n);
    let k0 = before.len() as int;
    assert(rows_upto(bv, new.collapsed@, b + 1)[k0] == here[0]);
    assert(list[k0] == here[0]);
    assert(rows[k0] == list[k0]);
    lemma_first_row_found(new.items@, rows, sec, 0, k0);
}

/// The command block a CLI tool uses off macOS: its Linux block when it has
/// one, else its `any` block.
pub open spec fn linux_block(raw: RawSoftware) -> Option<RawBlock> {
    match raw.linux {
        Some(b) => Some(b),
        None => raw.any,
    }
}

/// Off macOS a CLI tool runs its Linux commands: on a Windows host (inside
/// the WSL distro) and on a Linux server it resolves exactly as on a Linux
/// desktop, and its install steps are the commands of its Linux block (else
/// its `any` block), in order; the macOS block is never used there.
pub proof fn lemma_cli_uses_linux_commands(raw: RawSoftware, section: usize, env: Env)
    requires
        env != Env::Macos,
    ensures
        resolve_spec(raw, section, false, env) == resolve_spec(raw, section, false, Env::LinuxDesktop),
        resolve_spec(raw, section, false, env) is Some <==> linux_block(raw) is Some,
        resolve_spec(raw, section, false, env) matches Some(sw) ==> {
            &&& sw.location == Location::Dev
            &&& sw.install.len() == linux_block(raw).unwrap().install@.len()
            &&& forall|k: int|
                0 <= k < sw.install.len() ==> #[trigger] sw.install[k].cmd == linux_block(
                    raw,
                ).unwrap().install@[k].cmd@
        },
{
}

/// A pick-one section blocks the install exactly when it holds tools on this
/// platform and none of them is installed or selected: a section whose tools
/// were all dropped here (GUI apps on a server) never blocks.
pub proof fn lemma_pick_one_blocks_only_with_tools(a: App)
    requires
        a.wf(),
    ensures
        a.first_unsatisfied_from(0) matches Some(si) ==> {
            &&& 0 <= si < a.sections@.len()
            &&& a.sections@[si].rule == Rule::PickOne
            &&& exists|i: int| 0 <= i < a.items@.len() && #[trigger] a.items@[i].section == si
            &&& forall|i: int|
                0 <= i < a.items@.len() && #[trigger] a.items@[i].section == si ==> !a.installed(i)
                    && !a.selected@[i]
        },
        a.first_unsatisfied_from(0) is None <==> forall|si: int|
            0 <= si < a.sections@.len() && a.sections@[si].rule == Rule::PickOne && (exists|i: int|
                0 <= i < a.items@.len() && #[trigger] a.items@[i].section == si) ==> exists|i: int|
                0 <= i < a.items@.len() && #[trigger] a.items@[i].section == si && (a.installed(i)
                    || a.selected@[i]),
{
    lemma_first_unsatisfied(a, 0);
    if a.first_unsatisfied_from(0) is None {
        assert forall|si: int|
            0 <= si < a.sections@.len() && a.sections@[si].rule == Rule::PickOne && (exists|i: int|
                0 <= i < a.items@.len() && #[trigger] a.items@[i].section == si) implies exists|i: int|
                0 <= i < a.items@.len() && #[trigger] a.items@[i].section == si && (a.installed(i)
                    || a.selected@[i]) by {
            assert(!a.section_unsatisfied(si));
        }
    } else {
        let si = a.first_unsatisfied_from(0).unwrap();
        assert(a.section_unsatisfied(si));
        if forall|s2: int|
            0 <= s2 < a.sections@.len() && a.sections@[s2].rule == Rule::PickOne && (exists|i: int|
                0 <= i < a.items@.len() && #[trigger] a.items@[i].section == s2) ==> exists|i: int|
                0 <= i < a.items@.len() && #[trigger] a.items@[i].section == s2 && (a.installed(i)
                    || a.selected@[i]) {
            let i = choose|i: int|
                0 <= i < a.items@.len() && #[trigger] a.items@[i].section == si && (a.installed(i)
                    || a.selected@[i]);
            assert(false);
        }
    }
}

proof fn lemma_first_unsatisfied(a: App, k: int)
    requires
        0 <= k,
    ensures
        a.first_unsatisfied_from(k) matches Some(si) ==> k <= si < a.sections@.len()
            && a.section_unsatisfied(si),
        a.first_unsatisfied_from(k) is None ==> forall|si: int|
            k <= si < a.sections@.len() ==> !#[trigger] a.section_unsatisfied(si),
    decreases a.sections@.len() - k,
{
    if k < a.sections@.len() && !a.section_unsatisfied(k) {
        lemma_first_unsatisfied(a, k + 1);
        assert forall|si: int| k <= si < a.sections@.len() && a.first_unsatisfied_from(k) is None
            implies !#[trigger] a.section_unsatisfied(si) by {
            if si > k {
                assert(!a.section_unsatisfied(si));
            }
        }
    }
}

/// Space flips the selection of a missing tool whose section is not
/// required, in optional and pick-one sections alike: the first press
/// changes that tool's tick and no other, and a second press on the same row
/// restores the selection.
pub proof fn lemma_space_toggles(
    a: App,
    b: App,
    c: App,
    x1: Action,
    x2: Action,
    i: usize,
)
    requires
        a.wf(),
        a.screen == Screen::Scan,
        a.scan_done,
        a.cursor_nav_spec() == Some(Nav::Item(i)),
        a.missing(i as int),
        a.rule_spec(i as int) != Rule::Required,
        key_transition(a, Key::Char(' '), b, x1),
        key_transition(b, Key::Char(' '), c, x2),
    ensures
        b.selected@.len() == a.selected@.len(),
        b.selected@[i as int] == !a.selected@[i as int],
        forall|j: int| 0 <= j < a.selected@.len() && j != i ==> b.selected@[j] == a.selected@[j],
        c.selected@ == a.selected@,
{
    crate::app::lemma_rows_in_range(a);
    assert(a.rows_spec()[a.cursor as int] == Nav::Item(i));
    assert(i < a.items@.len());
    assert(crate::app::space_step(a, b));
    assert(b.cursor_nav_spec() == a.cursor_nav_spec());
    assert(crate::app::space_step(b, c));
    assert(c.selected@ =~= a.selected@);
}

/// `w` is install step `t` of a selected tool `j` among the first `n`, run
/// where tool `j`'s commands run.
pub open spec fn step_of_selected(a: App, n: int, w: (Seq<char>, Seq<char>, ExecView)) -> bool {
    exists|j: int, t: int|
        0 <= j < n && a.selected@[j] && 0 <= t < a.items@[j]@.install.len() && w == (
            #[trigger] a.items@[j]@.install[t].title,
            a.items@[j]@.install[t].cmd,
            a.exec_spec(j),
        )
}

/// Every planned install step among the first `n` tools is a step of a
/// selected one of them, and it runs where that tool's commands run, the
/// place its check runs too.
pub proof fn lemma_plan_steps_run_where_checked(a: App, n: int)
    requires
        0 <= n <= a.items@.len(),
        a.selected@.len() == a.items@.len(),
    ensures
        forall|k: int|
            0 <= k < a.plan_upto(n).len() ==> step_of_selected(a, n, #[trigger] a.plan_upto(n)[k]),
    decreases n,
{
    if n > 0 {
        lemma_plan_steps_run_where_checked(a, n - 1);
        let rest = a.plan_upto(n - 1);
        let cur = a.plan_upto(n);
        let here = a.items@[n - 1]@.install.map_values(
            |s: crate::software::StepView| (s.title, s.cmd, a.exec_spec(n - 1)),
        );
        if a.selected@[n - 1] {
            assert(cur == rest + here);
        } else {
            assert(cur == rest);
        }
        assert forall|k: int| 0 <= k < cur.len() implies step_of_selected(a, n, #[trigger] cur[k]) by {
            if k < rest.len() {
                assert(cur[k] == rest[k]);
                assert(step_of_selected(a, n - 1, rest[k]));
                let (j, t) = choose|j: int, t: int|
                    0 <= j < n - 1 && a.selected@[j] && 0 <= t < a.items@[j]@.install.len()
                        && rest[k] == (
                        #[trigger] a.items@[j]@.install[t].title,
                        a.items@[j]@.install[t].cmd,
                        a.exec_spec(j),
                    );
                assert(a.items@[j]@.install[t].title == a.items@[j]@.install[t].title);
            } else {
                let t = k - rest.len();
                assert(cur[k] == here[t]);
                let s = a.items@[n - 1]@.install[t];
                assert(cur[k] == (a.items@[n - 1]@.install[t].title, s.cmd, a.exec_spec(n - 1)));
            }
        }
    }
}

/// Every install step of every selected tool among the first `n` is in the
/// plan, run where that tool's commands run.
pub proof fn lemma_selected_steps_are_planned(a: App, n: int)
    requires
        0 <= n <= a.items@.len(),
        a.selected@.len() == a.items@.len(),
    ensures
        forall|j: int, t: int|
            0 <= j < n && a.selected@[j] && 0 <= t < a.items@[j]@.install.len() ==> a.plan_upto(
                n,
            ).contains(
                (#[trigger] a.items@[j]@.install[t].title, a.items@[j]@.install[t].cmd, a.exec_spec(j)),
            ),
    decreases n,
{
    if n > 0 {
        lemma_selected_steps_are_planned(a, n - 1);
        let rest = a.plan_upto(n - 1);
        let cur = a.plan_upto(n);
        let here = a.items@[n - 1]@.install.map_values(
            |s: crate::software::StepView| (s.title, s.cmd, a.exec_spec(n - 1)),
        );
        if a.selected@[n - 1] {
            assert(cur == rest + here);
        } else {
            assert(cur == rest);
        }
        assert forall|j: int, t: int|
            0 <= j < n && a.selected@[j] && 0 <= t < a.items@[j]@.install.len() implies cur.contains(
                (#[trigger] a.items@[j]@.install[t].title, a.items@[j]@.install[t].cmd, a.exec_spec(j)),
            ) by {
            let w = (a.items@[j]@.install[t].title, a.items@[j]@.install[t].cmd, a.exec_spec(j));
            if j < n - 1 {
                assert(rest.contains(w));
                let k = choose|k: int| 0 <= k < rest.len() && rest[k] == w;
                assert(cur[k] == w);
            } else {
                assert(cur[rest.len() + t] == here[t]);
                assert(cur[rest.len() + t] == w);
            }
        }
    }
}

/// The whole install plan: every step belongs to a selected tool and runs
/// where that tool is checked, and every step of a selected tool is planned; on a Windows host a desktop application's
/// steps run on the host through `cmd`, never inside the WSL distro.
pub proof fn lemma_install_runs_where_checked(a: App)
    requires
        a.wf(),
    ensures
        forall|k: int|
            0 <= k < a.plan().len() ==> step_of_selected(
                a,
                a.items@.len() as int,
                #[trigger] a.plan()[k],
            ),
        forall|j: int, t: int|
            0 <= j < a.items@.len() && a.selected@[j] && 0 <= t < a.items@[j]@.install.len()
                ==> a.plan().contains(
                (#[trigger] a.items@[j]@.install[t].title, a.items@[j]@.install[t].cmd, a.exec_spec(j)),
            ),
        forall|j: int|
            0 <= j < a.items@.len() && a.platform.env == Env::WindowsHost && a.items@[j].location
                == Location::Host ==> #[trigger] a.exec_spec(j) == ExecView::WinCmd,
{
    lemma_plan_steps_run_where_checked(a, a.items@.len() as int);
    lemma_selected_steps_are_planned(a, a.items@.len() as int);
    assert(a.plan() == a.plan_upto(a.items@.len() as int));
}

/// Each package step of the core and Go components first probes for the
/// very tool it installs, then installs that package with the platform's
/// package manager (Homebrew, else apt).
pub proof fn lemma_package_steps_probe_their_tool(p: TaskPlatform)
    ensures
        ({
            let core = components_spec(p)[0].steps;
            let off: int = if uses_apt(p) { 1 } else { 0 };
            &&& core[off] == ("Install git"@, if uses_brew(p) {
                "command -v git >/dev/null 2>&1 || brew install git"@
            } else {
                "command -v git >/dev/null 2>&1 || sudo apt-get install -y git"@
            })
            &&& core[off + 1] == ("Install GitHub CLI"@, if uses_brew(p) {
                "command -v gh >/dev/null 2>&1 || brew install gh"@
            } else {
                "command -v gh >/dev/null 2>&1 || sudo apt-get install -y gh"@
            })
            &&& components_spec(p)[3].steps[0] == ("Install Go"@, if uses_brew(p) {
                "command -v go >/dev/null 2>&1 || brew install go"@
            } else {
                "command -v go >/dev/null 2>&1 || sudo apt-get install -y golang-go"@
            })
        }),
{
    reveal_strlit("command -v ");
    reveal_strlit(" >/dev/null 2>&1 || brew install ");
    reveal_strlit(" >/dev/null 2>&1 || sudo apt-get install -y ");
    reveal_strlit("git");
    reveal_strlit("gh");
    reveal_strlit("go");
    reveal_strlit("golang-go");
    reveal_strlit("command -v git >/dev/null 2>&1 || brew install git");
    reveal_strlit("command -v git >/dev/null 2>&1 || sudo apt-get install -y git");
    reveal_strlit("command -v gh >/dev/null 2>&1 || brew install gh");
    reveal_strlit("command -v gh >/dev/null 2>&1 || sudo apt-get install -y gh");
    reveal_strlit("command -v go >/dev/null 2>&1 || brew install go");
    reveal_strlit("command -v go >/dev/null 2>&1 || sudo apt-get install -y golang-go");
    let core = components_spec(p)[0].steps;
    let off: int = if uses_apt(p) { 1 } else { 0 };
    assert(components_spec(p)[0] == crate::tasks::core_spec(p));
    assert(components_spec(p)[3] == crate::tasks::go_spec(p));
    assert(core[off] == ("Install git"@, crate::tasks::pkg_install_spec(p, "git"@, "git"@, "git"@)));
    assert(core[off + 1] == ("Install GitHub CLI"@, crate::tasks::pkg_install_spec(p, "gh"@, "gh"@, "gh"@)));
    assert(crate::tasks::pkg_install_spec(p, "git"@, "git"@, "git"@) =~= if uses_brew(p) {
        "command -v git >/dev/null 2>&1 || brew install git"@
    } else {
        "command -v git >/dev/null 2>&1 || sudo apt-get install -y git"@
    });
    assert(crate::tasks::pkg_install_spec(p, "gh"@, "gh"@, "gh"@) =~= if uses_brew(p) {
        "command -v gh >/dev/null 2>&1 || brew install gh"@
    } else {
        "command -v gh >/dev/null 2>&1 || sudo apt-get install -y gh"@
    });
    assert(crate::tasks::pkg_install_spec(p, "go"@, "golang-go"@, "go"@) =~= if uses_brew(p) {
        "command -v go >/dev/null 2>&1 || brew install go"@
    } else {
        "command -v go >/dev/null 2>&1 || sudo apt-get install -y golang-go"@
    });
}

} // verus!
