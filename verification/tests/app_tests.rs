use onboarding_tui::app::{
    Action, App, ItemState, Key, Msg, MsgEffect, Nav, ScanWork, Screen, StepState,
};
use onboarding_tui::detect::{Env, Platform};
use onboarding_tui::exec::Exec;
use onboarding_tui::software::{Location, Rule, SectionDef, Software, Step};

fn sec(title: &str, rule: Rule, collapsible: bool) -> SectionDef {
    SectionDef { title: title.to_string(), rule, collapsible }
}

fn tool(name: &str, section: usize, location: Location, steps: &[&str], follow: &[&str]) -> Software {
    Software {
        name: name.to_string(),
        description: format!("about {name}"),
        section,
        preferred: false,
        location,
        check: format!("{name} --version"),
        install: steps
            .iter()
            .map(|c| Step { title: format!("Install {name}"), cmd: c.to_string() })
            .collect(),
        follow_up: follow.iter().map(|f| f.to_string()).collect(),
    }
}

/// Sections: 0 Required, 1 Editors (pick one), 2 Empty (optional), 3 Kubernetes (collapsible).
fn app_on(env: Env, dry_run: bool) -> App {
    let sections = vec![
        sec(" Required ", Rule::Required, false),
        sec(" Editors ", Rule::PickOne, false),
        sec(" Empty ", Rule::Optional, false),
        sec(" Kubernetes ", Rule::Optional, true),
    ];
    let items = vec![
        tool("git", 0, Location::Dev, &["apt install git"], &["gh auth login"]),
        tool("VS Code", 1, Location::Host, &["brew install code"], &[]),
        tool("Zed", 1, Location::Host, &["brew install zed", "zed --setup"], &["zed login"]),
        tool("k9s", 3, Location::Dev, &["brew install k9s"], &[]),
        tool("kubectl", 3, Location::Dev, &["brew install kubectl"], &[]),
    ];
    let platform = Platform { arch: "x86_64", wsl: false, env, wsl_distro: None };
    App::new(dry_run, platform, sections, items)
}

fn scanned(results: &[Option<&str>]) -> App {
    let mut app = app_on(Env::Macos, false);
    assert!(matches!(app.handle_key(Key::Enter), Action::Scan));
    for (i, r) in results.iter().enumerate() {
        let e = app.receive(Msg::Check(i, r.map(|s| s.to_string())));
        assert_eq!(e, MsgEffect::Continue);
    }
    assert_eq!(app.receive(Msg::ScanDone), MsgEffect::ScanFinished);
    app
}

#[test]
fn new_builds_boxes_and_collapses_collapsible_sections() {
    let app = app_on(Env::Macos, false);
    let boxes: Vec<(usize, Vec<usize>)> = app.boxes.clone();
    assert_eq!(boxes, vec![(0, vec![0]), (1, vec![1, 2]), (3, vec![3, 4])]);
    assert_eq!(app.collapsed, vec![false, false, false, true]);
    assert_eq!(app.screen, Screen::Welcome);
    assert!(app.states.iter().all(|s| matches!(s, ItemState::Checking)));
    assert!(app.selected.iter().all(|s| !s));
    assert_eq!(
        app.nav_rows(),
        vec![Nav::Item(0), Nav::Item(1), Nav::Item(2), Nav::Header(3), Nav::Confirm]
    );
}

#[test]
fn welcome_buttons_and_quit() {
    let mut app = app_on(Env::Macos, false);
    assert!(matches!(app.handle_key(Key::Right), Action::Nothing));
    assert_eq!(app.welcome_btn, 1);
    assert!(matches!(app.handle_key(Key::Tab), Action::Nothing));
    assert_eq!(app.welcome_btn, 0);
    assert!(matches!(app.handle_key(Key::Char('l')), Action::Nothing));
    assert!(matches!(app.handle_key(Key::Enter), Action::Quit));
    let mut app = app_on(Env::Macos, false);
    assert!(matches!(app.handle_key(Key::Esc), Action::Quit));
    assert!(matches!(app.handle_key(Key::Char('x')), Action::Nothing));
}

#[test]
fn windows_host_picks_a_distro_first() {
    let mut app = app_on(Env::WindowsHost, false);
    assert!(matches!(app.handle_key(Key::Enter), Action::ChooseDistro));
    assert_eq!(app.screen, Screen::Welcome);
    app.show_distros(vec!["Ubuntu".to_string(), "Debian".to_string(), "Alpine".to_string()]);
    assert_eq!(app.screen, Screen::Distro);
    app.handle_key(Key::Up);
    assert_eq!(app.distro_cursor, 2);
    app.handle_key(Key::Char('j'));
    assert_eq!(app.distro_cursor, 0);
    app.handle_key(Key::Down);
    assert_eq!(app.distro_cursor, 1);
    assert!(matches!(app.handle_key(Key::Enter), Action::Scan));
    assert_eq!(app.platform.wsl_distro.as_deref(), Some("Debian"));
    assert_eq!(app.screen, Screen::Scan);
    // Dev tools run inside the distro, GUI apps on the host.
    assert!(matches!(app.exec_for(0), Exec::Wsl(ref d) if d == "Debian"));
    assert!(matches!(app.exec_for(1), Exec::WinCmd));
}

#[test]
fn empty_distro_list_cannot_be_picked() {
    let mut app = app_on(Env::WindowsHost, false);
    app.show_distros(Vec::new());
    assert!(matches!(app.handle_key(Key::Up), Action::Nothing));
    assert!(matches!(app.handle_key(Key::Enter), Action::Nothing));
    assert_eq!(app.screen, Screen::Distro);
    assert!(matches!(app.handle_key(Key::Esc), Action::Nothing));
    assert_eq!(app.screen, Screen::Welcome);
    app.show_distros(Vec::new());
    assert!(matches!(app.handle_key(Key::Char('q')), Action::Quit));
}

#[test]
fn scan_done_locks_in_missing_required_tools() {
    let app = scanned(&[None, Some("1.90"), None, None, Some("v1.30")]);
    assert!(app.scan_done);
    assert_eq!(app.selected, vec![true, false, false, false, false]);
    assert!(matches!(&app.states[1], ItemState::Installed(d) if d == "1.90"));
}

#[test]
fn space_toggles_optional_but_not_required() {
    let mut app = scanned(&[None, None, None, None, None]);
    // Cursor on git (required, missing): locked.
    app.handle_key(Key::Char(' '));
    assert!(app.selected[0]);
    app.handle_key(Key::Down);
    app.handle_key(Key::Char(' '));
    assert!(app.selected[1]);
    app.handle_key(Key::Char(' '));
    assert!(!app.selected[1]);
}

#[test]
fn installed_tools_cannot_be_selected() {
    let mut app = scanned(&[None, Some("1.0"), None, None, None]);
    app.handle_key(Key::Down);
    app.handle_key(Key::Char(' '));
    assert!(!app.selected[1]);
}

#[test]
fn space_is_ignored_while_scanning() {
    let mut app = app_on(Env::Macos, false);
    app.handle_key(Key::Enter);
    app.handle_key(Key::Down);
    app.handle_key(Key::Char(' '));
    assert!(app.selected.iter().all(|s| !s));
    assert!(matches!(app.handle_key(Key::Char('r')), Action::Nothing));
    assert!(matches!(app.handle_key(Key::Enter), Action::Nothing));
}

#[test]
fn cursor_wraps_and_returns() {
    let mut app = scanned(&[None, None, None, None, None]);
    assert_eq!(app.cursor, 0);
    app.handle_key(Key::Up);
    assert_eq!(app.cursor, 4);
    assert_eq!(app.cursor_nav(), Some(Nav::Confirm));
    app.handle_key(Key::Char('k'));
    assert_eq!(app.cursor_nav(), Some(Nav::Header(3)));
    app.handle_key(Key::Char('j'));
    app.handle_key(Key::Char('j'));
    assert_eq!(app.cursor, 0);
    app.move_row(6);
    assert_eq!(app.cursor, 1);
    app.move_row(-7);
    assert_eq!(app.cursor, 4);
}

#[test]
fn expanding_and_collapsing_keeps_the_cursor_on_the_section() {
    let mut app = scanned(&[None, None, None, None, None]);
    app.handle_key(Key::Up);
    app.handle_key(Key::Up);
    assert_eq!(app.cursor_nav(), Some(Nav::Header(3)));
    app.handle_key(Key::Right);
    assert_eq!(app.collapsed[3], false);
    assert_eq!(app.cursor_nav(), Some(Nav::Item(3)));
    app.handle_key(Key::Down);
    assert_eq!(app.cursor_item(), Some(4));
    app.handle_key(Key::Char('h'));
    assert_eq!(app.collapsed[3], true);
    assert_eq!(app.cursor_nav(), Some(Nav::Header(3)));
    // Space on a collapsed header expands it.
    app.handle_key(Key::Char(' '));
    assert_eq!(app.collapsed[3], false);
    assert_eq!(app.cursor_nav(), Some(Nav::Item(3)));
    // Sections that are not collapsible never collapse.
    app.set_collapsed(1, true);
    assert_eq!(app.collapsed[1], false);
}

#[test]
fn pick_one_must_be_satisfied_before_install() {
    let mut app = scanned(&[None, None, None, None, None]);
    assert_eq!(app.unsatisfied_pick_one(), Some("Editors".to_string()));
    app.handle_key(Key::Up);
    assert_eq!(app.cursor_nav(), Some(Nav::Confirm));
    assert!(matches!(app.handle_key(Key::Enter), Action::Nothing));
    assert_eq!(app.notice.as_deref(), Some("Pick at least one from:Editors"));
    assert_eq!(app.screen, Screen::Scan);
    // Selecting clears the notice and satisfies the section.
    app.handle_key(Key::Down);
    app.handle_key(Key::Down);
    app.handle_key(Key::Down);
    app.handle_key(Key::Char(' '));
    assert!(app.notice.is_none());
    // Enter on a tool row starts nothing.
    assert!(matches!(app.handle_key(Key::Enter), Action::Nothing));
    assert_eq!(app.screen, Screen::Scan);
    app.handle_key(Key::Down);
    app.handle_key(Key::Down);
    assert_eq!(app.cursor_nav(), Some(Nav::Confirm));
    match app.handle_key(Key::Enter) {
        Action::Install(work) => {
            let cmds: Vec<&str> = work.iter().map(|w| w.1.as_str()).collect();
            assert_eq!(cmds, vec!["apt install git", "brew install zed", "zed --setup"]);
            assert!(work.iter().all(|w| matches!(w.2, Exec::Bash)));
        }
        _ => panic!("expected an install"),
    }
    assert_eq!(app.screen, Screen::Install);
    assert_eq!(app.steps.len(), 3);
    assert!(app.steps.iter().all(|s| s.state == StepState::Pending));
    assert_eq!(app.follow_ups, vec!["gh auth login", "zed login"]);
}

#[test]
fn installed_editor_satisfies_pick_one() {
    let mut app = scanned(&[Some("git 2"), Some("1.9"), None, None, None]);
    assert_eq!(app.unsatisfied_pick_one(), None);
    // Nothing selected: Enter on Confirm does nothing.
    app.handle_key(Key::Up);
    assert_eq!(app.cursor_nav(), Some(Nav::Confirm));
    assert!(matches!(app.handle_key(Key::Enter), Action::Nothing));
    assert_eq!(app.screen, Screen::Scan);
}

#[test]
fn rescan_resets_and_escape_goes_home() {
    let mut app = scanned(&[None, None, None, None, None]);
    app.handle_key(Key::Up);
    app.handle_key(Key::Enter);
    assert!(app.notice.is_some());
    assert!(matches!(app.handle_key(Key::Char('r')), Action::Scan));
    assert!(app.notice.is_none());
    assert!(!app.scan_done);
    assert!(app.selected.iter().all(|s| !s));
    assert!(app.states.iter().all(|s| matches!(s, ItemState::Checking)));
    assert!(matches!(app.handle_key(Key::Esc), Action::Nothing));
    assert_eq!(app.screen, Screen::Welcome);
}

#[test]
fn install_progress_and_dry_run_summary() {
    let mut app = scanned(&[None, Some("1"), None, None, None]);
    // On a tool row Enter does nothing; on Confirm it starts the install.
    assert!(matches!(app.handle_key(Key::Enter), Action::Nothing));
    app.handle_key(Key::Up);
    let work = match app.handle_key(Key::Enter) {
        Action::Install(w) => w,
        _ => panic!("expected an install"),
    };
    assert_eq!(work.len(), 1);
    assert!(matches!(app.handle_key(Key::Char('q')), Action::Nothing));
    assert_eq!(app.receive(Msg::StepStart(0)), MsgEffect::Continue);
    assert_eq!(app.steps[0].state, StepState::Running);
    app.receive(Msg::Line("hello".to_string()));
    assert_eq!(app.log, vec!["hello"]);
    app.receive(Msg::StepDone(0, false));
    assert_eq!(app.steps[0].state, StepState::Failed);
    app.receive(Msg::StepDone(7, true));
    assert_eq!(app.receive(Msg::InstallDone), MsgEffect::InstallFinished);
    app.finish_dry_run_install();
    assert_eq!(app.screen, Screen::Summary);
    assert!(matches!(&app.states[0], ItemState::Installed(d) if d == "(dry-run)"));
    assert!(matches!(&app.states[1], ItemState::Installed(d) if d == "1"));
    assert!(matches!(&app.states[2], ItemState::Missing));
    assert!(matches!(app.handle_key(Key::Enter), Action::Scan));
    assert_eq!(app.screen, Screen::Scan);
}

#[test]
fn finish_install_applies_rechecks_in_order() {
    let mut app = scanned(&[None, None, None, None, None]);
    app.finish_install(vec![(0, Some("a".to_string())), (3, None), (0, Some("b".to_string()))]);
    assert_eq!(app.screen, Screen::Summary);
    assert!(matches!(&app.states[0], ItemState::Installed(d) if d == "b"));
    assert!(matches!(&app.states[3], ItemState::Missing));
    assert!(matches!(app.handle_key(Key::Esc), Action::Quit));
}

#[test]
fn check_jobs_cover_every_tool() {
    let app = app_on(Env::LinuxServer, false);
    let jobs = app.check_jobs();
    assert_eq!(jobs.len(), 5);
    assert_eq!(jobs[2].0, 2);
    assert_eq!(jobs[2].1, "Zed --version");
    assert!(matches!(jobs[2].2, Exec::Bash));
    assert_eq!(app.rule_of(1), Rule::PickOne);
}

#[test]
fn step_state_marks() {
    assert_eq!(StepState::Pending.symbol(), "·");
    assert_eq!(StepState::Running.symbol(), "…");
    assert_eq!(StepState::Done.symbol(), "✓");
    assert_eq!(StepState::Failed.symbol(), "✗");
}

#[test]
fn finish_follows_the_dry_run_flag() {
    let mut dry = app_on(Env::Macos, true);
    dry.handle_key(Key::Enter);
    for i in 0..5 {
        dry.receive(Msg::Check(i, None));
    }
    dry.receive(Msg::ScanDone);
    assert!(dry.recheck_jobs().is_empty());
    dry.finish(vec![(1, Some("ignored".to_string()))]);
    assert_eq!(dry.screen, Screen::Summary);
    assert!(matches!(&dry.states[0], ItemState::Installed(d) if d == "(dry-run)"));
    assert!(matches!(&dry.states[1], ItemState::Missing));

    let mut real = scanned(&[None, None, None, None, None]);
    assert_eq!(real.recheck_jobs().len(), 5);
    real.finish(vec![(1, Some("2.0".to_string())), (0, None)]);
    assert_eq!(real.screen, Screen::Summary);
    assert!(matches!(&real.states[0], ItemState::Missing));
    assert!(matches!(&real.states[1], ItemState::Installed(d) if d == "2.0"));
}

#[test]
fn dry_run_scan_reports_every_tool_missing_in_order() {
    let app = app_on(Env::Macos, true);
    match app.scan_work() {
        ScanWork::Simulated(msgs) => {
            assert_eq!(msgs.len(), 6);
            for (i, m) in msgs.iter().take(5).enumerate() {
                assert!(matches!(m, Msg::Check(j, None) if *j == i));
            }
            assert!(matches!(msgs[5], Msg::ScanDone));
        }
        ScanWork::Checks(_) => panic!("a dry run runs no check"),
    }
    let app = app_on(Env::Macos, false);
    match app.scan_work() {
        ScanWork::Checks(jobs) => {
            assert_eq!(jobs.len(), 5);
            assert_eq!(jobs[4].1, "kubectl --version");
        }
        ScanWork::Simulated(_) => panic!("a real scan runs the checks"),
    }
}
