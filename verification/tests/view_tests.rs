use onboarding_tui::app::{App, Key, Msg, StepState};
use onboarding_tui::detect::{Env, Platform};
use onboarding_tui::software::{Location, Rule, SectionDef, Software, Step};
use onboarding_tui::text::{contains_text, pad_right, text_eq, trim};
use onboarding_tui::theme::{self, Color, Style};
use onboarding_tui::view::{
    about_text, box_cursor, box_height, box_title, button_style, collapsed_text, confirm_button,
    cursor_box, decimal, distro_item, frame_area, header_selected, header_text, log_tail,
    scan_footer, scan_line, step_line, subtitle, summary_lines, visible_boxes, welcome_buttons,
    Area,
};

fn tool(name: &str, section: usize, preferred: bool) -> Software {
    Software {
        name: name.to_string(),
        description: format!("about {name}"),
        section,
        preferred,
        location: Location::Dev,
        check: String::new(),
        install: vec![Step { title: format!("Install {name}"), cmd: "true".to_string() }],
        follow_up: vec![format!("{name} login")],
    }
}

fn app() -> App {
    let sections = vec![
        SectionDef { title: " Required ".to_string(), rule: Rule::Required, collapsible: false },
        SectionDef { title: " Kubernetes ".to_string(), rule: Rule::Optional, collapsible: true },
    ];
    let items = vec![tool("git", 0, false), tool("k9s", 1, true), tool("Lens", 1, false)];
    let platform = Platform { arch: "arm64", wsl: false, env: Env::Macos, wsl_distro: None };
    App::new(true, platform, sections, items)
}

#[test]
fn frame_is_capped_and_centered() {
    let big = frame_area(Area { x: 0, y: 0, width: 200, height: 60 });
    assert_eq!(big, Area { x: 56, y: 11, width: 88, height: 38 });
    let small = frame_area(Area { x: 0, y: 0, width: 40, height: 10 });
    assert_eq!(small, Area { x: 2, y: 1, width: 36, height: 8 });
    let tiny = frame_area(Area { x: 3, y: 4, width: 2, height: 1 });
    assert_eq!(tiny, Area { x: 3, y: 4, width: 1, height: 1 });
}

#[test]
fn scrolling_keeps_the_cursor_box_visible() {
    let heights = vec![3u16, 5, 4, 6];
    assert_eq!(visible_boxes(&heights, 12, 0), (0, 2));
    assert_eq!(visible_boxes(&heights, 12, 3), (2, 3));
    assert_eq!(visible_boxes(&heights, 2, 1), (1, 1));
    assert_eq!(box_height(true, 10), 3);
    assert_eq!(box_height(false, 10), 12);
}

#[test]
fn numbers() {
    assert_eq!(decimal(0), "0");
    assert_eq!(decimal(7), "7");
    assert_eq!(decimal(1234567), "1234567");
}

#[test]
fn scan_lines() {
    let mut a = app();
    a.handle_key(Key::Enter);
    let l = scan_line(&a, 1);
    let text: Vec<&str> = l.iter().map(|s| s.text.as_str()).collect();
    assert_eq!(text, vec!["     ", "k9s                   ", "★ preferred ", "…"]);
    assert_eq!(l[1].style, Style { fg: None, bg: None, bold: true });
    a.receive(Msg::Check(0, None));
    a.receive(Msg::Check(1, Some("0.32".to_string())));
    a.receive(Msg::Check(2, None));
    a.receive(Msg::ScanDone);
    let git = scan_line(&a, 0);
    assert_eq!(git[0].text, " [X] ");
    let k9s = scan_line(&a, 1);
    assert_eq!(k9s[3].text, "0.32");
    assert_eq!(k9s[3].style, theme::good());
    let lens = scan_line(&a, 2);
    assert_eq!(lens[0].text, " [ ] ");
    assert_eq!(lens[3].text, "");
}

#[test]
fn box_titles_and_collapsed_text() {
    let mut a = app();
    assert_eq!(box_title(&a, 0), " Required ");
    assert_eq!(box_title(&a, 1), " ▸ Kubernetes ");
    a.collapsed[1] = false;
    assert_eq!(box_title(&a, 1), " ▾ Kubernetes ");
    let (t, s) = collapsed_text(12, true);
    assert_eq!(t, " > 12 tools — →/space to expand ");
    assert_eq!(s, theme::highlight());
    let (t, s) = collapsed_text(2, false);
    assert_eq!(t, "   2 tools — →/space to expand");
    assert_eq!(s, theme::dim());
}

#[test]
fn cursor_position_in_boxes() {
    let mut a = app();
    a.handle_key(Key::Enter);
    assert_eq!(cursor_box(&a), 0);
    assert_eq!(box_cursor(&a, 0), Some(0));
    assert_eq!(about_text(&a), "about git");
    a.handle_key(Key::Down);
    assert_eq!(cursor_box(&a), 1);
    assert!(header_selected(&a, 1));
    assert_eq!(box_cursor(&a, 1), None);
    assert_eq!(about_text(&a), "Optional tooling — expand to see what's inside.");
    a.handle_key(Key::Right);
    a.handle_key(Key::Down);
    assert_eq!(box_cursor(&a, 1), Some(1));
    assert!(!header_selected(&a, 1));
    // The Confirm button below the list keeps the last box in view.
    a.handle_key(Key::Down);
    assert_eq!(cursor_box(&a), 1);
    assert_eq!(box_cursor(&a, 1), None);
    assert_eq!(about_text(&a), "Install the selected tools.");
}

#[test]
fn confirm_button_lights_up_under_the_cursor() {
    let mut a = app();
    a.handle_key(Key::Enter);
    assert_eq!(confirm_button(&a), ("  Confirm  ".to_string(), theme::dim()));
    a.handle_key(Key::Up);
    assert_eq!(confirm_button(&a), ("  Confirm  ".to_string(), theme::highlight()));
}

#[test]
fn welcome_buttons_follow_the_choice() {
    let mut a = app();
    let b = welcome_buttons(&a);
    assert_eq!(b[0], ("  Get Started  ".to_string(), button_style(true)));
    assert_eq!(b[1], ("  Exit  ".to_string(), button_style(false)));
    a.handle_key(Key::Right);
    let b = welcome_buttons(&a);
    assert_eq!(b[0].1, button_style(false));
    assert_eq!(b[1].1, button_style(true));
}

#[test]
fn scan_footer_texts() {
    let mut a = app();
    a.handle_key(Key::Enter);
    assert_eq!(scan_footer(&a).0, "scanning your system…");
    for i in 0..3 {
        a.receive(Msg::Check(i, None));
    }
    a.receive(Msg::ScanDone);
    assert_eq!(
        scan_footer(&a).0,
        " ↑/↓ move · space toggle · ←/→ collapse/expand · r rescan · q quit"
    );
    a.handle_key(Key::Down);
    assert_eq!(scan_footer(&a).0, " ↑/↓ move · →/space expand · r rescan · q quit");
    a.handle_key(Key::Down);
    assert_eq!(
        scan_footer(&a).0,
        " ↑/↓ move · enter install 1 selected · r rescan · q quit"
    );
    a.notice = Some("Pick at least one from:Editors".to_string());
    let (t, s) = scan_footer(&a);
    assert_eq!(t, " ⚠ Pick at least one from:Editors");
    assert_eq!(s, theme::bad());
}

#[test]
fn other_screen_texts() {
    let mut a = app();
    assert_eq!(header_text(false), "Tool Installation  1/1");
    assert_eq!(header_text(true), "Tool Installation  1/1   ·   DRY RUN — nothing will be installed");
    assert_eq!(subtitle(&a), "Onboarding — set up your dev environment  ·  macOS arm64  ·  DRY RUN");
    assert_eq!(distro_item("Ubuntu"), "  Ubuntu");
    let (b, f, t) = button_style(true);
    assert_eq!(b, theme::accent());
    assert_eq!(f, Some(theme::highlight()));
    assert_eq!(t, theme::highlight());
    assert_eq!(button_style(false), (theme::border(), None, theme::dim()));
    a.handle_key(Key::Enter);
    for i in 0..3 {
        a.receive(Msg::Check(i, None));
    }
    a.receive(Msg::ScanDone);
    a.handle_key(Key::Up);
    a.handle_key(Key::Enter);
    a.receive(Msg::StepStart(0));
    for i in 0..5 {
        a.receive(Msg::Line(format!("line {i}")));
    }
    let (t, s) = step_line(&a, 0);
    assert_eq!(t, "… Install git");
    assert_eq!(s, theme::title());
    assert_eq!(log_tail(&a, 5), "line 2\nline 3\nline 4");
    assert_eq!(log_tail(&a, 1), "");
    assert_eq!(log_tail(&a, 40), "line 0\nline 1\nline 2\nline 3\nline 4");
    a.receive(Msg::StepDone(0, true));
    a.finish_dry_run_install();
    let lines = summary_lines(&a);
    assert_eq!(lines.len(), 1 + 2 + 1);
    assert_eq!(lines[0].len(), 1);
    assert_eq!(lines[0][0].text, "  ✓ Install git");
    assert_eq!(lines[0][0].style, StepState::Done.style());
    assert_eq!(lines[1][0].text, "");
    assert_eq!(lines[2][0].text, "  Finish up by running these in a NEW terminal:");
    assert_eq!(lines[2][0].style, Style { fg: Some(Color::Rgb(0xE8, 0x61, 0x00)), bg: None, bold: true });
    assert_eq!(lines[3][0].text, "    $ git login");
}

#[test]
fn text_helpers() {
    assert_eq!(trim("  \u{2003}a b\t\n"), "a b");
    assert_eq!(trim("\u{feff}x"), "\u{feff}x");
    assert_eq!(pad_right("abc", 5), "abc  ");
    assert_eq!(pad_right("abcdef", 5), "abcdef");
    assert_eq!(pad_right("★", 3), "★  ");
    assert!(text_eq("abc", "abc"));
    assert!(!text_eq("abc", "abd"));
    assert!(contains_text("hello world", "o w"));
    assert!(contains_text("abc", ""));
    assert!(!contains_text("ab", "abc"));
}

#[test]
fn summary_lists_each_install_step() {
    let mut a = app();
    a.handle_key(Key::Enter);
    for i in 0..3 {
        a.receive(Msg::Check(i, None));
    }
    a.receive(Msg::ScanDone);
    a.handle_key(Key::Down);
    a.handle_key(Key::Right);
    a.handle_key(Key::Down);
    a.handle_key(Key::Char(' '));
    a.handle_key(Key::Down);
    a.handle_key(Key::Enter);
    assert_eq!(a.steps.len(), 2);
    a.receive(Msg::StepDone(0, true));
    a.receive(Msg::StepDone(1, false));
    a.finish(Vec::new());
    let lines = summary_lines(&a);
    assert_eq!(lines.len(), 2 + 2 + 2);
    assert_eq!(lines[0][0].text, "  ✓ Install git");
    assert_eq!(lines[1][0].text, "  ✗ Install Lens");
    assert_eq!(lines[1][0].style, StepState::Failed.style());
    assert_eq!(lines[5][0].text, "    $ Lens login");
}
