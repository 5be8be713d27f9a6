use onboarding_tui::exec::{check_detail, command_line, detail_from_text, dry_run_lines, parse_args, worker_count, Exec};

#[test]
fn command_lines_per_context() {
    let (p, a) = command_line(&Exec::Bash, "git --version");
    assert_eq!(p, "bash");
    assert_eq!(a, vec!["-lc", "git --version"]);
    let (p, a) = command_line(&Exec::Wsl("Ubuntu".to_string()), "go version");
    assert_eq!(p, "wsl.exe");
    assert_eq!(a, vec!["-d", "Ubuntu", "--", "bash", "-lc", "go version"]);
    let (p, a) = command_line(&Exec::WinCmd, "winget list");
    assert_eq!(p, "cmd");
    assert_eq!(a, vec!["/C", "winget list"]);
}

#[test]
fn check_details() {
    assert_eq!(check_detail(true, b"  git version 2.44.0\n"), Some("git version 2.44.0".to_string()));
    assert_eq!(check_detail(true, b"\n  \n"), Some("installed".to_string()));
    assert_eq!(check_detail(false, b"whatever"), None);
    assert_eq!(check_detail(true, &[0xff, b'x']), Some("\u{fffd}x".to_string()));
    assert_eq!(detail_from_text(true, "\t v1 \n"), Some("v1".to_string()));
}

#[test]
fn dry_run_lines_name_where_it_would_run() {
    let (a, b) = dry_run_lines("Install Go", "brew install go", &Exec::Bash);
    assert_eq!(a, "[dry-run] Install Go — would run:");
    assert_eq!(b, "  $ brew install go");
    let (a, _) = dry_run_lines("Install Go", "x", &Exec::Wsl("Ubuntu".to_string()));
    assert_eq!(a, "[dry-run] Install Go (in WSL: Ubuntu) — would run:");
    let (a, _) = dry_run_lines("Install Zed", "x", &Exec::WinCmd);
    assert_eq!(a, "[dry-run] Install Zed (on Windows host) — would run:");
}

#[test]
fn options() {
    assert_eq!(parse_args(&vec![]), Ok(false));
    assert_eq!(parse_args(&vec!["--dry-run".to_string()]), Ok(true));
    assert_eq!(parse_args(&vec!["--dry-run".to_string(), "--dry-run".to_string()]), Ok(true));
    assert_eq!(
        parse_args(&vec!["--dry-run".to_string(), "--refresh".to_string(), "-x".to_string()]),
        Err("Unknown option: --refresh (supported: --dry-run)".to_string())
    );
}

#[test]
fn worker_pool_size() {
    assert_eq!(worker_count(Some(8), 3), 3);
    assert_eq!(worker_count(Some(2), 30), 2);
    assert_eq!(worker_count(None, 30), 4);
    assert_eq!(worker_count(None, 1), 1);
}
