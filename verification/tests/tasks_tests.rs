use onboarding_tui::tasks::{components, platform_from, Platform};

fn linux() -> Platform {
    Platform { os: "linux", arch: "x86_64", wsl: true, pkg: "apt" }
}

fn mac() -> Platform {
    Platform { os: "macos", arch: "aarch64", wsl: false, pkg: "brew" }
}

#[test]
fn labels() {
    assert_eq!(linux().label(), "linux x86_64 (WSL)");
    assert_eq!(mac().label(), "macos aarch64");
}

#[test]
fn platform_package_manager() {
    let p = platform_from("macos", "aarch64", None);
    assert_eq!(p.pkg, "brew");
    assert!(!p.wsl);
    let q = platform_from("linux", "x86_64", Some("4.4.0-Microsoft"));
    assert_eq!(q.pkg, "apt");
    assert!(q.wsl);
}

#[test]
fn components_on_apt() {
    let c = components(&linux());
    let names: Vec<&str> = c.iter().map(|c| c.name).collect();
    assert_eq!(names, vec!["Core (git, gh, SSH)", "Node (fnm, LTS, pnpm)", "Rust (rustup)", "Go"]);
    assert_eq!(c[0].steps.len(), 4);
    assert_eq!(c[0].steps[0].title, "Update apt package index");
    assert_eq!(c[0].steps[0].cmd, "sudo apt-get update -y");
    assert_eq!(c[0].steps[1].cmd, "command -v git >/dev/null 2>&1 || sudo apt-get install -y git");
    assert_eq!(c[3].steps[0].cmd, "command -v go >/dev/null 2>&1 || sudo apt-get install -y golang-go");
    assert!(c[1].steps[0].cmd.contains("fnm.vercel.app"));
    assert_eq!(c[0].checks.len(), 4);
    assert_eq!(c[0].follow_up.len(), 3);
    assert!(c[3].follow_up.is_empty());
}

#[test]
fn components_on_brew() {
    let c = components(&mac());
    assert_eq!(c[0].steps.len(), 3);
    assert_eq!(c[0].steps[0].title, "Install git");
    assert_eq!(c[0].steps[0].cmd, "command -v git >/dev/null 2>&1 || brew install git");
    assert_eq!(c[3].steps[0].cmd, "command -v go >/dev/null 2>&1 || brew install go");
    assert_eq!(c[1].steps[0].cmd, "command -v fnm >/dev/null 2>&1 || brew install fnm");
    assert_eq!(c[2].checks[1].label, "cargo");
}
