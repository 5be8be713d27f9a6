use onboarding_tui::detect::{Env, Platform};
use onboarding_tui::software::{
    load, parse_rule, resolve, Location, RawBlock, RawData, RawSection, RawSoftware, RawStep, Rule,
    SectionDef, Software,
};

fn section(id: &str, title: &str, rule: &str, collapsed: bool) -> RawSection {
    RawSection { id: id.to_string(), title: title.to_string(), rule: rule.to_string(), collapsed }
}

fn block(check: Option<&str>, cmds: &[&str]) -> Option<RawBlock> {
    Some(RawBlock {
        check: check.map(|c| c.to_string()),
        install: cmds.iter().map(|c| RawStep { title: None, cmd: c.to_string() }).collect(),
    })
}

fn entry(name: &str, section: &str, kind: &str) -> RawSoftware {
    RawSoftware {
        name: name.to_string(),
        description: format!("{name} description"),
        section: section.to_string(),
        kind: kind.to_string(),
        preferred: false,
        check: None,
        follow_up: Vec::new(),
        winget_id: None,
        macos: None,
        linux: None,
        any: None,
    }
}

fn gui(name: &str, section: &str, linux: bool, winget: Option<&str>) -> RawSoftware {
    let mut e = entry(name, section, "gui");
    e.check = Some(format!("test -d '/Applications/{name}.app'"));
    e.macos = block(None, &[&format!("brew install --cask {}", name.to_lowercase())]);
    if linux {
        e.linux = block(Some(&format!("command -v {}", name.to_lowercase())), &[&format!("sudo snap install {}", name.to_lowercase())]);
    }
    e.winget_id = winget.map(|w| w.to_string());
    e
}

fn cli(name: &str, section: &str, probe: &str) -> RawSoftware {
    let mut e = entry(name, section, "cli");
    e.check = Some(format!("{probe} --version"));
    e.any = block(None, &[&format!("command -v {probe} || brew install {probe}")]);
    e
}

/// A registry shaped like the lab's software list, as its documentation
/// describes it.
fn registry() -> RawData {
    let mut onepw = gui("1Password", "passwords", false, Some("AgileBits.1Password"));
    onepw.preferred = true;
    let mut tailscale = cli("Tailscale", "required", "tailscale");
    tailscale.follow_up = vec!["sudo tailscale up".to_string()];
    RawData {
        sections: vec![
            section("required", " Required ", "required", false),
            section("editors", " Editors ", "pick-one", false),
            section("passwords", " Password Managers ", "optional", false),
            section("languages", " Languages ", "optional", false),
            section("kubernetes", " Kubernetes ", "optional", true),
            section("tools", " Dev Tools ", "optional", false),
        ],
        software: vec![
            gui("Microsoft Teams", "required", false, Some("Microsoft.Teams")),
            tailscale,
            gui("VS Code", "editors", true, Some("Microsoft.VisualStudioCode")),
            gui("Zed", "editors", true, Some("ZedIndustries.Zed")),
            gui("Cursor", "editors", false, Some("Anysphere.Cursor")),
            cli("Neovim", "editors", "nvim"),
            onepw,
            gui("Bitwarden", "passwords", true, Some("Bitwarden.Bitwarden")),
            cli("Rust", "languages", "rustc"),
            cli("Node.js", "languages", "node"),
            cli("kubectl", "kubernetes", "kubectl"),
            cli("k9s", "kubernetes", "k9s"),
            gui("Lens", "kubernetes", false, Some("Mirantis.Lens")),
            cli("lazygit", "tools", "lazygit"),
            gui("Yaak", "tools", false, Some("Yaak.app")),
            gui("DBeaver", "tools", false, Some("dbeaver.dbeaver")),
            gui("Tower", "tools", false, Some("fournova.Tower")),
            gui("OrbStack", "tools", false, None),
        ],
    }
}

fn platform(env: Env) -> Platform {
    Platform { arch: "x86_64", wsl: false, env, wsl_distro: None }
}

fn load_env(env: Env) -> (Vec<SectionDef>, Vec<Software>) {
    load(&registry(), &platform(env))
}

fn names(env: Env) -> Vec<String> {
    load_env(env).1.into_iter().map(|s| s.name).collect()
}

#[test]
fn json_parses_and_all_envs_resolve() {
    for env in [Env::Macos, Env::LinuxDesktop, Env::LinuxServer, Env::WindowsHost] {
        assert!(!load_env(env).0.is_empty(), "sections missing");
        assert!(!names(env).is_empty(), "no software resolved");
    }
}

#[test]
fn linux_server_excludes_gui_apps() {
    let server = names(Env::LinuxServer);
    for gui in ["VS Code", "Lens", "Yaak", "DBeaver", "Tower", "OrbStack", "1Password", "Bitwarden"] {
        assert!(!server.contains(&gui.to_string()), "{gui} leaked onto server");
    }
    for cli in ["Neovim", "k9s", "lazygit", "Rust", "Node.js", "Tailscale"] {
        assert!(server.contains(&cli.to_string()), "{cli} missing on server");
    }
}

#[test]
fn linux_desktop_includes_supported_gui() {
    let desktop = names(Env::LinuxDesktop);
    assert!(desktop.contains(&"VS Code".to_string()));
    assert!(desktop.contains(&"Zed".to_string()));
}

#[test]
fn kubernetes_section_is_collapsible_and_teams_required() {
    let (sections, items) = load_env(Env::Macos);
    let collapsible: Vec<&SectionDef> = sections.iter().filter(|s| s.collapsible).collect();
    assert_eq!(collapsible.len(), 1);
    assert!(collapsible[0].title.contains("Kubernetes"));
    for name in ["Microsoft Teams", "Tailscale"] {
        let sw = items.iter().find(|s| s.name == name).unwrap_or_else(|| panic!("{name} missing"));
        assert_eq!(sections[sw.section].rule, Rule::Required, "{name} should be required");
    }
    let onepw = items.iter().find(|s| s.name == "1Password").expect("1Password missing");
    assert!(onepw.preferred);
    assert!(sections[onepw.section].title.contains("Password Managers"));
}

#[test]
fn every_resolved_tool_has_a_check_and_install() {
    for env in [Env::Macos, Env::LinuxDesktop, Env::LinuxServer, Env::WindowsHost] {
        for sw in load_env(env).1 {
            assert!(!sw.check.trim().is_empty(), "{} has empty check on {:?}", sw.name, env as u8);
            assert!(!sw.install.is_empty(), "{} has no install steps", sw.name);
            assert!(sw.install.iter().all(|s| !s.cmd.trim().is_empty()));
        }
    }
}

#[test]
fn parse_rule_reads_the_three_rules() {
    assert_eq!(parse_rule("pick-one"), Rule::PickOne);
    assert_eq!(parse_rule("required"), Rule::Required);
    assert_eq!(parse_rule("optional"), Rule::Optional);
    assert_eq!(parse_rule("whatever"), Rule::Optional);
    assert_eq!(parse_rule("Required"), Rule::Optional);
}

#[test]
fn sections_keep_registry_order_and_fields() {
    let (sections, _) = load_env(Env::Macos);
    let titles: Vec<&str> = sections.iter().map(|s| s.title.as_str()).collect();
    assert_eq!(
        titles,
        vec![" Required ", " Editors ", " Password Managers ", " Languages ", " Kubernetes ", " Dev Tools "]
    );
    assert_eq!(sections[1].rule, Rule::PickOne);
    assert_eq!(sections[2].rule, Rule::Optional);
    assert!(sections[4].collapsible);
}

#[test]
fn windows_host_installs_gui_apps_with_winget() {
    let (_, items) = load_env(Env::WindowsHost);
    let code = items.iter().find(|s| s.name == "VS Code").unwrap();
    assert_eq!(code.location, Location::Host);
    assert_eq!(code.check, "winget list -e --id Microsoft.VisualStudioCode");
    assert_eq!(code.install.len(), 1);
    assert_eq!(code.install[0].title, "Install VS Code via winget");
    assert_eq!(
        code.install[0].cmd,
        "winget install -e --id Microsoft.VisualStudioCode --accept-package-agreements --accept-source-agreements"
    );
    // No winget id: not offered on a Windows host.
    assert!(!items.iter().any(|s| s.name == "OrbStack"));
    // CLI tools run inside WSL with their Linux commands.
    let rust = items.iter().find(|s| s.name == "Rust").unwrap();
    assert_eq!(rust.location, Location::Dev);
    assert_eq!(rust.install[0].cmd, "command -v rustc || brew install rustc");
}

#[test]
fn block_check_overrides_entry_check_and_titles_default() {
    let raw = gui("Zed", "editors", true, None);
    let desktop = resolve(&raw, 1, true, &platform(Env::LinuxDesktop)).unwrap();
    assert_eq!(desktop.check, "command -v zed");
    assert_eq!(desktop.install[0].title, "Install Zed");
    assert_eq!(desktop.install[0].cmd, "sudo snap install zed");
    assert_eq!(desktop.section, 1);
    let mac = resolve(&raw, 1, true, &platform(Env::Macos)).unwrap();
    assert_eq!(mac.check, "test -d '/Applications/Zed.app'");
    assert_eq!(mac.install[0].cmd, "brew install --cask zed");
}

#[test]
fn missing_checks_default_to_empty_and_titles_are_kept() {
    let mut raw = entry("Tool", "tools", "cli");
    raw.linux = Some(RawBlock {
        check: None,
        install: vec![RawStep { title: Some("Custom step".to_string()), cmd: "echo hi".to_string() }],
    });
    let sw = resolve(&raw, 0, false, &platform(Env::LinuxServer)).unwrap();
    assert_eq!(sw.check, "");
    assert_eq!(sw.install[0].title, "Custom step");
    // macOS has neither a macos nor an any block: not offered.
    assert!(resolve(&raw, 0, false, &platform(Env::Macos)).is_none());
}

#[test]
fn unknown_section_ids_are_skipped() {
    let mut data = registry();
    data.software.push(cli("Stray", "no-such-section", "stray"));
    let (_, items) = load(&data, &platform(Env::Macos));
    assert!(!items.iter().any(|s| s.name == "Stray"));
}

#[test]
fn gui_apps_without_a_linux_block_are_hidden_on_linux_desktop() {
    let desktop = names(Env::LinuxDesktop);
    assert!(!desktop.contains(&"Cursor".to_string()));
    assert!(desktop.contains(&"Bitwarden".to_string()));
    assert!(desktop.contains(&"Neovim".to_string()));
}

#[test]
fn every_item_section_points_at_its_section() {
    for env in [Env::Macos, Env::LinuxDesktop, Env::LinuxServer, Env::WindowsHost] {
        let (sections, items) = load_env(env);
        for sw in &items {
            assert!(sw.section < sections.len());
        }
        for sw in &items {
            if env == Env::LinuxServer {
                assert_eq!(sw.location, Location::Dev);
            }
        }
    }
}
