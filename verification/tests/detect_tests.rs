use onboarding_tui::detect::{env_from, kernel_is_wsl, platform_from, distros_from_text, listing_text_of, Env, Platform};

#[test]
fn env_is_linux_only_for_linux() {
    assert!(Env::LinuxDesktop.is_linux());
    assert!(Env::LinuxServer.is_linux());
    assert!(!Env::Macos.is_linux());
    assert!(!Env::WindowsHost.is_linux());
}

#[test]
fn env_from_names_and_overrides() {
    assert!(env_from("macos", None, false) == Env::Macos);
    assert!(env_from("windows", Some("server"), true) == Env::WindowsHost);
    assert!(env_from("linux", Some("desktop"), false) == Env::LinuxDesktop);
    assert!(env_from("linux", Some("server"), true) == Env::LinuxServer);
    assert!(env_from("linux", Some("other"), true) == Env::LinuxDesktop);
    assert!(env_from("linux", None, false) == Env::LinuxServer);
    assert!(env_from("freebsd", None, true) == Env::LinuxDesktop);
}

#[test]
fn wsl_kernel_is_recognised_in_any_case() {
    assert!(kernel_is_wsl("Linux version 5.15.90.1-microsoft-standard-WSL2"));
    assert!(kernel_is_wsl("Linux version 4.4.0-19041-Microsoft"));
    assert!(kernel_is_wsl("LINUX MICROSOFT"));
    assert!(!kernel_is_wsl("Linux version 6.8.0-45-generic"));
    assert!(!kernel_is_wsl(""));
}

#[test]
fn platform_from_readings() {
    let p = platform_from("linux", "aarch64", Some("5.15-Microsoft"), Some("server"), true);
    assert!(p.wsl);
    assert!(p.env == Env::LinuxServer);
    assert_eq!(p.arch, "aarch64");
    assert!(p.wsl_distro.is_none());
    let q = platform_from("macos", "x86_64", None, None, false);
    assert!(!q.wsl);
    assert!(q.env == Env::Macos);
}

#[test]
fn windows_host_only_for_windows() {
    let p = Platform { arch: "x86_64", wsl: false, env: Env::WindowsHost, wsl_distro: None };
    assert!(p.windows_host());
    let q = Platform { arch: "x86_64", wsl: false, env: Env::Macos, wsl_distro: None };
    assert!(!q.windows_host());
}

#[test]
fn labels_name_env_arch_wsl_and_distro() {
    let mut p = Platform { arch: "x86_64", wsl: false, env: Env::Macos, wsl_distro: None };
    assert_eq!(p.label(), "macOS x86_64");
    p.env = Env::LinuxDesktop;
    assert_eq!(p.label(), "Linux x86_64 (desktop)");
    p.env = Env::LinuxServer;
    p.wsl = true;
    assert_eq!(p.label(), "Linux x86_64 (server) · WSL");
    p.env = Env::WindowsHost;
    p.wsl = false;
    p.wsl_distro = Some("Ubuntu".to_string());
    assert_eq!(p.label(), "Windows x86_64 → Ubuntu");
}

#[test]
fn distro_lines_are_trimmed_and_filtered() {
    let names = distros_from_text("\u{feff}Ubuntu\r\n  Debian  \r\n\r\n\nkali-linux\n");
    assert_eq!(names, vec!["Ubuntu", "Debian", "kali-linux"]);
    assert!(distros_from_text("").is_empty());
    assert!(distros_from_text("\n \n\u{feff}\n").is_empty());
    // Only leading BOMs after trimming are stripped.
    assert_eq!(distros_from_text("\u{feff}  Alpine"), vec!["  Alpine"]);
}

#[test]
fn wsl_listing_in_utf16_is_decoded() {
    let text = "Ubuntu\r\nDebian\r\n";
    let mut bytes = Vec::new();
    for u in text.encode_utf16() {
        bytes.extend_from_slice(&u.to_le_bytes());
    }
    assert_eq!(listing_text_of(&bytes), text);
    assert_eq!(Platform::distros_from_output(true, &bytes), vec!["Ubuntu", "Debian"]);
    assert!(Platform::distros_from_output(false, &bytes).is_empty());
}

#[test]
fn wsl_listing_in_utf8_is_decoded() {
    let bytes = b"Ubuntu-22.04\nDebian\n";
    assert_eq!(listing_text_of(bytes), "Ubuntu-22.04\nDebian\n");
    assert_eq!(Platform::distros_from_output(true, bytes), vec!["Ubuntu-22.04", "Debian"]);
    // Malformed UTF-8 is replaced, not dropped.
    assert_eq!(listing_text_of(&[b'a', 0xff, b'b']), "a\u{fffd}b");
}
