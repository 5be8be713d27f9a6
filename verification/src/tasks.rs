//! Platform detection and component definitions of the step-list installer.
//!
//! The install/check commands are idempotent shell snippets; interactive
//! tools (like `gh auth login`) are surfaced as follow-up instructions.
use vstd::prelude::*;
use vstd::string::*;

use crate::detect::kernel_is_wsl;
use crate::text::{lowercase, owned, seq_contains, text_eq};

verus! {

/// The machine being set up.
pub struct Platform {
    /// "macos" | "linux"
    pub os: &'static str,
    /// "aarch64" | "x86_64" | ...
    pub arch: &'static str,
    pub wsl: bool,
    /// "brew" | "apt"
    pub pkg: &'static str,
}

/// The platform for the readings taken at start-up: the operating system
/// name, the architecture, and the kernel version file (absent when it could
/// not be read). macOS uses Homebrew, everything else apt.
pub fn platform_from(os: &'static str, arch: &'static str, proc_version: Option<&str>) -> (p: Platform)
    ensures
        p.os == os,
        p.arch == arch,
        p.wsl == (match proc_version {
            Some(v) => seq_contains(lowercase(v@), "microsoft"@),
            None => false,
        }),
        p.pkg@ == (if os@ == "macos"@ {
            "brew"@
        } else {
            "apt"@
        }),
{
    let wsl = match proc_version {
        Some(v) => kernel_is_wsl(v),
        None => false,
    };
    let pkg = if text_eq(os, "macos") {
        "brew"
    } else {
        "apt"
    };
    Platform { os, arch, wsl, pkg }
}

impl Platform {
    /// "<os> <arch>", with " (WSL)" inside WSL.
    pub open spec fn label_spec(&self) -> Seq<char> {
        self.os@ + " "@ + self.arch@ + if self.wsl {
            " (WSL)"@
        } else {
            Seq::empty()
        }
    }

    /// A short description of the platform, e.g. "linux x86_64 (WSL)".
    pub fn label(&self) -> (r: String)
        ensures
            r@ == self.label_spec(),
    {
        let mut r = owned(self.os);
        r.append(" ");
        r.append(self.arch);
        if self.wsl {
            r.append(" (WSL)");
        }
        r
    }
}

/// One shell step of a component install. All steps must be idempotent and
/// non-interactive (interactive tools like `gh auth login` are surfaced as
/// follow-up instructions instead — see `Component::follow_up`).
pub struct Step {
    pub title: &'static str,
    pub cmd: String,
}

/// A command that shows whether a part of a component is present.
pub struct Check {
    pub label: &'static str,
    pub cmd: String,
}

/// A group of tools installed together.
pub struct Component {
    pub name: &'static str,
    pub steps: Vec<Step>,
    pub checks: Vec<Check>,
    pub follow_up: Vec<&'static str>,
}

/// The mathematical value of a [`Component`]: its name, its steps and checks
/// as (title, command) pairs, and its follow-up commands.
#[verifier::ext_equal]
pub struct ComponentView {
    pub name: Seq<char>,
    pub steps: Seq<(Seq<char>, Seq<char>)>,
    pub checks: Seq<(Seq<char>, Seq<char>)>,
    pub follow_up: Seq<Seq<char>>,
}

impl View for Component {
    type V = ComponentView;

    open spec fn view(&self) -> ComponentView {
        ComponentView {
            name: self.name@,
            steps: self.steps@.map_values(|s: Step| (s.title@, s.cmd@)),
            checks: self.checks@.map_values(|c: Check| (c.label@, c.cmd@)),
            follow_up: self.follow_up@.map_values(|f: &'static str| f@),
        }
    }
}

/// The package manager is Homebrew.
pub open spec fn uses_brew(p: Platform) -> bool {
    p.pkg@ == "brew"@
}

/// The package manager is apt.
pub open spec fn uses_apt(p: Platform) -> bool {
    p.pkg@ == "apt"@
}

/// The idempotent install command for a package: skip when `probe` is on the
/// PATH, else install with Homebrew or apt.
pub open spec fn pkg_install_spec(p: Platform, brew: Seq<char>, apt: Seq<char>, probe: Seq<char>) -> Seq<
    char,
> {
    if uses_brew(p) {
        "command -v "@ + probe + " >/dev/null 2>&1 || brew install "@ + brew
    } else {
        "command -v "@ + probe + " >/dev/null 2>&1 || sudo apt-get install -y "@ + apt
    }
}

/// The idempotent install command for a package.
fn pkg_install(p: &Platform, brew: &str, apt: &str, probe: &str) -> (r: String)
    ensures
        r@ == pkg_install_spec(*p, brew@, apt@, probe@),
{
    let mut r = owned("command -v ");
    r.append(probe);
    if text_eq(p.pkg, "brew") {
        r.append(" >/dev/null 2>&1 || brew install ");
        r.append(brew);
    } else {
        r.append(" >/dev/null 2>&1 || sudo apt-get install -y ");
        r.append(apt);
    }
    r
}

/// The SSH key generation step.
pub open spec fn ssh_keygen_cmd() -> Seq<char> {
    "[ -f \"$HOME/.ssh/id_ed25519\" ] || { mkdir -p \"$HOME/.ssh\" && chmod 700 \"$HOME/.ssh\" && ssh-keygen -t ed25519 -C \"$(git config --global user.email || echo rfid-lab)\" -f \"$HOME/.ssh/id_ed25519\" -N \"\"; }"@
}

/// The core component: git, the GitHub CLI and an SSH key (apt systems
/// refresh the package index first).
pub open spec fn core_spec(p: Platform) -> ComponentView {
    let install_steps = seq![
        ("Install git"@, pkg_install_spec(p, "git"@, "git"@, "git"@)),
        ("Install GitHub CLI"@, pkg_install_spec(p, "gh"@, "gh"@, "gh"@)),
        ("Generate SSH key (if missing)"@, ssh_keygen_cmd()),
    ];
    ComponentView {
        name: "Core (git, gh, SSH)"@,
        steps: if uses_apt(p) {
            seq![("Update apt package index"@, "sudo apt-get update -y"@)] + install_steps
        } else {
            install_steps
        },
        checks: seq![
            ("git"@, "git --version"@),
            ("gh"@, "gh --version | head -1"@),
            ("SSH key"@, "test -f \"$HOME/.ssh/id_ed25519.pub\" && echo present"@),
            ("gh auth"@, "gh auth status >/dev/null 2>&1 && echo logged-in"@),
        ],
        follow_up: seq![
            "git config --global user.name \"Your Name\""@,
            "git config --global user.email \"you@auburn.edu\""@,
            "gh auth login --git-protocol ssh   # interactive browser login"@,
        ],
    }
}

/// The fnm install step: Homebrew on macOS, the fnm installer elsewhere.
pub open spec fn fnm_install_cmd(p: Platform) -> Seq<char> {
    if uses_brew(p) {
        "command -v fnm >/dev/null 2>&1 || brew install fnm"@
    } else {
        "command -v fnm >/dev/null 2>&1 || [ -x \"$HOME/.local/share/fnm/fnm\" ] || { curl -fsSL https://fnm.vercel.app/install -o /tmp/fnm-install.sh && bash /tmp/fnm-install.sh --skip-shell; }"@
    }
}

/// The Node component: fnm, the LTS release of Node, and pnpm.
pub open spec fn node_spec(p: Platform) -> ComponentView {
    ComponentView {
        name: "Node (fnm, LTS, pnpm)"@,
        steps: seq![
            ("Install fnm"@, fnm_install_cmd(p)),
            (
                "Install Node LTS + pnpm"@,
                "export PATH=\"$HOME/.local/share/fnm:$PATH\"; eval \"$(fnm env)\"; fnm install --lts && fnm default lts-latest; eval \"$(fnm env)\"; corepack enable pnpm"@,
            ),
        ],
        checks: seq![
            ("fnm"@, "export PATH=\"$HOME/.local/share/fnm:$PATH\"; fnm --version"@),
            (
                "node"@,
                "export PATH=\"$HOME/.local/share/fnm:$PATH\"; eval \"$(fnm env)\"; node --version"@,
            ),
            (
                "pnpm"@,
                "export PATH=\"$HOME/.local/share/fnm:$PATH\"; eval \"$(fnm env)\"; pnpm --version"@,
            ),
        ],
        follow_up: seq![
            "echo 'eval \"$(fnm env --use-on-cd)\"' >> ~/.zshrc   # make node available in new shells"@,
        ],
    }
}

/// The Rust component: rustup with the stable toolchain.
pub open spec fn rust_spec() -> ComponentView {
    ComponentView {
        name: "Rust (rustup)"@,
        steps: seq![
            (
                "Install rustup toolchain"@,
                "[ -x \"$HOME/.cargo/bin/rustc\" ] || { curl --proto '=https' --tlsv1.2 -fsSL https://sh.rustup.rs -o /tmp/rustup-init.sh && sh /tmp/rustup-init.sh -y --no-modify-path; }"@,
            ),
        ],
        checks: seq![
            ("rustc"@, ". \"$HOME/.cargo/env\" 2>/dev/null; rustc --version"@),
            ("cargo"@, ". \"$HOME/.cargo/env\" 2>/dev/null; cargo --version"@),
        ],
        follow_up: seq!["echo '. \"$HOME/.cargo/env\"' >> ~/.zshrc"@],
    }
}

/// The Go component.
pub open spec fn go_spec(p: Platform) -> ComponentView {
    ComponentView {
        name: "Go"@,
        steps: seq![("Install Go"@, pkg_install_spec(p, "go"@, "golang-go"@, "go"@))],
        checks: seq![("go"@, "go version"@)],
        follow_up: seq![],
    }
}

/// The components, in install order: core, Node, Rust, Go.
pub open spec fn components_spec(p: Platform) -> Seq<ComponentView> {
    seq![core_spec(p), node_spec(p), rust_spec(), go_spec(p)]
}

fn step(title: &'static str, cmd: String) -> (s: Step)
    ensures
        s.title == title,
        s.cmd == cmd,
{
    Step { title, cmd }
}

fn check(label: &'static str, cmd: &str) -> (c: Check)
    ensures
        c.label == label,
        c.cmd@ == cmd@,
{
    Check { label, cmd: owned(cmd) }
}

fn core_component(p: &Platform) -> (c: Component)
    ensures
        c@ == core_spec(*p),
{
    let mut core_steps: Vec<Step> = Vec::new();
    if text_eq(p.pkg, "apt") {
        core_steps.push(step("Update apt package index", owned("sudo apt-get update -y")));
    }
    core_steps.push(step("Install git", pkg_install(p, "git", "git", "git")));
    core_steps.push(step("Install GitHub CLI", pkg_install(p, "gh", "gh", "gh")));
    core_steps.push(
        step(
            "Generate SSH key (if missing)",
            owned(
                "[ -f \"$HOME/.ssh/id_ed25519\" ] || { mkdir -p \"$HOME/.ssh\" && chmod 700 \"$HOME/.ssh\" && ssh-keygen -t ed25519 -C \"$(git config --global user.email || echo rfid-lab)\" -f \"$HOME/.ssh/id_ed25519\" -N \"\"; }",
            ),
        ),
    );
    let mut checks: Vec<Check> = Vec::new();
    checks.push(check("git", "git --version"));
    checks.push(check("gh", "gh --version | head -1"));
    checks.push(check("SSH key", "test -f \"$HOME/.ssh/id_ed25519.pub\" && echo present"));
    checks.push(check("gh auth", "gh auth status >/dev/null 2>&1 && echo logged-in"));
    let mut follow_up: Vec<&'static str> = Vec::new();
    follow_up.push("git config --global user.name \"Your Name\"");
    follow_up.push("git config --global user.email \"you@auburn.edu\"");
    follow_up.push("gh auth login --git-protocol ssh   # interactive browser login");
    let c = Component { name: "Core (git, gh, SSH)", steps: core_steps, checks, follow_up };
    assert(c@ =~= core_spec(*p));
    c
}

fn node_component(p: &Platform) -> (c: Component)
    ensures
        c@ == node_spec(*p),
{
    let fnm = if text_eq(p.pkg, "brew") {
        owned("command -v fnm >/dev/null 2>&1 || brew install fnm")
    } else {
        owned(
            "command -v fnm >/dev/null 2>&1 || [ -x \"$HOME/.local/share/fnm/fnm\" ] || { curl -fsSL https://fnm.vercel.app/install -o /tmp/fnm-install.sh && bash /tmp/fnm-install.sh --skip-shell; }",
        )
    };
    let mut steps: Vec<Step> = Vec::new();
    steps.push(step("Install fnm", fnm));
    steps.push(
        step(
            "Install Node LTS + pnpm",
            owned(
                "export PATH=\"$HOME/.local/share/fnm:$PATH\"; eval \"$(fnm env)\"; fnm install --lts && fnm default lts-latest; eval \"$(fnm env)\"; corepack enable pnpm",
            ),
        ),
    );
    let mut checks: Vec<Check> = Vec::new();
    checks.push(check("fnm", "export PATH=\"$HOME/.local/share/fnm:$PATH\"; fnm --version"));
    checks.push(
        check(
            "node",
            "export PATH=\"$HOME/.local/share/fnm:$PATH\"; eval \"$(fnm env)\"; node --version",
        ),
    );
    checks.push(
        check(
            "pnpm",
            "export PATH=\"$HOME/.local/share/fnm:$PATH\"; eval \"$(fnm env)\"; pnpm --version",
        ),
    );
    let mut follow_up: Vec<&'static str> = Vec::new();
    follow_up.push(
        "echo 'eval \"$(fnm env --use-on-cd)\"' >> ~/.zshrc   # make node available in new shells",
    );
    let c = Component { name: "Node (fnm, LTS, pnpm)", steps, checks, follow_up };
    assert(c@ =~= node_spec(*p));
    c
}

fn rust_component() -> (c: Component)
    ensures
        c@ == rust_spec(),
{
    let mut steps: Vec<Step> = Vec::new();
    steps.push(
        step(
            "Install rustup toolchain",
            owned(
                "[ -x \"$HOME/.cargo/bin/rustc\" ] || { curl --proto '=https' --tlsv1.2 -fsSL https://sh.rustup.rs -o /tmp/rustup-init.sh && sh /tmp/rustup-init.sh -y --no-modify-path; }",
            ),
        ),
    );
    let mut checks: Vec<Check> = Vec::new();
    checks.push(check("rustc", ". \"$HOME/.cargo/env\" 2>/dev/null; rustc --version"));
    checks.push(check("cargo", ". \"$HOME/.cargo/env\" 2>/dev/null; cargo --version"));
    let mut follow_up: Vec<&'static str> = Vec::new();
    follow_up.push("echo '. \"$HOME/.cargo/env\"' >> ~/.zshrc");
    let c = Component { name: "Rust (rustup)", steps, checks, follow_up };
    assert(c@ =~= rust_spec());
    c
}

fn go_component(p: &Platform) -> (c: Component)
    ensures
        c@ == go_spec(*p),
{
    let mut steps: Vec<Step> = Vec::new();
    steps.push(step("Install Go", pkg_install(p, "go", "golang-go", "go")));
    let mut checks: Vec<Check> = Vec::new();
    checks.push(check("go", "go version"));
    let follow_up: Vec<&'static str> = Vec::new();
    let c = Component { name: "Go", steps, checks, follow_up };
    assert(c@ =~= go_spec(*p));
    c
}

/// The components to install on this platform, in order: core (git, gh,
/// SSH), Node (fnm, LTS, pnpm), Rust (rustup) and Go.
pub fn components(p: &Platform) -> (v: Vec<Component>)
    ensures
        v@.map_values(|c: Component| c@) == components_spec(*p),
{
    let mut v: Vec<Component> = Vec::new();
    v.push(core_component(p));
    v.push(node_component(p));
    v.push(rust_component());
    v.push(go_component(p));
    assert(v@.map_values(|c: Component| c@) =~= components_spec(*p));
    v
}

} // verus!
