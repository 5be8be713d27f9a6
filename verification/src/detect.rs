//! Platform and environment detection.
//!
//! Reading the operating system, the kernel version file and the environment
//! variables happens at the edge of the program; this module decides what
//! those readings mean.
use vstd::prelude::*;
use vstd::string::*;

use crate::text::{
    chars_of, contains_text, decode_utf16_lossy, decode_utf8_lossy, lowercase, owned, seq_contains,
    text_eq, to_lowercase, trim, trim_ws, utf16_decode, utf8_lossy,
};

verus! {

/// The target environment the software registry resolves against. GUI apps
/// are offered on `Macos`, `LinuxDesktop` and `WindowsHost`, and skipped on
/// `LinuxServer` (headless).
#[derive(Clone, Copy, PartialEq, Eq, Debug, Structural)]
pub enum Env {
    Macos,
    LinuxDesktop,
    LinuxServer,
    /// The program runs on Windows itself; dev tools go into a WSL distro,
    /// GUI apps install on the host via winget.
    WindowsHost,
}

impl Env {
    pub open spec fn spec_is_linux(&self) -> bool {
        *self is LinuxDesktop || *self is LinuxServer
    }

    /// Whether this is one of the two Linux environments.
    #[verifier::when_used_as_spec(spec_is_linux)]
    pub fn is_linux(&self) -> (r: bool)
        ensures
            r == self.spec_is_linux(),
    {
        matches!(self, Env::LinuxDesktop | Env::LinuxServer)
    }
}

/// The machine being set up.
pub struct Platform {
    /// "aarch64" | "x86_64" | ...
    pub arch: &'static str,
    /// Running inside a WSL distro (Linux binary).
    pub wsl: bool,
    pub env: Env,
    /// The WSL distro dev tools install into when running on a Windows host.
    pub wsl_distro: Option<String>,
}

/// The first part of a platform label, naming the environment.
pub open spec fn env_label(env: Env, arch: Seq<char>) -> Seq<char> {
    match env {
        Env::Macos => "macOS "@ + arch,
        Env::LinuxDesktop => "Linux "@ + arch + " (desktop)"@,
        Env::LinuxServer => "Linux "@ + arch + " (server)"@,
        Env::WindowsHost => "Windows "@ + arch,
    }
}

impl Platform {
    pub open spec fn spec_windows_host(&self) -> bool {
        self.env == Env::WindowsHost
    }

    /// True when the program itself runs on Windows (not inside WSL).
    #[verifier::when_used_as_spec(spec_windows_host)]
    pub fn windows_host(&self) -> (r: bool)
        ensures
            r == self.spec_windows_host(),
    {
        self.env == Env::WindowsHost
    }

    /// The label shown on the welcome screen.
    pub open spec fn label_spec(&self) -> Seq<char> {
        let base = env_label(self.env, self.arch@);
        let with_wsl = if self.wsl {
            base + " · WSL"@
        } else {
            base
        };
        match self.wsl_distro {
            Some(d) => with_wsl + " → "@ + d@,
            None => with_wsl,
        }
    }

    /// A human-readable description of the platform, e.g.
    /// "Linux x86_64 (server) · WSL".
    pub fn label(&self) -> (r: String)
        ensures
            r@ == self.label_spec(),
    {
        let mut label = match self.env {
            Env::Macos => owned("macOS "),
            Env::LinuxDesktop => owned("Linux "),
            Env::LinuxServer => owned("Linux "),
            Env::WindowsHost => owned("Windows "),
        };
        label.append(self.arch);
        match self.env {
            Env::LinuxDesktop => label.append(" (desktop)"),
            Env::LinuxServer => label.append(" (server)"),
            _ => {},
        }
        if self.wsl {
            label.append(" · WSL");
        }
        match &self.wsl_distro {
            Some(d) => {
                label.append(" → ");
                label.append(d.as_str());
            },
            None => {},
        }
        label
    }
}

/// The environment for an operating-system name (`std::env::consts::OS`),
/// the `RFID_ONBOARD_LINUX` override (absent when unset or not Unicode) and
/// whether a display server or desktop session is present.
pub open spec fn env_from_spec(os: Seq<char>, linux_mode: Option<Seq<char>>, has_display: bool) -> Env {
    if os == "macos"@ {
        Env::Macos
    } else if os == "windows"@ {
        Env::WindowsHost
    } else {
        let desktop = match linux_mode {
            Some(m) => if m == "desktop"@ {
                true
            } else if m == "server"@ {
                false
            } else {
                has_display
            },
            None => has_display,
        };
        if desktop {
            Env::LinuxDesktop
        } else {
            Env::LinuxServer
        }
    }
}

/// The view of an optional string slice.
pub open spec fn opt_str_view(o: Option<&str>) -> Option<Seq<char>> {
    match o {
        Some(s) => Some(s@),
        None => None,
    }
}

/// Decides the environment: macOS and Windows by name; any other system is
/// Linux, a desktop when forced with `desktop`, a server when forced with
/// `server`, and otherwise a desktop exactly when a display is present.
pub fn env_from(os: &str, linux_mode: Option<&str>, has_display: bool) -> (e: Env)
    ensures
        e == env_from_spec(os@, opt_str_view(linux_mode), has_display),
{
    if text_eq(os, "macos") {
        Env::Macos
    } else if text_eq(os, "windows") {
        Env::WindowsHost
    } else {
        let desktop = match linux_mode {
            Some(m) => if text_eq(m, "desktop") {
                true
            } else if text_eq(m, "server") {
                false
            } else {
                has_display
            },
            None => has_display,
        };
        if desktop {
            Env::LinuxDesktop
        } else {
            Env::LinuxServer
        }
    }
}

/// Whether a kernel version string (the contents of `/proc/version`) names a
/// WSL kernel: it mentions "microsoft" in any letter case.
pub fn kernel_is_wsl(proc_version: &str) -> (r: bool)
    ensures
        r == seq_contains(lowercase(proc_version@), "microsoft"@),
{
    let lower = to_lowercase(proc_version);
    contains_text(lower.as_str(), "microsoft")
}

/// The platform for the readings taken at start-up. `proc_version` is the
/// kernel version file, absent when it could not be read.
pub fn platform_from(
    os: &str,
    arch: &'static str,
    proc_version: Option<&str>,
    linux_mode: Option<&str>,
    has_display: bool,
) -> (p: Platform)
    ensures
        p.arch == arch,
        p.wsl == (match proc_version {
            Some(v) => seq_contains(lowercase(v@), "microsoft"@),
            None => false,
        }),
        p.env == env_from_spec(os@, opt_str_view(linux_mode), has_display),
        p.wsl_distro is None,
{
    let wsl = match proc_version {
        Some(v) => kernel_is_wsl(v),
        None => false,
    };
    Platform { arch, wsl, env: env_from(os, linux_mode, has_display), wsl_distro: None }
}

// ---------------------------------------------------------------------------
// WSL distro listing (`wsl.exe -l -q`)
// ---------------------------------------------------------------------------

/// A NUL byte among the first 64 bytes marks the listing as UTF-16.
pub open spec fn looks_utf16(bytes: Seq<u8>) -> bool {
    exists|i: int| 0 <= i < bytes.len() && i < 64 && bytes[i] == 0u8
}

/// The bytes read as little-endian 16-bit units; a trailing odd byte is
/// dropped.
pub open spec fn le_units(bytes: Seq<u8>) -> Seq<u16> {
    Seq::new(
        bytes.len() / 2,
        |i: int| (bytes[2 * i] as int + 256 * (bytes[2 * i + 1] as int)) as u16,
    )
}

/// The text of a listing: UTF-16LE when it looks like it, UTF-8 otherwise.
pub open spec fn listing_text(bytes: Seq<u8>) -> Seq<char> {
    if looks_utf16(bytes) {
        utf16_decode(le_units(bytes))
    } else {
        utf8_lossy(bytes)
    }
}

/// Index of the first line feed at or after `p`, or the length.
pub open spec fn line_end(s: Seq<char>, p: int) -> int
    decreases s.len() - p,
{
    if p >= s.len() {
        s.len() as int
    } else if s[p] == '\n' {
        p
    } else {
        line_end(s, p + 1)
    }
}

/// The lines of `s[p..]` as `str::lines` yields them: split at `\n`, a line
/// that ended in `\r\n` loses the `\r`, and no empty line follows a final
/// line feed.
pub open spec fn lines_from(s: Seq<char>, p: int) -> Seq<Seq<char>>
    decreases s.len() - p,
{
    if p < 0 || p >= s.len() {
        Seq::empty()
    } else {
        proof {
            lemma_line_end_bounds(s, p);
        }
        let e = line_end(s, p);
        let raw = s.subrange(p, e);
        let line = if e < s.len() && raw.len() > 0 && raw.last() == '\r' {
            raw.drop_last()
        } else {
            raw
        };
        if e < s.len() {
            seq![line] + lines_from(s, e + 1)
        } else {
            seq![line]
        }
    }
}

pub proof fn lemma_line_end_bounds(s: Seq<char>, p: int)
    requires
        0 <= p,
    ensures
        p <= s.len() ==> p <= line_end(s, p) <= s.len(),
        p > s.len() ==> line_end(s, p) == s.len(),
        line_end(s, p) < s.len() ==> s[line_end(s, p)] == '\n',
        forall|k: int| p <= k < line_end(s, p) ==> s[k] != '\n',
    decreases s.len() - p,
{
    if p < s.len() && s[p] != '\n' {
        lemma_line_end_bounds(s, p + 1);
    }
}

/// `s` without its leading byte-order marks (`trim_start_matches('\u{feff}')`).
pub open spec fn strip_boms(s: Seq<char>) -> Seq<char>
    decreases s.len(),
{
    if s.len() > 0 && s[0] == '\u{feff}' {
        strip_boms(s.drop_first())
    } else {
        s
    }
}

/// A listed line as a distro name: trimmed, then stripped of byte-order marks.
pub open spec fn clean_line(l: Seq<char>) -> Seq<char> {
    strip_boms(trim_ws(l))
}

/// The distro names in a list of lines: each line cleaned, empty ones
/// dropped, order kept.
pub open spec fn distro_names(lines: Seq<Seq<char>>) -> Seq<Seq<char>>
    decreases lines.len(),
{
    if lines.len() == 0 {
        Seq::empty()
    } else {
        let rest = distro_names(lines.drop_last());
        let c = clean_line(lines.last());
        if c.len() > 0 {
            rest.push(c)
        } else {
            rest
        }
    }
}

fn strip_boms_exec(s: &str) -> (r: &str)
    ensures
        r@ == strip_boms(s@),
{
    let v = chars_of(s);
    let n = v.len();
    let mut a: usize = 0;
    assert(s@.subrange(0, n as int) =~= s@);
    while a < n && v[a] == '\u{feff}'
        invariant
            v@ == s@,
            n == v.len(),
            a <= n,
            strip_boms(s@) == strip_boms(s@.subrange(a as int, n as int)),
        decreases n - a,
    {
        assert(s@.subrange(a as int, n as int).drop_first() =~= s@.subrange(a + 1, n as int));
        a = a + 1;
    }
    s.substring_char(a, n)
}

/// The distro names listed in `text`, one per line.
pub fn distros_from_text(text: &str) -> (names: Vec<String>)
    ensures
        names@.map_values(|n: String| n@) == distro_names(lines_from(text@, 0)),
{
    let v = chars_of(text);
    let n = v.len();
    let mut names: Vec<String> = Vec::new();
    let mut p: usize = 0;
    let ghost mut done: Seq<Seq<char>> = Seq::empty();
    while p < n
        invariant
            v@ == text@,
            n == v.len(),
            p <= n,
            done + lines_from(text@, p as int) == lines_from(text@, 0),
            names@.map_values(|n: String| n@) == distro_names(done),
        decreases n - p,
    {
        let mut e: usize = p;
        while e < n && v[e] != '\n'
            invariant
                v@ == text@,
                n == v.len(),
                p <= e <= n,
                line_end(text@, p as int) == line_end(text@, e as int),
            decreases n - e,
        {
            e = e + 1;
        }
        let line_stop = if e < n && e > p && v[e - 1] == '\r' {
            e - 1
        } else {
            e
        };
        let line = text.substring_char(p, line_stop);
        let ghost raw = text@.subrange(p as int, e as int);
        assert(line@ =~= (if e < n && raw.len() > 0 && raw.last() == '\r' {
            raw.drop_last()
        } else {
            raw
        }));
        assert(lines_from(text@, p as int) =~= seq![line@] + lines_from(text@, e + 1));
        let cleaned = strip_boms_exec(trim(line));
        proof {
            assert(done.push(line@) + lines_from(text@, e + 1) =~= done + (seq![line@]
                + lines_from(text@, e + 1)));
            assert(done.push(line@).drop_last() =~= done);
        }
        if cleaned.unicode_len() > 0 {
            names.push(owned(cleaned));
        }
        proof {
            done = done.push(line@);
        }
        if e < n {
            p = e + 1;
        } else {
            p = n;
            assert(lines_from(text@, e + 1) =~= lines_from(text@, p as int));
        }
    }
    assert(lines_from(text@, p as int) =~= Seq::<Seq<char>>::empty());
    assert(done + Seq::<Seq<char>>::empty() =~= done);
    names
}

/// Whether any of the first 64 bytes is NUL.
fn has_nul_prefix(bytes: &[u8]) -> (r: bool)
    ensures
        r == looks_utf16(bytes@),
{
    let mut i: usize = 0;
    while i < bytes.len() && i < 64
        invariant
            i <= bytes.len(),
            forall|k: int| 0 <= k < i ==> bytes@[k] != 0u8,
        decreases bytes.len() - i,
    {
        if bytes[i] == 0 {
            return true;
        }
        i = i + 1;
    }
    false
}

/// The bytes as little-endian 16-bit units.
fn units_le(bytes: &[u8]) -> (u: Vec<u16>)
    ensures
        u@ == le_units(bytes@),
{
    let mut u: Vec<u16> = Vec::new();
    let half = bytes.len() / 2;
    let mut i: usize = 0;
    while i < half
        invariant
            half == bytes.len() / 2,
            i <= half,
            u@ =~= le_units(bytes@).take(i as int),
        decreases half - i,
    {
        let lo = bytes[2 * i] as u16;
        let hi = bytes[2 * i + 1] as u16;
        u.push(lo + hi * 256);
        i = i + 1;
    }
    u
}

/// Decodes the raw output of `wsl.exe -l -q`.
pub fn listing_text_of(bytes: &[u8]) -> (s: String)
    ensures
        s@ == listing_text(bytes@),
{
    if has_nul_prefix(bytes) {
        let units = units_le(bytes);
        decode_utf16_lossy(units.as_slice())
    } else {
        decode_utf8_lossy(bytes)
    }
}

impl Platform {
    /// The installed WSL distros, from the exit status and standard output of
    /// `wsl.exe -l -q`: none when the command failed, otherwise one per
    /// non-empty listed line.
    pub fn distros_from_output(success: bool, stdout: &[u8]) -> (names: Vec<String>)
        ensures
            !success ==> names@.len() == 0,
            success ==> names@.map_values(|n: String| n@) == distro_names(
                lines_from(listing_text(stdout@), 0),
            ),
    {
        if !success {
            return Vec::new();
        }
        let text = listing_text_of(stdout);
        distros_from_text(text.as_str())
    }
}

} // verus!
