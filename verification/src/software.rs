//! The software registry and its resolution against the detected
//! environment.
//!
//! The registry is the contents of `software.json`, parsed into the `Raw*`
//! types below. Each entry is resolved against the [`Env`] into the runtime
//! [`Software`] the screens consume:
//!
//!   - `cli` tools install everywhere (and inside WSL from a Windows host)
//!   - `gui` apps install on macOS / Linux-desktop / Windows-host, and are
//!     skipped on Linux servers
//!   - a tool is dropped when no applicable command block exists for the target
use vstd::prelude::*;
use vstd::string::*;

use crate::detect::{Env, Platform};
use crate::text::{owned, text_eq};

verus! {

// ---------------------------------------------------------------------------
// Runtime model (what the screens use)
// ---------------------------------------------------------------------------

/// How the tools of a section are picked.
#[derive(Clone, Copy, PartialEq, Eq, Debug, Structural)]
pub enum Rule {
    PickOne,
    Optional,
    Required,
}

/// A section of the checklist.
pub struct SectionDef {
    pub title: String,
    pub rule: Rule,
    /// Collapsible sections start collapsed (just a header) and can be
    /// expanded — for tooling not everyone needs (e.g. Kubernetes).
    pub collapsible: bool,
}

/// Where a tool's commands run.
#[derive(Clone, Copy, PartialEq, Eq, Debug, Structural)]
pub enum Location {
    /// Dev tool: local shell, or inside the WSL distro from a Windows host.
    Dev,
    /// GUI app: on the host (winget on Windows, cask/desktop install elsewhere).
    Host,
}

/// One install step.
pub struct Step {
    pub title: String,
    pub cmd: String,
}

/// A tool, resolved for the current environment.
pub struct Software {
    pub name: String,
    pub description: String,
    /// Index into the sections.
    pub section: usize,
    pub preferred: bool,
    pub location: Location,
    pub check: String,
    pub install: Vec<Step>,
    pub follow_up: Vec<String>,
}

/// The mathematical value of a [`SectionDef`].
pub struct SectionView {
    pub title: Seq<char>,
    pub rule: Rule,
    pub collapsible: bool,
}

/// The mathematical value of a [`Step`].
pub struct StepView {
    pub title: Seq<char>,
    pub cmd: Seq<char>,
}

/// The mathematical value of a [`Software`].
pub struct SoftwareView {
    pub name: Seq<char>,
    pub description: Seq<char>,
    pub section: usize,
    pub preferred: bool,
    pub location: Location,
    pub check: Seq<char>,
    pub install: Seq<StepView>,
    pub follow_up: Seq<Seq<char>>,
}

impl View for SectionDef {
    type V = SectionView;

    open spec fn view(&self) -> SectionView {
        SectionView { title: self.title@, rule: self.rule, collapsible: self.collapsible }
    }
}

impl View for Step {
    type V = StepView;

    open spec fn view(&self) -> StepView {
        StepView { title: self.title@, cmd: self.cmd@ }
    }
}

/// The views of a list of strings.
pub open spec fn strings_view(v: Seq<String>) -> Seq<Seq<char>> {
    v.map_values(|s: String| s@)
}

impl View for Software {
    type V = SoftwareView;

    open spec fn view(&self) -> SoftwareView {
        SoftwareView {
            name: self.name@,
            description: self.description@,
            section: self.section,
            preferred: self.preferred,
            location: self.location,
            check: self.check@,
            install: self.install@.map_values(|s: Step| s@),
            follow_up: strings_view(self.follow_up@),
        }
    }
}

/// The views of a list of sections.
pub open spec fn sections_view(v: Seq<SectionDef>) -> Seq<SectionView> {
    v.map_values(|s: SectionDef| s@)
}

/// The views of a list of tools.
pub open spec fn items_view(v: Seq<Software>) -> Seq<SoftwareView> {
    v.map_values(|s: Software| s@)
}

// ---------------------------------------------------------------------------
// The registry as parsed from JSON
// ---------------------------------------------------------------------------

/// A section entry of the registry.
pub struct RawSection {
    pub id: String,
    pub title: String,
    pub rule: String,
    pub collapsed: bool,
}

/// An install step of the registry; the title defaults to "Install <name>".
pub struct RawStep {
    pub title: Option<String>,
    pub cmd: String,
}

/// The commands of a tool for one operating system.
pub struct RawBlock {
    pub check: Option<String>,
    pub install: Vec<RawStep>,
}

/// A tool entry of the registry.
pub struct RawSoftware {
    pub name: String,
    pub description: String,
    pub section: String,
    /// "gui" | "cli"
    pub kind: String,
    pub preferred: bool,
    pub check: Option<String>,
    pub follow_up: Vec<String>,
    pub winget_id: Option<String>,
    pub macos: Option<RawBlock>,
    pub linux: Option<RawBlock>,
    pub any: Option<RawBlock>,
}

/// The whole registry.
pub struct RawData {
    pub sections: Vec<RawSection>,
    pub software: Vec<RawSoftware>,
}

// ---------------------------------------------------------------------------
// Resolution
// ---------------------------------------------------------------------------

/// The rule a section's `rule` string names; anything unknown is optional.
pub open spec fn parse_rule_spec(s: Seq<char>) -> Rule {
    if s == "pick-one"@ {
        Rule::PickOne
    } else if s == "required"@ {
        Rule::Required
    } else {
        Rule::Optional
    }
}

/// Reads a section's `rule` string.
pub fn parse_rule(s: &str) -> (r: Rule)
    ensures
        r == parse_rule_spec(s@),
{
    if text_eq(s, "pick-one") {
        Rule::PickOne
    } else if text_eq(s, "required") {
        Rule::Required
    } else {
        Rule::Optional
    }
}

/// The command block that applies to `env`: the OS-specific one (`linux` on
/// Linux, `macos` otherwise), else `any`.
pub open spec fn os_block_spec(raw: RawSoftware, env: Env) -> Option<RawBlock> {
    let os_specific = if env.spec_is_linux() {
        raw.linux
    } else {
        raw.macos
    };
    match os_specific {
        Some(b) => Some(b),
        None => raw.any,
    }
}

/// The default title of an install step.
pub open spec fn default_step_title(name: Seq<char>) -> Seq<char> {
    "Install "@ + name
}

/// An install step of `raw`, with its title defaulted.
pub open spec fn step_spec(name: Seq<char>, s: RawStep) -> StepView {
    StepView {
        title: match s.title {
            Some(t) => t@,
            None => default_step_title(name),
        },
        cmd: s.cmd@,
    }
}

/// The check and install steps a block gives: the block's own check, else the
/// entry's, else empty; the steps in order with default titles.
pub open spec fn block_commands_spec(raw: RawSoftware, block: Option<RawBlock>) -> Option<
    (Seq<char>, Seq<StepView>),
> {
    match block {
        None => None,
        Some(b) => Some(
            (
                match b.check {
                    Some(c) => c@,
                    None => match raw.check {
                        Some(c) => c@,
                        None => Seq::empty(),
                    },
                },
                b.install@.map_values(|s: RawStep| step_spec(raw.name@, s)),
            ),
        ),
    }
}

/// The check command for a winget package.
pub open spec fn winget_check(id: Seq<char>) -> Seq<char> {
    "winget list -e --id "@ + id
}

/// The install command for a winget package.
pub open spec fn winget_install(id: Seq<char>) -> Seq<char> {
    "winget install -e --id "@ + id + " --accept-package-agreements --accept-source-agreements"@
}

/// The commands of `raw` in `env`: on a Windows host a GUI app goes through
/// winget (and needs a winget id) while a CLI tool uses its Linux commands; a
/// GUI app has none on a Linux server; elsewhere the matching OS block.
pub open spec fn commands_spec(raw: RawSoftware, gui: bool, env: Env) -> Option<
    (Seq<char>, Seq<StepView>),
> {
    match env {
        Env::WindowsHost => if gui {
            match raw.winget_id {
                Some(id) => Some(
                    (
                        winget_check(id@),
                        seq![
                            StepView {
                                title: "Install "@ + raw.name@ + " via winget"@,
                                cmd: winget_install(id@),
                            },
                        ],
                    ),
                ),
                None => None,
            }
        } else {
            block_commands_spec(raw, os_block_spec(raw, Env::LinuxDesktop))
        },
        Env::LinuxServer => if gui {
            None
        } else {
            block_commands_spec(raw, os_block_spec(raw, env))
        },
        _ => block_commands_spec(raw, os_block_spec(raw, env)),
    }
}

/// The runtime tool for a registry entry, or `None` when it does not apply
/// in `env`.
pub open spec fn resolve_spec(raw: RawSoftware, section: usize, gui: bool, env: Env) -> Option<
    SoftwareView,
> {
    match commands_spec(raw, gui, env) {
        None => None,
        Some(c) => Some(
            SoftwareView {
                name: raw.name@,
                description: raw.description@,
                section,
                preferred: raw.preferred,
                location: if gui {
                    Location::Host
                } else {
                    Location::Dev
                },
                check: c.0,
                install: c.1,
                follow_up: strings_view(raw.follow_up@),
            },
        ),
    }
}

/// The view of an optional tool.
pub open spec fn opt_software_view(o: Option<Software>) -> Option<SoftwareView> {
    match o {
        Some(s) => Some(s@),
        None => None,
    }
}

fn clone_string(s: &String) -> (r: String)
    ensures
        r@ == s@,
{
    s.clone()
}

fn clone_strings(v: &Vec<String>) -> (r: Vec<String>)
    ensures
        strings_view(r@) == strings_view(v@),
{
    let mut r: Vec<String> = Vec::new();
    let mut i: usize = 0;
    while i < v.len()
        invariant
            i <= v.len(),
            r@.len() == i,
            forall|j: int| 0 <= j < i ==> #[trigger] r@[j]@ == v@[j]@,
        decreases v.len() - i,
    {
        r.push(clone_string(&v[i]));
        i = i + 1;
    }
    assert(strings_view(r@) =~= strings_view(v@));
    r
}

/// The command block that applies to `env`.
fn os_block(raw: &RawSoftware, env: Env) -> (r: Option<&RawBlock>)
    ensures
        match r {
            Some(b) => os_block_spec(*raw, env) == Some(*b),
            None => os_block_spec(*raw, env) is None,
        },
{
    let os_specific = if env.is_linux() {
        &raw.linux
    } else {
        &raw.macos
    };
    match os_specific {
        Some(b) => Some(b),
        None => match &raw.any {
            Some(b) => Some(b),
            None => None,
        },
    }
}

/// The view of resolved commands.
pub open spec fn commands_view(o: Option<(String, Vec<Step>)>) -> Option<(Seq<char>, Seq<StepView>)> {
    match o {
        Some(c) => Some((c.0@, c.1@.map_values(|s: Step| s@))),
        None => None,
    }
}

/// Resolves a block into (check, steps), applying the default check and
/// default step titles; `None` when there is no block.
fn block_commands(raw: &RawSoftware, block: Option<&RawBlock>) -> (r: Option<(String, Vec<Step>)>)
    ensures
        commands_view(r) == block_commands_spec(
            *raw,
            match block {
                Some(b) => Some(*b),
                None => None,
            },
        ),
{
    let block = match block {
        Some(b) => b,
        None => return None,
    };
    let check = match &block.check {
        Some(c) => clone_string(c),
        None => match &raw.check {
            Some(c) => clone_string(c),
            None => String::new(),
        },
    };
    let ghost f = |s: RawStep| step_spec(raw.name@, s);
    let mut install: Vec<Step> = Vec::new();
    let mut i: usize = 0;
    while i < block.install.len()
        invariant
            i <= block.install.len(),
            f == (|s: RawStep| step_spec(raw.name@, s)),
            install@.len() == i,
            forall|j: int| 0 <= j < i ==> #[trigger] install@[j]@ == f(block.install@[j]),
        decreases block.install.len() - i,
    {
        let s = &block.install[i];
        let title = match &s.title {
            Some(t) => clone_string(t),
            None => {
                let mut t = owned("Install ");
                t.append(raw.name.as_str());
                t
            },
        };
        install.push(Step { title, cmd: clone_string(&s.cmd) });
        i = i + 1;
    }
    assert(install@.map_values(|s: Step| s@) =~= block.install@.map_values(f));
    Some((check, install))
}

/// Turns a registry entry into a runtime tool for this environment, or `None`
/// when it does not apply here (a GUI app on a Linux server, a GUI app with
/// no winget id on a Windows host, or a tool with no command block for this
/// OS).
pub fn resolve(raw: &RawSoftware, section: usize, gui: bool, platform: &Platform) -> (r: Option<
    Software,
>)
    ensures
        opt_software_view(r) == resolve_spec(*raw, section, gui, platform.env),
{
    let location = if gui {
        Location::Host
    } else {
        Location::Dev
    };
    let commands: Option<(String, Vec<Step>)> = match platform.env {
        Env::WindowsHost => {
            if gui {
                match &raw.winget_id {
                    Some(id) => {
                        let mut check = owned("winget list -e --id ");
                        check.append(id.as_str());
                        let mut title = owned("Install ");
                        title.append(raw.name.as_str());
                        title.append(" via winget");
                        let mut cmd = owned("winget install -e --id ");
                        cmd.append(id.as_str());
                        cmd.append(" --accept-package-agreements --accept-source-agreements");
                        let mut steps: Vec<Step> = Vec::new();
                        steps.push(Step { title, cmd });
                        assert(steps@.map_values(|s: Step| s@) =~= seq![
                            StepView {
                                title: "Install "@ + raw.name@ + " via winget"@,
                                cmd: winget_install(id@),
                            },
                        ]);
                        Some((check, steps))
                    },
                    None => None,
                }
            } else {
                block_commands(raw, os_block(raw, Env::LinuxDesktop))
            }
        },
        Env::LinuxServer => {
            if gui {
                None
            } else {
                block_commands(raw, os_block(raw, Env::LinuxServer))
            }
        },
        env => block_commands(raw, os_block(raw, env)),
    };
    match commands {
        None => None,
        Some((check, install)) => Some(
            Software {
                name: clone_string(&raw.name),
                description: clone_string(&raw.description),
                section,
                preferred: raw.preferred,
                location,
                check,
                install,
                follow_up: clone_strings(&raw.follow_up),
            },
        ),
    }
}

/// The index of the first section whose id is `id`, searching from `k`.
pub open spec fn section_index_from(sections: Seq<RawSection>, id: Seq<char>, k: int) -> Option<
    int,
>
    decreases sections.len() - k,
{
    if k < 0 || k >= sections.len() {
        None
    } else if sections[k].id@ == id {
        Some(k)
    } else {
        section_index_from(sections, id, k + 1)
    }
}

/// Where the first section with this id stands.
fn section_index(sections: &Vec<RawSection>, id: &str) -> (r: Option<usize>)
    ensures
        match r {
            Some(i) => section_index_from(sections@, id@, 0) == Some(i as int),
            None => section_index_from(sections@, id@, 0) is None,
        },
{
    let mut k: usize = 0;
    while k < sections.len()
        invariant
            k <= sections.len(),
            section_index_from(sections@, id@, 0) == section_index_from(sections@, id@, k as int),
        decreases sections.len() - k,
    {
        if text_eq(sections[k].id.as_str(), id) {
            return Some(k);
        }
        k = k + 1;
    }
    None
}

/// The section definitions the registry gives, in display order.
pub open spec fn sections_spec(data: RawData) -> Seq<SectionView> {
    data.sections@.map_values(
        |s: RawSection|
            SectionView { title: s.title@, rule: parse_rule_spec(s.rule@), collapsible: s.collapsed },
    )
}

/// The runtime tool for registry entry `k` in `env`: dropped when its section
/// id is unknown or it does not apply in `env`.
pub open spec fn entry_spec(data: RawData, k: int, env: Env) -> Option<SoftwareView> {
    let raw = data.software@[k];
    match section_index_from(data.sections@, raw.section@, 0) {
        None => None,
        Some(si) => resolve_spec(raw, si as usize, raw.kind@ == "gui"@, env),
    }
}

/// The runtime tools for the first `n` registry entries, in registry order.
pub open spec fn items_spec(data: RawData, env: Env, n: int) -> Seq<SoftwareView>
    decreases n,
{
    if n <= 0 {
        Seq::empty()
    } else {
        let rest = items_spec(data, env, n - 1);
        match entry_spec(data, n - 1, env) {
            Some(v) => rest.push(v),
            None => rest,
        }
    }
}

/// Resolves the registry for this platform: the section definitions (in
/// display order) and the applicable tools (in registry order).
pub fn load(data: &RawData, platform: &Platform) -> (r: (Vec<SectionDef>, Vec<Software>))
    ensures
        sections_view(r.0@) == sections_spec(*data),
        items_view(r.1@) == items_spec(*data, platform.env, data.software@.len() as int),
        forall|i: int|
            0 <= i < r.1@.len() ==> #[trigger] r.1@[i].section < r.0@.len(),
{
    let mut sections: Vec<SectionDef> = Vec::new();
    let mut s: usize = 0;
    while s < data.sections.len()
        invariant
            s <= data.sections.len(),
            sections@.len() == s,
            forall|j: int| 0 <= j < s ==> #[trigger] sections@[j]@ == sections_spec(*data)[j],
        decreases data.sections.len() - s,
    {
        let raw = &data.sections[s];
        sections.push(
            SectionDef {
                title: clone_string(&raw.title),
                rule: parse_rule(raw.rule.as_str()),
                collapsible: raw.collapsed,
            },
        );
        s = s + 1;
    }
    assert(sections_view(sections@) =~= sections_spec(*data));
    let mut items: Vec<Software> = Vec::new();
    let mut k: usize = 0;
    while k < data.software.len()
        invariant
            k <= data.software.len(),
            items_view(items@) =~= items_spec(*data, platform.env, k as int),
        decreases data.software.len() - k,
    {
        let raw = &data.software[k];
        match section_index(&data.sections, raw.section.as_str()) {
            None => {},
            Some(section) => {
                let gui = text_eq(raw.kind.as_str(), "gui");
                match resolve(raw, section, gui, platform) {
                    Some(sw) => {
                        items.push(sw);
                    },
                    None => {},
                }
            },
        }
        k = k + 1;
    }
    proof {
        lemma_item_sections_in_range(*data, platform.env, data.software@.len() as int);
        assert forall|i: int| 0 <= i < items@.len() implies #[trigger] items@[i].section
            < sections@.len() by {
            assert(items_view(items@)[i].section == items@[i].section);
        }
    }
    (sections, items)
}

// ---------------------------------------------------------------------------
// Laws
// ---------------------------------------------------------------------------

proof fn lemma_section_index_in_range(sections: Seq<RawSection>, id: Seq<char>, k: int)
    ensures
        section_index_from(sections, id, k) matches Some(i) ==> 0 <= i < sections.len()
            && sections[i].id@ == id,
    decreases sections.len() - k,
{
    if !(k < 0 || k >= sections.len()) && sections[k].id@ != id {
        lemma_section_index_in_range(sections, id, k + 1);
    }
}

/// Every resolved tool belongs to a section the registry defines: its section
/// index points at the first section with the entry's section id.
pub proof fn lemma_item_sections_in_range(data: RawData, env: Env, n: int)
    ensures
        forall|i: int|
            0 <= i < items_spec(data, env, n).len() ==> #[trigger] items_spec(
                data,
                env,
                n,
            )[i].section < data.sections@.len(),
    decreases n,
{
    if n > 0 {
        lemma_item_sections_in_range(data, env, n - 1);
        let raw = data.software@[n - 1];
        lemma_section_index_in_range(data.sections@, raw.section@, 0);
    }
}

/// On a Linux server no GUI app is offered: every resolved tool is a dev
/// tool.
pub proof fn lemma_server_offers_no_gui(data: RawData, n: int)
    ensures
        forall|i: int|
            0 <= i < items_spec(data, Env::LinuxServer, n).len() ==> #[trigger] items_spec(
                data,
                Env::LinuxServer,
                n,
            )[i].location == Location::Dev,
    decreases n,
{
    if n > 0 {
        lemma_server_offers_no_gui(data, n - 1);
    }
}

/// A tool is offered exactly where its kind allows: a GUI app becomes a host
/// tool and a CLI tool a dev tool, in every environment.
pub proof fn lemma_location_follows_kind(data: RawData, env: Env, k: int)
    requires
        0 <= k < data.software@.len(),
    ensures
        entry_spec(data, k, env) matches Some(v) ==> (v.location == Location::Host
            <==> data.software@[k].kind@ == "gui"@),
{
}

/// On a Windows host every GUI app installs through winget: its check and its
/// single install step are the winget commands for its winget id.
pub proof fn lemma_windows_gui_uses_winget(data: RawData, k: int)
    requires
        0 <= k < data.software@.len(),
    ensures
        entry_spec(data, k, Env::WindowsHost) matches Some(v) ==> (v.location == Location::Host
            ==> {
            &&& data.software@[k].winget_id matches Some(id)
            &&& v.check == winget_check(id@)
            &&& v.install.len() == 1
            &&& v.install[0].cmd == winget_install(id@)
        }),
{
}

} // verus!
