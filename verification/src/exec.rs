//! Where commands run and how their results are read: the command line for
//! each execution context, the detail a successful check reports, the lines a
//! dry run prints, the command-line options, and the size of the check pool.
use vstd::prelude::*;
use vstd::string::*;

use crate::text::{decode_utf8_lossy, owned, text_eq, trim, trim_ws, utf8_lossy};

verus! {

/// Where a command runs: the local shell, inside a WSL distro (from a
/// Windows host), or on the Windows host itself (winget).
#[derive(Clone)]
pub enum Exec {
    Bash,
    Wsl(String),
    WinCmd,
}

/// The mathematical value of an [`Exec`].
pub enum ExecView {
    Bash,
    Wsl(Seq<char>),
    WinCmd,
}

impl View for Exec {
    type V = ExecView;

    open spec fn view(&self) -> ExecView {
        match self {
            Exec::Bash => ExecView::Bash,
            Exec::Wsl(d) => ExecView::Wsl(d@),
            Exec::WinCmd => ExecView::WinCmd,
        }
    }
}

/// The program and arguments that run `cmd` in `exec`.
pub open spec fn command_line_spec(exec: ExecView, cmd: Seq<char>) -> (Seq<char>, Seq<Seq<char>>) {
    match exec {
        ExecView::Bash => ("bash"@, seq!["-lc"@, cmd]),
        ExecView::Wsl(d) => ("wsl.exe"@, seq!["-d"@, d, "--"@, "bash"@, "-lc"@, cmd]),
        ExecView::WinCmd => ("cmd"@, seq!["/C"@, cmd]),
    }
}

/// The program and arguments that run `cmd` in `exec`: a login bash, bash
/// inside the WSL distro, or `cmd /C` on the Windows host.
pub fn command_line(exec: &Exec, cmd: &str) -> (r: (String, Vec<String>))
    ensures
        (r.0@, r.1@.map_values(|a: String| a@)) == command_line_spec(exec@, cmd@),
{
    let mut args: Vec<String> = Vec::new();
    let program = match exec {
        Exec::Bash => {
            args.push(owned("-lc"));
            args.push(owned(cmd));
            owned("bash")
        },
        Exec::Wsl(distro) => {
            args.push(owned("-d"));
            args.push(distro.clone());
            args.push(owned("--"));
            args.push(owned("bash"));
            args.push(owned("-lc"));
            args.push(owned(cmd));
            owned("wsl.exe")
        },
        Exec::WinCmd => {
            args.push(owned("/C"));
            args.push(owned(cmd));
            owned("cmd")
        },
    };
    assert(args@.map_values(|a: String| a@) =~= command_line_spec(exec@, cmd@).1);
    (program, args)
}

/// What a check reports: nothing when it failed, otherwise its trimmed
/// output, or "installed" when that is empty.
pub open spec fn detail_spec(success: bool, text: Seq<char>) -> Option<Seq<char>> {
    if !success {
        None
    } else if trim_ws(text).len() == 0 {
        Some("installed"@)
    } else {
        Some(trim_ws(text))
    }
}

/// The view of an optional string.
pub open spec fn opt_string_view(o: Option<String>) -> Option<Seq<char>> {
    match o {
        Some(s) => Some(s@),
        None => None,
    }
}

/// The detail a check reports, from whether it succeeded and its decoded
/// standard output.
pub fn detail_from_text(success: bool, text: &str) -> (r: Option<String>)
    ensures
        opt_string_view(r) == detail_spec(success, text@),
{
    if !success {
        return None;
    }
    let detail = trim(text);
    if detail.unicode_len() == 0 {
        Some(owned("installed"))
    } else {
        Some(owned(detail))
    }
}

/// The detail a check reports, from whether it succeeded and its raw
/// standard output (decoded as lossy UTF-8).
pub fn check_detail(success: bool, stdout: &[u8]) -> (r: Option<String>)
    ensures
        opt_string_view(r) == detail_spec(success, utf8_lossy(stdout@)),
{
    if !success {
        return None;
    }
    let text = decode_utf8_lossy(stdout);
    detail_from_text(success, text.as_str())
}

/// Where a dry-run step says it would run.
pub open spec fn where_note(exec: ExecView) -> Seq<char> {
    match exec {
        ExecView::Bash => Seq::empty(),
        ExecView::Wsl(d) => " (in WSL: "@ + d + ")"@,
        ExecView::WinCmd => " (on Windows host)"@,
    }
}

/// The two output lines a dry run prints for a step instead of running it.
pub open spec fn dry_run_lines_spec(title: Seq<char>, cmd: Seq<char>, exec: ExecView) -> (
    Seq<char>,
    Seq<char>,
) {
    ("[dry-run] "@ + title + where_note(exec) + " — would run:"@, "  $ "@ + cmd)
}

/// The output lines a dry run shows for a step: what it is, where it would
/// run, and the command.
pub fn dry_run_lines(title: &str, cmd: &str, exec: &Exec) -> (r: (String, String))
    ensures
        (r.0@, r.1@) == dry_run_lines_spec(title@, cmd@, exec@),
{
    let mut first = owned("[dry-run] ");
    first.append(title);
    match exec {
        Exec::Bash => {},
        Exec::Wsl(d) => {
            first.append(" (in WSL: ");
            first.append(d.as_str());
            first.append(")");
        },
        Exec::WinCmd => {
            first.append(" (on Windows host)");
        },
    }
    first.append(" — would run:");
    let mut second = owned("  $ ");
    second.append(cmd);
    (first, second)
}

/// The outcome of reading the options: whether `--dry-run` was given, or the
/// first unknown option.
pub open spec fn parse_args_spec(args: Seq<Seq<char>>) -> Result<bool, Seq<char>>
    decreases args.len(),
{
    if args.len() == 0 {
        Ok(false)
    } else if args[0] == "--dry-run"@ {
        match parse_args_spec(args.drop_first()) {
            Ok(_) => Ok(true),
            Err(e) => Err(e),
        }
    } else {
        Err(args[0])
    }
}

/// The message for an unknown option.
pub open spec fn unknown_option_message(opt: Seq<char>) -> Seq<char> {
    "Unknown option: "@ + opt + " (supported: --dry-run)"@
}

/// Reads the command-line options (without the program name): `--dry-run`
/// is the only one; the first other argument is refused with a message.
pub fn parse_args(args: &Vec<String>) -> (r: Result<bool, String>)
    ensures
        match r {
            Ok(d) => parse_args_spec(args@.map_values(|a: String| a@)) == Ok::<bool, Seq<char>>(d),
            Err(m) => parse_args_spec(args@.map_values(|a: String| a@)) matches Err(o) && m@
                == unknown_option_message(o),
        },
{
    let ghost all = args@.map_values(|a: String| a@);
    let mut dry_run = false;
    let mut i: usize = 0;
    assert(all.skip(0) =~= all);
    while i < args.len()
        invariant
            i <= args.len(),
            all == args@.map_values(|a: String| a@),
            forall|j: int| 0 <= j < i ==> all[j] == "--dry-run"@,
            dry_run == (i > 0),
            parse_args_spec(all) == (match parse_args_spec(all.skip(i as int)) {
                Ok(d) => Ok(d || dry_run),
                Err(e) => Err(e),
            }),
        decreases args.len() - i,
    {
        assert(all.skip(i as int).drop_first() =~= all.skip(i + 1));
        assert(all.skip(i as int)[0] == all[i as int]);
        if text_eq(args[i].as_str(), "--dry-run") {
            dry_run = true;
        } else {
            let mut m = owned("Unknown option: ");
            m.append(args[i].as_str());
            m.append(" (supported: --dry-run)");
            return Err(m);
        }
        i = i + 1;
    }
    assert(all.skip(i as int) =~= Seq::<Seq<char>>::empty());
    Ok(dry_run)
}

/// The number of check workers: the machine's parallelism (4 when unknown),
/// but never more than there are jobs.
pub fn worker_count(parallelism: Option<usize>, jobs: usize) -> (n: usize)
    ensures
        n == (match parallelism {
            Some(p) => if p < jobs {
                p
            } else {
                jobs
            },
            None => if 4 < jobs {
                4
            } else {
                jobs
            },
        }),
{
    let p = match parallelism {
        Some(p) => p,
        None => 4,
    };
    if p < jobs {
        p
    } else {
        jobs
    }
}

} // verus!
