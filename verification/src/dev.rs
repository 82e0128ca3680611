//! The development run: which processes to start, and how.
//!
//! The definitions are parsed, the port of the process named `web` is
//! rewritten, every command is wrapped for the project's bundle, and every
//! process gets a color by its position. Starting the processes and
//! watching them is the caller's part; `crate::supervisor` decides what the
//! caller does while they run.

use crate::bundler::{BundleContext, wrap_procfile_command, wrapped_procfile_command};
use crate::output::{color_index, get_color, get_reset, palette, PALETTE_SIZE, tag_line, tagged};
use crate::port::{replace_port, replace_port_in_command};
use crate::procfile::{parse_procfile, parse_procfile_content};
use crate::supervisor::RunError;
use crate::text::{chars_of, spells};
use crate::ui::{Line, Stream};
use vstd::prelude::*;

verus! {

/// A process that is to be started.
#[derive(Debug)]
pub struct PlannedProcess {
    /// The name from the definitions; it tags the output of the process.
    pub name: String,
    /// The command to hand to the shell.
    pub command: String,
    /// The palette entry for the tag: the position of the process modulo
    /// the size of the palette.
    pub color: usize,
}

/// The command with which the process `name` is started: the defined command,
/// with its port rewritten when the process is `web`, wrapped for the
/// bundle.
pub open spec fn planned_command(
    name: Seq<char>,
    command: Seq<char>,
    port: u16,
    has_bundle: bool,
    opt_out: bool,
) -> Seq<char> {
    wrapped_procfile_command(
        has_bundle,
        opt_out,
        if name == "web"@ {
            replace_port(command, port)
        } else {
            command
        },
    )
}

/// `plans` is the plan for `entries`: one process for each entry, in order.
pub open spec fn is_plan_for(
    plans: Seq<PlannedProcess>,
    entries: Seq<(Seq<char>, Seq<char>)>,
    port: u16,
    has_bundle: bool,
    opt_out: bool,
) -> bool {
    &&& plans.len() == entries.len()
    &&& forall|i: int|
        0 <= i < plans.len() ==> {
            &&& (#[trigger] plans[i]).name@ == entries[i].0
            &&& plans[i].command@ == planned_command(
                entries[i].0,
                entries[i].1,
                port,
                has_bundle,
                opt_out,
            )
            &&& plans[i].color == i % (PALETTE_SIZE as int)
        }
}

/// Plans the run for the definitions in `content`.
///
/// Fails with `ParseFailure` when the definitions hold no process. Otherwise
/// there is one planned process for each definition, in file order.
pub fn plan_processes(
    content: &str,
    port: u16,
    bundle_ctx: &Option<BundleContext>,
    opt_out: bool,
) -> (r: Result<Vec<PlannedProcess>, RunError>)
    ensures
        parse_procfile(content@).len() == 0 ==> r == Err::<Vec<PlannedProcess>, RunError>(
            RunError::ParseFailure,
        ),
        parse_procfile(content@).len() > 0 ==> (r matches Ok(plans) && is_plan_for(
            plans@,
            parse_procfile(content@),
            port,
            bundle_ctx is Some,
            opt_out,
        )),
{
    let processes = parse_procfile_content(content);
    if processes.len() == 0 {
        return Err(RunError::ParseFailure);
    }
    let ghost entries = parse_procfile(content@);
    let mut plans: Vec<PlannedProcess> = Vec::new();
    let mut i: usize = 0;
    while i < processes.len()
        invariant
            i <= processes.len(),
            processes.deep_view() == entries,
            is_plan_for(plans@, entries.take(i as int), port, bundle_ctx is Some, opt_out),
        decreases processes.len() - i,
    {
        assert(processes.deep_view()[i as int] == (processes@[i as int].0@, processes@[i as int].1@));
        let name = processes[i].0.clone();
        let n = chars_of(name.as_str());
        let command = if spells(n.as_slice(), "web") {
            replace_port_in_command(processes[i].1.as_str(), port)
        } else {
            processes[i].1.clone()
        };
        let command = wrap_procfile_command(bundle_ctx, command.as_str(), opt_out);
        let ghost before = plans@;
        plans.push(PlannedProcess { name, command, color: color_index(i) });
        assert forall|k: int| 0 <= k < plans@.len() implies {
            &&& (#[trigger] plans@[k]).name@ == entries.take(i + 1)[k].0
            &&& plans@[k].command@ == planned_command(
                entries.take(i + 1)[k].0,
                entries.take(i + 1)[k].1,
                port,
                bundle_ctx is Some,
                opt_out,
            )
            &&& plans@[k].color == k % (PALETTE_SIZE as int)
        } by {
            if k < i {
                assert(plans@[k] == before[k]);
                assert(entries.take(i + 1)[k] == entries.take(i as int)[k]);
            }
        }
        i += 1;
    }
    assert(entries.take(processes.len() as int) =~= entries);
    Ok(plans)
}

/// The line that announces a planned process: its command, tagged like its output.
pub fn announce(process: &PlannedProcess, colors_enabled: bool) -> (line: String)
    ensures
        line@ == if colors_enabled {
            tagged(
                palette((process.color % PALETTE_SIZE) as int),
                process.name@,
                "\x1b[0m"@,
                process.command@,
            )
        } else {
            tagged(Seq::empty(), process.name@, Seq::empty(), process.command@)
        },
{
    tag_line(
        get_color(process.color, colors_enabled),
        process.name.as_str(),
        get_reset(colors_enabled),
        process.command.as_str(),
    )
}

/// A line of output of a planned process as it is shown: tagged with the
/// name of the process, on the stream that the process wrote it to.
pub fn tag_output(process: &PlannedProcess, colors_enabled: bool, stream: Stream, line: &str) -> (
shown: Line)
    ensures
        shown.stream == stream,
        shown.text@ == if colors_enabled {
            tagged(palette((process.color % PALETTE_SIZE) as int), process.name@, "\x1b[0m"@, line@)
        } else {
            tagged(Seq::empty(), process.name@, Seq::empty(), line@)
        },
{
    let text = tag_line(
        get_color(process.color, colors_enabled),
        process.name.as_str(),
        get_reset(colors_enabled),
        line,
    );
    Line { stream, text }
}

/// What a standard stream of a child is connected to.
#[derive(Debug, Clone, Copy, PartialEq, Eq, Structural)]
pub enum Wiring {
    /// The stream of the supervisor itself.
    Inherited,
    /// A pipe that the supervisor reads.
    Piped,
}

/// How a process is started.
#[derive(Debug)]
pub struct Launch {
    /// The program to run.
    pub program: &'static str,
    /// Its arguments.
    pub args: Vec<String>,
    pub stdin: Wiring,
    pub stdout: Wiring,
    pub stderr: Wiring,
}

/// How a command is started: through the shell, as `sh -c {command}`, so
/// that pipes, quotes and operators in it mean what they mean in a shell.
/// Standard input is the supervisor's own; standard output and standard
/// error are piped to the supervisor.
pub fn shell_invocation(command: &str) -> (launch: Launch)
    ensures
        launch.program@ == "sh"@,
        launch.args@.len() == 2,
        launch.args@[0]@ == "-c"@,
        launch.args@[1]@ == command@,
        launch.stdin == Wiring::Inherited,
        launch.stdout == Wiring::Piped,
        launch.stderr == Wiring::Piped,
{
    let mut args: Vec<String> = Vec::new();
    args.push("-c".to_owned());
    args.push(command.to_owned());
    Launch {
        program: "sh",
        args,
        stdin: Wiring::Inherited,
        stdout: Wiring::Piped,
        stderr: Wiring::Piped,
    }
}

} // verus!
