//! The diagnostic report as lines of text.

use crate::doctor::report::{
    Conflict, ConflictImpact, DiagnosticReport, PathEntry, PathSource, RubyVersionInfo,
    ShellInitPlacement,
};
use crate::text::{chars_of, contains, decimal, decimal_string, holds, string_of};
use crate::ui::{dim, error, Line, lines_view, Stream, success, warn};
use vstd::prelude::*;
use vstd::string::StringExecFns;

verus! {

/// A line on standard output.
pub open spec fn out(text: Seq<char>) -> (Stream, Seq<char>) {
    (Stream::Stdout, text)
}

/// A success line.
pub open spec fn good(msg: Seq<char>) -> (Stream, Seq<char>) {
    (Stream::Stdout, "  ✓ "@ + msg)
}

/// An error line.
pub open spec fn bad(msg: Seq<char>) -> (Stream, Seq<char>) {
    (Stream::Stderr, "  ✗ "@ + msg)
}

/// A warning line.
pub open spec fn caution(msg: Seq<char>) -> (Stream, Seq<char>) {
    (Stream::Stderr, "  ⚠ "@ + msg)
}

/// A secondary line.
pub open spec fn aside(msg: Seq<char>) -> (Stream, Seq<char>) {
    (Stream::Stdout, "  "@ + msg)
}

/// A rule of fifty `═`.
pub open spec fn rule() -> Seq<char> {
    Seq::new(50, |i: int| '═')
}

/// Appends a line on standard output.
fn put(lines: &mut Vec<Line>, text: String)
    ensures
        lines_view(final(lines)@) == lines_view(old(lines)@).push(out(text@)),
{
    let ghost t = text@;
    lines.push(Line { stream: Stream::Stdout, text });
    assert(lines_view(lines@) =~= lines_view(old(lines)@).push(out(t)));
}

/// Appends a line on standard output that reads `text`.
fn say(lines: &mut Vec<Line>, text: &str)
    ensures
        lines_view(final(lines)@) == lines_view(old(lines)@).push(out(text@)),
{
    put(lines, text.to_owned());
}

/// Appends an empty line on standard output.
fn blank(lines: &mut Vec<Line>)
    ensures
        lines_view(final(lines)@) == lines_view(old(lines)@).push(out(Seq::empty())),
{
    proof {
        reveal_strlit("");
        assert(""@ =~= Seq::<char>::empty());
    }
    say(lines, "");
}

/// Appends a line made elsewhere.
fn show(lines: &mut Vec<Line>, line: Line)
    ensures
        lines_view(final(lines)@) == lines_view(old(lines)@).push(line@),
{
    let ghost l = line@;
    lines.push(line);
    assert(lines_view(lines@) =~= lines_view(old(lines)@).push(l));
}

/// `a` followed by `b`.
fn cat2(a: &str, b: &str) -> (s: String)
    ensures
        s@ == a@ + b@,
{
    let mut s = String::new();
    s.append(a);
    s.append(b);
    assert(s@ =~= a@ + b@);
    s
}

/// `a`, `b` and `c` one after the other.
fn cat3(a: &str, b: &str, c: &str) -> (s: String)
    ensures
        s@ == a@ + b@ + c@,
{
    let mut s = cat2(a, b);
    s.append(c);
    s
}

/// `a`, `b`, `c` and `d` one after the other.
fn cat4(a: &str, b: &str, c: &str, d: &str) -> (s: String)
    ensures
        s@ == a@ + b@ + c@ + d@,
{
    let mut s = cat3(a, b, c);
    s.append(d);
    s
}

/// `a`, `b`, `c`, `d` and `e` one after the other.
fn cat5(a: &str, b: &str, c: &str, d: &str, e: &str) -> (s: String)
    ensures
        s@ == a@ + b@ + c@ + d@ + e@,
{
    let mut s = cat4(a, b, c, d);
    s.append(e);
    s
}

/// The number of a line, or of a position; 0 when it is not known.
pub open spec fn number_or_zero(n: Option<usize>) -> Seq<char> {
    match n {
        Some(k) => decimal(k as nat),
        None => decimal(0),
    }
}

/// The numeral of `n`, or of 0 when `n` is not known.
fn numeral_or_zero(n: Option<usize>) -> (s: String)
    ensures
        s@ == number_or_zero(n),
{
    match n {
        Some(k) => decimal_string(k as u64),
        None => decimal_string(0),
    }
}

/// The versions of `versions[..upto]`, separated by `, `.
pub open spec fn version_list(versions: Seq<RubyVersionInfo>, upto: int) -> Seq<char>
    decreases upto,
{
    if upto <= 0 || upto > versions.len() {
        Seq::empty()
    } else if upto == 1 {
        versions[0].version@
    } else {
        version_list(versions, upto - 1) + ", "@ + versions[upto - 1].version@
    }
}

/// Writes the versions of `versions`, separated by `, `.
fn write_version_list(versions: &Vec<RubyVersionInfo>) -> (s: String)
    ensures
        s@ == version_list(versions@, versions@.len() as int),
{
    let mut s = String::new();
    let mut i: usize = 0;
    while i < versions.len()
        invariant
            i <= versions.len(),
            s@ == version_list(versions@, i as int),
        decreases versions.len() - i,
    {
        if i > 0 {
            s.append(", ");
        }
        s.append(versions[i].version.as_str());
        i += 1;
        proof {
            if i == 1 {
                assert(s@ =~= versions@[0].version@);
            }
        }
    }
    s
}

/// The heading of the report and what it says of the tool and of Ruby.
pub open spec fn environment_section(report: DiagnosticReport) -> Seq<(Stream, Seq<char>)> {
    seq![
        out(Seq::empty()),
        out("Railsup Doctor"@),
        out(rule()),
        out(Seq::empty()),
        out("Environment"@),
        good(
            "Railsup v"@ + report.railsup_version@ + " at "@ + report.installation.binary_path@,
        ),
    ] + (if !report.ruby_status.any_installed {
        seq![bad("No Ruby installed"@), out("    Run: railsup ruby install 4.0.1"@)]
    } else {
        seq![
            good(
                "Ruby versions installed: "@ + version_list(
                    report.ruby_versions@,
                    report.ruby_versions@.len() as int,
                ),
            ),
        ] + (if !report.ruby_status.default_set {
            seq![caution("No default Ruby set"@)] + (if report.ruby_versions@.len() > 0 {
                seq![out("    Run: railsup ruby default "@ + report.ruby_versions@[0].version@)]
            } else {
                Seq::empty()
            })
        } else {
            match report.ruby_status.default_version {
                Some(d) => seq![good("Default Ruby: "@ + d@)],
                None => Seq::empty(),
            }
        })
    }) + seq![out(Seq::empty())]
}

/// Appends the heading of the report and what it says of the tool and of Ruby.
fn write_environment(lines: &mut Vec<Line>, report: &DiagnosticReport)
    ensures
        lines_view(final(lines)@) == lines_view(old(lines)@) + environment_section(*report),
{
    let ghost start = lines_view(lines@);
    blank(lines);
    say(lines, "Railsup Doctor");
    let mut bar: Vec<char> = Vec::new();
    let mut i: usize = 0;
    while i < 50
        invariant
            i <= 50,
            bar@.len() == i,
            forall|j: int| 0 <= j < i ==> bar@[j] == '═',
        decreases 50 - i,
    {
        bar.push('═');
        i += 1;
    }
    assert(bar@ =~= rule());
    put(lines, string_of(bar.as_slice()));
    blank(lines);
    say(lines, "Environment");
    let msg = cat4(
        "Railsup v",
        report.railsup_version.as_str(),
        " at ",
        report.installation.binary_path.as_str(),
    );
    show(lines, success(msg.as_str()));
    proof {
        reveal_strlit("");
        assert(""@ =~= Seq::<char>::empty());
    }
    if !report.ruby_status.any_installed {
        show(lines, error("No Ruby installed"));
        say(lines, "    Run: railsup ruby install 4.0.1");
    } else {
        let list = write_version_list(&report.ruby_versions);
        let msg = cat2("Ruby versions installed: ", list.as_str());
        show(lines, success(msg.as_str()));
        if !report.ruby_status.default_set {
            show(lines, warn("No default Ruby set"));
            if report.ruby_versions.len() > 0 {
                put(
                    lines,
                    cat2("    Run: railsup ruby default ", report.ruby_versions[0].version.as_str()),
                );
            }
        } else {
            match &report.ruby_status.default_version {
                Some(d) => {
                    let msg = cat2("Default Ruby: ", d.as_str());
                    show(lines, success(msg.as_str()));
                },
                None => {},
            }
        }
    }
    blank(lines);
    assert(lines_view(lines@) =~= start + environment_section(*report));
}

/// Where the shell setup was found: `shell-init in {file} (line {n})`.
pub open spec fn found_in(file: Seq<char>, line_number: Option<usize>) -> Seq<char> {
    "shell-init in "@ + file + " (line "@ + number_or_zero(line_number) + ")"@
}

/// What the report says of the shell setup. `shell_file` is the file of
/// the user's shell, if it is known.
pub open spec fn shell_section(report: DiagnosticReport, shell_file: Option<Seq<char>>) -> Seq<
    (Stream, Seq<char>),
> {
    let found = report.shell_integration.shell_file;
    let number = report.shell_integration.line_number;
    seq![out("Shell Integration"@)] + (match report.shell_integration.placement {
        ShellInitPlacement::NotFound => seq![
            bad("shell-init not configured"@),
            match shell_file {
                Some(f) => out("    Add to "@ + f + ": eval \"$(railsup shell-init)\""@),
                None => out("    Add to your shell config: eval \"$(railsup shell-init)\""@),
            },
        ],
        ShellInitPlacement::BeforeVersionManagers => seq![
            caution("shell-init placed BEFORE version managers"@),
        ] + (match found {
            Some(f) => seq![
                out(
                    "    In "@ + f@ + " line "@ + number_or_zero(number)
                        + " - move to END of file"@,
                ),
            ],
            None => Seq::empty(),
        }) + seq![out("    Other version managers will override railsup"@)],
        ShellInitPlacement::AfterVersionManagers => (match found {
            Some(f) => seq![good(found_in(f@, number))],
            None => Seq::empty(),
        }) + seq![good("Placed AFTER version managers (correct)"@)],
        ShellInitPlacement::NoVersionManagers => match found {
            Some(f) => seq![good(found_in(f@, number))],
            None => Seq::empty(),
        },
    }) + seq![out(Seq::empty())]
}

/// Appends the success line that says where the shell setup was found.
fn write_found_in(lines: &mut Vec<Line>, file: &str, line_number: Option<usize>)
    ensures
        lines_view(final(lines)@) == lines_view(old(lines)@).push(
            good(found_in(file@, line_number)),
        ),
{
    let n = numeral_or_zero(line_number);
    let msg = cat5("shell-init in ", file, " (line ", n.as_str(), ")");
    show(lines, success(msg.as_str()));
}

/// Appends what the report says of the shell setup.
fn write_shell(lines: &mut Vec<Line>, report: &DiagnosticReport, shell_file: Option<&str>)
    ensures
        lines_view(final(lines)@) == lines_view(old(lines)@) + shell_section(
            *report,
            shell_file.deep_view(),
        ),
{
    let ghost start = lines_view(lines@);
    let number = report.shell_integration.line_number;
    say(lines, "Shell Integration");
    match report.shell_integration.placement {
        ShellInitPlacement::NotFound => {
            show(lines, error("shell-init not configured"));
            match shell_file {
                Some(f) => {
                    put(lines, cat3("    Add to ", f, ": eval \"$(railsup shell-init)\""));
                },
                None => {
                    say(lines, "    Add to your shell config: eval \"$(railsup shell-init)\"");
                },
            }
        },
        ShellInitPlacement::BeforeVersionManagers => {
            show(lines, warn("shell-init placed BEFORE version managers"));
            match &report.shell_integration.shell_file {
                Some(f) => {
                    let n = numeral_or_zero(number);
                    put(
                        lines,
                        cat5("    In ", f.as_str(), " line ", n.as_str(), " - move to END of file"),
                    );
                },
                None => {},
            }
            say(lines, "    Other version managers will override railsup");
        },
        ShellInitPlacement::AfterVersionManagers => {
            match &report.shell_integration.shell_file {
                Some(f) => {
                    write_found_in(lines, f.as_str(), number);
                },
                None => {},
            }
            show(lines, success("Placed AFTER version managers (correct)"));
        },
        ShellInitPlacement::NoVersionManagers => {
            match &report.shell_integration.shell_file {
                Some(f) => {
                    write_found_in(lines, f.as_str(), number);
                },
                None => {},
            }
        },
    }
    blank(lines);
    proof {
        reveal_strlit("");
        assert(""@ =~= Seq::<char>::empty());
    }
    assert(lines_view(lines@) =~= start + shell_section(*report, shell_file.deep_view()));
}

/// Whether some of `conflicts[..upto]` were detected.
pub open spec fn any_detected(conflicts: Seq<Conflict>, upto: int) -> bool
    decreases upto,
{
    if upto <= 0 || upto > conflicts.len() {
        false
    } else {
        conflicts[upto - 1].detected || any_detected(conflicts, upto - 1)
    }
}

/// What the report says of one detected conflict.
pub open spec fn conflict_lines(c: Conflict, verbose: bool) -> Seq<(Stream, Seq<char>)> {
    match c.impact {
        ConflictImpact::Inactive => if verbose {
            seq![
                aside(
                    c.tool@ + " installed at "@ + (match c.location {
                        Some(l) => l@,
                        None => Seq::empty(),
                    }) + " (not active)"@,
                ),
            ]
        } else {
            Seq::empty()
        },
        ConflictImpact::Overridden => seq![caution(c.tool@ + " detected"@)] + (match c.location {
            Some(l) => seq![out("    Installed at "@ + l@)],
            None => Seq::empty(),
        }) + (if c.in_path {
            seq![out("    In PATH at position "@ + number_or_zero(c.path_position))]
        } else {
            Seq::empty()
        }) + seq![out("    railsup shell-init overrides (OK)"@)],
        ConflictImpact::Blocking => seq![bad(c.tool@ + " is blocking railsup"@)] + (match c.location {
            Some(l) => seq![out("    Installed at "@ + l@)],
            None => Seq::empty(),
        }) + seq![out("    Use `railsup exec` or configure shell-init"@)],
    }
}

/// What the report says of the detected ones among `conflicts[..upto]`.
pub open spec fn detected_lines(conflicts: Seq<Conflict>, upto: int, verbose: bool) -> Seq<
    (Stream, Seq<char>),
>
    decreases upto,
{
    if upto <= 0 || upto > conflicts.len() {
        Seq::empty()
    } else {
        detected_lines(conflicts, upto - 1, verbose) + (if conflicts[upto - 1].detected {
            conflict_lines(conflicts[upto - 1], verbose)
        } else {
            Seq::empty()
        })
    }
}

/// What the report says of conflicts. The section is left out when none
/// was detected, unless the report is verbose.
pub open spec fn conflicts_section(report: DiagnosticReport, verbose: bool) -> Seq<
    (Stream, Seq<char>),
> {
    let all = report.conflicts@;
    if any_detected(all, all.len() as int) {
        seq![out("Conflicts"@)] + detected_lines(all, all.len() as int, verbose) + seq![
            out(Seq::empty()),
        ]
    } else if verbose {
        seq![out("Conflicts"@), good("No version managers detected"@), out(Seq::empty())]
    } else {
        Seq::empty()
    }
}

/// Appends what the report says of one detected conflict.
fn write_conflict(lines: &mut Vec<Line>, c: &Conflict, verbose: bool)
    ensures
        lines_view(final(lines)@) == lines_view(old(lines)@) + conflict_lines(*c, verbose),
{
    let ghost start = lines_view(lines@);
    proof {
        reveal_strlit("");
        assert(""@ =~= Seq::<char>::empty());
    }
    match c.impact {
        ConflictImpact::Inactive => {
            if verbose {
                let msg = match &c.location {
                    Some(l) => cat4(c.tool.as_str(), " installed at ", l.as_str(), " (not active)"),
                    None => cat4(c.tool.as_str(), " installed at ", "", " (not active)"),
                };
                show(lines, dim(msg.as_str()));
            }
        },
        ConflictImpact::Overridden => {
            let msg = cat2(c.tool.as_str(), " detected");
            show(lines, warn(msg.as_str()));
            match &c.location {
                Some(l) => {
                    put(lines, cat2("    Installed at ", l.as_str()));
                },
                None => {},
            }
            if c.in_path {
                let n = numeral_or_zero(c.path_position);
                put(lines, cat2("    In PATH at position ", n.as_str()));
            }
            say(lines, "    railsup shell-init overrides (OK)");
        },
        ConflictImpact::Blocking => {
            let msg = cat2(c.tool.as_str(), " is blocking railsup");
            show(lines, error(msg.as_str()));
            match &c.location {
                Some(l) => {
                    put(lines, cat2("    Installed at ", l.as_str()));
                },
                None => {},
            }
            say(lines, "    Use `railsup exec` or configure shell-init");
        },
    }
    assert(lines_view(lines@) =~= start + conflict_lines(*c, verbose));
}

/// Appends what the report says of conflicts.
fn write_conflicts(lines: &mut Vec<Line>, report: &DiagnosticReport, verbose: bool)
    ensures
        lines_view(final(lines)@) == lines_view(old(lines)@) + conflicts_section(*report, verbose),
{
    let ghost start = lines_view(lines@);
    let mut detected = false;
    let mut i: usize = 0;
    while i < report.conflicts.len()
        invariant
            i <= report.conflicts.len(),
            detected == any_detected(report.conflicts@, i as int),
        decreases report.conflicts.len() - i,
    {
        if report.conflicts[i].detected {
            detected = true;
        }
        i += 1;
    }
    proof {
        reveal_strlit("");
        assert(""@ =~= Seq::<char>::empty());
    }
    if detected {
        say(lines, "Conflicts");
        let ghost head = lines_view(lines@);
        let mut k: usize = 0;
        assert(head + detected_lines(report.conflicts@, 0, verbose) =~= head);
        while k < report.conflicts.len()
            invariant
                k <= report.conflicts.len(),
                lines_view(lines@) == head + detected_lines(report.conflicts@, k as int, verbose),
            decreases report.conflicts.len() - k,
        {
            let ghost before = lines_view(lines@);
            if report.conflicts[k].detected {
                write_conflict(lines, &report.conflicts[k], verbose);
            }
            k += 1;
            assert(lines_view(lines@) =~= head + detected_lines(
                report.conflicts@,
                k as int,
                verbose,
            ));
        }
        blank(lines);
        assert(lines_view(lines@) =~= start + conflicts_section(*report, verbose));
    } else if verbose {
        say(lines, "Conflicts");
        show(lines, success("No version managers detected"));
        blank(lines);
        assert(lines_view(lines@) =~= start + conflicts_section(*report, verbose));
    } else {
        assert(lines_view(lines@) =~= start + conflicts_section(*report, verbose));
    }
}

/// The note that marks whose directory a `PATH` entry is.
pub open spec fn annotation(source: PathSource) -> Seq<char> {
    match source {
        PathSource::Railsup => " <- railsup (active)"@,
        PathSource::RailsupGems => " <- gem binaries"@,
        PathSource::Rbenv => " <- rbenv"@,
        PathSource::Asdf => " <- asdf"@,
        PathSource::Rvm => " <- rvm"@,
        PathSource::Mise => " <- mise"@,
        PathSource::Homebrew => " <- homebrew"@,
        PathSource::System => Seq::empty(),
        PathSource::Unknown => Seq::empty(),
    }
}

/// The note that marks whose directory a `PATH` entry is.
fn annotate(source: PathSource) -> (note: &'static str)
    ensures
        note@ == annotation(source),
{
    proof {
        reveal_strlit("");
        assert(""@ =~= Seq::<char>::empty());
    }
    match source {
        PathSource::Railsup => " <- railsup (active)",
        PathSource::RailsupGems => " <- gem binaries",
        PathSource::Rbenv => " <- rbenv",
        PathSource::Asdf => " <- asdf",
        PathSource::Rvm => " <- rvm",
        PathSource::Mise => " <- mise",
        PathSource::Homebrew => " <- homebrew",
        PathSource::System => "",
        PathSource::Unknown => "",
    }
}

/// The line for entry `i` of the `PATH`: `  {i + 1}. {path}{note}`.
pub open spec fn entry_line(entry: PathEntry, i: int) -> (Stream, Seq<char>) {
    out("  "@ + decimal((i + 1) as nat) + ". "@ + entry.path@ + annotation(entry.source))
}

/// The lines for the entries `entries[..upto]`.
pub open spec fn entry_lines(entries: Seq<PathEntry>, upto: int) -> Seq<(Stream, Seq<char>)>
    decreases upto,
{
    if upto <= 0 || upto > entries.len() {
        Seq::empty()
    } else {
        entry_lines(entries, upto - 1).push(entry_line(entries[upto - 1], upto - 1))
    }
}

/// What the report says of the `PATH`: its first six entries, and which
/// Ruby it leads to. The section is left out when the right Ruby is found,
/// unless the report is verbose.
pub open spec fn path_section(report: DiagnosticReport, verbose: bool) -> Seq<(Stream, Seq<char>)> {
    let analysis = report.path_analysis;
    let entries = analysis.entries@;
    let shown = if entries.len() > 6 {
        6
    } else {
        entries.len() as int
    };
    if verbose || !analysis.ruby_correct {
        seq![out("PATH Analysis"@)] + entry_lines(entries, shown) + (if entries.len() > 6 {
            seq![out("  ..."@)]
        } else {
            Seq::empty()
        }) + seq![out(Seq::empty())] + (match analysis.which_ruby {
            Some(w) => if analysis.ruby_correct {
                seq![good("which ruby -> "@ + w@)]
            } else {
                seq![bad("which ruby -> "@ + w@), out("    Expected: "@ + analysis.expected_ruby@)]
            },
            None => if report.ruby_status.any_installed {
                seq![
                    caution("which ruby -> not found"@),
                    out("    Shell integration may not be active"@),
                ]
            } else {
                Seq::empty()
            },
        }) + seq![out(Seq::empty())]
    } else {
        Seq::empty()
    }
}

/// Appends what the report says of the `PATH`.
fn write_path(lines: &mut Vec<Line>, report: &DiagnosticReport, verbose: bool)
    ensures
        lines_view(final(lines)@) == lines_view(old(lines)@) + path_section(*report, verbose),
{
    let ghost start = lines_view(lines@);
    let analysis = &report.path_analysis;
    if !(verbose || !analysis.ruby_correct) {
        assert(lines_view(lines@) =~= start + path_section(*report, verbose));
        return ;
    }
    proof {
        reveal_strlit("");
        assert(""@ =~= Seq::<char>::empty());
    }
    say(lines, "PATH Analysis");
    let shown: usize = if analysis.entries.len() > 6 {
        6
    } else {
        analysis.entries.len()
    };
    let ghost head = lines_view(lines@);
    let mut i: usize = 0;
    assert(head + entry_lines(analysis.entries@, 0) =~= head);
    while i < shown
        invariant
            i <= shown <= analysis.entries.len(),
            shown <= 6,
            lines_view(lines@) == head + entry_lines(analysis.entries@, i as int),
        decreases shown - i,
    {
        let n = decimal_string((i + 1) as u64);
        let entry = &analysis.entries[i];
        put(lines, cat5("  ", n.as_str(), ". ", entry.path.as_str(), annotate(entry.source)));
        i += 1;
        assert(lines_view(lines@) =~= head + entry_lines(analysis.entries@, i as int));
    }
    if analysis.entries.len() > 6 {
        say(lines, "  ...");
    }
    blank(lines);
    match &analysis.which_ruby {
        Some(w) => {
            let msg = cat2("which ruby -> ", w.as_str());
            if analysis.ruby_correct {
                show(lines, success(msg.as_str()));
            } else {
                show(lines, error(msg.as_str()));
                put(lines, cat2("    Expected: ", analysis.expected_ruby.as_str()));
            }
        },
        None => {
            if report.ruby_status.any_installed {
                show(lines, warn("which ruby -> not found"));
                say(lines, "    Shell integration may not be active");
            }
        },
    }
    blank(lines);
    assert(lines_view(lines@) =~= start + path_section(*report, verbose));
}

/// A warning for each of `issues[..upto]`.
pub open spec fn issue_lines(issues: Seq<String>, upto: int) -> Seq<(Stream, Seq<char>)>
    decreases upto,
{
    if upto <= 0 || upto > issues.len() {
        Seq::empty()
    } else {
        issue_lines(issues, upto - 1).push(caution(issues[upto - 1]@))
    }
}

/// What the report says of the environment variables. The section is left
/// out when there is no issue, unless the report is verbose.
pub open spec fn variables_section(report: DiagnosticReport, verbose: bool) -> Seq<
    (Stream, Seq<char>),
> {
    let issues = report.environment.issues@;
    if issues.len() > 0 {
        seq![out("Environment Variables"@)] + issue_lines(issues, issues.len() as int) + seq![
            out(Seq::empty()),
        ]
    } else if verbose {
        seq![
            out("Environment Variables"@),
            good("No problematic variables detected"@),
            out(Seq::empty()),
        ]
    } else {
        Seq::empty()
    }
}

/// Appends what the report says of the environment variables.
fn write_variables(lines: &mut Vec<Line>, report: &DiagnosticReport, verbose: bool)
    ensures
        lines_view(final(lines)@) == lines_view(old(lines)@) + variables_section(*report, verbose),
{
    let ghost start = lines_view(lines@);
    let issues = &report.environment.issues;
    proof {
        reveal_strlit("");
        assert(""@ =~= Seq::<char>::empty());
    }
    if issues.len() > 0 {
        say(lines, "Environment Variables");
        let ghost head = lines_view(lines@);
        let mut i: usize = 0;
        assert(head + issue_lines(issues@, 0) =~= head);
        while i < issues.len()
            invariant
                i <= issues.len(),
                lines_view(lines@) == head + issue_lines(issues@, i as int),
            decreases issues.len() - i,
        {
            show(lines, warn(issues[i].as_str()));
            i += 1;
            assert(lines_view(lines@) =~= head + issue_lines(issues@, i as int));
        }
        blank(lines);
        assert(lines_view(lines@) =~= start + variables_section(*report, verbose));
    } else if verbose {
        say(lines, "Environment Variables");
        show(lines, success("No problematic variables detected"));
        blank(lines);
        assert(lines_view(lines@) =~= start + variables_section(*report, verbose));
    } else {
        assert(lines_view(lines@) =~= start + variables_section(*report, verbose));
    }
}

/// What the report says of the project, if there is one.
pub open spec fn project_section(report: DiagnosticReport) -> Seq<(Stream, Seq<char>)> {
    match report.project {
        None => Seq::empty(),
        Some(p) => seq![out("Project"@), aside("Path: "@ + p.path@)] + (match p.ruby_version_file {
            Some(v) => seq![out("  .ruby-version: "@ + v@)],
            None => Seq::empty(),
        }) + (match p.gemfile_ruby {
            Some(v) => seq![out("  Gemfile ruby: "@ + v@)],
            None => Seq::empty(),
        }) + (match p.railsup_toml {
            Some(v) => seq![out("  railsup.toml: "@ + v@)],
            None => Seq::empty(),
        }) + (if !p.version_match {
            seq![caution("Project Ruby version may not match installed version"@)]
        } else {
            Seq::empty()
        }) + seq![out(Seq::empty())],
    }
}

/// Appends what the report says of the project.
fn write_project(lines: &mut Vec<Line>, report: &DiagnosticReport)
    ensures
        lines_view(final(lines)@) == lines_view(old(lines)@) + project_section(*report),
{
    let ghost start = lines_view(lines@);
    proof {
        reveal_strlit("");
        assert(""@ =~= Seq::<char>::empty());
    }
    match &report.project {
        None => {},
        Some(p) => {
            say(lines, "Project");
            let msg = cat2("Path: ", p.path.as_str());
            show(lines, dim(msg.as_str()));
            match &p.ruby_version_file {
                Some(v) => {
                    put(lines, cat2("  .ruby-version: ", v.as_str()));
                },
                None => {},
            }
            match &p.gemfile_ruby {
                Some(v) => {
                    put(lines, cat2("  Gemfile ruby: ", v.as_str()));
                },
                None => {},
            }
            match &p.railsup_toml {
                Some(v) => {
                    put(lines, cat2("  railsup.toml: ", v.as_str()));
                },
                None => {},
            }
            if !p.version_match {
                show(lines, warn("Project Ruby version may not match installed version"));
            }
            blank(lines);
        },
    }
    assert(lines_view(lines@) =~= start + project_section(*report));
}

/// The whole report: its sections in order.
pub open spec fn report_text(
    report: DiagnosticReport,
    verbose: bool,
    shell_file: Option<Seq<char>>,
) -> Seq<(Stream, Seq<char>)> {
    environment_section(report) + shell_section(report, shell_file) + conflicts_section(
        report,
        verbose,
    ) + path_section(report, verbose) + variables_section(report, verbose) + project_section(
        report,
    )
}

/// Writes the diagnostic report as lines for the user.
///
/// `verbose` asks for the sections that have nothing to report as well.
/// `shell_file` names the file of the user's shell, if it is known; it is
/// named where the shell is not set up.
pub fn report_lines(report: &DiagnosticReport, verbose: bool, shell_file: Option<&str>) -> (lines:
    Vec<Line>)
    ensures
        lines_view(lines@) == report_text(*report, verbose, shell_file.deep_view()),
{
    let mut lines: Vec<Line> = Vec::new();
    assert(lines_view(lines@) =~= Seq::empty());
    write_environment(&mut lines, report);
    write_shell(&mut lines, report, shell_file);
    write_conflicts(&mut lines, report, verbose);
    write_path(&mut lines, report, verbose);
    write_variables(&mut lines, report, verbose);
    write_project(&mut lines, report);
    assert(lines_view(lines@) =~= report_text(*report, verbose, shell_file.deep_view()));
    lines
}

/// The file that configures the user's shell, from the value of `SHELL`:
/// `.zshrc` for zsh; for bash `.bash_profile` on macOS (`apple`) and
/// `.bashrc` elsewhere; none for other shells.
pub fn get_shell_config_file(shell: &str, apple: bool) -> (file: Option<String>)
    ensures
        file.deep_view() == if contains(shell@, "zsh"@) {
            Some(".zshrc"@)
        } else if contains(shell@, "bash"@) {
            Some(
                if apple {
                    ".bash_profile"@
                } else {
                    ".bashrc"@
                },
            )
        } else {
            None
        },
{
    let v = chars_of(shell);
    if holds(v.as_slice(), "zsh") {
        Some(".zshrc".to_owned())
    } else if holds(v.as_slice(), "bash") {
        if apple {
            Some(".bash_profile".to_owned())
        } else {
            Some(".bashrc".to_owned())
        }
    } else {
        None
    }
}

} // verus!
