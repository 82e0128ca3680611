use railsup::agent::{
    build_context, detect_shell_integration, find_project_ruby, is_rails_project, project_context,
    ruby_version_in_file, tool_versions_ruby,
};
use railsup::cli::{
    format_args, format_available, format_installed, gem_is_installed, get_rails_version,
    install_target, is_yes, rails_new_args, resolve_command_path, ruby_version_from_bin,
    server_command_path, tool_path, Cli, Commands, RubyCommands, DEFAULT_RUBY_VERSION,
    SHELL_INIT_SNIPPET,
};
use railsup::bundler::BundleContext;
use railsup::doctor::checks::{
    analyze_path, analyze_project, check_environment, check_file_for_shell_init,
    check_installation, classify_path_source, conflicts_given, detect_conflicts, expand_home,
    expand_path, extract_sourced_file, gemfile_ruby_version, get_ruby_status,
    shell_not_configured, sourced_file_in, version_match, Installed,
};
use railsup::doctor::render::{get_shell_config_file, report_lines};
use railsup::doctor::report::{
    ConflictImpact, DiagnosticReport, PathSource, RubyVersionInfo, ShellInitPlacement,
    ShellIntegrationStatus,
};
use railsup::doctor::wrap::{build_prompt, WordWrapper};
use railsup::ui::{dim, error, info, success, warn, Line, Stream};

fn strings(items: &[&str]) -> Vec<String> {
    items.iter().map(|s| s.to_string()).collect()
}

#[test]
fn ui_lines() {
    assert_eq!(success("done").text, "  ✓ done");
    assert_eq!(success("done").stream, Stream::Stdout);
    assert_eq!(error("bad").text, "  ✗ bad");
    assert_eq!(error("bad").stream, Stream::Stderr);
    assert_eq!(warn("hm").text, "  ⚠ hm");
    assert_eq!(warn("hm").stream, Stream::Stderr);
    assert_eq!(dim("x").text, "  x");
    assert_eq!(dim("x").stream, Stream::Stdout);
    assert_eq!(info("x").text, "x");
    assert_eq!(info("x").stream, Stream::Stdout);
}

#[test]
fn path_entries_are_classified() {
    assert_eq!(classify_path_source("/home/u/.railsup/ruby/ruby-4.0.1/bin"), PathSource::Railsup);
    assert_eq!(classify_path_source("/home/u/.railsup/gems/4.0.1/bin"), PathSource::RailsupGems);
    assert_eq!(classify_path_source("/home/u/.rbenv/shims"), PathSource::Rbenv);
    assert_eq!(classify_path_source("/home/u/.asdf/shims"), PathSource::Asdf);
    assert_eq!(classify_path_source("/home/u/.rvm/bin"), PathSource::Rvm);
    assert_eq!(classify_path_source("/home/u/.local/share/mise/shims"), PathSource::Mise);
    assert_eq!(classify_path_source("/opt/homebrew/bin"), PathSource::Homebrew);
    assert_eq!(classify_path_source("/usr/local/Cellar/x"), PathSource::Homebrew);
    assert_eq!(classify_path_source("/usr/bin"), PathSource::System);
    assert_eq!(classify_path_source("/bin"), PathSource::System);
    assert_eq!(classify_path_source("/sbin"), PathSource::Unknown);
    assert_eq!(classify_path_source(""), PathSource::Unknown);
    assert_eq!(classify_path_source("/home/u/.rbenv/.railsup/gems/x"), PathSource::RailsupGems);
}

#[test]
fn shell_init_after_version_managers() {
    let content = "export A=1\neval \"$(rbenv init -)\"\n# eval \"$(railsup shell-init)\"\n\neval \"$(railsup shell-init)\"\n";
    let status = check_file_for_shell_init("/home/u/.zshrc", content).unwrap();
    assert!(status.configured);
    assert_eq!(status.shell_file, Some("/home/u/.zshrc".to_string()));
    assert_eq!(status.line_number, Some(5));
    assert_eq!(status.placement, ShellInitPlacement::AfterVersionManagers);
}

#[test]
fn shell_init_before_version_managers() {
    let content = "  eval \"$(railsup shell-init)\"\nsource ~/.asdf/asdf.sh\neval \"$(mise activate zsh)\"";
    let status = check_file_for_shell_init("f", content).unwrap();
    assert_eq!(status.line_number, Some(1));
    assert_eq!(status.placement, ShellInitPlacement::BeforeVersionManagers);
}

#[test]
fn shell_init_without_version_managers_or_absent() {
    let status = check_file_for_shell_init("f", "eval \"$(railsup shell-init)\"").unwrap();
    assert_eq!(status.placement, ShellInitPlacement::NoVersionManagers);
    assert_eq!(status.line_number, Some(1));
    assert!(check_file_for_shell_init("f", "eval \"$(rbenv init -)\"\n").is_none());
    assert!(check_file_for_shell_init("f", "# railsup shell-init\n").is_none());
    assert!(check_file_for_shell_init("f", "").is_none());
    assert!(check_file_for_shell_init("f", "railsup shell-init; rbenv init\n").is_none());
    let none = shell_not_configured();
    assert!(!none.configured);
    assert_eq!(none.placement, ShellInitPlacement::NotFound);
}

#[test]
fn sourced_files_are_read_from_lines() {
    assert_eq!(sourced_file_in("source ~/.profile"), Some("~/.profile".to_string()));
    assert_eq!(sourced_file_in("source \"$HOME/.env\" # x"), Some("$HOME/.env".to_string()));
    assert_eq!(sourced_file_in(". '/etc/profile'"), Some("/etc/profile".to_string()));
    assert_eq!(
        sourced_file_in("[[ -f ~/.x ]] && source ~/.x"),
        Some("~/.x".to_string())
    );
    assert_eq!(sourced_file_in("[[ -f ~/.x ]] && . ~/.y"), Some("~/.y".to_string()));
    assert_eq!(sourced_file_in("source "), None);
    assert_eq!(sourced_file_in("export PATH=x"), None);
    assert_eq!(sourced_file_in("echo a. b"), Some("b".to_string()));
}

#[test]
fn home_is_expanded() {
    assert_eq!(expand_home("~/.profile", "/home/u"), Some("/home/u/.profile".to_string()));
    assert_eq!(expand_home("$HOME/.env", "/home/u"), Some("/home/u/.env".to_string()));
    assert_eq!(expand_home("${HOME}/.env", "/home/u/"), Some("/home/u/.env".to_string()));
    assert_eq!(expand_home("/etc/profile", "/home/u"), Some("/etc/profile".to_string()));
    assert_eq!(expand_home("relative/file", "/home/u"), None);
    assert_eq!(expand_home("~", "/home/u"), None);
}

#[test]
fn expanded_paths_must_exist() {
    let dir = tempfile::tempdir().unwrap();
    let _file = tempfile::Builder::new().prefix(".aliases").rand_bytes(0).tempfile_in(dir.path()).unwrap();
    let home = dir.path().to_str().unwrap();
    assert_eq!(expand_path("~/.aliases", home), Some(format!("{}/.aliases", home)));
    assert_eq!(expand_path("~/.missing", home), None);
    assert_eq!(expand_path("nope", home), None);
    assert_eq!(
        extract_sourced_file("source \"$HOME/.aliases\"", home),
        Some(format!("{}/.aliases", home))
    );
    assert_eq!(extract_sourced_file("source ~/.missing", home), None);
    assert_eq!(extract_sourced_file("echo hi", home), None);
}

#[test]
fn conflicts_are_recorded_per_tool() {
    let installed = Installed { rbenv: true, asdf: false, rvm: true, mise: true };
    let path_env = "/usr/bin:/home/u/.rbenv/shims:/x/mise/shims:/home/u/.asdf/shims";
    let conflicts =
        conflicts_given(ShellInitPlacement::BeforeVersionManagers, "/home/u", path_env, &installed);
    assert_eq!(conflicts.len(), 4);
    assert_eq!(conflicts[0].tool, "rbenv");
    assert!(conflicts[0].detected);
    assert_eq!(conflicts[0].location, Some("/home/u/.rbenv".to_string()));
    assert!(conflicts[0].in_path);
    assert_eq!(conflicts[0].path_position, Some(1));
    assert_eq!(conflicts[0].impact, ConflictImpact::Blocking);
    assert_eq!(conflicts[1].tool, "asdf");
    assert!(!conflicts[1].detected);
    assert_eq!(conflicts[1].location, None);
    assert_eq!(conflicts[1].path_position, Some(3));
    assert_eq!(conflicts[1].impact, ConflictImpact::Inactive);
    assert_eq!(conflicts[2].tool, "rvm");
    assert_eq!(conflicts[2].location, Some("/home/u/.rvm".to_string()));
    assert!(!conflicts[2].in_path);
    assert_eq!(conflicts[2].path_position, None);
    assert_eq!(conflicts[2].impact, ConflictImpact::Inactive);
    assert_eq!(conflicts[3].tool, "mise");
    assert_eq!(conflicts[3].location, Some("/home/u/.local/share/mise".to_string()));
    assert_eq!(conflicts[3].path_position, Some(2));
    assert_eq!(conflicts[3].impact, ConflictImpact::Blocking);

    let conflicts =
        conflicts_given(ShellInitPlacement::AfterVersionManagers, "/home/u", path_env, &installed);
    assert_eq!(conflicts[0].impact, ConflictImpact::Overridden);
    assert_eq!(conflicts[1].impact, ConflictImpact::Inactive);
    assert_eq!(conflicts[2].impact, ConflictImpact::Overridden);
    let conflicts =
        conflicts_given(ShellInitPlacement::NoVersionManagers, "/home/u", "", &installed);
    assert_eq!(conflicts[3].impact, ConflictImpact::Overridden);
    let conflicts = conflicts_given(ShellInitPlacement::NotFound, "/home/u", "", &installed);
    assert_eq!(conflicts[3].impact, ConflictImpact::Inactive);
}

#[test]
fn conflicts_are_detected_on_disk() {
    let dir = tempfile::tempdir().unwrap();
    let _rbenv = tempfile::Builder::new().prefix(".rbenv").rand_bytes(0).tempdir_in(dir.path()).unwrap();
    let home = dir.path().to_str().unwrap();
    let status = shell_not_configured();
    let conflicts = detect_conflicts(&status, home, &format!("{}/.rbenv/shims:/usr/bin", home));
    assert_eq!(conflicts.len(), 4);
    assert!(conflicts[0].detected);
    assert_eq!(conflicts[0].impact, ConflictImpact::Blocking);
    assert_eq!(conflicts[0].location, Some(format!("{}/.rbenv", home)));
    assert!(!conflicts[1].detected);
    assert!(!conflicts[2].detected);
    assert!(!conflicts[3].detected);
}

#[test]
fn ruby_status_and_installation() {
    let versions = vec![RubyVersionInfo {
        version: "4.0.1".to_string(),
        path: "/h/.railsup/ruby/ruby-4.0.1".to_string(),
        is_default: true,
    }];
    let status = get_ruby_status(&versions, Some("4.0.1".to_string()));
    assert!(status.any_installed);
    assert!(status.default_set);
    assert_eq!(status.default_version, Some("4.0.1".to_string()));
    assert_eq!(status.installed_count, 1);
    let status = get_ruby_status(&[], None);
    assert!(!status.any_installed);
    assert!(!status.default_set);
    assert_eq!(status.installed_count, 0);

    let health = check_installation("/usr/bin/railsup".to_string(), "/home/u", false, true);
    assert_eq!(health.binary_path, "/usr/bin/railsup");
    assert_eq!(health.config_dir, "/home/u/.railsup");
    assert_eq!(health.ruby_dir, "/home/u/.railsup/ruby");
    assert_eq!(health.gems_dir, "/home/u/.railsup/gems");
    assert_eq!(health.cache_dir, "/home/u/.railsup/cache");
    assert!(health.all_healthy);
    assert!(!check_installation("r".to_string(), "/home/u", false, false).all_healthy);
}

#[test]
fn environment_issues_are_listed_in_order() {
    let check = check_environment(
        Some("/home/u/.gem".to_string()),
        Some("/p".to_string()),
        Some("-rbundler/setup".to_string()),
        Some("/lib".to_string()),
        None,
    );
    assert_eq!(
        check.issues,
        vec![
            "GEM_HOME=/home/u/.gem (not railsup's)",
            "RUBYOPT=-rbundler/setup (may cause conflicts)",
            "RUBYLIB=/lib (may cause conflicts)"
        ]
    );
    assert_eq!(check.gem_path, Some("/p".to_string()));
    let check =
        check_environment(Some("/home/u/.railsup/gems/4.0.1".to_string()), None, None, None, None);
    assert!(check.issues.is_empty());
    assert!(check_environment(None, None, None, None, Some("b".to_string())).issues.is_empty());
}

#[test]
fn path_is_analyzed() {
    let status = get_ruby_status(&[], Some("4.0.1".to_string()));
    let analysis = analyze_path(
        &status,
        "/home/u/.railsup/ruby/ruby-4.0.1/bin:/home/u/.railsup/gems/4.0.1/bin:/usr/bin",
        Some("/home/u/.railsup/ruby/ruby-4.0.1/bin/ruby".to_string()),
        None,
        Some("/usr/bin/bundle".to_string()),
        "/home/u",
    );
    assert_eq!(analysis.entries.len(), 3);
    assert_eq!(analysis.entries[0].source, PathSource::Railsup);
    assert_eq!(analysis.entries[1].source, PathSource::RailsupGems);
    assert_eq!(analysis.entries[1].position, 1);
    assert_eq!(analysis.entries[2].path, "/usr/bin");
    assert_eq!(analysis.entries[2].source, PathSource::System);
    assert!(analysis.ruby_correct);
    assert!(analysis.gem_bin_in_path);
    assert_eq!(analysis.expected_ruby, "/home/u/.railsup/ruby/ruby-4.0.1/bin/ruby");
    assert_eq!(analysis.which_gem, None);
    assert_eq!(analysis.which_bundle, Some("/usr/bin/bundle".to_string()));

    let status = get_ruby_status(&[], None);
    let analysis =
        analyze_path(&status, "", Some("/usr/bin/ruby".to_string()), None, None, "/home/u");
    assert_eq!(analysis.entries.len(), 1);
    assert_eq!(analysis.entries[0].path, "");
    assert!(!analysis.ruby_correct);
    assert!(!analysis.gem_bin_in_path);
    assert_eq!(analysis.expected_ruby, "~/.railsup/ruby/ruby-VERSION/bin/ruby");
}

#[test]
fn gemfile_ruby_is_what_is_quoted() {
    assert_eq!(
        gemfile_ruby_version("source \"https://rubygems.org\"\n  ruby \"3.3.0\"\n"),
        Some("3.3.0".to_string())
    );
    assert_eq!(gemfile_ruby_version("ruby(\"3.4.1\")"), Some("3.4.1".to_string()));
    assert_eq!(gemfile_ruby_version("ruby '3.3.0'\nruby \"3.2.0\""), Some("3.2.0".to_string()));
    assert_eq!(gemfile_ruby_version("ruby \"3.3.0\nruby \"\" x"), Some("".to_string()));
    assert_eq!(gemfile_ruby_version("gem \"ruby\"\nrubygems \"1\""), None);
    assert_eq!(gemfile_ruby_version(""), None);
}

#[test]
fn project_versions_are_matched_against_the_default() {
    let some = |s: &str| Some(s.to_string());
    assert!(version_match(&some("4.0.1"), &some("4.0.1")));
    assert!(!version_match(&some("4.0.1"), &some("4.0.2")));
    assert!(version_match(&None, &some("4.0.2")));
    assert!(version_match(&None, &None));
    assert!(!version_match(&some("4.0.1"), &None));

    let analysis = analyze_project(
        "/srv/app",
        Some("ruby-3.3.0\n"),
        Some("ruby = \"4.0.1\""),
        Some("ruby \"3.2.0\""),
        &some("4.0.1"),
    );
    assert_eq!(analysis.path, "/srv/app");
    assert!(analysis.is_rails);
    assert_eq!(analysis.ruby_version_file, some("3.3.0"));
    assert_eq!(analysis.railsup_toml, some("4.0.1"));
    assert_eq!(analysis.gemfile_ruby, some("3.2.0"));
    assert!(analysis.version_match);
    let analysis = analyze_project("/srv/app", Some("3.3.0"), None, Some("ruby \"4.0.1\""), &some("4.0.1"));
    assert!(!analysis.version_match);
    let analysis = analyze_project("/srv/app", None, Some("x = 1"), Some("ruby \"4.0.1\""), &some("4.0.1"));
    assert!(analysis.version_match);
    let analysis = analyze_project("/srv/app", None, None, None, &None);
    assert!(analysis.version_match);
}

fn report() -> DiagnosticReport {
    let status = get_ruby_status(&[], None);
    DiagnosticReport {
        railsup_version: "0.3.0".to_string(),
        installation: check_installation("/usr/bin/railsup".to_string(), "/home/u", true, true),
        ruby_versions: vec![],
        shell_integration: shell_not_configured(),
        conflicts: conflicts_given(
            ShellInitPlacement::NotFound,
            "/home/u",
            "",
            &Installed { rbenv: false, asdf: false, rvm: false, mise: false },
        ),
        path_analysis: analyze_path(&status, "/usr/bin", None, None, None, "/home/u"),
        ruby_status: status,
        environment: check_environment(None, None, None, None, None),
        project: None,
    }
}

fn texts(lines: &[Line]) -> Vec<String> {
    lines
        .iter()
        .map(|l| match l.stream {
            Stream::Stdout => format!("out|{}", l.text),
            Stream::Stderr => format!("err|{}", l.text),
        })
        .collect()
}

#[test]
fn report_for_an_empty_machine() {
    let lines = report_lines(&report(), false, Some(".zshrc"));
    assert_eq!(
        texts(&lines),
        vec![
            "out|".to_string(),
            "out|Railsup Doctor".to_string(),
            format!("out|{}", "═".repeat(50)),
            "out|".to_string(),
            "out|Environment".to_string(),
            "out|  ✓ Railsup v0.3.0 at /usr/bin/railsup".to_string(),
            "err|  ✗ No Ruby installed".to_string(),
            "out|    Run: railsup ruby install 4.0.1".to_string(),
            "out|".to_string(),
            "out|Shell Integration".to_string(),
            "err|  ✗ shell-init not configured".to_string(),
            "out|    Add to .zshrc: eval \"$(railsup shell-init)\"".to_string(),
            "out|".to_string(),
            "out|PATH Analysis".to_string(),
            "out|  1. /usr/bin".to_string(),
            "out|".to_string(),
            "out|".to_string(),
        ]
    );
}

#[test]
fn report_for_a_busy_machine() {
    let versions = vec![
        RubyVersionInfo { version: "4.0.1".to_string(), path: "a".to_string(), is_default: true },
        RubyVersionInfo { version: "3.4.1".to_string(), path: "b".to_string(), is_default: false },
    ];
    let status = get_ruby_status(&versions, Some("4.0.1".to_string()));
    let path_env = "/home/u/.rbenv/shims:/home/u/.railsup/ruby/ruby-4.0.1/bin:/a:/b:/c:/d:/e";
    let mut r = report();
    r.path_analysis = analyze_path(
        &status,
        path_env,
        Some("/home/u/.rbenv/shims/ruby".to_string()),
        None,
        None,
        "/home/u",
    );
    r.ruby_status = status;
    r.ruby_versions = versions;
    r.shell_integration = ShellIntegrationStatus {
        configured: true,
        shell_file: Some("/home/u/.zshrc".to_string()),
        line_number: Some(12),
        placement: ShellInitPlacement::BeforeVersionManagers,
    };
    r.conflicts = conflicts_given(
        ShellInitPlacement::BeforeVersionManagers,
        "/home/u",
        path_env,
        &Installed { rbenv: true, asdf: true, rvm: false, mise: false },
    );
    r.environment = check_environment(None, None, Some("-w".to_string()), None, None);
    r.project = Some(analyze_project(
        "/srv/app",
        Some("3.4.1"),
        None,
        Some("ruby \"3.4.1\""),
        &Some("4.0.1".to_string()),
    ));
    let lines = texts(&report_lines(&r, true, None));
    let expected = vec![
        "out|",
        "out|Railsup Doctor",
        "out|══════════════════════════════════════════════════",
        "out|",
        "out|Environment",
        "out|  ✓ Railsup v0.3.0 at /usr/bin/railsup",
        "out|  ✓ Ruby versions installed: 4.0.1, 3.4.1",
        "out|  ✓ Default Ruby: 4.0.1",
        "out|",
        "out|Shell Integration",
        "err|  ⚠ shell-init placed BEFORE version managers",
        "out|    In /home/u/.zshrc line 12 - move to END of file",
        "out|    Other version managers will override railsup",
        "out|",
        "out|Conflicts",
        "err|  ✗ rbenv is blocking railsup",
        "out|    Installed at /home/u/.rbenv",
        "out|    Use `railsup exec` or configure shell-init",
        "out|  asdf installed at /home/u/.asdf (not active)",
        "out|",
        "out|PATH Analysis",
        "out|  1. /home/u/.rbenv/shims <- rbenv",
        "out|  2. /home/u/.railsup/ruby/ruby-4.0.1/bin <- railsup (active)",
        "out|  3. /a",
        "out|  4. /b",
        "out|  5. /c",
        "out|  6. /d",
        "out|  ...",
        "out|",
        "err|  ✗ which ruby -> /home/u/.rbenv/shims/ruby",
        "out|    Expected: /home/u/.railsup/ruby/ruby-4.0.1/bin/ruby",
        "out|",
        "out|Environment Variables",
        "err|  ⚠ RUBYOPT=-w (may cause conflicts)",
        "out|",
        "out|Project",
        "out|  Path: /srv/app",
        "out|  .ruby-version: 3.4.1",
        "out|  Gemfile ruby: 3.4.1",
        "err|  ⚠ Project Ruby version may not match installed version",
        "out|",
    ];
    assert_eq!(lines, expected);
}

#[test]
fn report_for_a_healthy_machine() {
    let versions = vec![RubyVersionInfo {
        version: "4.0.1".to_string(),
        path: "a".to_string(),
        is_default: false,
    }];
    let status = get_ruby_status(&versions, None);
    let mut r = report();
    r.path_analysis = analyze_path(
        &status,
        "/home/u/.railsup/ruby/ruby-4.0.1/bin",
        Some("/home/u/.railsup/ruby/ruby-4.0.1/bin/ruby".to_string()),
        None,
        None,
        "/home/u",
    );
    r.ruby_status = status;
    r.ruby_versions = versions;
    r.shell_integration = ShellIntegrationStatus {
        configured: true,
        shell_file: Some("/home/u/.zshrc".to_string()),
        line_number: Some(3),
        placement: ShellInitPlacement::AfterVersionManagers,
    };
    r.conflicts = conflicts_given(
        ShellInitPlacement::AfterVersionManagers,
        "/home/u",
        "/x/.rvm/bin",
        &Installed { rbenv: false, asdf: false, rvm: true, mise: false },
    );
    let quiet = texts(&report_lines(&r, false, None));
    assert_eq!(
        quiet,
        vec![
            "out|",
            "out|Railsup Doctor",
            "out|══════════════════════════════════════════════════",
            "out|",
            "out|Environment",
            "out|  ✓ Railsup v0.3.0 at /usr/bin/railsup",
            "out|  ✓ Ruby versions installed: 4.0.1",
            "err|  ⚠ No default Ruby set",
            "out|    Run: railsup ruby default 4.0.1",
            "out|",
            "out|Shell Integration",
            "out|  ✓ shell-init in /home/u/.zshrc (line 3)",
            "out|  ✓ Placed AFTER version managers (correct)",
            "out|",
            "out|Conflicts",
            "err|  ⚠ rvm detected",
            "out|    Installed at /home/u/.rvm",
            "out|    In PATH at position 0",
            "out|    railsup shell-init overrides (OK)",
            "out|",
        ]
    );
    r.conflicts = vec![];
    let verbose = texts(&report_lines(&r, true, None));
    assert_eq!(
        &verbose[14..],
        &[
            "out|Conflicts",
            "out|  ✓ No version managers detected",
            "out|",
            "out|PATH Analysis",
            "out|  1. /home/u/.railsup/ruby/ruby-4.0.1/bin <- railsup (active)",
            "out|",
            "out|  ✓ which ruby -> /home/u/.railsup/ruby/ruby-4.0.1/bin/ruby",
            "out|",
            "out|Environment Variables",
            "out|  ✓ No problematic variables detected",
            "out|",
        ]
    );
}

#[test]
fn shell_config_file_by_shell() {
    assert_eq!(get_shell_config_file("/bin/zsh", false), Some(".zshrc".to_string()));
    assert_eq!(get_shell_config_file("/bin/bash", false), Some(".bashrc".to_string()));
    assert_eq!(get_shell_config_file("/bin/bash", true), Some(".bash_profile".to_string()));
    assert_eq!(get_shell_config_file("/usr/bin/fish", true), None);
    assert_eq!(get_shell_config_file("", false), None);
}

#[test]
fn words_wrap_at_the_width() {
    let mut w = WordWrapper::new(10);
    let mut out = String::new();
    out.push_str(&w.write("hello wor"));
    out.push_str(&w.write("ld this is a longer text\nnew"));
    out.push_str(&w.write(" line  x"));
    out.push_str(&w.flush());
    assert_eq!(out, "hello \nworld this \nis a \nlonger \ntext\nnew line  \nx");
    assert_eq!(w.flush(), "");
}

#[test]
fn wrapping_counts_bytes_and_keeps_long_words() {
    let mut w = WordWrapper::new(4);
    let mut out = String::new();
    out.push_str(&w.write("ééé é abcdefgh i"));
    out.push_str(&w.flush());
    assert_eq!(out, "ééé \né \nabcdefgh \ni");
    let mut w = WordWrapper::new(76);
    assert_eq!(w.write(" lead"), "");
    assert_eq!(w.write(" "), "lead ");
    assert_eq!(w.write("\n\n"), "\n\n");
}

#[test]
fn prompt_wraps_the_report() {
    let prompt = build_prompt("{\"a\": 1}");
    assert!(prompt.starts_with("You are analyzing a railsup doctor diagnostic report.\n\nRailsup is THE way"));
    assert!(prompt.contains("Diagnostic Report:\n```json\n{\"a\": 1}\n```\n\nProvide a brief"));
    assert!(prompt.ends_with("No action needed.\"\n"));
}

#[test]
fn agent_context_when_shell_is_active() {
    let project = project_context(
        "/srv/blog",
        find_project_ruby(None, Some("ruby-3.4.1\n"), Some("ruby 3.3.0")),
    );
    let text = build_context(
        "0.3.0",
        &strings(&["4.0.1", "3.4.1"]),
        Some("4.0.1".to_string()),
        true,
        Some(project),
    );
    assert!(text.starts_with("# Railsup - AI Agent Context\n\n**TL;DR: Just run Ruby/Rails commands normally. Shell integration is active.**\n\n## What is Railsup?\n"));
    assert!(text.contains("- Railsup version: 0.3.0\n- Installed Ruby versions: 4.0.1, 3.4.1\n- Default Ruby: 4.0.1\n- Shell integration: **Active** (railsup Ruby is in PATH)\n- Ruby installations: ~/.railsup/ruby/\n- Gem installations: ~/.railsup/gems/\n\n## Project Context\n\n- Rails app: blog\n- Project Ruby: 3.4.1 (from .ruby-version)\n- Path: /srv/blog\n\n## Key Commands\n\n### Run commands directly\n"));
    assert!(text.contains("└── config.toml     # Global config (default Ruby version)\n```\n\n## For AI Agents\n\n**Important:**"));
    assert!(text.ends_with("terminals where the environment persists across commands.\n"));
}

#[test]
fn agent_context_when_shell_is_not_active() {
    let text = build_context("0.3.0", &[], None, false, None);
    assert!(text.contains("**TL;DR: Prefix Ruby/Rails commands with `railsup exec`**"));
    assert!(text.contains("- Installed Ruby versions: none\n- Default Ruby: not set\n- Shell integration: **Not active** (recommend setting up for easier workflow)\n- Ruby installations: ~/.railsup/ruby/\n- Gem installations: ~/.railsup/gems/\n\n## Key Commands\n\n### Run commands with railsup Ruby (bypasses rbenv/asdf)\n"));
    assert!(text.ends_with("should still use `railsup exec` for reliability.\n"));
    let project = project_context("/", None);
    assert_eq!(project.app_name, None);
    let text = build_context("1", &[], None, false, Some(project));
    assert!(text.contains("- Rails app: unknown\n- Project Ruby: not specified\n- Path: /\n"));
}

#[test]
fn project_ruby_sources_in_order() {
    let pair = |v: &str, s: &str| Some((v.to_string(), s.to_string()));
    assert_eq!(
        find_project_ruby(Some("ruby = \"4.0.1\""), Some("3.4.1"), Some("ruby 3.3.0")),
        pair("4.0.1", "railsup.toml")
    );
    assert_eq!(
        find_project_ruby(Some("other = 1"), Some(" ruby-3.4.1\n"), Some("ruby 3.3.0")),
        pair("3.4.1", ".ruby-version")
    );
    assert_eq!(
        find_project_ruby(Some("not toml ["), Some("ruby-\n"), Some("nodejs 20\nruby  3.3.0 \n")),
        pair("3.3.0", ".tool-versions")
    );
    assert_eq!(find_project_ruby(None, None, Some(" ruby 3.3.0")), None);
    assert_eq!(find_project_ruby(None, None, None), None);
    assert_eq!(ruby_version_in_file("ruby-ruby-3.4.1 \n"), "3.4.1");
    assert_eq!(tool_versions_ruby("ruby ruby 3\n"), Some("3".to_string()));
    assert_eq!(tool_versions_ruby("ruby \n"), Some("".to_string()));
}

#[test]
fn rails_projects_and_shell_integration() {
    assert!(is_rails_project(true, true, false));
    assert!(is_rails_project(true, false, true));
    assert!(!is_rails_project(true, false, false));
    assert!(!is_rails_project(false, true, true));
    assert!(detect_shell_integration("/usr/bin:/home/u/.railsup/ruby/ruby-4.0.1/bin"));
    assert!(!detect_shell_integration("/usr/bin:/home/u/.railsup/gems/4.0.1/bin"));
}

#[test]
fn command_line_types() {
    let cli = Cli {
        agent: false,
        command: Some(Commands::New {
            name: "myapp".to_string(),
            force: false,
            rails_args: strings(&["--database=postgresql", "--skip-git"]),
        }),
    };
    match cli.command {
        Some(Commands::New { name, force, rails_args }) => {
            assert_eq!(name, "myapp");
            assert!(!force);
            assert_eq!(rails_args, vec!["--database=postgresql", "--skip-git"]);
        }
        _ => panic!("expected new command"),
    }
    let ruby = Commands::Ruby(RubyCommands::Default { version: "4.0.1".to_string() });
    assert!(matches!(ruby, Commands::Ruby(RubyCommands::Default { .. })));
    assert!(matches!(Commands::Dev { port: 3000 }, Commands::Dev { port: 3000 }));
}

#[test]
fn install_targets_and_listings() {
    let available = strings(&["4.0.2", "4.0.1", "3.4.9"]);
    assert_eq!(install_target("latest", &available), "4.0.2");
    assert_eq!(install_target("latest", &[]), DEFAULT_RUBY_VERSION);
    assert_eq!(install_target("3.4.1", &available), "3.4.1");
    assert_eq!(DEFAULT_RUBY_VERSION, "4.0.1");

    assert_eq!(format_installed("4.0.1", Some("4.0.1"), Some(&available)), "  4.0.1 (default) -> 4.0.2 available");
    assert_eq!(format_installed("4.0.2", Some("4.0.1"), Some(&available)), "  4.0.2");
    assert_eq!(format_installed("3.4.1", None, Some(&available)), "  3.4.1 -> 3.4.9 available");
    assert_eq!(format_installed("3.3.1", Some("3.3.1"), Some(&available)), "  3.3.1 (default)");
    assert_eq!(format_installed("3.4.1", Some("4.0.1"), None), "  3.4.1");
    assert_eq!(format_available("4.0.1"), "  4.0.1 (4.0)");
    assert_eq!(format_available("4"), "  4 (4)");
}

#[test]
fn tools_are_found_in_ruby_or_gems() {
    assert_eq!(tool_path("ruby", "/r/bin", "/g/bin", true), "/r/bin/ruby");
    assert_eq!(tool_path("bundler", "/r/bin", "/g/bin", true), "/r/bin/bundle");
    assert_eq!(tool_path("bundle", "/r/bin", "/g/bin", true), "/r/bin/bundle");
    assert_eq!(tool_path("ri", "/r/bin", "/g/bin", true), "/r/bin/ri");
    assert_eq!(tool_path("rails", "/r/bin", "/g/bin", true), "/g/bin/rails");
    assert_eq!(tool_path("rails", "/r/bin", "/g/bin", false), "/r/bin/rails");
    assert_eq!(tool_path("rspec", "/r/bin", "/g/bin", true), "/g/bin/rspec");
}

#[test]
fn command_paths() {
    let ctx = Some(BundleContext {
        rails_root: "/srv/app".to_string(),
        gemfile: "/srv/app/Gemfile".to_string(),
        lockfile: None,
    });
    assert_eq!(resolve_command_path("bin/rails", &ctx), "/srv/app/bin/rails");
    assert_eq!(resolve_command_path("bundle", &ctx), "bundle");
    assert_eq!(resolve_command_path("bin/rails", &None), "bin/rails");
    assert_eq!(server_command_path("bundle", "/r/bin", "/srv/app"), "/r/bin/bundle");
    assert_eq!(server_command_path("rails", "/r/bin", "/srv/app"), "/r/bin/rails");
    assert_eq!(server_command_path("bin/rails", "/r/bin", "/srv/app"), "/srv/app/bin/rails");
    assert_eq!(ruby_version_from_bin("/h/.railsup/ruby/ruby-4.0.1/bin"), "4.0.1");
    assert_eq!(ruby_version_from_bin("/h/.railsup/ruby/4.0.1/bin"), "4.0.1");
    assert_eq!(ruby_version_from_bin("/bin"), "unknown");
    assert_eq!(ruby_version_from_bin("bin"), "unknown");
    assert_eq!(ruby_version_from_bin("/"), "unknown");
}

#[test]
fn rails_versions_and_arguments() {
    assert_eq!(get_rails_version(Some("8.2.0".to_string())), "8.2.0");
    assert_eq!(get_rails_version(None), "8.1.2");
    assert!(gem_is_installed("true\n"));
    assert!(gem_is_installed("  true"));
    assert!(!gem_is_installed("false\n"));
    assert!(!gem_is_installed("true false"));
    assert_eq!(
        rails_new_args("8.1.2", "blog"),
        vec![
            "_8.1.2_",
            "new",
            "blog",
            "--database=sqlite3",
            "--css=tailwind",
            "--javascript=importmap",
            "--skip-jbuilder",
            "--skip-action-mailbox",
            "--skip-action-text"
        ]
    );
}

#[test]
fn answers_and_arguments() {
    assert!(is_yes("y\n"));
    assert!(is_yes("  Y  "));
    assert!(!is_yes("yes"));
    assert!(!is_yes("n"));
    assert!(!is_yes(""));
    assert_eq!(SHELL_INIT_SNIPPET, "\n# Railsup shell integration\neval \"$(railsup shell-init)\"\n");
}

#[test]
fn format_args_works() {
    let args = strings(&["--version", "-v"]);
    assert_eq!(format_args(&args), "--version -v");
}

#[test]
fn format_args_empty() {
    let args: Vec<String> = vec![];
    assert_eq!(format_args(&args), "");
}
