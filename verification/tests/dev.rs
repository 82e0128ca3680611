use railsup::bundler::BundleContext;
use railsup::checksum::{same_digest, verify_checksum, ChecksumError};
use railsup::dev::{announce, plan_processes, shell_invocation, tag_output, Wiring};
use railsup::project::project_ruby_version;
use railsup::releases::{
    available_versions, gem_version, installed_versions, listed_versions, tag_version,
};
use railsup::supervisor::RunError;
use railsup::ui::Stream;
use railsup::version::sort_versions_descending;

fn context() -> Option<BundleContext> {
    Some(BundleContext {
        rails_root: "/srv/app".to_string(),
        gemfile: "/srv/app/Gemfile".to_string(),
        lockfile: None,
    })
}

fn strings(items: &[&str]) -> Vec<String> {
    items.iter().map(|s| s.to_string()).collect()
}

#[test]
fn plan_rewrites_web_and_wraps_commands() {
    let content = "web: rails server -p 3000\ncss: bin/rails tailwindcss:watch\nworker: sidekiq -p 3000\n";
    let plans = plan_processes(content, 4000, &context(), false).unwrap();
    assert_eq!(plans.len(), 3);
    assert_eq!(plans[0].name, "web");
    assert_eq!(plans[0].command, "bundle exec rails server -p 4000");
    assert_eq!(plans[0].color, 0);
    assert_eq!(plans[1].name, "css");
    assert_eq!(plans[1].command, "bin/rails tailwindcss:watch");
    assert_eq!(plans[1].color, 1);
    assert_eq!(plans[2].name, "worker");
    assert_eq!(plans[2].command, "bundle exec sidekiq -p 3000");
    assert_eq!(plans[2].color, 2);
}

#[test]
fn plan_without_bundle_only_rewrites_the_port() {
    let plans =
        plan_processes("web: bin/rails server -p 3000\nweb2: x -p 3000", 4000, &None, false).unwrap();
    assert_eq!(plans[0].command, "bin/rails server -p 4000");
    assert_eq!(plans[1].command, "x -p 3000");
    let plans = plan_processes("web: rails s --port=1", 80, &context(), true).unwrap();
    assert_eq!(plans[0].command, "rails s --port=80");
}

#[test]
fn plan_colors_wrap_around_the_palette() {
    let content = "a: 1\nb: 2\nc: 3\nd: 4\ne: 5\nf: 6\ng: 7\n";
    let plans = plan_processes(content, 1, &None, false).unwrap();
    let colors: Vec<usize> = plans.iter().map(|p| p.color).collect();
    assert_eq!(colors, vec![0, 1, 2, 3, 4, 0, 1]);
}

#[test]
fn empty_definitions_are_a_parse_failure() {
    assert_eq!(plan_processes("", 3000, &None, false).unwrap_err(), RunError::ParseFailure);
    assert_eq!(
        plan_processes("# nothing\nbad name: x\n", 3000, &context(), false).unwrap_err(),
        RunError::ParseFailure
    );
}

#[test]
fn announcement_is_tagged_like_output() {
    let plans = plan_processes("web: bin/dev\ncss: watch", 3000, &None, false).unwrap();
    assert_eq!(announce(&plans[1], true), "\x1b[35m[css]\x1b[0m watch");
    assert_eq!(announce(&plans[0], false), "[web] bin/dev");
}

#[test]
fn commands_run_through_the_shell() {
    let launch = shell_invocation("a | b && c");
    assert_eq!(launch.program, "sh");
    assert_eq!(launch.args, vec!["-c", "a | b && c"]);
    assert_eq!(launch.stdin, Wiring::Inherited);
    assert_eq!(launch.stdout, Wiring::Piped);
    assert_eq!(launch.stderr, Wiring::Piped);
}

#[test]
fn output_keeps_its_stream_and_gets_its_tag() {
    let plans = plan_processes("web: bin/dev\ncss: watch", 3000, &None, false).unwrap();
    let line = tag_output(&plans[1], true, Stream::Stderr, "warning: x");
    assert_eq!(line.stream, Stream::Stderr);
    assert_eq!(line.text, "\x1b[35m[css]\x1b[0m warning: x");
    let line = tag_output(&plans[0], false, Stream::Stdout, "");
    assert_eq!(line.stream, Stream::Stdout);
    assert_eq!(line.text, "[web] ");
}

#[test]
fn checksum_of_known_data() {
    let digest = "ba7816bf8f01cfea414140de5dae2223b00361a396177a9cb410ff61f20015ad";
    assert_eq!(verify_checksum(b"abc", &format!("{}  ruby.tar.gz\n", digest)), Ok(true));
    assert_eq!(verify_checksum(b"abd", &format!("{}  ruby.tar.gz\n", digest)), Ok(false));
    assert_eq!(
        verify_checksum(
            b"",
            "e3b0c44298fc1c149afbf4c8996fb92427ae41e4649b934ca495991b7852b855"
        ),
        Ok(true)
    );
}

#[test]
fn checksum_file_may_be_uppercase() {
    let digest = "BA7816BF8F01CFEA414140DE5DAE2223B00361A396177A9CB410FF61F20015AD";
    assert_eq!(verify_checksum(b"abc", digest), Ok(true));
}

#[test]
fn checksum_file_without_a_word_is_invalid() {
    assert_eq!(verify_checksum(b"abc", " \n"), Err(ChecksumError::InvalidFormat));
    assert_eq!(ChecksumError::InvalidFormat.message(), "Invalid checksum file format");
    assert!(same_digest("ab", "ab"));
    assert!(!same_digest("ab", "AB"));
}

#[test]
fn project_ruby_version_from_toml() {
    assert_eq!(project_ruby_version("ruby = \"3.4.1\"\n"), Some("3.4.1".to_string()));
    assert_eq!(project_ruby_version("name = \"x\"\nruby = '4.0.1'"), Some("4.0.1".to_string()));
    assert_eq!(project_ruby_version("ruby = 3\n"), None);
    assert_eq!(project_ruby_version("[ruby]\nversion = \"3.4.1\"\n"), None);
    assert_eq!(project_ruby_version("name = \"x\"\n"), None);
    assert_eq!(project_ruby_version("ruby = \n"), None);
    assert_eq!(project_ruby_version(""), None);
}

#[test]
fn versions_from_a_release_listing() {
    let body = r#"[{"tag_name": "v3.4.1", "name": "a"}, {"name": "no tag"}, {"tag_name": 7}, {"tag_name": "4.0.1"}, {"tag_name": "vv3.3.9"}]"#;
    assert_eq!(listed_versions(body), Some(strings(&["3.4.1", "4.0.1", "3.3.9"])));
    assert_eq!(available_versions(body), Some(strings(&["4.0.1", "3.4.1", "3.3.9"])));
    assert_eq!(listed_versions("[]"), Some(vec![]));
    assert_eq!(listed_versions(r#"{"tag_name": "v1"}"#), None);
    assert_eq!(listed_versions("not json"), None);
    assert_eq!(available_versions(""), None);
}

#[test]
fn version_of_a_gem_description() {
    assert_eq!(gem_version(r#"{"name": "rails", "version": "8.1.2"}"#), Some("8.1.2".to_string()));
    assert_eq!(gem_version(r#"{"name": "rails", "version": 8}"#), None);
    assert_eq!(gem_version(r#"{"name": "rails"}"#), None);
    assert_eq!(gem_version(r#"["version"]"#), None);
    assert_eq!(gem_version("{"), None);
}

#[test]
fn tags_lose_their_leading_v() {
    assert_eq!(tag_version("v4.0.1"), "4.0.1");
    assert_eq!(tag_version("4.0.1"), "4.0.1");
    assert_eq!(tag_version("vvv"), "");
    assert_eq!(tag_version("v4.0.1v"), "4.0.1v");
}

#[test]
fn versions_sort_newest_first_and_stably() {
    assert_eq!(
        sort_versions_descending(strings(&["3.4.1", "4.0.1", "3.10.0", "4.0", "3.4.10"])),
        strings(&["4.0.1", "4.0", "3.10.0", "3.4.10", "3.4.1"])
    );
    assert_eq!(
        sort_versions_descending(strings(&["4.0", "04.0", "4.00", "5"])),
        strings(&["5", "4.0", "04.0", "4.00"])
    );
    assert_eq!(sort_versions_descending(vec![]), Vec::<String>::new());
}

#[test]
fn installed_versions_from_directory_names() {
    assert_eq!(
        installed_versions(&strings(&["ruby-3.4.1", ".tmp", "4.0.1", "ruby-ruby-3.3.0", "ruby-3.10.2"])),
        strings(&["4.0.1", "3.10.2", "3.4.1", "ruby-3.3.0"])
    );
    assert_eq!(installed_versions(&[]), Vec::<String>::new());
}
