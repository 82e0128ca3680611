use railsup::procfile::{is_valid_process_name, parse_procfile_content};

fn entry(name: &str, command: &str) -> (String, String) {
    (name.to_string(), command.to_string())
}

#[test]
fn parse_procfile_basic() {
    let content = "web: bin/rails server -p 3000\ncss: bin/rails tailwindcss:watch";
    let result = parse_procfile_content(content);
    assert_eq!(
        result,
        vec![
            ("web".to_string(), "bin/rails server -p 3000".to_string()),
            ("css".to_string(), "bin/rails tailwindcss:watch".to_string()),
        ]
    );
}

#[test]
fn parse_procfile_with_comments() {
    let content = "# This is a comment\nweb: bin/rails server\n# Another comment\ncss: bin/rails tailwindcss:watch";
    let result = parse_procfile_content(content);
    assert_eq!(
        result,
        vec![
            ("web".to_string(), "bin/rails server".to_string()),
            ("css".to_string(), "bin/rails tailwindcss:watch".to_string()),
        ]
    );
}

#[test]
fn parse_procfile_with_empty_lines() {
    let content = "web: bin/rails server\n\n\ncss: bin/rails tailwindcss:watch\n";
    let result = parse_procfile_content(content);
    assert_eq!(
        result,
        vec![
            ("web".to_string(), "bin/rails server".to_string()),
            ("css".to_string(), "bin/rails tailwindcss:watch".to_string()),
        ]
    );
}

#[test]
fn parse_procfile_with_whitespace() {
    let content = "  web  :  bin/rails server  \n  css:bin/rails tailwindcss:watch";
    let result = parse_procfile_content(content);
    assert_eq!(
        result,
        vec![
            ("web".to_string(), "bin/rails server".to_string()),
            ("css".to_string(), "bin/rails tailwindcss:watch".to_string()),
        ]
    );
}

#[test]
fn parse_procfile_empty() {
    let content = "";
    let result = parse_procfile_content(content);
    assert!(result.is_empty());
}

#[test]
fn parse_procfile_only_comments() {
    let content = "# Comment 1\n# Comment 2\n";
    let result = parse_procfile_content(content);
    assert!(result.is_empty());
}

#[test]
fn parse_procfile_malformed_lines() {
    let content = "web: bin/rails server\nno_colon_here\n:empty_name\nempty_command:\ncss: bin/rails tailwindcss:watch";
    let result = parse_procfile_content(content);
    // Only valid lines should be parsed
    assert_eq!(
        result,
        vec![
            ("web".to_string(), "bin/rails server".to_string()),
            ("css".to_string(), "bin/rails tailwindcss:watch".to_string()),
        ]
    );
}

#[test]
fn parse_procfile_command_with_colons() {
    // Commands can contain colons (like URLs or Ruby namespaced tasks)
    let content = "web: bin/rails server -b http://localhost:3000";
    let result = parse_procfile_content(content);
    assert_eq!(
        result,
        vec![(
            "web".to_string(),
            "bin/rails server -b http://localhost:3000".to_string()
        ),]
    );
}

#[test]
fn valid_process_name_simple() {
    assert!(is_valid_process_name("web"));
    assert!(is_valid_process_name("css"));
    assert!(is_valid_process_name("worker"));
}

#[test]
fn valid_process_name_with_numbers() {
    assert!(is_valid_process_name("web1"));
    assert!(is_valid_process_name("worker2"));
}

#[test]
fn valid_process_name_with_underscore() {
    assert!(is_valid_process_name("web_server"));
    assert!(is_valid_process_name("css_watcher"));
}

#[test]
fn valid_process_name_with_hyphen() {
    assert!(is_valid_process_name("web-server"));
    assert!(is_valid_process_name("css-watcher"));
}

#[test]
fn invalid_process_name_with_spaces() {
    assert!(!is_valid_process_name("web server"));
    assert!(!is_valid_process_name(" web"));
}

#[test]
fn invalid_process_name_with_special_chars() {
    assert!(!is_valid_process_name("web@server"));
    assert!(!is_valid_process_name("css!watcher"));
    assert!(!is_valid_process_name("worker#1"));
}

#[test]
fn invalid_process_name_empty() {
    assert!(!is_valid_process_name(""));
}

#[test]
fn parse_procfile_rejects_invalid_names() {
    let content =
        "web: bin/rails server\ninvalid name: some command\ncss: bin/rails tailwindcss:watch";
    let result = parse_procfile_content(content);
    // "invalid name" should be rejected due to space
    assert_eq!(
        result,
        vec![
            ("web".to_string(), "bin/rails server".to_string()),
            ("css".to_string(), "bin/rails tailwindcss:watch".to_string()),
        ]
    );
}

#[test]
fn invalid_names_are_dropped_and_siblings_kept() {
    let result = parse_procfile_content("web: ok\nbad name: ok\ncss: ok");
    assert_eq!(result, vec![entry("web", "ok"), entry("css", "ok")]);
    let result = parse_procfile_content("web: ok\nbad@name: ok\ncss: ok");
    assert_eq!(result, vec![entry("web", "ok"), entry("css", "ok")]);
}

#[test]
fn names_are_not_deduplicated() {
    let result = parse_procfile_content("web: a\nweb: b\n");
    assert_eq!(result, vec![entry("web", "a"), entry("web", "b")]);
}

#[test]
fn carriage_returns_and_unicode_space_are_trimmed() {
    let result = parse_procfile_content("web: bin/rails server\r\n\u{a0}css\u{2003}:\twatch\u{3000}\r\n");
    assert_eq!(result, vec![entry("web", "bin/rails server"), entry("css", "watch")]);
}

#[test]
fn comment_after_indentation_is_ignored() {
    assert!(parse_procfile_content("   # web: x\n\t#\n").is_empty());
}

#[test]
fn non_ascii_letters_are_not_name_characters() {
    assert!(!is_valid_process_name("wéb"));
    assert!(parse_procfile_content("wéb: x").is_empty());
}

#[test]
fn round_trip_through_rendered_lines() {
    let text = "# procs\n  web  :  bin/rails server -p 3000  \nbad name: x\n\nnope\ncss:bin/rails tailwindcss:watch\nworker-1: exec sidekiq: now\n";
    let parsed = parse_procfile_content(text);
    assert_eq!(parsed.len(), 3);
    let mut rendered = String::new();
    for (name, command) in &parsed {
        rendered.push_str(&format!("{}: {}\n", name, command));
    }
    assert_eq!(
        rendered,
        "web: bin/rails server -p 3000\ncss: bin/rails tailwindcss:watch\nworker-1: exec sidekiq: now\n"
    );
    assert_eq!(parse_procfile_content(&rendered), parsed);
}

#[test]
fn lines_are_parsed_independently() {
    let a = "web: one\n# note\nbad name: x";
    let b = "css: two\nredis: three";
    let mut both = parse_procfile_content(a);
    both.extend(parse_procfile_content(b));
    assert_eq!(parse_procfile_content(&format!("{}\n{}", a, b)), both);
}
