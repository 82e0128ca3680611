use railsup::port::{port_to_string, replace_port_in_command, try_replace_port};
use railsup::procfile::parse_procfile_content;

#[test]
fn replace_port_short_flag_with_space() {
    let cmd = "bin/rails server -p 3000";
    let result = replace_port_in_command(cmd, 4000);
    assert_eq!(result, "bin/rails server -p 4000");
}

#[test]
fn replace_port_short_flag_with_equals() {
    let cmd = "bin/rails server -p=3000";
    let result = replace_port_in_command(cmd, 4000);
    assert_eq!(result, "bin/rails server -p=4000");
}

#[test]
fn replace_port_long_flag_with_space() {
    let cmd = "bin/rails server --port 3000";
    let result = replace_port_in_command(cmd, 4000);
    assert_eq!(result, "bin/rails server --port 4000");
}

#[test]
fn replace_port_long_flag_with_equals() {
    let cmd = "bin/rails server --port=3000";
    let result = replace_port_in_command(cmd, 4000);
    assert_eq!(result, "bin/rails server --port=4000");
}

#[test]
fn replace_port_no_port_in_command() {
    let cmd = "bin/rails server";
    let result = replace_port_in_command(cmd, 4000);
    // No port to replace, command unchanged
    assert_eq!(result, "bin/rails server");
}

#[test]
fn replace_port_with_trailing_args() {
    let cmd = "bin/rails server -p 3000 -b 0.0.0.0";
    let result = replace_port_in_command(cmd, 4000);
    assert_eq!(result, "bin/rails server -p 4000 -b 0.0.0.0");
}

#[test]
fn replace_port_at_end_of_command() {
    let cmd = "bin/rails server -b 0.0.0.0 -p 3000";
    let result = replace_port_in_command(cmd, 4000);
    assert_eq!(result, "bin/rails server -b 0.0.0.0 -p 4000");
}

#[test]
fn replace_port_different_port_number() {
    let cmd = "bin/rails server -p 8080";
    let result = replace_port_in_command(cmd, 9000);
    assert_eq!(result, "bin/rails server -p 9000");
}

#[test]
fn replace_port_short_flag_no_space() {
    let cmd = "bin/rails server -p3000";
    let result = replace_port_in_command(cmd, 4000);
    assert_eq!(result, "bin/rails server -p4000");
}

#[test]
fn replace_port_short_flag_no_space_with_trailing() {
    let cmd = "bin/rails server -p3000 -b 0.0.0.0";
    let result = replace_port_in_command(cmd, 4000);
    assert_eq!(result, "bin/rails server -p4000 -b 0.0.0.0");
}

#[test]
fn equals_form_wins_over_later_bareword() {
    assert_eq!(replace_port_in_command("cmd -p=3000 -pX4000", 9000), "cmd -p=9000 -pX4000");
}

#[test]
fn long_form_wins_over_earlier_short_form() {
    assert_eq!(
        replace_port_in_command("cmd -p 1 --port=2 --port 3", 9000),
        "cmd -p 1 --port=9000 --port 3"
    );
}

#[test]
fn forms_without_digits_fall_through() {
    assert_eq!(replace_port_in_command("cmd --port= -p 3000", 80), "cmd --port= -p 80");
    assert_eq!(replace_port_in_command("cmd -pX -p3000", 80), "cmd -pX -p3000");
    assert_eq!(replace_port_in_command("cmd -p", 80), "cmd -p");
    assert_eq!(replace_port_in_command("", 80), "");
}

#[test]
fn only_first_occurrence_is_rewritten() {
    assert_eq!(replace_port_in_command("a -p 1 b -p 2", 65535), "a -p 65535 b -p 2");
}

#[test]
fn digits_run_is_maximal() {
    assert_eq!(replace_port_in_command("x --port=30005abc", 0), "x --port=0abc");
}

#[test]
fn non_ascii_text_around_the_flag_is_kept() {
    assert_eq!(replace_port_in_command("é -p 3000 ü", 4000), "é -p 4000 ü");
}

#[test]
fn parsed_web_entry_is_rewritten() {
    let entries =
        parse_procfile_content("web: bin/rails server -p 3000\ncss: bin/rails tailwindcss:watch");
    assert_eq!(entries.len(), 2);
    assert_eq!(entries[0].0, "web");
    assert_eq!(entries[1].0, "css");
    assert_eq!(replace_port_in_command(&entries[0].1, 4000), "bin/rails server -p 4000");
}

#[test]
fn try_replace_port_reports_absent_pattern() {
    assert_eq!(try_replace_port("bin/rails server", "-p ", 3, "4000"), None);
    assert_eq!(try_replace_port("server -p x", "-p ", 3, "4000"), None);
    assert_eq!(
        try_replace_port("server -p 12 -p 13", "-p ", 3, "4000"),
        Some("server -p 4000 -p 13".to_string())
    );
}

#[test]
fn port_numerals() {
    assert_eq!(port_to_string(0), "0");
    assert_eq!(port_to_string(7), "7");
    assert_eq!(port_to_string(80), "80");
    assert_eq!(port_to_string(3000), "3000");
    assert_eq!(port_to_string(65535), "65535");
}
