use railsup::ruby::{check_ruby, parse_version, suggest_install, RubyError};
use railsup::version::{find_latest_in_series, meets_minimum, numbers_of, version_series};
use railsup::version_order::compare_versions;
use std::cmp::Ordering;

#[test]
fn compare_versions_works() {
    assert_eq!(compare_versions("4.0.1", "4.0.0"), Ordering::Greater);
    assert_eq!(compare_versions("4.0.0", "4.0.1"), Ordering::Less);
    assert_eq!(compare_versions("4.0.1", "4.0.1"), Ordering::Equal);
    assert_eq!(compare_versions("4.1.0", "4.0.9"), Ordering::Greater);
    assert_eq!(compare_versions("5.0.0", "4.9.9"), Ordering::Greater);
}

#[test]
fn compare_versions_by_length_and_numbers_only() {
    assert_eq!(compare_versions("4.0", "4.0.0"), Ordering::Less);
    assert_eq!(compare_versions("4.0.0", "4.0"), Ordering::Greater);
    assert_eq!(compare_versions("4.10", "4.9"), Ordering::Greater);
    assert_eq!(compare_versions("4.x.1", "4.1"), Ordering::Equal);
    assert_eq!(compare_versions("", ""), Ordering::Equal);
    assert_eq!(compare_versions("", "0"), Ordering::Less);
    assert_eq!(compare_versions("+4.01", "4.1"), Ordering::Equal);
    assert_eq!(compare_versions("4.4294967296", "4.0"), Ordering::Less);
    assert_eq!(compare_versions("4.4294967295", "4.0"), Ordering::Greater);
}

#[test]
fn numbers_of_a_version() {
    assert_eq!(numbers_of("3.3.1"), vec![3, 3, 1]);
    assert_eq!(numbers_of("3.x.-1.+7..4294967295.4294967296"), vec![3, 7, 4294967295]);
    assert_eq!(numbers_of(""), Vec::<u32>::new());
}

#[test]
fn parse_version_standard() {
    let v = parse_version("ruby 3.3.0 (2023-12-25 revision abc123)").unwrap();
    assert_eq!(v, "3.3.0");
}

#[test]
fn parse_version_with_p() {
    let v = parse_version("ruby 3.3.1p55 (2024-01-15 revision def456)").unwrap();
    assert_eq!(v, "3.3.1");
}

#[test]
fn parse_version_short() {
    let v = parse_version("ruby 3.4.0").unwrap();
    assert_eq!(v, "3.4.0");
}

#[test]
fn parse_version_invalid() {
    let result = parse_version("not ruby output");
    assert!(result.is_err());
}

#[test]
fn parse_version_empty() {
    let result = parse_version("");
    assert!(result.is_err());
}

#[test]
fn parse_version_strips_suffix_and_reports_output() {
    assert_eq!(parse_version("ruby 3.4.0-rc1x").unwrap(), "3.4.0-rc1");
    assert_eq!(parse_version("ruby 3.4.0dev").unwrap(), "3.4.0");
    match parse_version("ruby preview") {
        Err(RubyError::ParseFailed(text)) => assert_eq!(text, "ruby preview"),
        _ => panic!("expected a parse failure"),
    }
    match parse_version("ruby") {
        Err(e) => assert_eq!(e.message(), "Could not parse ruby version from: ruby"),
        Ok(_) => panic!("expected a parse failure"),
    }
}

#[test]
fn meets_minimum_exact() {
    assert!(meets_minimum("3.3.0", "3.3"));
    assert!(meets_minimum("3.3", "3.3"));
}

#[test]
fn meets_minimum_higher() {
    assert!(meets_minimum("3.4.0", "3.3"));
    assert!(meets_minimum("4.0.0", "3.3"));
    assert!(meets_minimum("3.3.5", "3.3"));
}

#[test]
fn meets_minimum_lower() {
    assert!(!meets_minimum("3.2.0", "3.3"));
    assert!(!meets_minimum("3.1.4", "3.3"));
    assert!(!meets_minimum("2.7.0", "3.3"));
}

#[test]
fn meets_minimum_edge_cases() {
    assert!(meets_minimum("3.3.0", "3.3.0"));
    assert!(!meets_minimum("3.2.9", "3.3.0"));
    assert!(meets_minimum("3.3.1", "3.3.0"));
    assert!(!meets_minimum("3.3", "3.3.0"));
}

#[test]
fn series_is_major_and_minor() {
    assert_eq!(version_series("4.0.1"), "4.0");
    assert_eq!(version_series("4.0"), "4.0");
    assert_eq!(version_series("4"), "4");
    assert_eq!(version_series(""), "");
    assert_eq!(version_series("a.b.c.d"), "a.b");
}

#[test]
fn latest_in_series_is_first_match() {
    let available: Vec<String> =
        ["4.0.2", "4.0.1", "3.4.9", "3.4.1"].iter().map(|s| s.to_string()).collect();
    assert_eq!(find_latest_in_series("3.4", &available), Some("3.4.9".to_string()));
    assert_eq!(find_latest_in_series("4.0", &available), Some("4.0.2".to_string()));
    assert_eq!(find_latest_in_series("3.3", &available), None);
    assert_eq!(find_latest_in_series("3.4", &[]), None);
}

#[test]
fn check_ruby_judges_the_version() {
    let ok = check_ruby("/usr/bin/ruby".to_string(), "ruby 3.3.0 (2023)", "x".to_string());
    let info = ok.unwrap();
    assert_eq!(info.version, "3.3.0");
    assert_eq!(info.path, "/usr/bin/ruby");
    match check_ruby("/usr/bin/ruby".to_string(), "ruby 3.2.9p1", "mise install ruby@3.3".to_string()) {
        Err(e) => assert_eq!(
            e.message(),
            "Ruby 3.3+ required (found 3.2.9). Upgrade with: mise install ruby@3.3"
        ),
        Ok(_) => panic!("3.2.9 is too old"),
    }
    assert!(matches!(
        check_ruby("r".to_string(), "nothing", "x".to_string()),
        Err(RubyError::ParseFailed(_))
    ));
}

#[test]
fn error_messages() {
    assert_eq!(
        RubyError::NotFound { suggestion: "rbenv install 3.3.0".to_string() }.message(),
        "Ruby not found. Install with: rbenv install 3.3.0"
    );
    assert_eq!(
        RubyError::ExecutionFailed("denied".to_string()).message(),
        "Failed to execute ruby: denied"
    );
}

#[test]
fn suggestions_prefer_mise_then_rbenv_then_asdf() {
    assert_eq!(suggest_install(true, true, true), "mise install ruby@3.3");
    assert_eq!(suggest_install(false, true, true), "rbenv install 3.3.0");
    assert_eq!(suggest_install(false, false, true), "asdf install ruby 3.3.0");
    assert_eq!(suggest_install(false, false, false), "mise install ruby@3.3");
}
