use railsup::bundler::{is_bundle_opt_out, BundleContext};
use railsup::env::{build_full_env, build_ruby_env, ruby_env_with, with_bundle, Env};
use railsup::paths::railsup_dir;
use railsup::tls::{
    cert_dirs, cert_files, first_existing_dir, first_existing_file, recommend,
    recommended_cert_env,
};

fn pairs(items: &[(&str, &str)]) -> Vec<(String, String)> {
    items.iter().map(|(k, v)| (k.to_string(), v.to_string())).collect()
}

fn context() -> Option<BundleContext> {
    Some(BundleContext {
        rails_root: "/srv/app".to_string(),
        gemfile: "/srv/app/Gemfile".to_string(),
        lockfile: None,
    })
}

#[test]
fn env_behaves_like_a_map() {
    let mut env = Env::from_pairs(pairs(&[("A", "1"), ("B", "2"), ("A", "3")]));
    assert_eq!(env.get("A"), Some("3".to_string()));
    assert_eq!(env.get("B"), Some("2".to_string()));
    assert_eq!(env.get("C"), None);
    env.insert("C", "4".to_string());
    env.insert("B", "5".to_string());
    assert_eq!(env.get("C"), Some("4".to_string()));
    assert_eq!(env.get("B"), Some("5".to_string()));
    env.remove("A");
    assert_eq!(env.get("A"), None);
    assert!(!env.contains_key("A"));
    assert!(env.contains_key("B"));
    env.remove("missing");
    let mut kept = env.into_pairs();
    kept.sort();
    kept.dedup_by(|a, b| a.0 == b.0);
    assert_eq!(kept.len(), 2);
    assert!(Env::new().into_pairs().is_empty());
}

#[test]
fn build_ruby_env_sets_gem_home() {
    let env = ruby_env_with(Env::new(), "/home/u", "4.0.1", None, None);
    let gem_home = env.get("GEM_HOME").unwrap();
    assert!(gem_home.contains(".railsup/gems/4.0.1"));
    assert_eq!(env.get("GEM_PATH"), Some("/home/u/.railsup/gems/4.0.1".to_string()));
}

#[test]
fn build_ruby_env_prepends_path() {
    let env = ruby_env_with(
        Env::from_pairs(pairs(&[("PATH", "/usr/bin:/bin")])),
        "/home/u",
        "4.0.1",
        None,
        None,
    );
    let path = env.get("PATH").unwrap();
    assert!(path.contains(".railsup/ruby/ruby-4.0.1/bin"));
    assert!(path.contains(".railsup/gems/4.0.1/bin"));
    assert_eq!(
        path,
        "/home/u/.railsup/ruby/ruby-4.0.1/bin:/home/u/.railsup/gems/4.0.1/bin:/usr/bin:/bin"
    );
    let env = ruby_env_with(Env::new(), "/home/u", "4.0.1", None, None);
    assert_eq!(
        env.get("PATH").unwrap(),
        "/home/u/.railsup/ruby/ruby-4.0.1/bin:/home/u/.railsup/gems/4.0.1/bin:"
    );
}

#[test]
fn build_ruby_env_clears_rubyopt() {
    let base = Env::from_pairs(pairs(&[("RUBYOPT", "-rbundler/setup"), ("KEEP", "1")]));
    let env = ruby_env_with(base, "/home/u", "4.0.1", None, None);
    assert!(!env.contains_key("RUBYOPT"));
    assert!(env.contains_key("KEEP"));
}

#[test]
fn build_ruby_env_clears_rubylib() {
    let base = Env::from_pairs(pairs(&[("RUBYLIB", "/some/path")]));
    let env = ruby_env_with(base, "/home/u", "4.0.1", None, None);
    assert!(!env.contains_key("RUBYLIB"));
}

#[test]
fn certificate_paths_are_set_when_given() {
    let base = Env::from_pairs(pairs(&[("SSL_CERT_FILE", "/old.pem")]));
    let env = ruby_env_with(
        base,
        "/home/u",
        "4.0.1",
        Some("/etc/ssl/cert.pem".to_string()),
        Some("/etc/ssl/certs".to_string()),
    );
    assert_eq!(env.get("SSL_CERT_FILE"), Some("/etc/ssl/cert.pem".to_string()));
    assert_eq!(env.get("SSL_CERT_DIR"), Some("/etc/ssl/certs".to_string()));
    let base = Env::from_pairs(pairs(&[("SSL_CERT_FILE", "/old.pem")]));
    let env = ruby_env_with(base, "/home/u", "4.0.1", None, None);
    assert_eq!(env.get("SSL_CERT_FILE"), Some("/old.pem".to_string()));
    assert_eq!(env.get("SSL_CERT_DIR"), None);
}

#[test]
fn build_full_env_sets_bundle_gemfile() {
    let env = build_full_env(Env::new(), "/home/u", "4.0.1", &context(), false, false);
    assert!(env.get("BUNDLE_GEMFILE").is_some());
    assert!(env.get("BUNDLE_GEMFILE").unwrap().ends_with("Gemfile"));
    assert_eq!(env.get("GEM_HOME"), Some("/home/u/.railsup/gems/4.0.1".to_string()));
}

#[test]
fn build_full_env_respects_opt_out() {
    let env = build_full_env(Env::new(), "/home/u", "4.0.1", &context(), true, false);
    assert!(env.get("BUNDLE_GEMFILE").is_none());
    let env = with_bundle(Env::new(), &None, false);
    assert!(env.get("BUNDLE_GEMFILE").is_none());
    let env = with_bundle(Env::new(), &context(), false);
    assert_eq!(env.get("BUNDLE_GEMFILE"), Some("/srv/app/Gemfile".to_string()));
}

#[test]
fn build_ruby_env_recommends_known_certificate_places() {
    let env = build_ruby_env(Env::new(), "/home/u", "4.0.1", false);
    if let Some(file) = env.get("SSL_CERT_FILE") {
        assert!(cert_files(false).contains(&file));
    }
    if let Some(dir) = env.get("SSL_CERT_DIR") {
        assert!(cert_dirs(false).contains(&dir));
    }
    assert_eq!(env.get("GEM_HOME"), Some("/home/u/.railsup/gems/4.0.1".to_string()));
}

#[test]
fn opt_out_is_the_value_one() {
    assert!(is_bundle_opt_out(Some("1")));
    assert!(!is_bundle_opt_out(Some("0")));
    assert!(!is_bundle_opt_out(Some("true")));
    assert!(!is_bundle_opt_out(Some("")));
    assert!(!is_bundle_opt_out(None));
}

#[test]
fn recommendation_is_first_existing_candidate() {
    let candidates = cert_files(false);
    assert_eq!(
        candidates,
        vec![
            "/etc/ssl/certs/ca-certificates.crt",
            "/etc/pki/tls/certs/ca-bundle.crt",
            "/etc/ssl/cert.pem",
            "/etc/ssl/ca-bundle.pem"
        ]
    );
    assert_eq!(
        recommend(false, &candidates, &vec![false, true, true, false]),
        Some("/etc/pki/tls/certs/ca-bundle.crt".to_string())
    );
    assert_eq!(recommend(true, &candidates, &vec![true, true, true, true]), None);
    assert_eq!(recommend(false, &candidates, &vec![false, false, false, false]), None);
    assert_eq!(
        cert_files(true),
        vec![
            "/opt/homebrew/etc/openssl@3/cert.pem",
            "/usr/local/etc/openssl@3/cert.pem",
            "/etc/ssl/cert.pem"
        ]
    );
    assert_eq!(cert_dirs(false), vec!["/etc/ssl/certs", "/etc/pki/tls/certs"]);
    assert_eq!(
        cert_dirs(true),
        vec![
            "/opt/homebrew/etc/openssl@3/certs",
            "/usr/local/etc/openssl@3/certs",
            "/etc/ssl/certs"
        ]
    );
}

#[test]
fn existing_files_and_directories_are_told_apart() {
    let dir = tempfile::tempdir().unwrap();
    let file = tempfile::Builder::new().prefix("cert.pem").rand_bytes(0).tempfile_in(dir.path()).unwrap();
    let dir_path = dir.path().to_str().unwrap().to_string();
    let file_path = file.path().to_str().unwrap().to_string();
    let missing = format!("{}/missing", dir_path);
    let candidates = vec![missing.clone(), dir_path.clone(), file_path.clone()];
    assert_eq!(first_existing_file(&candidates), Some(file_path.clone()));
    assert_eq!(first_existing_dir(&candidates), Some(dir_path.clone()));
    assert_eq!(first_existing_file(&vec![missing.clone(), dir_path.clone()]), None);
    assert_eq!(first_existing_dir(&vec![missing.clone(), file_path.clone()]), None);

    let (cert_file, cert_dir) =
        recommended_cert_env(Some(file_path.clone()), Some(dir_path.clone()), false);
    assert_eq!(cert_file, None);
    assert_eq!(cert_dir, None);
    let (cert_file, cert_dir) = recommended_cert_env(Some(dir_path), Some(file_path), false);
    if let Some(f) = cert_file {
        assert!(cert_files(false).contains(&f));
    }
    if let Some(d) = cert_dir {
        assert!(cert_dirs(false).contains(&d));
    }
}

#[test]
fn railsup_dir_is_under_the_home_directory() {
    if let Some(dir) = railsup_dir() {
        assert!(dir.ends_with(".railsup"));
        assert!(dir.len() > ".railsup".len());
    }
}
