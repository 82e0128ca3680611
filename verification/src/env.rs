//! The environment handed to child processes: variables by name.

use crate::bundler::BundleContext;
use crate::paths::{
    gems_version_dir, join_path, path_join, railsup_root, ruby_bin_dir, ruby_dir_name,
};
use crate::text::{chars_of, same_chars};
use crate::tls::recommended_cert_env;
use vstd::prelude::*;
use vstd::string::StringExecFns;

verus! {

/// The map that a list of `(name, value)` pairs writes: a later pair
/// overrides an earlier pair of the same name.
pub open spec fn map_of(pairs: Seq<(Seq<char>, Seq<char>)>) -> Map<Seq<char>, Seq<char>>
    decreases pairs.len(),
{
    if pairs.len() == 0 {
        Map::empty()
    } else {
        map_of(pairs.drop_last()).insert(pairs.last().0, pairs.last().1)
    }
}

/// The value under `name` in `vars`, if there is one.
pub open spec fn lookup(vars: Map<Seq<char>, Seq<char>>, name: Seq<char>) -> Option<Seq<char>> {
    if vars.dom().contains(name) {
        Some(vars[name])
    } else {
        None
    }
}

/// A set of environment variables.
pub struct Env {
    pairs: Vec<(String, String)>,
}

impl View for Env {
    type V = Map<Seq<char>, Seq<char>>;

    closed spec fn view(&self) -> Map<Seq<char>, Seq<char>> {
        map_of(self.pairs.deep_view())
    }
}

impl Env {
    /// No variables.
    pub fn new() -> (env: Env)
        ensures
            env@ == Map::<Seq<char>, Seq<char>>::empty(),
    {
        let env = Env { pairs: Vec::new() };
        assert(env.pairs.deep_view() =~= Seq::empty());
        env
    }

    /// The variables that `pairs` lists; a later pair overrides an earlier
    /// pair of the same name.
    pub fn from_pairs(pairs: Vec<(String, String)>) -> (env: Env)
        ensures
            env@ == map_of(pairs.deep_view()),
    {
        Env { pairs }
    }

    /// The variables as a list of pairs that writes them.
    pub fn into_pairs(self) -> (pairs: Vec<(String, String)>)
        ensures
            map_of(pairs.deep_view()) == self@,
    {
        self.pairs
    }

    /// The value of the variable `name`, if it is set.
    pub fn get(&self, name: &str) -> (value: Option<String>)
        ensures
            value.deep_view() == lookup(self@, name@),
    {
        let wanted = chars_of(name);
        let mut found: Option<String> = None;
        let mut i: usize = 0;
        let ghost all = self.pairs.deep_view();
        assert(all.take(0) =~= Seq::empty());
        while i < self.pairs.len()
            invariant
                i <= self.pairs.len(),
                wanted@ == name@,
                all == self.pairs.deep_view(),
                found.deep_view() == lookup(map_of(all.take(i as int)), name@),
            decreases self.pairs.len() - i,
        {
            assert(all[i as int] == (self.pairs@[i as int].0@, self.pairs@[i as int].1@));
            assert(all.take(i + 1).drop_last() =~= all.take(i as int));
            assert(all.take(i + 1).last() == all[i as int]);
            let key = chars_of(self.pairs[i].0.as_str());
            if same_chars(key.as_slice(), wanted.as_slice()) {
                found = Some(self.pairs[i].1.clone());
            }
            i += 1;
        }
        assert(all.take(self.pairs.len() as int) =~= all);
        found
    }

    /// Whether the variable `name` is set.
    pub fn contains_key(&self, name: &str) -> (set: bool)
        ensures
            set == self@.dom().contains(name@),
    {
        self.get(name).is_some()
    }

    /// Sets the variable `name` to `value`.
    pub fn insert(&mut self, name: &str, value: String)
        ensures
            final(self)@ == old(self)@.insert(name@, value@),
    {
        let ghost before = self.pairs.deep_view();
        let ghost pair = (name@, value@);
        self.pairs.push((name.to_owned(), value));
        assert(self.pairs.deep_view().drop_last() =~= before);
        assert(self.pairs.deep_view().last() == pair);
    }

    /// Removes the variable `name`.
    pub fn remove(&mut self, name: &str)
        ensures
            final(self)@ == old(self)@.remove(name@),
    {
        let wanted = chars_of(name);
        let mut kept: Vec<(String, String)> = Vec::new();
        let mut i: usize = 0;
        let ghost all = self.pairs.deep_view();
        assert(all.take(0) =~= Seq::empty());
        assert(kept.deep_view() =~= Seq::empty());
        assert(map_of(Seq::empty()).remove(name@) =~= Map::empty());
        while i < self.pairs.len()
            invariant
                i <= self.pairs.len(),
                wanted@ == name@,
                all == self.pairs.deep_view(),
                map_of(kept.deep_view()) == map_of(all.take(i as int)).remove(name@),
            decreases self.pairs.len() - i,
        {
            assert(all[i as int] == (self.pairs@[i as int].0@, self.pairs@[i as int].1@));
            assert(all.take(i + 1).drop_last() =~= all.take(i as int));
            assert(all.take(i + 1).last() == all[i as int]);
            let ghost seen = map_of(all.take(i as int));
            let key = chars_of(self.pairs[i].0.as_str());
            if same_chars(key.as_slice(), wanted.as_slice()) {
                assert(seen.insert(all[i as int].0, all[i as int].1).remove(name@) =~= seen.remove(
                    name@,
                ));
            } else {
                let ghost before = kept.deep_view();
                kept.push((self.pairs[i].0.clone(), self.pairs[i].1.clone()));
                assert(kept.deep_view().drop_last() =~= before);
                assert(kept.deep_view().last() == all[i as int]);
                assert(seen.insert(all[i as int].0, all[i as int].1).remove(name@) =~= seen.remove(
                    name@,
                ).insert(all[i as int].0, all[i as int].1));
            }
            i += 1;
        }
        assert(all.take(self.pairs.len() as int) =~= all);
        self.pairs = kept;
    }
}

/// The value of `PATH` for a Ruby installation: its executables, the
/// executables of its gems, then the `PATH` so far, separated by `:`.
pub open spec fn ruby_path(ruby_bin: Seq<char>, gem_bin: Seq<char>, current: Seq<char>) -> Seq<
    char,
> {
    ruby_bin + seq![':'] + gem_bin + seq![':'] + current
}

/// The environment for Ruby `version` under `home`, made from `base`.
///
/// `PATH` gets the executables of Ruby and of its gems in front. `GEM_HOME`
/// and `GEM_PATH` name the gems of the version. `RUBYOPT` and `RUBYLIB` are
/// removed. `SSL_CERT_FILE` and `SSL_CERT_DIR` are set where a value is given.
pub open spec fn ruby_env(
    base: Map<Seq<char>, Seq<char>>,
    home: Seq<char>,
    version: Seq<char>,
    cert_file: Option<Seq<char>>,
    cert_dir: Option<Seq<char>>,
) -> Map<Seq<char>, Seq<char>> {
    let ruby_bin = join_path(
        join_path(join_path(railsup_root(home), "ruby"@), ruby_dir_name(version)),
        "bin"@,
    );
    let gem_home = join_path(join_path(railsup_root(home), "gems"@), version);
    let gem_bin = join_path(gem_home, "bin"@);
    let current = match lookup(base, "PATH"@) {
        Some(p) => p,
        None => Seq::empty(),
    };
    let env = base.insert("PATH"@, ruby_path(ruby_bin, gem_bin, current)).insert(
        "GEM_HOME"@,
        gem_home,
    ).insert("GEM_PATH"@, gem_home).remove("RUBYOPT"@).remove("RUBYLIB"@);
    let env = match cert_file {
        Some(f) => env.insert("SSL_CERT_FILE"@, f),
        None => env,
    };
    match cert_dir {
        Some(d) => env.insert("SSL_CERT_DIR"@, d),
        None => env,
    }
}

/// `env` with `BUNDLE_GEMFILE` set to `gemfile`, where there is one and
/// bundling is not switched off.
pub open spec fn with_gemfile(
    env: Map<Seq<char>, Seq<char>>,
    gemfile: Option<Seq<char>>,
    opt_out: bool,
) -> Map<Seq<char>, Seq<char>> {
    match gemfile {
        Some(g) if !opt_out => env.insert("BUNDLE_GEMFILE"@, g),
        _ => env,
    }
}

/// Builds the environment for Ruby `version` under `home` from `base`,
/// given the certificate file and directory to set, if any.
pub fn ruby_env_with(
    base: Env,
    home: &str,
    version: &str,
    cert_file: Option<String>,
    cert_dir: Option<String>,
) -> (env: Env)
    ensures
        env@ == ruby_env(base@, home@, version@, cert_file.deep_view(), cert_dir.deep_view()),
{
    let ruby_bin = ruby_bin_dir(home, version);
    let gem_home = gems_version_dir(home, version);
    let gem_bin = path_join(gem_home.as_str(), "bin");
    let mut env = base;
    let mut new_path = ruby_bin;
    new_path.append(":");
    new_path.append(gem_bin.as_str());
    new_path.append(":");
    match env.get("PATH") {
        Some(p) => {
            new_path.append(p.as_str());
        },
        None => {},
    }
    proof {
        reveal_strlit(":");
        let current = match lookup(base@, "PATH"@) {
            Some(p) => p,
            None => Seq::empty(),
        };
        assert(new_path@ =~= ruby_path(
            join_path(
                join_path(join_path(railsup_root(home@), "ruby"@), ruby_dir_name(version@)),
                "bin"@,
            ),
            join_path(join_path(join_path(railsup_root(home@), "gems"@), version@), "bin"@),
            current,
        ));
    }
    env.insert("PATH", new_path);
    env.insert("GEM_HOME", gem_home.clone());
    env.insert("GEM_PATH", gem_home);
    env.remove("RUBYOPT");
    env.remove("RUBYLIB");
    match cert_file {
        Some(f) => {
            env.insert("SSL_CERT_FILE", f);
        },
        None => {},
    }
    match cert_dir {
        Some(d) => {
            env.insert("SSL_CERT_DIR", d);
        },
        None => {},
    }
    env
}

/// Builds the environment for Ruby `version` under `home` from `base`.
///
/// Which certificate paths are set is decided by `recommended_cert_env`,
/// which asks the file system. Whatever it answers, the result is
/// `ruby_env` for some choice of certificate paths.
pub fn build_ruby_env(base: Env, home: &str, version: &str, apple: bool) -> (env: Env)
    ensures
        exists|cert_file: Option<Seq<char>>, cert_dir: Option<Seq<char>>|
            env@ == #[trigger] ruby_env(base@, home@, version@, cert_file, cert_dir),
{
    let current_file = base.get("SSL_CERT_FILE");
    let current_dir = base.get("SSL_CERT_DIR");
    let (cert_file, cert_dir) = recommended_cert_env(current_file, current_dir, apple);
    let env = ruby_env_with(base, home, version, cert_file, cert_dir);
    env
}

/// Adds the bundle to an environment: `BUNDLE_GEMFILE` names the Gemfile of
/// `bundle_ctx`, unless there is no bundle or bundling is switched off.
pub fn with_bundle(env: Env, bundle_ctx: &Option<BundleContext>, opt_out: bool) -> (full: Env)
    ensures
        full@ == with_gemfile(
            env@,
            match *bundle_ctx {
                Some(ctx) => Some(ctx.gemfile@),
                None => None,
            },
            opt_out,
        ),
{
    let mut full = env;
    if !opt_out {
        match bundle_ctx {
            Some(ctx) => {
                full.insert("BUNDLE_GEMFILE", ctx.gemfile.clone());
            },
            None => {},
        }
    }
    full
}

/// Builds the full environment for Ruby `version` and the bundle
/// `bundle_ctx`: the Ruby environment, with `BUNDLE_GEMFILE` added as
/// `with_bundle` says.
pub fn build_full_env(
    base: Env,
    home: &str,
    ruby_version: &str,
    bundle_ctx: &Option<BundleContext>,
    opt_out: bool,
    apple: bool,
) -> (env: Env)
    ensures
        exists|cert_file: Option<Seq<char>>, cert_dir: Option<Seq<char>>|
            env@ == with_gemfile(
                #[trigger] ruby_env(base@, home@, ruby_version@, cert_file, cert_dir),
                match *bundle_ctx {
                    Some(ctx) => Some(ctx.gemfile@),
                    None => None,
                },
                opt_out,
            ),
{
    let env = build_ruby_env(base, home, ruby_version, apple);
    with_bundle(env, bundle_ctx, opt_out)
}

} // verus!
