//! Tools for Ruby on Rails development: running the processes of a project
//! side by side, and the Ruby installations, bundles and shell setup around
//! them.
//!
//! The heart is the development run. `procfile` parses the definitions of
//! the processes, `port` rewrites the port of the web process, `dev` plans
//! what to start, `output` tags what the processes write, and `supervisor`
//! is the control loop that watches them and shuts them down.
//!
//! The functions are verified against their contracts. Strings are modelled
//! as sequences of characters, paths as `/`-separated strings. What depends
//! on the machine is handed in by the caller or asked in `probe`. The few
//! calls into other crates stand behind small functions whose contracts are
//! taken on trust; each says so where it is declared.

pub mod agent;
pub mod app_name;
pub mod bundler;
pub mod checksum;
pub mod cli;
pub mod config;
pub mod dev;
pub mod doctor;
pub mod download;
pub mod env;
pub mod output;
pub mod paths;
pub mod platform;
pub mod port;
pub mod probe;
pub mod procfile;
pub mod project;
pub mod releases;
pub mod ruby;
pub mod shell_init;
pub mod supervisor;
pub mod text;
pub mod tls;
pub mod ui;
pub mod version;
pub mod version_order;
