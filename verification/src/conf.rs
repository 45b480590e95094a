//! The daemon's settings.

use vstd::prelude::*;

verus! {

/// The port of the control interface when none is configured.
pub const DEFAULT_PORT: u32 = 3000;

/// Where the daemon writes, where it runs, where it finds its units, and the
/// port it listens on.
#[derive(Debug)]
pub struct Settings {
    pub stdout: String,
    pub stderr: String,
    pub pidfile: String,
    pub workdir: String,
    pub services_path: String,
    pub port: u32,
}

impl Settings {
    /// The directory to load units from: the one given on the command line, or
    /// the configured one.
    pub fn services_dir<'a>(&'a self, given: Option<&'a str>) -> (dir: &'a str)
        ensures
            dir@ == (match given {
                Some(d) => d@,
                None => self.services_path@,
            }),
    {
        match given {
            Some(d) => d,
            None => self.services_path.as_str(),
        }
    }
}

/// The exit code of the daemon after a wrong command line.
pub const USAGE_EXIT_CODE: i32 = 2;

/// A command line with more arguments than the program takes.
#[derive(Debug, Clone, Copy, PartialEq, Eq, Structural)]
pub struct TooManyArguments {
    /// How many arguments were given, the program's name not counted.
    pub given: usize,
}

/// The directory that the daemon's command line names. `args` is the command
/// line with the program's name first: one argument more is the directory, none
/// leaves the choice to the settings, and further ones are an error.
pub fn directory_argument(args: &Vec<String>) -> (r: Result<Option<&str>, TooManyArguments>)
    ensures
        match r {
            Ok(None) => args@.len() <= 1,
            Ok(Some(dir)) => args@.len() == 2 && dir@ == args@[1]@,
            Err(e) => args@.len() > 2 && e.given == args@.len() - 1,
        },
{
    if args.len() <= 1 {
        Ok(None)
    } else if args.len() == 2 {
        Ok(Some(args[1].as_str()))
    } else {
        Err(TooManyArguments { given: args.len() - 1 })
    }
}

/// The unit file that the runner's command line names: its first argument.
/// `args` is the command line with the program's name first.
pub fn unit_argument(args: &Vec<String>) -> (r: Option<&str>)
    ensures
        match r {
            Some(file) => args@.len() >= 2 && file@ == args@[1]@,
            None => args@.len() < 2,
        },
{
    if args.len() >= 2 {
        Some(args[1].as_str())
    } else {
        None
    }
}

/// Reserved: the settings are loaded by the program that embeds the library,
/// before anything else; there is nothing to prepare here.
pub fn initialize_config() {
}

} // verus!
