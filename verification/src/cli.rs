//! What the command line says, once it has been read: how talkative the
//! program is to be, and what it is asked to do.

use crate::version::MinecraftVersion;
use vstd::prelude::*;

verus! {

/// How much the program reports of what it does.
#[derive(Clone, Copy, Debug, PartialEq, Eq, Structural)]
pub enum Verbosity {
    Quiet,
    Verbose,
    VeryVerbose,
}

/// The verbosity that a number of `--verbose` flags asks for: quiet for no
/// flag, verbose for one, very verbose for two or more.
pub open spec fn verbosity_of(count: u8) -> Verbosity {
    if count == 0 {
        Verbosity::Quiet
    } else if count == 1 {
        Verbosity::Verbose
    } else {
        Verbosity::VeryVerbose
    }
}

/// The arguments of `init`: the directory of the new server and the version
/// that it is to run.
#[derive(Debug)]
pub struct InitArgs {
    dir: String,
    pub version: MinecraftVersion,
}

impl InitArgs {
    /// The directory as it was given.
    pub closed spec fn dir_text(&self) -> Seq<char> {
        self.dir@
    }

    /// The version that the new server is to run.
    pub closed spec fn chosen(&self) -> MinecraftVersion {
        self.version
    }

    /// The arguments of `init` for a directory and a version.
    pub fn new(dir: String, version: MinecraftVersion) -> (args: InitArgs)
        ensures
            args.dir_text() == dir@,
            args.chosen() == version,
    {
        InitArgs { dir, version }
    }

    /// The directory of the new server.
    #[must_use]
    pub fn dir(&self) -> (r: &str)
        ensures
            r@ == self.dir_text(),
    {
        self.dir.as_str()
    }
}

/// What the program is asked to do.
#[derive(Debug)]
pub enum CliSubcommand {
    Init(InitArgs),
}

/// The command line as a whole.
#[derive(Debug)]
pub struct Cli {
    verbose: u8,
    pub real: CliSubcommand,
}

impl Cli {
    /// How often `--verbose` was given.
    pub closed spec fn verbose_count(&self) -> u8 {
        self.verbose
    }

    /// What the program is asked to do.
    pub closed spec fn command(&self) -> CliSubcommand {
        self.real
    }

    /// The command line with `--verbose` given `verbose` times.
    pub fn new(verbose: u8, command: CliSubcommand) -> (cli: Cli)
        ensures
            cli.verbose_count() == verbose,
            cli.command() == command,
    {
        Cli { verbose, real: command }
    }

    /// How much the program is to report.
    pub fn verbosity(&self) -> (r: Verbosity)
        ensures
            r == verbosity_of(self.verbose_count()),
    {
        match self.verbose {
            0 => Verbosity::Quiet,
            1 => Verbosity::Verbose,
            _ => Verbosity::VeryVerbose,
        }
    }
}

} // verus!
