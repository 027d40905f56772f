//! The command-line vocabulary shared by Archivindex tools: command outcomes, logging detail,
//! counted nouns, and configuration formats.

use vstd::prelude::*;

use crate::text::{decimal, eq_ignore_ascii_case, eq_ignore_ascii_case_spec, push_decimal};

verus! {

broadcast use vstd::string::group_string_axioms;

/// A command result represented by its process exit status.
#[derive(Clone, Copy, Debug, Eq, PartialEq, Structural)]
pub enum CommandOutcome {
    /// The command completed successfully.
    Success,
    /// The command completed but found reportable problems in its input.
    ReportedProblems,
    /// The command failed because of an operational error.
    OperationalError,
}

impl CommandOutcome {
    /// [`Self::ReportedProblems`] when problems were found, [`Self::Success`] otherwise.
    pub fn from_reported_problems(found: bool) -> (outcome: Self)
        ensures
            outcome == (if found { CommandOutcome::ReportedProblems } else { CommandOutcome::Success }),
    {
        if found {
            CommandOutcome::ReportedProblems
        } else {
            CommandOutcome::Success
        }
    }

    /// The process exit status of this outcome: 0, 1 or 2.
    pub fn code(self) -> (code: u8)
        ensures
            code == match self {
                CommandOutcome::Success => 0u8,
                CommandOutcome::ReportedProblems => 1u8,
                CommandOutcome::OperationalError => 2u8,
            },
    {
        match self {
            CommandOutcome::Success => 0,
            CommandOutcome::ReportedProblems => 1,
            CommandOutcome::OperationalError => 2,
        }
    }
}

/// The noun of `count` things: the noun itself for exactly one, and with an `s` otherwise.
pub open spec fn plural_spec(count: nat, noun: Seq<char>) -> Seq<char> {
    decimal(count) + seq![' '] + noun + (if count == 1 { Seq::<char>::empty() } else { seq!['s'] })
}

/// A count followed by a noun pluralized according to the count.
pub fn plural(count: u64, noun: &str) -> (text: String)
    ensures
        text@ == plural_spec(count as nat, noun@),
{
    proof {
        reveal_strlit(" ");
        reveal_strlit("s");
    }
    let mut text = String::new();
    push_decimal(count, &mut text);
    text.append(" ");
    text.append(noun);
    if count != 1 {
        text.append("s");
    }
    assert(text@ =~= plural_spec(count as nat, noun@));
    text
}

/// The most detailed level of log records to emit.
#[derive(Clone, Copy, Debug, Eq, PartialEq, Structural)]
pub enum LevelFilter {
    /// Nothing is logged.
    Off,
    /// Errors only.
    Error,
    /// Warnings and errors.
    Warn,
    /// Informational diagnostics and above.
    Info,
    /// Debugging diagnostics and above.
    Debug,
    /// Everything.
    Trace,
}

/// Logging detail selected by `--quiet` or repeated `-v` flags.
///
/// The default is warnings; `-v` enables information, `-vv` debug output, and `-vvv` trace
/// output. `--quiet` logs only errors and suppresses the summary a command prints when it
/// succeeds. The two options describe opposite intents, so no value asks for both.
#[derive(Clone, Copy, Debug, Eq, PartialEq)]
pub struct Verbosity {
    quiet: bool,
    verbose: u8,
}

impl Verbosity {
    /// Whether `--quiet` was given.
    pub closed spec fn quiet_spec(self) -> bool {
        self.quiet
    }

    /// The number of `-v` flags given.
    pub closed spec fn verbose_spec(self) -> u8 {
        self.verbose
    }

    #[verifier::type_invariant]
    closed spec fn consistent(self) -> bool {
        !(self.quiet && self.verbose > 0)
    }

    /// The verbosity of `--quiet` and `verbose` repetitions of `-v`, or `None` when both are
    /// asked for.
    pub fn new(quiet: bool, verbose: u8) -> (verbosity: Option<Self>)
        ensures
            verbosity is None <==> (quiet && verbose > 0),
            verbosity matches Some(v) ==> v.quiet_spec() == quiet && v.verbose_spec() == verbose,
    {
        if quiet && verbose > 0 {
            None
        } else {
            Some(Verbosity { quiet, verbose })
        }
    }

    /// Whether errors alone are logged and normal program output is suppressed.
    pub fn is_quiet(&self) -> (quiet: bool)
        ensures
            quiet == self.quiet_spec(),
    {
        self.quiet
    }

    /// The number of `-v` flags given.
    pub fn verbose_count(&self) -> (count: u8)
        ensures
            count == self.verbose_spec(),
    {
        self.verbose
    }

    /// Whether informational or more detailed diagnostics are logged.
    pub fn is_verbose(&self) -> (verbose: bool)
        ensures
            verbose == (self.verbose_spec() > 0),
            verbose ==> !self.quiet_spec(),
    {
        proof {
            use_type_invariant(self);
        }
        self.verbose > 0
    }

    /// The most detailed level to log.
    pub fn level(&self) -> (level: LevelFilter)
        ensures
            level == (if self.quiet_spec() {
                LevelFilter::Error
            } else if self.verbose_spec() == 0 {
                LevelFilter::Warn
            } else if self.verbose_spec() == 1 {
                LevelFilter::Info
            } else if self.verbose_spec() == 2 {
                LevelFilter::Debug
            } else {
                LevelFilter::Trace
            }),
    {
        if self.quiet {
            LevelFilter::Error
        } else {
            match self.verbose {
                0 => LevelFilter::Warn,
                1 => LevelFilter::Info,
                2 => LevelFilter::Debug,
                _ => LevelFilter::Trace,
            }
        }
    }
}

/// The document formats a configuration file is read as, recognized by extension.
#[derive(Clone, Copy, Debug, Eq, PartialEq, Structural)]
pub enum ConfigFormat {
    /// A `.toml` file.
    Toml,
    /// A `.json` file.
    Json,
}

/// The extension of the final component of a path, as the standard library finds it.
pub uninterp spec fn path_extension(path: Seq<char>) -> Option<Seq<char>>;

/// `std::path::Path::extension` of a UTF-8 path.
#[verifier::external_body]
fn extension_of(path: &str) -> (extension: Option<&str>)
    ensures
        extension matches Some(e) ==> path_extension(path@) == Some(e@),
        extension is None ==> path_extension(path@) is None,
{
    std::path::Path::new(path).extension().and_then(|extension| extension.to_str())
}

impl ConfigFormat {
    /// The format of the file at `path`, from its `.toml` or `.json` extension in any case.
    pub fn of(path: &str) -> (format: Option<Self>)
        ensures
            format == (match path_extension(path@) {
                Some(e) => if eq_ignore_ascii_case_spec(e, "toml"@) {
                    Some(ConfigFormat::Toml)
                } else if eq_ignore_ascii_case_spec(e, "json"@) {
                    Some(ConfigFormat::Json)
                } else {
                    None
                },
                None => None,
            }),
    {
        let extension = match extension_of(path) {
            Some(extension) => extension,
            None => return None,
        };
        if eq_ignore_ascii_case(extension, "toml") {
            Some(ConfigFormat::Toml)
        } else if eq_ignore_ascii_case(extension, "json") {
            Some(ConfigFormat::Json)
        } else {
            None
        }
    }
}

} // verus!
