//! Typed command records: one immutable record per subcommand, built once
//! from the parsed flag values with the stated defaults applied, then handed
//! to the translator.
use vstd::prelude::*;
use vstd::string::StringExecFns;

verus! {

/// Why parsed input was rejected.
#[derive(Debug, Clone, Copy, PartialEq, Eq, Structural)]
pub enum ParseError {
    /// No subcommand was given at all.
    MissingSubcommand,
    /// The given subcommand is none of the known ones.
    UnknownSubcommand,
    /// A required value is missing from the matches.
    MissingValue,
    /// A boolean-valued flag was given a value other than `true` or `false`.
    InvalidBoolValue,
}

/// The stated default of the `git` flag of `new`: version control is on when
/// the flag is absent.
pub const NEW_GIT_DEFAULT: bool = true;

/// The stated default of the `git` flag of `init`: version control stays off
/// when the flag is absent.
pub const INIT_GIT_DEFAULT: bool = false;

/// A presence-style boolean flag: the given value when present, else the
/// stated default.
pub open spec fn resolve_flag(given: Option<bool>, default: bool) -> bool {
    match given {
        Some(b) => b,
        None => default,
    }
}

/// A value-style boolean flag: absent yields the stated default, `true` and
/// `false` yield the value written, anything else is rejected.
pub open spec fn parsed_bool(given: Option<Seq<char>>, default: bool) -> Result<
    bool,
    ParseError,
> {
    match given {
        None => Ok(default),
        Some(s) => if s == "true"@ {
            Ok(true)
        } else if s == "false"@ {
            Ok(false)
        } else {
            Err(ParseError::InvalidBoolValue)
        },
    }
}

/// The view of an optional string value.
pub open spec fn opt_view(v: Option<String>) -> Option<Seq<char>> {
    match v {
        Some(s) => Some(s@),
        None => None,
    }
}

/// For every boolean flag with a stated default, parsing with the flag absent
/// yields exactly that default, for presence-style and value-style flags
/// alike.
pub proof fn lemma_absent_flag_yields_default(default: bool)
    ensures
        resolve_flag(None, default) == default,
        parsed_bool(None, default) == Ok::<bool, ParseError>(default),
{
}

/// Apply the stated default of a presence-style boolean flag.
pub fn apply_flag_default(given: Option<bool>, default: bool) -> (r: bool)
    ensures
        r == resolve_flag(given, default),
{
    match given {
        Some(b) => b,
        None => default,
    }
}

/// Read a value-style boolean flag, applying the stated default when absent
/// and rejecting any written value other than `true` or `false`.
pub fn parse_bool_value(given: &Option<String>, default: bool) -> (r: Result<bool, ParseError>)
    ensures
        r == parsed_bool(opt_view(*given), default),
{
    match given {
        None => Ok(default),
        Some(s) => {
            let t = String::from_str("true");
            let f = String::from_str("false");
            if *s == t {
                Ok(true)
            } else if *s == f {
                Ok(false)
            } else {
                Err(ParseError::InvalidBoolValue)
            }
        },
    }
}

/// Record of `new <name>`: create a fresh project.
#[derive(Debug)]
pub struct NewCommand {
    pub name: String,
    pub template: Option<String>,
    pub path: Option<String>,
    pub git: bool,
    pub bin: bool,
    pub lib: bool,
    pub edition: Option<String>,
    pub quiet: bool,
}

impl NewCommand {
    /// Build the record from the plain matched values, applying the stated
    /// `git` default (version control on) when that flag is absent.
    pub fn from_parts(
        name: String,
        template: Option<String>,
        path: Option<String>,
        git: Option<String>,
        bin: bool,
        lib: bool,
        edition: Option<String>,
        quiet: bool,
    ) -> (r: Result<NewCommand, ParseError>)
        ensures
            (match parsed_bool(opt_view(git), NEW_GIT_DEFAULT) {
                Ok(g) => r == Ok::<NewCommand, ParseError>(
                    NewCommand { name, template, path, git: g, bin, lib, edition, quiet },
                ),
                Err(e) => r == Err::<NewCommand, ParseError>(e),
            }),
    {
        match parse_bool_value(&git, NEW_GIT_DEFAULT) {
            Ok(g) => Ok(NewCommand { name, template, path, git: g, bin, lib, edition, quiet }),
            Err(e) => Err(e),
        }
    }
}

/// Record of `add <name>`: add a dependency.
#[derive(Debug)]
pub struct AddCommand {
    pub name: String,
    pub version: Option<String>,
    pub features: Option<String>,
}

/// Record of `init [path]`: initialise a project in place.
#[derive(Debug)]
pub struct InitCommand {
    pub path: Option<String>,
    pub git: bool,
    pub bin: bool,
    pub lib: bool,
    pub edition: Option<String>,
    pub quiet: bool,
}

impl InitCommand {
    /// Build the record from the plain matched values, applying the stated
    /// `git` default (version control off) when that flag is absent.
    pub fn from_parts(
        path: Option<String>,
        git: Option<bool>,
        bin: bool,
        lib: bool,
        edition: Option<String>,
        quiet: bool,
    ) -> (r: InitCommand)
        ensures
            r == (InitCommand {
                path,
                git: resolve_flag(git, INIT_GIT_DEFAULT),
                bin,
                lib,
                edition,
                quiet,
            }),
    {
        InitCommand { path, git: apply_flag_default(git, INIT_GIT_DEFAULT), bin, lib, edition, quiet }
    }
}

/// Record of `template --name N --path P`: declare a template without action.
#[derive(Debug)]
pub struct TemplateCommand {
    pub name: String,
    pub path: String,
}

/// Record of `cargo <commands...>`: raw passthrough to the external tool.
#[derive(Debug)]
pub struct CargoCommand {
    pub commands: Vec<String>,
}

/// The parsed subcommand, one variant per known subcommand.
#[derive(Debug)]
pub enum CrglCommand {
    New(NewCommand),
    Add(AddCommand),
    Init(InitCommand),
    Template(TemplateCommand),
    Cargo(CargoCommand),
}

/// The set of subcommand names this tool accepts.
pub open spec fn known_subcommand(name: Seq<char>) -> bool {
    ||| name == "new"@
    ||| name == "add"@
    ||| name == "init"@
    ||| name == "template"@
    ||| name == "cargo"@
}

/// Whether the record `c` is the one that the subcommand `name` dispatches to.
pub open spec fn dispatched(name: Seq<char>, c: CrglCommand) -> bool {
    match c {
        CrglCommand::New(_) => name == "new"@,
        CrglCommand::Add(_) => name == "add"@,
        CrglCommand::Init(_) => name == "init"@,
        CrglCommand::Template(_) => name == "template"@,
        CrglCommand::Cargo(_) => name == "cargo"@,
    }
}

} // verus!
