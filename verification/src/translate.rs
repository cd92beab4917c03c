//! Command translation: each typed record is mapped deterministically to the
//! ordered argument list of one external tool invocation. The subcommand name
//! comes first, value flags follow in a fixed per-subcommand order, boolean
//! flags map to presence or absence of a token, and the positional argument
//! comes last.
use crate::record::{AddCommand, CargoCommand, CrglCommand, InitCommand, NewCommand,
    TemplateCommand};
use vstd::prelude::*;
use vstd::string::StringExecFns;

verus! {

/// The views of a sequence of strings.
pub open spec fn strs(v: Seq<String>) -> Seq<Seq<char>> {
    v.map_values(|s: String| s@)
}

/// The tokens of an optional value flag: the flag token followed by the value
/// token when present, nothing when absent.
pub open spec fn value_tokens(flag: Seq<char>, v: Option<String>) -> Seq<Seq<char>> {
    match v {
        Some(s) => seq![flag, s@],
        None => seq![],
    }
}

/// The token of a boolean flag: present exactly when the flag is on.
pub open spec fn switch_tokens(flag: Seq<char>, on: bool) -> Seq<Seq<char>> {
    if on {
        seq![flag]
    } else {
        seq![]
    }
}

/// The version-control tokens: absence of `git` emits the no-version-control
/// flag, presence emits nothing.
pub open spec fn vcs_tokens(git: bool) -> Seq<Seq<char>> {
    if git {
        seq![]
    } else {
        seq!["--vcs"@, "none"@]
    }
}

/// The token of an optional positional argument.
pub open spec fn opt_positional_tokens(v: Option<String>) -> Seq<Seq<char>> {
    match v {
        Some(s) => seq![s@],
        None => seq![],
    }
}

/// The external argument list of `new`: the subcommand name, the value flags
/// in fixed order, the version-control and boolean flags, then the project
/// name last.
pub open spec fn new_args(c: NewCommand) -> Seq<Seq<char>> {
    seq!["new"@] + value_tokens("--template"@, c.template) + value_tokens("--path"@, c.path)
        + value_tokens("--edition"@, c.edition) + vcs_tokens(c.git) + switch_tokens(
        "--bin"@,
        c.bin,
    ) + switch_tokens("--lib"@, c.lib) + switch_tokens("--quiet"@, c.quiet) + seq![c.name@]
}

/// The external argument list of `add`: the subcommand name, the value flags
/// in fixed order, then the dependency name last.
pub open spec fn add_args(c: AddCommand) -> Seq<Seq<char>> {
    seq!["add"@] + value_tokens("--version"@, c.version) + value_tokens("--features"@, c.features)
        + seq![c.name@]
}

/// The external argument list of `init`: the subcommand name, the value and
/// boolean flags in fixed order, then the optional path last.
pub open spec fn init_args(c: InitCommand) -> Seq<Seq<char>> {
    seq!["init"@] + value_tokens("--edition"@, c.edition) + vcs_tokens(c.git) + switch_tokens(
        "--bin"@,
        c.bin,
    ) + switch_tokens("--lib"@, c.lib) + switch_tokens("--quiet"@, c.quiet)
        + opt_positional_tokens(c.path)
}

/// The external argument list of `cargo`: the raw commands, passed through
/// unchanged.
pub open spec fn cargo_args(c: CargoCommand) -> Seq<Seq<char>> {
    strs(c.commands@)
}

/// Append one token.
fn push_token(out: &mut Vec<String>, tok: &str)
    ensures
        strs(final(out)@) == strs(old(out)@) + seq![tok@],
{
    out.push(String::from_str(tok));
    proof {
        assert(strs(out@) =~= strs(old(out)@) + seq![tok@]);
    }
}

/// Append a copy of one already-built token.
fn push_string(out: &mut Vec<String>, tok: &String)
    ensures
        strs(final(out)@) == strs(old(out)@) + seq![tok@],
{
    out.push(tok.clone());
    proof {
        assert(strs(out@) =~= strs(old(out)@) + seq![tok@]);
    }
}

/// Append the tokens of an optional value flag.
fn push_value(out: &mut Vec<String>, flag: &str, v: &Option<String>)
    ensures
        strs(final(out)@) == strs(old(out)@) + value_tokens(flag@, *v),
{
    match v {
        Some(s) => {
            push_token(out, flag);
            push_string(out, s);
            proof {
                assert(strs(out@) =~= strs(old(out)@) + value_tokens(flag@, *v));
            }
        },
        None => {
            proof {
                assert(strs(out@) =~= strs(old(out)@) + value_tokens(flag@, *v));
            }
        },
    }
}

/// Append the token of a boolean flag when it is on.
fn push_switch(out: &mut Vec<String>, flag: &str, on: bool)
    ensures
        strs(final(out)@) == strs(old(out)@) + switch_tokens(flag@, on),
{
    if on {
        push_token(out, flag);
    }
    proof {
        assert(strs(out@) =~= strs(old(out)@) + switch_tokens(flag@, on));
    }
}

/// Append the no-version-control tokens when `git` is off.
fn push_vcs(out: &mut Vec<String>, git: bool)
    ensures
        strs(final(out)@) == strs(old(out)@) + vcs_tokens(git),
{
    if !git {
        push_token(out, "--vcs");
        push_token(out, "none");
    }
    proof {
        assert(strs(out@) =~= strs(old(out)@) + vcs_tokens(git));
    }
}

/// Append the token of an optional positional argument.
fn push_opt_positional(out: &mut Vec<String>, v: &Option<String>)
    ensures
        strs(final(out)@) == strs(old(out)@) + opt_positional_tokens(*v),
{
    match v {
        Some(s) => {
            push_string(out, s);
        },
        None => {},
    }
    proof {
        assert(strs(out@) =~= strs(old(out)@) + opt_positional_tokens(*v));
    }
}

impl NewCommand {
    /// The exact argument list handed to the external tool for this record.
    pub fn to_args(&self) -> (r: Vec<String>)
        ensures
            strs(r@) == new_args(*self),
    {
        let mut out: Vec<String> = Vec::new();
        push_token(&mut out, "new");
        push_value(&mut out, "--template", &self.template);
        push_value(&mut out, "--path", &self.path);
        push_value(&mut out, "--edition", &self.edition);
        push_vcs(&mut out, self.git);
        push_switch(&mut out, "--bin", self.bin);
        push_switch(&mut out, "--lib", self.lib);
        push_switch(&mut out, "--quiet", self.quiet);
        push_string(&mut out, &self.name);
        proof {
            assert(strs(out@) =~= new_args(*self));
        }
        out
    }
}

impl AddCommand {
    /// The exact argument list handed to the external tool for this record.
    pub fn to_args(&self) -> (r: Vec<String>)
        ensures
            strs(r@) == add_args(*self),
    {
        let mut out: Vec<String> = Vec::new();
        push_token(&mut out, "add");
        push_value(&mut out, "--version", &self.version);
        push_value(&mut out, "--features", &self.features);
        push_string(&mut out, &self.name);
        proof {
            assert(strs(out@) =~= add_args(*self));
        }
        out
    }
}

impl InitCommand {
    /// The exact argument list handed to the external tool for this record.
    pub fn to_args(&self) -> (r: Vec<String>)
        ensures
            strs(r@) == init_args(*self),
    {
        let mut out: Vec<String> = Vec::new();
        push_token(&mut out, "init");
        push_value(&mut out, "--edition", &self.edition);
        push_vcs(&mut out, self.git);
        push_switch(&mut out, "--bin", self.bin);
        push_switch(&mut out, "--lib", self.lib);
        push_switch(&mut out, "--quiet", self.quiet);
        push_opt_positional(&mut out, &self.path);
        proof {
            assert(strs(out@) =~= init_args(*self));
        }
        out
    }
}

impl CargoCommand {
    /// The exact argument list handed to the external tool: the raw commands,
    /// copied through unchanged.
    pub fn to_args(&self) -> (r: Vec<String>)
        ensures
            strs(r@) == cargo_args(*self),
    {
        let mut out: Vec<String> = Vec::new();
        let mut i: usize = 0;
        while i < self.commands.len()
            invariant
                i <= self.commands@.len(),
                out@ =~= self.commands@.subrange(0, i as int),
            decreases self.commands@.len() - i,
        {
            out.push(self.commands[i].clone());
            i = i + 1;
        }
        proof {
            assert(out@ =~= self.commands@);
        }
        out
    }
}

/// What the program is to do for one parsed record: invoke the external tool
/// with the given arguments, or only describe a declared template.
pub enum ExecPlan {
    Invoke(Vec<String>),
    Describe(TemplateCommand),
}

impl CrglCommand {
    /// Translate the parsed record into its execution plan. Every variant but
    /// `template` becomes exactly one external tool invocation whose argument
    /// list is pinned by the per-subcommand schema; `template` only carries
    /// its record out to be shown.
    pub fn plan(self) -> (r: ExecPlan)
        ensures
            (match self {
                CrglCommand::New(c) => r matches ExecPlan::Invoke(args) && strs(args@) == new_args(
                    c,
                ),
                CrglCommand::Add(c) => r matches ExecPlan::Invoke(args) && strs(args@) == add_args(
                    c,
                ),
                CrglCommand::Init(c) => r matches ExecPlan::Invoke(args) && strs(args@)
                    == init_args(c),
                CrglCommand::Cargo(c) => r matches ExecPlan::Invoke(args) && strs(args@)
                    == cargo_args(c),
                CrglCommand::Template(t) => r == ExecPlan::Describe(t),
            }),
    {
        match self {
            CrglCommand::New(c) => ExecPlan::Invoke(c.to_args()),
            CrglCommand::Add(c) => ExecPlan::Invoke(c.to_args()),
            CrglCommand::Init(c) => ExecPlan::Invoke(c.to_args()),
            CrglCommand::Cargo(c) => ExecPlan::Invoke(c.to_args()),
            CrglCommand::Template(t) => ExecPlan::Describe(t),
        }
    }
}

/// The name of the external package-management executable that every `Invoke`
/// plan is addressed to.
pub fn external_program() -> (r: String)
    ensures
        r@ == "cargo"@,
{
    String::from_str("cargo")
}

} // verus!

