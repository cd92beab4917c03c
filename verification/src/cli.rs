//! The boundary to the `clap` argument parser: declarations of its opaque
//! types, named contents for what those values hold, one trusted wrapper per
//! `clap` call the library makes, and the verified construction of the
//! command-line schema and of the typed records from the matches.
//!
//! Reading the process arguments (`get_matches`) is I/O and stays outside the
//! library; callers hand the resulting matches in.
use crate::args::{lemma_shorthand_from_name, shorthand_of, used_after, ArgManager, FlagKind,
    FlagSpec};
use crate::record::{dispatched, known_subcommand, opt_view, parsed_bool, resolve_flag,
    AddCommand, CargoCommand, CrglCommand, InitCommand, NewCommand, ParseError, TemplateCommand,
    INIT_GIT_DEFAULT, NEW_GIT_DEFAULT};
use crate::translate::strs;
use vstd::prelude::*;
use vstd::string::StringExecFns;

verus! {

#[verifier::external_type_specification]
#[verifier::external_body]
pub struct ExArg(clap::Arg);

#[verifier::external_type_specification]
#[verifier::external_body]
pub struct ExCommand(clap::Command);

#[verifier::external_type_specification]
#[verifier::external_body]
pub struct ExArgMatches(clap::ArgMatches);

// Named contents of a built argument: its id, whether it is required, its
// shorthand, its long name, whether it carries the presence-only boolean
// action, and whether it takes any number of values. Each is a function of the
// builder calls that made the value; the wrappers below say how every call
// they trust affects them.
pub uninterp spec fn arg_id(a: clap::Arg) -> Seq<char>;

pub uninterp spec fn arg_required_of(a: clap::Arg) -> bool;

pub uninterp spec fn arg_short_of(a: clap::Arg) -> Option<char>;

pub uninterp spec fn arg_long_of(a: clap::Arg) -> Option<Seq<char>>;

pub uninterp spec fn arg_set_true_of(a: clap::Arg) -> bool;

pub uninterp spec fn arg_any_count_of(a: clap::Arg) -> bool;

// Named contents of a built command: its name, the names of its subcommands in
// order, and its own arguments' ids, requiredness, shorthands, long names,
// presence-only actions and open value counts, in order.
pub uninterp spec fn command_name(c: clap::Command) -> Seq<char>;

pub uninterp spec fn command_subs(c: clap::Command) -> Seq<Seq<char>>;

pub uninterp spec fn command_arg_ids(c: clap::Command) -> Seq<Seq<char>>;

pub uninterp spec fn command_arg_reqs(c: clap::Command) -> Seq<bool>;

pub uninterp spec fn command_arg_shorts(c: clap::Command) -> Seq<Option<char>>;

pub uninterp spec fn command_arg_longs(c: clap::Command) -> Seq<Option<Seq<char>>>;

pub uninterp spec fn command_arg_set_trues(c: clap::Command) -> Seq<bool>;

pub uninterp spec fn command_arg_any_counts(c: clap::Command) -> Seq<bool>;

// The same argument schema of the subcommand stored under the given name, so
// that the whole CLI's shape survives assembly. The appending wrapper below
// says how each subcommand's own schema becomes retrievable here.
pub uninterp spec fn sub_arg_ids(c: clap::Command, sub: Seq<char>) -> Seq<Seq<char>>;

pub uninterp spec fn sub_arg_reqs(c: clap::Command, sub: Seq<char>) -> Seq<bool>;

pub uninterp spec fn sub_arg_shorts(c: clap::Command, sub: Seq<char>) -> Seq<Option<char>>;

pub uninterp spec fn sub_arg_longs(c: clap::Command, sub: Seq<char>) -> Seq<Option<Seq<char>>>;

pub uninterp spec fn sub_arg_set_trues(c: clap::Command, sub: Seq<char>) -> Seq<bool>;

pub uninterp spec fn sub_arg_any_counts(c: clap::Command, sub: Seq<char>) -> Seq<bool>;

// Named contents of parsed matches: the chosen subcommand's name, and the
// string value, boolean value and string values held under an id. Each is a
// function of the matches value alone, as the readers below rely on.
pub uninterp spec fn matched_subcommand(m: clap::ArgMatches) -> Option<Seq<char>>;

pub uninterp spec fn matched_string(m: clap::ArgMatches, id: Seq<char>) -> Option<Seq<char>>;

pub uninterp spec fn matched_flag(m: clap::ArgMatches, id: Seq<char>) -> Option<bool>;

pub uninterp spec fn matched_values(m: clap::ArgMatches, id: Seq<char>) -> Option<Seq<Seq<char>>>;

// The named contents of the chosen subcommand's own matches, as functions of
// the parent matches: the sub-matches are stored inside the parent, so their
// typed lookups are determined by it.
pub uninterp spec fn sub_string(m: clap::ArgMatches, id: Seq<char>) -> Option<Seq<char>>;

pub uninterp spec fn sub_flag(m: clap::ArgMatches, id: Seq<char>) -> Option<bool>;

pub uninterp spec fn sub_values(m: clap::ArgMatches, id: Seq<char>) -> Option<Seq<Seq<char>>>;

/// Relies on `clap::Arg::new`: declares a fresh argument under the given id,
/// not required, with no shorthand, no long name, no action and no value
/// count set.
#[verifier::external_body]
fn arg_new(name: &str) -> (r: clap::Arg)
    ensures
        arg_id(r) == name@,
        arg_required_of(r) == false,
        arg_short_of(r) is None,
        arg_long_of(r) is None,
        arg_set_true_of(r) == false,
        arg_any_count_of(r) == false,
{
    clap::Arg::new(name.to_string())
}

/// Relies on `clap::Arg::required`: marks the argument required or optional
/// and touches nothing else.
#[verifier::external_body]
fn arg_required(a: clap::Arg, yes: bool) -> (r: clap::Arg)
    ensures
        arg_id(r) == arg_id(a),
        arg_required_of(r) == yes,
        arg_short_of(r) == arg_short_of(a),
        arg_long_of(r) == arg_long_of(a),
        arg_set_true_of(r) == arg_set_true_of(a),
        arg_any_count_of(r) == arg_any_count_of(a),
{
    a.required(yes)
}

/// Relies on `clap::Arg::help`: attaches the help text and touches nothing
/// else.
#[verifier::external_body]
fn arg_help(a: clap::Arg, text: &str) -> (r: clap::Arg)
    ensures
        arg_id(r) == arg_id(a),
        arg_required_of(r) == arg_required_of(a),
        arg_short_of(r) == arg_short_of(a),
        arg_long_of(r) == arg_long_of(a),
        arg_set_true_of(r) == arg_set_true_of(a),
        arg_any_count_of(r) == arg_any_count_of(a),
{
    a.help(text.to_string())
}

/// Relies on `clap::Arg::short`: sets the single-character flag alias and
/// touches nothing else. Its source asserts that the character is not `-`, so
/// that input stays out.
#[verifier::external_body]
fn arg_short(a: clap::Arg, c: char) -> (r: clap::Arg)
    requires
        c != '-',
    ensures
        arg_id(r) == arg_id(a),
        arg_required_of(r) == arg_required_of(a),
        arg_short_of(r) == Some(c),
        arg_long_of(r) == arg_long_of(a),
        arg_set_true_of(r) == arg_set_true_of(a),
        arg_any_count_of(r) == arg_any_count_of(a),
{
    a.short(c)
}

/// Relies on `clap::Arg::long`: sets the long flag name and touches nothing
/// else.
#[verifier::external_body]
fn arg_long(a: clap::Arg, name: &str) -> (r: clap::Arg)
    ensures
        arg_id(r) == arg_id(a),
        arg_required_of(r) == arg_required_of(a),
        arg_short_of(r) == arg_short_of(a),
        arg_long_of(r) == Some(name@),
        arg_set_true_of(r) == arg_set_true_of(a),
        arg_any_count_of(r) == arg_any_count_of(a),
{
    a.long(name.to_string())
}

/// Relies on `clap::Arg::action` with `ArgAction::SetTrue`: makes the argument
/// a presence-only boolean flag defaulting to `false`, touching nothing else.
#[verifier::external_body]
fn arg_set_true(a: clap::Arg) -> (r: clap::Arg)
    ensures
        arg_id(r) == arg_id(a),
        arg_required_of(r) == arg_required_of(a),
        arg_short_of(r) == arg_short_of(a),
        arg_long_of(r) == arg_long_of(a),
        arg_set_true_of(r) == true,
        arg_any_count_of(r) == arg_any_count_of(a),
{
    a.action(clap::ArgAction::SetTrue)
}

/// Relies on `clap::Arg::num_args` with the range open at zero: lets the
/// argument take any number of values, touching nothing else.
#[verifier::external_body]
fn arg_any_count(a: clap::Arg) -> (r: clap::Arg)
    ensures
        arg_id(r) == arg_id(a),
        arg_required_of(r) == arg_required_of(a),
        arg_short_of(r) == arg_short_of(a),
        arg_long_of(r) == arg_long_of(a),
        arg_set_true_of(r) == arg_set_true_of(a),
        arg_any_count_of(r) == true,
{
    a.num_args(0..)
}

/// Relies on `clap::Command::new`: declares a fresh (sub)command under the
/// given name, with no subcommands and no arguments.
#[verifier::external_body]
fn command_new(name: &str) -> (r: clap::Command)
    ensures
        command_name(r) == name@,
        command_subs(r) == Seq::<Seq<char>>::empty(),
        command_arg_ids(r) == Seq::<Seq<char>>::empty(),
        command_arg_reqs(r) == Seq::<bool>::empty(),
        command_arg_shorts(r) == Seq::<Option<char>>::empty(),
        command_arg_longs(r) == Seq::<Option<Seq<char>>>::empty(),
        command_arg_set_trues(r) == Seq::<bool>::empty(),
        command_arg_any_counts(r) == Seq::<bool>::empty(),
{
    clap::Command::new(name.to_string())
}

/// Relies on `clap::Command::about`: attaches the description, touching
/// neither the name, the subcommands (nor what they hold) nor the arguments.
#[verifier::external_body]
fn command_about(c: clap::Command, text: &str) -> (r: clap::Command)
    ensures
        command_name(r) == command_name(c),
        command_subs(r) == command_subs(c),
        command_arg_ids(r) == command_arg_ids(c),
        command_arg_reqs(r) == command_arg_reqs(c),
        command_arg_shorts(r) == command_arg_shorts(c),
        command_arg_longs(r) == command_arg_longs(c),
        command_arg_set_trues(r) == command_arg_set_trues(c),
        command_arg_any_counts(r) == command_arg_any_counts(c),
        forall|n: Seq<char>|
            command_subs(c).contains(n) ==> #[trigger] sub_arg_ids(r, n) == sub_arg_ids(c, n)
                && sub_arg_reqs(r, n) == sub_arg_reqs(c, n) && sub_arg_shorts(r, n)
                == sub_arg_shorts(c, n) && sub_arg_longs(r, n) == sub_arg_longs(c, n)
                && sub_arg_set_trues(r, n) == sub_arg_set_trues(c, n) && sub_arg_any_counts(r, n)
                == sub_arg_any_counts(c, n),
{
    c.about(text.to_string())
}

/// Relies on `clap::Command::arg`: appends one declared argument, touching
/// neither the name nor the subcommands (nor what they hold).
#[verifier::external_body]
fn command_arg(c: clap::Command, a: clap::Arg) -> (r: clap::Command)
    ensures
        command_name(r) == command_name(c),
        command_subs(r) == command_subs(c),
        command_arg_ids(r) == command_arg_ids(c).push(arg_id(a)),
        command_arg_reqs(r) == command_arg_reqs(c).push(arg_required_of(a)),
        command_arg_shorts(r) == command_arg_shorts(c).push(arg_short_of(a)),
        command_arg_longs(r) == command_arg_longs(c).push(arg_long_of(a)),
        command_arg_set_trues(r) == command_arg_set_trues(c).push(arg_set_true_of(a)),
        command_arg_any_counts(r) == command_arg_any_counts(c).push(arg_any_count_of(a)),
        forall|n: Seq<char>|
            command_subs(c).contains(n) ==> #[trigger] sub_arg_ids(r, n) == sub_arg_ids(c, n)
                && sub_arg_reqs(r, n) == sub_arg_reqs(c, n) && sub_arg_shorts(r, n)
                == sub_arg_shorts(c, n) && sub_arg_longs(r, n) == sub_arg_longs(c, n)
                && sub_arg_set_trues(r, n) == sub_arg_set_trues(c, n) && sub_arg_any_counts(r, n)
                == sub_arg_any_counts(c, n),
{
    c.arg(a)
}

/// Relies on `clap::Command::subcommand`: appends one subcommand, touching
/// neither the name nor the command's own arguments. The appended subcommand's
/// own argument schema becomes retrievable under its name (stated only for a
/// name not yet taken), and the schemas stored under other names are kept.
#[verifier::external_body]
fn command_subcommand(c: clap::Command, sub: clap::Command) -> (r: clap::Command)
    ensures
        command_name(r) == command_name(c),
        command_subs(r) == command_subs(c).push(command_name(sub)),
        command_arg_ids(r) == command_arg_ids(c),
        command_arg_reqs(r) == command_arg_reqs(c),
        command_arg_shorts(r) == command_arg_shorts(c),
        command_arg_longs(r) == command_arg_longs(c),
        command_arg_set_trues(r) == command_arg_set_trues(c),
        command_arg_any_counts(r) == command_arg_any_counts(c),
        !command_subs(c).contains(command_name(sub)) ==> sub_arg_ids(r, command_name(sub))
            == command_arg_ids(sub) && sub_arg_reqs(r, command_name(sub)) == command_arg_reqs(sub)
            && sub_arg_shorts(r, command_name(sub)) == command_arg_shorts(sub) && sub_arg_longs(
            r,
            command_name(sub),
        ) == command_arg_longs(sub) && sub_arg_set_trues(r, command_name(sub))
            == command_arg_set_trues(sub) && sub_arg_any_counts(r, command_name(sub))
            == command_arg_any_counts(sub),
        forall|n: Seq<char>|
            command_subs(c).contains(n) && n != command_name(sub) ==> #[trigger] sub_arg_ids(r, n)
                == sub_arg_ids(c, n) && sub_arg_reqs(r, n) == sub_arg_reqs(c, n)
                && sub_arg_shorts(r, n) == sub_arg_shorts(c, n) && sub_arg_longs(r, n)
                == sub_arg_longs(c, n) && sub_arg_set_trues(r, n) == sub_arg_set_trues(c, n)
                && sub_arg_any_counts(r, n) == sub_arg_any_counts(c, n),
{
    c.subcommand(sub)
}

/// Relies on `clap::ArgMatches::subcommand`: hands out the name of the chosen
/// subcommand and its matches, or `None` when no subcommand was given. The
/// name equals the matches' named subcommand, and the sub-matches' own named
/// contents equal the parent's named sub-contents: the sub-matches are stored
/// inside the parent value.
#[verifier::external_body]
fn subcommand_of<'a>(m: &'a clap::ArgMatches) -> (r: Option<(String, &'a clap::ArgMatches)>)
    ensures
        (match r {
            Some((name, sub)) => matched_subcommand(*m) == Some(name@) && (forall|id: Seq<char>|
                #[trigger] matched_string(*sub, id) == sub_string(*m, id)) && (forall|
                id: Seq<char>,
            |
                #[trigger] matched_flag(*sub, id) == sub_flag(*m, id)) && (forall|id: Seq<char>|
                #[trigger] matched_values(*sub, id) == sub_values(*m, id)),
            None => matched_subcommand(*m) is None,
        }),
{
    match m.subcommand() {
        Some((name, sub)) => Some((name.to_string(), sub)),
        None => None,
    }
}

/// Relies on `clap::ArgMatches::try_get_one::<String>`: hands out the parsed
/// string value held under the id, a pure function of the matches and the id;
/// an absent value and an unknown id both come back as `None`.
#[verifier::external_body]
fn string_value(m: &clap::ArgMatches, id: &str) -> (r: Option<String>)
    ensures
        opt_view(r) == matched_string(*m, id@),
{
    match m.try_get_one::<String>(id) {
        Ok(Some(v)) => Some(v.clone()),
        Ok(None) => None,
        Err(_) => None,
    }
}

/// Relies on `clap::ArgMatches::try_get_one::<bool>`: hands out the parsed
/// boolean of a presence-only flag, a pure function of the matches and the id;
/// an absent value and an unknown id both come back as `None`.
#[verifier::external_body]
fn flag_value(m: &clap::ArgMatches, id: &str) -> (r: Option<bool>)
    ensures
        r == matched_flag(*m, id@),
{
    match m.try_get_one::<bool>(id) {
        Ok(Some(v)) => Some(*v),
        Ok(None) => None,
        Err(_) => None,
    }
}

/// Relies on `clap::ArgMatches::try_get_many::<String>`: hands out all parsed
/// string values held under the id, in order, a pure function of the matches
/// and the id; an absent value and an unknown id both come back as `None`.
#[verifier::external_body]
fn many_values(m: &clap::ArgMatches, id: &str) -> (r: Option<Vec<String>>)
    ensures
        (match r {
            Some(v) => matched_values(*m, id@) == Some(strs(v@)),
            None => matched_values(*m, id@) is None,
        }),
{
    match m.try_get_many::<String>(id) {
        Ok(Some(vals)) => Some(vals.cloned().collect()),
        Ok(None) => None,
        Err(_) => None,
    }
}

/// The long name a declared flag gets: named flags carry their field name,
/// positional ones none.
pub open spec fn spec_long(f: FlagSpec) -> Option<Seq<char>> {
    match f.kind {
        FlagKind::Positional => None::<Seq<char>>,
        FlagKind::Variadic => None::<Seq<char>>,
        FlagKind::Valued => Some(f.name@),
        FlagKind::Switch => Some(f.name@),
    }
}

/// The shorthand a declared flag gets: named flags carry their assigned
/// character, positional ones none.
pub open spec fn spec_short(f: FlagSpec) -> Option<char> {
    match f.kind {
        FlagKind::Positional => None::<char>,
        FlagKind::Variadic => None::<char>,
        FlagKind::Valued => f.short,
        FlagKind::Switch => f.short,
    }
}

/// Turn one declared flag into its `clap` argument: id, requiredness and help
/// always, then the long and short names for named flags, the presence-only
/// action for boolean flags, and the open value count for variadic ones.
fn build_arg(f: &FlagSpec) -> (r: clap::Arg)
    requires
        f.short matches Some(c) ==> c != '-',
    ensures
        arg_id(r) == f.name@,
        arg_required_of(r) == f.required,
        arg_short_of(r) == spec_short(*f),
        arg_long_of(r) == spec_long(*f),
        arg_set_true_of(r) == (f.kind is Switch),
        arg_any_count_of(r) == (f.kind is Variadic),
{
    let a = arg_new(f.name.as_str());
    let a = arg_required(a, f.required);
    let a = arg_help(a, f.help.as_str());
    match f.kind {
        FlagKind::Positional => a,
        FlagKind::Valued => with_names(a, f),
        FlagKind::Switch => arg_set_true(with_names(a, f)),
        FlagKind::Variadic => arg_any_count(a),
    }
}

/// Attach the long name and, when one was assigned, the shorthand.
fn with_names(a: clap::Arg, f: &FlagSpec) -> (r: clap::Arg)
    requires
        f.short matches Some(c) ==> c != '-',
    ensures
        arg_id(r) == arg_id(a),
        arg_required_of(r) == arg_required_of(a),
        arg_short_of(r) == (match f.short {
            Some(c) => Some(c),
            None => arg_short_of(a),
        }),
        arg_long_of(r) == Some(f.name@),
        arg_set_true_of(r) == arg_set_true_of(a),
        arg_any_count_of(r) == arg_any_count_of(a),
{
    let a = match f.short {
        Some(c) => arg_short(a, c),
        None => a,
    };
    arg_long(a, f.name.as_str())
}

/// Builders of the subcommand definitions. The shorthand registry is threaded
/// through all of them by exclusive reference, so no two flags of the whole
/// command line collide on their shorthand while fresh characters last; each
/// builder pins exactly which shorthands it claims and what its command holds:
/// every argument's id, requiredness, shorthand, long name, presence-only
/// action and open value count, in declaration order.
pub struct SubcommandManager;

impl SubcommandManager {
    /// The `cargo` subcommand: one required positional taking any number of
    /// values, no flags, no shorthand claimed.
    pub fn cargo_command(am: &mut ArgManager) -> (r: clap::Command)
        requires
            old(am).wf(),
        ensures
            *final(am) == *old(am),
            command_name(r) == "cargo"@,
            command_subs(r) == Seq::<Seq<char>>::empty(),
            command_arg_ids(r) == seq!["commands"@],
            command_arg_reqs(r) == seq![true],
            command_arg_shorts(r) == seq![None::<char>],
            command_arg_longs(r) == seq![None::<Seq<char>>],
            command_arg_set_trues(r) == seq![false],
            command_arg_any_counts(r) == seq![true],
    {
        let c = command_new("cargo");
        let c = command_about(c, "Cargo API wrapper");
        let f = am.form_arg_vec("commands", true, "The commands to run with Cargo");
        let c = command_arg(c, build_arg(&f));
        proof {
            assert(command_arg_ids(c) =~= seq!["commands"@]);
            assert(command_arg_reqs(c) =~= seq![true]);
            assert(command_arg_shorts(c) =~= seq![None::<char>]);
            assert(command_arg_longs(c) =~= seq![None::<Seq<char>>]);
            assert(command_arg_set_trues(c) =~= seq![false]);
            assert(command_arg_any_counts(c) =~= seq![true]);
        }
        c
    }

    /// The `template` subcommand: two required value flags, `name` then
    /// `path`, each with a long name equal to its field name, each claiming
    /// its shorthand in that order.
    pub fn template_command(am: &mut ArgManager) -> (r: clap::Command)
        requires
            old(am).wf(),
        ensures
            final(am).wf(),
            command_name(r) == "template"@,
            command_subs(r) == Seq::<Seq<char>>::empty(),
            ({
                let u1 = used_after("name"@, old(am).shorts@);
                &&& final(am).shorts@ == used_after("path"@, u1)
                &&& command_arg_ids(r) == seq!["name"@, "path"@]
                &&& command_arg_reqs(r) == seq![true, true]
                &&& command_arg_shorts(r) == seq![
                    Some(shorthand_of("name"@, old(am).shorts@)),
                    Some(shorthand_of("path"@, u1)),
                ]
                &&& command_arg_longs(r) == seq![Some("name"@), Some("path"@)]
                &&& command_arg_set_trues(r) == seq![false, false]
                &&& command_arg_any_counts(r) == seq![false, false]
            }),
    {
        proof {
            reveal_strlit("name");
            reveal_strlit("path");
        }
        let c = command_new("template");
        let c = command_about(c, "Template for a new project");
        let ghost u0 = am.shorts@;
        let f = am.form_arg_flags("name", true, "The name of the project");
        proof {
            lemma_shorthand_from_name("name"@, u0);
            assert(!"name"@.contains('-'));
        }
        let c = command_arg(c, build_arg(&f));
        let ghost u1 = am.shorts@;
        let f = am.form_arg_flags("path", true, "The path to the template");
        proof {
            lemma_shorthand_from_name("path"@, u1);
            assert(!"path"@.contains('-'));
        }
        let c = command_arg(c, build_arg(&f));
        proof {
            assert(command_arg_ids(c) =~= seq!["name"@, "path"@]);
            assert(command_arg_reqs(c) =~= seq![true, true]);
            assert(command_arg_shorts(c) =~= seq![
                Some(shorthand_of("name"@, u0)),
                Some(shorthand_of("path"@, u1)),
            ]);
            assert(command_arg_longs(c) =~= seq![Some("name"@), Some("path"@)]);
            assert(command_arg_set_trues(c) =~= seq![false, false]);
            assert(command_arg_any_counts(c) =~= seq![false, false]);
        }
        c
    }

    /// The `new` subcommand: the required positional name, then the value and
    /// boolean flags, each named flag with a long name equal to its field name
    /// and claiming its shorthand in declaration order; `bin`, `lib` and
    /// `quiet` are presence-only.
    pub fn new_command(am: &mut ArgManager) -> (r: clap::Command)
        requires
            old(am).wf(),
        ensures
            final(am).wf(),
            command_name(r) == "new"@,
            command_subs(r) == Seq::<Seq<char>>::empty(),
            ({
                let u0 = old(am).shorts@;
                let u1 = used_after("template"@, u0);
                let u2 = used_after("path"@, u1);
                let u3 = used_after("git"@, u2);
                let u4 = used_after("bin"@, u3);
                let u5 = used_after("lib"@, u4);
                let u6 = used_after("edition"@, u5);
                &&& final(am).shorts@ == used_after("quiet"@, u6)
                &&& command_arg_ids(r) == seq![
                    "name"@,
                    "template"@,
                    "path"@,
                    "git"@,
                    "bin"@,
                    "lib"@,
                    "edition"@,
                    "quiet"@,
                ]
                &&& command_arg_reqs(r) == seq![true, false, false, false, false, false, false, false]
                &&& command_arg_shorts(r) == seq![
                    None::<char>,
                    Some(shorthand_of("template"@, u0)),
                    Some(shorthand_of("path"@, u1)),
                    Some(shorthand_of("git"@, u2)),
                    Some(shorthand_of("bin"@, u3)),
                    Some(shorthand_of("lib"@, u4)),
                    Some(shorthand_of("edition"@, u5)),
                    Some(shorthand_of("quiet"@, u6)),
                ]
                &&& command_arg_longs(r) == seq![
                    None::<Seq<char>>,
                    Some("template"@),
                    Some("path"@),
                    Some("git"@),
                    Some("bin"@),
                    Some("lib"@),
                    Some("edition"@),
                    Some("quiet"@),
                ]
                &&& command_arg_set_trues(r) == seq![
                    false,
                    false,
                    false,
                    false,
                    true,
                    true,
                    false,
                    true,
                ]
                &&& command_arg_any_counts(r) == seq![
                    false,
                    false,
                    false,
                    false,
                    false,
                    false,
                    false,
                    false,
                ]
            }),
    {
        proof {
            reveal_strlit("template");
            reveal_strlit("path");
            reveal_strlit("git");
            reveal_strlit("bin");
            reveal_strlit("lib");
            reveal_strlit("edition");
            reveal_strlit("quiet");
        }
        let c = command_new("new");
        let c = command_about(c, "Create a new project");
        let f = am.form_arg("name", true, "The name of the project");
        let c = command_arg(c, build_arg(&f));
        let ghost u0 = am.shorts@;
        let f = am.form_arg_flags("template", false, "The template to start from");
        proof {
            lemma_shorthand_from_name("template"@, u0);
            assert(!"template"@.contains('-'));
        }
        let c = command_arg(c, build_arg(&f));
        let ghost u1 = am.shorts@;
        let f = am.form_arg_flags("path", false, "The path to create the project at");
        proof {
            lemma_shorthand_from_name("path"@, u1);
            assert(!"path"@.contains('-'));
        }
        let c = command_arg(c, build_arg(&f));
        let ghost u2 = am.shorts@;
        let f = am.form_arg_flags("git", false, "Whether to put the project under version control");
        proof {
            lemma_shorthand_from_name("git"@, u2);
            assert(!"git"@.contains('-'));
        }
        let c = command_arg(c, build_arg(&f));
        let ghost u3 = am.shorts@;
        let f = am.form_bool_arg("bin", false, "Create a binary target");
        proof {
            lemma_shorthand_from_name("bin"@, u3);
            assert(!"bin"@.contains('-'));
        }
        let c = command_arg(c, build_arg(&f));
        let ghost u4 = am.shorts@;
        let f = am.form_bool_arg("lib", false, "Create a library target");
        proof {
            lemma_shorthand_from_name("lib"@, u4);
            assert(!"lib"@.contains('-'));
        }
        let c = command_arg(c, build_arg(&f));
        let ghost u5 = am.shorts@;
        let f = am.form_arg_flags("edition", false, "The edition to use");
        proof {
            lemma_shorthand_from_name("edition"@, u5);
            assert(!"edition"@.contains('-'));
        }
        let c = command_arg(c, build_arg(&f));
        let ghost u6 = am.shorts@;
        let f = am.form_bool_arg("quiet", false, "Print no output");
        proof {
            lemma_shorthand_from_name("quiet"@, u6);
            assert(!"quiet"@.contains('-'));
        }
        let c = command_arg(c, build_arg(&f));
        proof {
            assert(command_arg_ids(c) =~= seq![
                "name"@,
                "template"@,
                "path"@,
                "git"@,
                "bin"@,
                "lib"@,
                "edition"@,
                "quiet"@,
            ]);
            assert(command_arg_reqs(c) =~= seq![
                true,
                false,
                false,
                false,
                false,
                false,
                false,
                false,
            ]);
            assert(command_arg_shorts(c) =~= seq![
                None::<char>,
                Some(shorthand_of("template"@, u0)),
                Some(shorthand_of("path"@, u1)),
                Some(shorthand_of("git"@, u2)),
                Some(shorthand_of("bin"@, u3)),
                Some(shorthand_of("lib"@, u4)),
                Some(shorthand_of("edition"@, u5)),
                Some(shorthand_of("quiet"@, u6)),
            ]);
            assert(command_arg_longs(c) =~= seq![
                None::<Seq<char>>,
                Some("template"@),
                Some("path"@),
                Some("git"@),
                Some("bin"@),
                Some("lib"@),
                Some("edition"@),
                Some("quiet"@),
            ]);
            assert(command_arg_set_trues(c) =~= seq![
                false,
                false,
                false,
                false,
                true,
                true,
                false,
                true,
            ]);
            assert(command_arg_any_counts(c) =~= seq![
                false,
                false,
                false,
                false,
                false,
                false,
                false,
                false,
            ]);
        }
        c
    }

    /// The `add` subcommand: the required positional dependency name, then the
    /// `version` and `features` value flags, each with a long name equal to
    /// its field name, each claiming its shorthand in that order.
    pub fn add_command(am: &mut ArgManager) -> (r: clap::Command)
        requires
            old(am).wf(),
        ensures
            final(am).wf(),
            command_name(r) == "add"@,
            command_subs(r) == Seq::<Seq<char>>::empty(),
            ({
                let u1 = used_after("version"@, old(am).shorts@);
                &&& final(am).shorts@ == used_after("features"@, u1)
                &&& command_arg_ids(r) == seq!["name"@, "version"@, "features"@]
                &&& command_arg_reqs(r) == seq![true, false, false]
                &&& command_arg_shorts(r) == seq![
                    None::<char>,
                    Some(shorthand_of("version"@, old(am).shorts@)),
                    Some(shorthand_of("features"@, u1)),
                ]
                &&& command_arg_longs(r) == seq![
                    None::<Seq<char>>,
                    Some("version"@),
                    Some("features"@),
                ]
                &&& command_arg_set_trues(r) == seq![false, false, false]
                &&& command_arg_any_counts(r) == seq![false, false, false]
            }),
    {
        proof {
            reveal_strlit("version");
            reveal_strlit("features");
        }
        let c = command_new("add");
        let c = command_about(c, "Add a dependency");
        let f = am.form_arg("name", true, "The name of the dependency");
        let c = command_arg(c, build_arg(&f));
        let ghost u0 = am.shorts@;
        let f = am.form_arg_flags("version", false, "The version to require");
        proof {
            lemma_shorthand_from_name("version"@, u0);
            assert(!"version"@.contains('-'));
        }
        let c = command_arg(c, build_arg(&f));
        let ghost u1 = am.shorts@;
        let f = am.form_arg_flags("features", false, "The features to enable");
        proof {
            lemma_shorthand_from_name("features"@, u1);
            assert(!"features"@.contains('-'));
        }
        let c = command_arg(c, build_arg(&f));
        proof {
            assert(command_arg_ids(c) =~= seq!["name"@, "version"@, "features"@]);
            assert(command_arg_reqs(c) =~= seq![true, false, false]);
            assert(command_arg_shorts(c) =~= seq![
                None::<char>,
                Some(shorthand_of("version"@, u0)),
                Some(shorthand_of("features"@, u1)),
            ]);
            assert(command_arg_longs(c) =~= seq![
                None::<Seq<char>>,
                Some("version"@),
                Some("features"@),
            ]);
            assert(command_arg_set_trues(c) =~= seq![false, false, false]);
            assert(command_arg_any_counts(c) =~= seq![false, false, false]);
        }
        c
    }

    /// The `init` subcommand: the optional positional path, then the boolean
    /// and value flags, each named flag with a long name equal to its field
    /// name and claiming its shorthand in declaration order; `git`, `bin`,
    /// `lib` and `quiet` are presence-only.
    pub fn init_command(am: &mut ArgManager) -> (r: clap::Command)
        requires
            old(am).wf(),
        ensures
            final(am).wf(),
            command_name(r) == "init"@,
            command_subs(r) == Seq::<Seq<char>>::empty(),
            ({
                let u0 = old(am).shorts@;
                let u1 = used_after("git"@, u0);
                let u2 = used_after("bin"@, u1);
                let u3 = used_after("lib"@, u2);
                let u4 = used_after("edition"@, u3);
                &&& final(am).shorts@ == used_after("quiet"@, u4)
                &&& command_arg_ids(r) == seq![
                    "path"@,
                    "git"@,
                    "bin"@,
                    "lib"@,
                    "edition"@,
                    "quiet"@,
                ]
                &&& command_arg_reqs(r) == seq![false, false, false, false, false, false]
                &&& command_arg_shorts(r) == seq![
                    None::<char>,
                    Some(shorthand_of("git"@, u0)),
                    Some(shorthand_of("bin"@, u1)),
                    Some(shorthand_of("lib"@, u2)),
                    Some(shorthand_of("edition"@, u3)),
                    Some(shorthand_of("quiet"@, u4)),
                ]
                &&& command_arg_longs(r) == seq![
                    None::<Seq<char>>,
                    Some("git"@),
                    Some("bin"@),
                    Some("lib"@),
                    Some("edition"@),
                    Some("quiet"@),
                ]
                &&& command_arg_set_trues(r) == seq![false, true, true, true, false, true]
                &&& command_arg_any_counts(r) == seq![false, false, false, false, false, false]
            }),
    {
        proof {
            reveal_strlit("git");
            reveal_strlit("bin");
            reveal_strlit("lib");
            reveal_strlit("edition");
            reveal_strlit("quiet");
        }
        let c = command_new("init");
        let c = command_about(c, "Initialise a project in an existing directory");
        let f = am.form_arg("path", false, "The directory to initialise");
        let c = command_arg(c, build_arg(&f));
        let ghost u0 = am.shorts@;
        let f = am.form_bool_arg("git", false, "Put the project under version control");
        proof {
            lemma_shorthand_from_name("git"@, u0);
            assert(!"git"@.contains('-'));
        }
        let c = command_arg(c, build_arg(&f));
        let ghost u1 = am.shorts@;
        let f = am.form_bool_arg("bin", false, "Create a binary target");
        proof {
            lemma_shorthand_from_name("bin"@, u1);
            assert(!"bin"@.contains('-'));
        }
        let c = command_arg(c, build_arg(&f));
        let ghost u2 = am.shorts@;
        let f = am.form_bool_arg("lib", false, "Create a library target");
        proof {
            lemma_shorthand_from_name("lib"@, u2);
            assert(!"lib"@.contains('-'));
        }
        let c = command_arg(c, build_arg(&f));
        let ghost u3 = am.shorts@;
        let f = am.form_arg_flags("edition", false, "The edition to use");
        proof {
            lemma_shorthand_from_name("edition"@, u3);
            assert(!"edition"@.contains('-'));
        }
        let c = command_arg(c, build_arg(&f));
        let ghost u4 = am.shorts@;
        let f = am.form_bool_arg("quiet", false, "Print no output");
        proof {
            lemma_shorthand_from_name("quiet"@, u4);
            assert(!"quiet"@.contains('-'));
        }
        let c = command_arg(c, build_arg(&f));
        proof {
            assert(command_arg_ids(c) =~= seq![
                "path"@,
                "git"@,
                "bin"@,
                "lib"@,
                "edition"@,
                "quiet"@,
            ]);
            assert(command_arg_reqs(c) =~= seq![false, false, false, false, false, false]);
            assert(command_arg_shorts(c) =~= seq![
                None::<char>,
                Some(shorthand_of("git"@, u0)),
                Some(shorthand_of("bin"@, u1)),
                Some(shorthand_of("lib"@, u2)),
                Some(shorthand_of("edition"@, u3)),
                Some(shorthand_of("quiet"@, u4)),
            ]);
            assert(command_arg_longs(c) =~= seq![
                None::<Seq<char>>,
                Some("git"@),
                Some("bin"@),
                Some("lib"@),
                Some("edition"@),
                Some("quiet"@),
            ]);
            assert(command_arg_set_trues(c) =~= seq![false, true, true, true, false, true]);
            assert(command_arg_any_counts(c) =~= seq![false, false, false, false, false, false]);
        }
        c
    }
}

/// The whole command line: the five subcommand definitions in order, sharing
/// one shorthand registry that starts empty, so that no two flags of the whole
/// CLI collide on their shorthand while fresh characters last. The ensures
/// carries every subcommand's full argument schema — ids, requiredness,
/// shorthands (as the chain of claims over the shared registry), long names,
/// presence-only actions and open value counts.
pub fn command() -> (r: clap::Command)
    ensures
        command_name(r) == "crgl"@,
        command_subs(r) == seq!["cargo"@, "template"@, "new"@, "add"@, "init"@],
        command_arg_ids(r) == Seq::<Seq<char>>::empty(),
        sub_arg_ids(r, "cargo"@) == seq!["commands"@],
        sub_arg_reqs(r, "cargo"@) == seq![true],
        sub_arg_shorts(r, "cargo"@) == seq![None::<char>],
        sub_arg_longs(r, "cargo"@) == seq![None::<Seq<char>>],
        sub_arg_set_trues(r, "cargo"@) == seq![false],
        sub_arg_any_counts(r, "cargo"@) == seq![true],
        ({
            let e = Seq::<char>::empty();
            let t1 = used_after("name"@, e);
            let t2 = used_after("path"@, t1);
            let n1 = used_after("template"@, t2);
            let n2 = used_after("path"@, n1);
            let n3 = used_after("git"@, n2);
            let n4 = used_after("bin"@, n3);
            let n5 = used_after("lib"@, n4);
            let n6 = used_after("edition"@, n5);
            let n7 = used_after("quiet"@, n6);
            let a1 = used_after("version"@, n7);
            let a2 = used_after("features"@, a1);
            let i1 = used_after("git"@, a2);
            let i2 = used_after("bin"@, i1);
            let i3 = used_after("lib"@, i2);
            let i4 = used_after("edition"@, i3);
            &&& sub_arg_ids(r, "template"@) == seq!["name"@, "path"@]
            &&& sub_arg_reqs(r, "template"@) == seq![true, true]
            &&& sub_arg_shorts(r, "template"@) == seq![
                Some(shorthand_of("name"@, e)),
                Some(shorthand_of("path"@, t1)),
            ]
            &&& sub_arg_longs(r, "template"@) == seq![Some("name"@), Some("path"@)]
            &&& sub_arg_set_trues(r, "template"@) == seq![false, false]
            &&& sub_arg_any_counts(r, "template"@) == seq![false, false]
            &&& sub_arg_ids(r, "new"@) == seq![
                "name"@,
                "template"@,
                "path"@,
                "git"@,
                "bin"@,
                "lib"@,
                "edition"@,
                "quiet"@,
            ]
            &&& sub_arg_reqs(r, "new"@) == seq![true, false, false, false, false, false, false, false]
            &&& sub_arg_shorts(r, "new"@) == seq![
                None::<char>,
                Some(shorthand_of("template"@, t2)),
                Some(shorthand_of("path"@, n1)),
                Some(shorthand_of("git"@, n2)),
                Some(shorthand_of("bin"@, n3)),
                Some(shorthand_of("lib"@, n4)),
                Some(shorthand_of("edition"@, n5)),
                Some(shorthand_of("quiet"@, n6)),
            ]
            &&& sub_arg_longs(r, "new"@) == seq![
                None::<Seq<char>>,
                Some("template"@),
                Some("path"@),
                Some("git"@),
                Some("bin"@),
                Some("lib"@),
                Some("edition"@),
                Some("quiet"@),
            ]
            &&& sub_arg_set_trues(r, "new"@) == seq![
                false,
                false,
                false,
                false,
                true,
                true,
                false,
                true,
            ]
            &&& sub_arg_any_counts(r, "new"@) == seq![
                false,
                false,
                false,
                false,
                false,
                false,
                false,
                false,
            ]
            &&& sub_arg_ids(r, "add"@) == seq!["name"@, "version"@, "features"@]
            &&& sub_arg_reqs(r, "add"@) == seq![true, false, false]
            &&& sub_arg_shorts(r, "add"@) == seq![
                None::<char>,
                Some(shorthand_of("version"@, n7)),
                Some(shorthand_of("features"@, a1)),
            ]
            &&& sub_arg_longs(r, "add"@) == seq![
                None::<Seq<char>>,
                Some("version"@),
                Some("features"@),
            ]
            &&& sub_arg_set_trues(r, "add"@) == seq![false, false, false]
            &&& sub_arg_any_counts(r, "add"@) == seq![false, false, false]
            &&& sub_arg_ids(r, "init"@) == seq![
                "path"@,
                "git"@,
                "bin"@,
                "lib"@,
                "edition"@,
                "quiet"@,
            ]
            &&& sub_arg_reqs(r, "init"@) == seq![false, false, false, false, false, false]
            &&& sub_arg_shorts(r, "init"@) == seq![
                None::<char>,
                Some(shorthand_of("git"@, a2)),
                Some(shorthand_of("bin"@, i1)),
                Some(shorthand_of("lib"@, i2)),
                Some(shorthand_of("edition"@, i3)),
                Some(shorthand_of("quiet"@, i4)),
            ]
            &&& sub_arg_longs(r, "init"@) == seq![
                None::<Seq<char>>,
                Some("git"@),
                Some("bin"@),
                Some("lib"@),
                Some("edition"@),
                Some("quiet"@),
            ]
            &&& sub_arg_set_trues(r, "init"@) == seq![false, true, true, true, false, true]
            &&& sub_arg_any_counts(r, "init"@) == seq![false, false, false, false, false, false]
        }),
{
    proof {
        reveal_strlit("cargo");
        reveal_strlit("template");
        reveal_strlit("new");
        reveal_strlit("add");
        reveal_strlit("init");
        assert("new"@ != "add"@) by {
            assert("new"@[0] == 'n');
            assert("add"@[0] == 'a');
        }
        assert("cargo"@.len() == 5);
        assert("template"@.len() == 8);
        assert("new"@.len() == 3);
        assert("add"@.len() == 3);
        assert("init"@.len() == 4);
    }
    let mut am = ArgManager::new();
    let c0 = command_new("crgl");
    let c1 = command_subcommand(c0, SubcommandManager::cargo_command(&mut am));
    proof {
        assert(!command_subs(c0).contains("cargo"@));
        assert(command_subs(c1) =~= seq!["cargo"@]);
    }
    let c2 = command_subcommand(c1, SubcommandManager::template_command(&mut am));
    proof {
        assert(command_subs(c1)[0] == "cargo"@);
        assert(command_subs(c1).contains("cargo"@));
        assert(!command_subs(c1).contains("template"@));
        assert(command_subs(c2) =~= seq!["cargo"@, "template"@]);
        assert(sub_arg_ids(c2, "cargo"@) == sub_arg_ids(c1, "cargo"@));
    }
    let c3 = command_subcommand(c2, SubcommandManager::new_command(&mut am));
    proof {
        assert(command_subs(c2)[0] == "cargo"@);
        assert(command_subs(c2)[1] == "template"@);
        assert(command_subs(c2).contains("cargo"@));
        assert(command_subs(c2).contains("template"@));
        assert(!command_subs(c2).contains("new"@));
        assert(command_subs(c3) =~= seq!["cargo"@, "template"@, "new"@]);
        assert(sub_arg_ids(c3, "cargo"@) == sub_arg_ids(c2, "cargo"@));
        assert(sub_arg_ids(c3, "template"@) == sub_arg_ids(c2, "template"@));
    }
    let c4 = command_subcommand(c3, SubcommandManager::add_command(&mut am));
    proof {
        assert(command_subs(c3)[0] == "cargo"@);
        assert(command_subs(c3)[1] == "template"@);
        assert(command_subs(c3)[2] == "new"@);
        assert(command_subs(c3).contains("cargo"@));
        assert(command_subs(c3).contains("template"@));
        assert(command_subs(c3).contains("new"@));
        assert(!command_subs(c3).contains("add"@));
        assert(command_subs(c4) =~= seq!["cargo"@, "template"@, "new"@, "add"@]);
        assert(sub_arg_ids(c4, "cargo"@) == sub_arg_ids(c3, "cargo"@));
        assert(sub_arg_ids(c4, "template"@) == sub_arg_ids(c3, "template"@));
        assert(sub_arg_ids(c4, "new"@) == sub_arg_ids(c3, "new"@));
    }
    let c5 = command_subcommand(c4, SubcommandManager::init_command(&mut am));
    proof {
        assert(command_subs(c4)[0] == "cargo"@);
        assert(command_subs(c4)[1] == "template"@);
        assert(command_subs(c4)[2] == "new"@);
        assert(command_subs(c4)[3] == "add"@);
        assert(command_subs(c4).contains("cargo"@));
        assert(command_subs(c4).contains("template"@));
        assert(command_subs(c4).contains("new"@));
        assert(command_subs(c4).contains("add"@));
        assert forall|i: int| 0 <= i < command_subs(c4).len() implies command_subs(c4)[i]
            != "init"@ by {
            assert(command_subs(c4) =~= seq!["cargo"@, "template"@, "new"@, "add"@]);
        }
        assert(!command_subs(c4).contains("init"@));
        assert(command_subs(c5) =~= seq!["cargo"@, "template"@, "new"@, "add"@, "init"@]);
        assert(sub_arg_ids(c5, "cargo"@) == sub_arg_ids(c4, "cargo"@));
        assert(sub_arg_ids(c5, "template"@) == sub_arg_ids(c4, "template"@));
        assert(sub_arg_ids(c5, "new"@) == sub_arg_ids(c4, "new"@));
        assert(sub_arg_ids(c5, "add"@) == sub_arg_ids(c4, "add"@));
    }
    c5
}

/// Whether the parsed name equals the given literal.
fn name_is(name: &String, lit: &str) -> (r: bool)
    ensures
        r == (name@ == lit@),
{
    let l = String::from_str(lit);
    *name == l
}

/// What the `template` reader returns for the given looked-up values: both
/// required values present gives the record holding exactly them, either one
/// missing is rejected.
pub open spec fn template_read_vals(
    name_v: Option<Seq<char>>,
    path_v: Option<Seq<char>>,
    r: Result<TemplateCommand, ParseError>,
) -> bool {
    match (name_v, path_v) {
        (Some(n), Some(p)) => r matches Ok(t) && t.name@ == n && t.path@ == p,
        _ => r == Err::<TemplateCommand, ParseError>(ParseError::MissingValue),
    }
}

/// The `template` reader's contract over its own matches.
pub open spec fn template_read(m: clap::ArgMatches, r: Result<TemplateCommand, ParseError>) -> bool {
    template_read_vals(matched_string(m, "name"@), matched_string(m, "path"@), r)
}

/// What the `cargo` reader returns for the given looked-up values: the command
/// values, in order, unchanged; their absence is rejected.
pub open spec fn cargo_read_vals(
    cmds: Option<Seq<Seq<char>>>,
    r: Result<CargoCommand, ParseError>,
) -> bool {
    match cmds {
        Some(vals) => r matches Ok(c) && strs(c.commands@) == vals,
        None => r == Err::<CargoCommand, ParseError>(ParseError::MissingValue),
    }
}

/// The `cargo` reader's contract over its own matches.
pub open spec fn cargo_read(m: clap::ArgMatches, r: Result<CargoCommand, ParseError>) -> bool {
    cargo_read_vals(matched_values(m, "commands"@), r)
}

/// What the `new` reader returns for the given looked-up values: every field
/// equal to them, with the stated defaults applied; a missing name or a bad
/// `git` value is rejected.
pub open spec fn new_read_vals(
    name_v: Option<Seq<char>>,
    template_v: Option<Seq<char>>,
    path_v: Option<Seq<char>>,
    git_v: Option<Seq<char>>,
    bin_v: Option<bool>,
    lib_v: Option<bool>,
    edition_v: Option<Seq<char>>,
    quiet_v: Option<bool>,
    r: Result<NewCommand, ParseError>,
) -> bool {
    match name_v {
        None => r == Err::<NewCommand, ParseError>(ParseError::MissingValue),
        Some(n) => match parsed_bool(git_v, NEW_GIT_DEFAULT) {
            Err(e) => r == Err::<NewCommand, ParseError>(e),
            Ok(g) => r matches Ok(c) && c.name@ == n && opt_view(c.template) == template_v
                && opt_view(c.path) == path_v && c.git == g && c.bin == resolve_flag(bin_v, false)
                && c.lib == resolve_flag(lib_v, false) && opt_view(c.edition) == edition_v
                && c.quiet == resolve_flag(quiet_v, false),
        },
    }
}

/// The `new` reader's contract over its own matches.
pub open spec fn new_read(m: clap::ArgMatches, r: Result<NewCommand, ParseError>) -> bool {
    new_read_vals(
        matched_string(m, "name"@),
        matched_string(m, "template"@),
        matched_string(m, "path"@),
        matched_string(m, "git"@),
        matched_flag(m, "bin"@),
        matched_flag(m, "lib"@),
        matched_string(m, "edition"@),
        matched_flag(m, "quiet"@),
        r,
    )
}

/// What the `add` reader returns for the given looked-up values: every field
/// equal to them; a missing name is rejected.
pub open spec fn add_read_vals(
    name_v: Option<Seq<char>>,
    version_v: Option<Seq<char>>,
    features_v: Option<Seq<char>>,
    r: Result<AddCommand, ParseError>,
) -> bool {
    match name_v {
        None => r == Err::<AddCommand, ParseError>(ParseError::MissingValue),
        Some(n) => r matches Ok(c) && c.name@ == n && opt_view(c.version) == version_v && opt_view(
            c.features,
        ) == features_v,
    }
}

/// The `add` reader's contract over its own matches.
pub open spec fn add_read(m: clap::ArgMatches, r: Result<AddCommand, ParseError>) -> bool {
    add_read_vals(
        matched_string(m, "name"@),
        matched_string(m, "version"@),
        matched_string(m, "features"@),
        r,
    )
}

/// What the `init` reader returns for the given looked-up values: always a
/// record, every field equal to them, with the stated defaults applied.
pub open spec fn init_read_vals(
    path_v: Option<Seq<char>>,
    git_v: Option<bool>,
    bin_v: Option<bool>,
    lib_v: Option<bool>,
    edition_v: Option<Seq<char>>,
    quiet_v: Option<bool>,
    r: Result<InitCommand, ParseError>,
) -> bool {
    r matches Ok(c) && opt_view(c.path) == path_v && c.git == resolve_flag(git_v, INIT_GIT_DEFAULT)
        && c.bin == resolve_flag(bin_v, false) && c.lib == resolve_flag(lib_v, false) && opt_view(
        c.edition,
    ) == edition_v && c.quiet == resolve_flag(quiet_v, false)
}

/// The `init` reader's contract over its own matches.
pub open spec fn init_read(m: clap::ArgMatches, r: Result<InitCommand, ParseError>) -> bool {
    init_read_vals(
        matched_string(m, "path"@),
        matched_flag(m, "git"@),
        matched_flag(m, "bin"@),
        matched_flag(m, "lib"@),
        matched_string(m, "edition"@),
        matched_flag(m, "quiet"@),
        r,
    )
}

/// What dispatch on a subcommand name returns, over the sub-matches' own named
/// contents: for each known name, exactly that subcommand's reader result; for
/// any other name, the unknown-subcommand error.
pub open spec fn dispatch_read(
    name: Seq<char>,
    m: clap::ArgMatches,
    r: Result<CrglCommand, ParseError>,
) -> bool {
    if name == "new"@ {
        match r {
            Ok(c) => c matches CrglCommand::New(x) && new_read(m, Ok(x)),
            Err(e) => new_read(m, Err::<NewCommand, ParseError>(e)),
        }
    } else if name == "add"@ {
        match r {
            Ok(c) => c matches CrglCommand::Add(x) && add_read(m, Ok(x)),
            Err(e) => add_read(m, Err::<AddCommand, ParseError>(e)),
        }
    } else if name == "init"@ {
        match r {
            Ok(c) => c matches CrglCommand::Init(x) && init_read(m, Ok(x)),
            Err(e) => init_read(m, Err::<InitCommand, ParseError>(e)),
        }
    } else if name == "template"@ {
        match r {
            Ok(c) => c matches CrglCommand::Template(x) && template_read(m, Ok(x)),
            Err(e) => template_read(m, Err::<TemplateCommand, ParseError>(e)),
        }
    } else if name == "cargo"@ {
        match r {
            Ok(c) => c matches CrglCommand::Cargo(x) && cargo_read(m, Ok(x)),
            Err(e) => cargo_read(m, Err::<CargoCommand, ParseError>(e)),
        }
    } else {
        r == Err::<CrglCommand, ParseError>(ParseError::UnknownSubcommand)
    }
}

/// The `new` reader's contract, restated over the parent matches' named
/// sub-contents.
pub open spec fn sub_new_read(m: clap::ArgMatches, r: Result<NewCommand, ParseError>) -> bool {
    new_read_vals(
        sub_string(m, "name"@),
        sub_string(m, "template"@),
        sub_string(m, "path"@),
        sub_string(m, "git"@),
        sub_flag(m, "bin"@),
        sub_flag(m, "lib"@),
        sub_string(m, "edition"@),
        sub_flag(m, "quiet"@),
        r,
    )
}

/// The `add` reader's contract, restated over the parent matches' named
/// sub-contents.
pub open spec fn sub_add_read(m: clap::ArgMatches, r: Result<AddCommand, ParseError>) -> bool {
    add_read_vals(
        sub_string(m, "name"@),
        sub_string(m, "version"@),
        sub_string(m, "features"@),
        r,
    )
}

/// The `init` reader's contract, restated over the parent matches' named
/// sub-contents.
pub open spec fn sub_init_read(m: clap::ArgMatches, r: Result<InitCommand, ParseError>) -> bool {
    init_read_vals(
        sub_string(m, "path"@),
        sub_flag(m, "git"@),
        sub_flag(m, "bin"@),
        sub_flag(m, "lib"@),
        sub_string(m, "edition"@),
        sub_flag(m, "quiet"@),
        r,
    )
}

/// The `template` reader's contract, restated over the parent matches' named
/// sub-contents.
pub open spec fn sub_template_read(
    m: clap::ArgMatches,
    r: Result<TemplateCommand, ParseError>,
) -> bool {
    template_read_vals(sub_string(m, "name"@), sub_string(m, "path"@), r)
}

/// The `cargo` reader's contract, restated over the parent matches' named
/// sub-contents.
pub open spec fn sub_cargo_read(m: clap::ArgMatches, r: Result<CargoCommand, ParseError>) -> bool {
    cargo_read_vals(sub_values(m, "commands"@), r)
}

/// What the whole parse returns when the parent matches hold the subcommand
/// `name`: for each known name, exactly that subcommand's reader result on the
/// parent's named sub-contents; for any other name, the unknown-subcommand
/// error.
pub open spec fn sub_dispatch_read(
    name: Seq<char>,
    m: clap::ArgMatches,
    r: Result<CrglCommand, ParseError>,
) -> bool {
    if name == "new"@ {
        match r {
            Ok(c) => c matches CrglCommand::New(x) && sub_new_read(m, Ok(x)),
            Err(e) => sub_new_read(m, Err::<NewCommand, ParseError>(e)),
        }
    } else if name == "add"@ {
        match r {
            Ok(c) => c matches CrglCommand::Add(x) && sub_add_read(m, Ok(x)),
            Err(e) => sub_add_read(m, Err::<AddCommand, ParseError>(e)),
        }
    } else if name == "init"@ {
        match r {
            Ok(c) => c matches CrglCommand::Init(x) && sub_init_read(m, Ok(x)),
            Err(e) => sub_init_read(m, Err::<InitCommand, ParseError>(e)),
        }
    } else if name == "template"@ {
        match r {
            Ok(c) => c matches CrglCommand::Template(x) && sub_template_read(m, Ok(x)),
            Err(e) => sub_template_read(m, Err::<TemplateCommand, ParseError>(e)),
        }
    } else if name == "cargo"@ {
        match r {
            Ok(c) => c matches CrglCommand::Cargo(x) && sub_cargo_read(m, Ok(x)),
            Err(e) => sub_cargo_read(m, Err::<CargoCommand, ParseError>(e)),
        }
    } else {
        r == Err::<CrglCommand, ParseError>(ParseError::UnknownSubcommand)
    }
}

impl TemplateCommand {
    /// Read the `template` record out of its matches; both values are required
    /// by the schema, so a missing one is rejected.
    pub fn parse_args(matches: &clap::ArgMatches) -> (r: Result<TemplateCommand, ParseError>)
        ensures
            template_read(*matches, r),
    {
        let name = string_value(matches, "name");
        let path = string_value(matches, "path");
        match (name, path) {
            (Some(n), Some(p)) => Ok(TemplateCommand { name: n, path: p }),
            _ => Err(ParseError::MissingValue),
        }
    }
}

impl CargoCommand {
    /// Read the `cargo` passthrough record out of its matches, the command
    /// values carried over in order.
    pub fn parse_args(matches: &clap::ArgMatches) -> (r: Result<CargoCommand, ParseError>)
        ensures
            cargo_read(*matches, r),
    {
        match many_values(matches, "commands") {
            Some(commands) => Ok(CargoCommand { commands }),
            None => Err(ParseError::MissingValue),
        }
    }
}

impl NewCommand {
    /// Read the `new` record out of its matches, every field from the matches'
    /// contents with the stated defaults applied.
    pub fn parse_args(matches: &clap::ArgMatches) -> (r: Result<NewCommand, ParseError>)
        ensures
            new_read(*matches, r),
    {
        let name = match string_value(matches, "name") {
            Some(n) => n,
            None => {
                return Err(ParseError::MissingValue);
            },
        };
        let template = string_value(matches, "template");
        let path = string_value(matches, "path");
        let git = string_value(matches, "git");
        let bin = crate::record::apply_flag_default(flag_value(matches, "bin"), false);
        let lib = crate::record::apply_flag_default(flag_value(matches, "lib"), false);
        let edition = string_value(matches, "edition");
        let quiet = crate::record::apply_flag_default(flag_value(matches, "quiet"), false);
        NewCommand::from_parts(name, template, path, git, bin, lib, edition, quiet)
    }
}

impl AddCommand {
    /// Read the `add` record out of its matches, every field from the matches'
    /// contents.
    pub fn parse_args(matches: &clap::ArgMatches) -> (r: Result<AddCommand, ParseError>)
        ensures
            add_read(*matches, r),
    {
        let name = match string_value(matches, "name") {
            Some(n) => n,
            None => {
                return Err(ParseError::MissingValue);
            },
        };
        let version = string_value(matches, "version");
        let features = string_value(matches, "features");
        Ok(AddCommand { name, version, features })
    }
}

impl InitCommand {
    /// Read the `init` record out of its matches, every field from the
    /// matches' contents with the stated defaults applied; nothing of `init`
    /// is required, so this cannot fail.
    pub fn parse_args(matches: &clap::ArgMatches) -> (r: Result<InitCommand, ParseError>)
        ensures
            init_read(*matches, r),
    {
        let path = string_value(matches, "path");
        let git = flag_value(matches, "git");
        let bin = crate::record::apply_flag_default(flag_value(matches, "bin"), false);
        let lib = crate::record::apply_flag_default(flag_value(matches, "lib"), false);
        let edition = string_value(matches, "edition");
        let quiet = crate::record::apply_flag_default(flag_value(matches, "quiet"), false);
        Ok(InitCommand::from_parts(path, git, bin, lib, edition, quiet))
    }
}

impl CrglCommand {
    /// Dispatch on the chosen subcommand's name: a known name goes to that
    /// subcommand's reader and returns exactly its result; an unknown one is
    /// rejected outright — never a silent no-op.
    pub fn from_subcommand(name: &String, sub: &clap::ArgMatches) -> (r: Result<
        CrglCommand,
        ParseError,
    >)
        ensures
            dispatch_read(name@, *sub, r),
            !known_subcommand(name@) ==> r == Err::<CrglCommand, ParseError>(
                ParseError::UnknownSubcommand,
            ),
            r matches Ok(c) ==> known_subcommand(name@) && dispatched(name@, c),
    {
        if name_is(name, "new") {
            match NewCommand::parse_args(sub) {
                Ok(c) => Ok(CrglCommand::New(c)),
                Err(e) => Err(e),
            }
        } else if name_is(name, "add") {
            match AddCommand::parse_args(sub) {
                Ok(c) => Ok(CrglCommand::Add(c)),
                Err(e) => Err(e),
            }
        } else if name_is(name, "init") {
            match InitCommand::parse_args(sub) {
                Ok(c) => Ok(CrglCommand::Init(c)),
                Err(e) => Err(e),
            }
        } else if name_is(name, "template") {
            match TemplateCommand::parse_args(sub) {
                Ok(c) => Ok(CrglCommand::Template(c)),
                Err(e) => Err(e),
            }
        } else if name_is(name, "cargo") {
            match CargoCommand::parse_args(sub) {
                Ok(c) => Ok(CrglCommand::Cargo(c)),
                Err(e) => Err(e),
            }
        } else {
            Err(ParseError::UnknownSubcommand)
        }
    }

    /// Read the whole parsed command line: the absence of a subcommand is
    /// rejected as such, and a present subcommand name — known or not — hands
    /// back exactly its dispatch result over the matches' named sub-contents.
    pub fn parse_args(matches: &clap::ArgMatches) -> (r: Result<CrglCommand, ParseError>)
        ensures
            matched_subcommand(*matches) is None <==> r == Err::<CrglCommand, ParseError>(
                ParseError::MissingSubcommand,
            ),
            matched_subcommand(*matches) matches Some(name) ==> sub_dispatch_read(
                name,
                *matches,
                r,
            ),
            r matches Ok(c) ==> (matched_subcommand(*matches) matches Some(name)
                && known_subcommand(name) && dispatched(name, c)),
    {
        match subcommand_of(matches) {
            None => Err(ParseError::MissingSubcommand),
            Some((name, sub)) => {
                let r = CrglCommand::from_subcommand(&name, sub);
                proof {
                    assert(matched_string(*sub, "name"@) == sub_string(*matches, "name"@));
                    assert(matched_string(*sub, "template"@) == sub_string(*matches, "template"@));
                    assert(matched_string(*sub, "path"@) == sub_string(*matches, "path"@));
                    assert(matched_string(*sub, "git"@) == sub_string(*matches, "git"@));
                    assert(matched_string(*sub, "version"@) == sub_string(*matches, "version"@));
                    assert(matched_string(*sub, "features"@) == sub_string(*matches, "features"@));
                    assert(matched_string(*sub, "edition"@) == sub_string(*matches, "edition"@));
                    assert(matched_flag(*sub, "git"@) == sub_flag(*matches, "git"@));
                    assert(matched_flag(*sub, "bin"@) == sub_flag(*matches, "bin"@));
                    assert(matched_flag(*sub, "lib"@) == sub_flag(*matches, "lib"@));
                    assert(matched_flag(*sub, "quiet"@) == sub_flag(*matches, "quiet"@));
                    assert(matched_values(*sub, "commands"@) == sub_values(*matches, "commands"@));
                }
                r
            },
        }
    }
}

} // verus!
