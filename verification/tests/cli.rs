use crgl::args::{ArgManager, FlagKind};
use crgl::cli::command;
use crgl::record::{apply_flag_default, parse_bool_value, AddCommand, CargoCommand, CrglCommand,
    InitCommand, NewCommand, ParseError, TemplateCommand};
use crgl::translate::{external_program, ExecPlan};

fn s(x: &str) -> String {
    x.to_string()
}

#[test]
fn shorthand_is_first_character_when_free() {
    let mut am = ArgManager::new();
    assert_eq!(am.add_short("bin"), 'b');
    assert_eq!(am.add_short("lib"), 'l');
    assert_eq!(am.add_short("edition"), 'e');
    assert_eq!(am.shorts, vec!['b', 'l', 'e']);
}

#[test]
fn shorthand_moves_to_next_free_character() {
    let mut am = ArgManager::new();
    assert_eq!(am.add_short("path"), 'p');
    assert_eq!(am.add_short("port"), 'o');
    assert_eq!(am.add_short("pool"), 'l');
}

#[test]
fn shorthand_falls_back_to_first_character_when_exhausted() {
    let mut am = ArgManager::new();
    assert_eq!(am.add_short("ab"), 'a');
    assert_eq!(am.add_short("ba"), 'b');
    assert_eq!(am.add_short("ab"), 'a');
    assert_eq!(am.shorts, vec!['a', 'b']);
}

#[test]
fn bool_flag_records_stated_default() {
    let mut am = ArgManager::new();
    let f = am.form_bool_arg("quiet", false, "Print no output");
    assert_eq!(f.name, "quiet");
    assert_eq!(f.short, Some('q'));
    assert!(!f.required);
    assert_eq!(f.help, "Print no output");
    assert_eq!(f.default, Some(false));
    assert!(matches!(f.kind, FlagKind::Switch));
}

#[test]
fn absent_bool_flag_yields_stated_default() {
    assert!(apply_flag_default(None, true));
    assert!(!apply_flag_default(None, false));
    assert!(apply_flag_default(Some(true), false));
    assert_eq!(parse_bool_value(&None, true), Ok(true));
    assert_eq!(parse_bool_value(&None, false), Ok(false));
    assert_eq!(parse_bool_value(&Some(s("true")), false), Ok(true));
    assert_eq!(parse_bool_value(&Some(s("false")), true), Ok(false));
    assert_eq!(parse_bool_value(&Some(s("maybe")), true), Err(ParseError::InvalidBoolValue));
}

#[test]
fn new_golden_argument_list() {
    let rec = NewCommand::from_parts(
        s("myapp"),
        None,
        None,
        None,
        false,
        true,
        Some(s("2024")),
        false,
    )
    .unwrap();
    assert!(rec.git);
    assert_eq!(
        rec.to_args(),
        vec![s("new"), s("--edition"), s("2024"), s("--lib"), s("myapp")]
    );
}

#[test]
fn new_with_every_value_given() {
    let rec = NewCommand::from_parts(
        s("app"),
        Some(s("tpl")),
        Some(s("dir")),
        Some(s("true")),
        true,
        false,
        Some(s("2021")),
        true,
    )
    .unwrap();
    assert_eq!(
        rec.to_args(),
        vec![
            s("new"),
            s("--template"),
            s("tpl"),
            s("--path"),
            s("dir"),
            s("--edition"),
            s("2021"),
            s("--bin"),
            s("--quiet"),
            s("app")
        ]
    );
}

#[test]
fn new_git_false_emits_no_version_control() {
    let rec =
        NewCommand::from_parts(s("x"), None, None, Some(s("false")), false, false, None, false)
            .unwrap();
    assert!(!rec.git);
    assert_eq!(rec.to_args(), vec![s("new"), s("--vcs"), s("none"), s("x")]);
}

#[test]
fn new_rejects_a_bad_git_value() {
    let r = NewCommand::from_parts(s("x"), None, None, Some(s("yes")), false, false, None, false);
    assert!(matches!(r, Err(ParseError::InvalidBoolValue)));
}

#[test]
fn add_golden_argument_list() {
    let rec = AddCommand { name: s("serde"), version: None, features: Some(s("derive")) };
    assert_eq!(rec.to_args(), vec![s("add"), s("--features"), s("derive"), s("serde")]);
}

#[test]
fn init_absent_git_emits_no_version_control() {
    let rec = InitCommand::from_parts(None, None, false, true, None, false);
    assert!(!rec.git);
    assert_eq!(rec.to_args(), vec![s("init"), s("--vcs"), s("none"), s("--lib")]);
}

#[test]
fn init_with_git_emits_no_vcs_tokens() {
    let rec = InitCommand::from_parts(Some(s("here")), Some(true), false, false, None, false);
    assert!(rec.git);
    assert_eq!(rec.to_args(), vec![s("init"), s("here")]);
}

#[test]
fn cargo_record_passes_commands_unchanged() {
    let rec = CargoCommand { commands: vec![s("run"), s("fast")] };
    assert_eq!(rec.to_args(), vec![s("run"), s("fast")]);
}

#[test]
fn external_tool_is_cargo() {
    assert_eq!(external_program(), s("cargo"));
}

#[test]
fn unknown_subcommand_is_a_usage_error() {
    let r = command().try_get_matches_from(vec!["crgl", "frobnicate"]);
    assert!(r.is_err());
}

#[test]
fn unknown_subcommand_is_rejected_by_dispatch() {
    let cmd = clap::Command::new("crgl").subcommand(clap::Command::new("mystery"));
    let m = cmd.try_get_matches_from(vec!["crgl", "mystery"]).unwrap();
    assert!(matches!(
        CrglCommand::parse_args(&m),
        Err(ParseError::UnknownSubcommand)
    ));
}

#[test]
fn missing_subcommand_is_rejected() {
    let m = command().try_get_matches_from(vec!["crgl"]).unwrap();
    assert!(matches!(
        CrglCommand::parse_args(&m),
        Err(ParseError::MissingSubcommand)
    ));
}

#[test]
fn template_missing_values_are_rejected() {
    let cmd = clap::Command::new("crgl").subcommand(clap::Command::new("template"));
    let m = cmd.try_get_matches_from(vec!["crgl", "template"]).unwrap();
    match m.subcommand() {
        Some((_, sub)) => {
            assert!(matches!(
                TemplateCommand::parse_args(sub),
                Err(ParseError::MissingValue)
            ));
        }
        None => panic!("the template subcommand was given"),
    }
}

#[test]
fn end_to_end_new() {
    let m = command()
        .try_get_matches_from(vec!["crgl", "new", "myapp", "--lib", "--edition", "2024"])
        .unwrap();
    let c = CrglCommand::parse_args(&m).unwrap();
    match c.plan() {
        ExecPlan::Invoke(args) => {
            assert_eq!(args, vec![s("new"), s("--edition"), s("2024"), s("--lib"), s("myapp")]);
        }
        ExecPlan::Describe(_) => panic!("new must invoke the external tool"),
    }
}

#[test]
fn end_to_end_new_git_false() {
    let m = command()
        .try_get_matches_from(vec!["crgl", "new", "myapp", "--git", "false"])
        .unwrap();
    let c = CrglCommand::parse_args(&m).unwrap();
    match c.plan() {
        ExecPlan::Invoke(args) => {
            assert_eq!(args, vec![s("new"), s("--vcs"), s("none"), s("myapp")]);
        }
        ExecPlan::Describe(_) => panic!("new must invoke the external tool"),
    }
}

#[test]
fn end_to_end_init_defaults() {
    let m = command().try_get_matches_from(vec!["crgl", "init", "--lib"]).unwrap();
    let c = CrglCommand::parse_args(&m).unwrap();
    match c.plan() {
        ExecPlan::Invoke(args) => {
            assert_eq!(args, vec![s("init"), s("--vcs"), s("none"), s("--lib")]);
        }
        ExecPlan::Describe(_) => panic!("init must invoke the external tool"),
    }
}

#[test]
fn end_to_end_init_with_git() {
    let m = command().try_get_matches_from(vec!["crgl", "init", "--git"]).unwrap();
    let c = CrglCommand::parse_args(&m).unwrap();
    match c.plan() {
        ExecPlan::Invoke(args) => assert_eq!(args, vec![s("init")]),
        ExecPlan::Describe(_) => panic!("init must invoke the external tool"),
    }
}

#[test]
fn end_to_end_cargo_passthrough() {
    let m = command().try_get_matches_from(vec!["crgl", "cargo", "build"]).unwrap();
    let c = CrglCommand::parse_args(&m).unwrap();
    match c.plan() {
        ExecPlan::Invoke(args) => assert_eq!(args, vec![s("build")]),
        ExecPlan::Describe(_) => panic!("cargo must invoke the external tool"),
    }
}

#[test]
fn end_to_end_template_describes() {
    let m = command()
        .try_get_matches_from(vec!["crgl", "template", "--name", "web", "--path", "tpl"])
        .unwrap();
    let c = CrglCommand::parse_args(&m).unwrap();
    match c.plan() {
        ExecPlan::Invoke(_) => panic!("template performs no invocation"),
        ExecPlan::Describe(t) => {
            assert_eq!(t.name, "web");
            assert_eq!(t.path, "tpl");
        }
    }
}

#[test]
fn assigned_shorthands_reach_the_parser() {
    let m = command()
        .try_get_matches_from(vec!["crgl", "template", "-n", "web", "-p", "tpl"])
        .unwrap();
    let c = CrglCommand::parse_args(&m).unwrap();
    match c.plan() {
        ExecPlan::Invoke(_) => panic!("template performs no invocation"),
        ExecPlan::Describe(t) => {
            assert_eq!(t.name, "web");
            assert_eq!(t.path, "tpl");
        }
    }
}

#[test]
fn required_template_values_enforced_by_parser() {
    let r = command().try_get_matches_from(vec!["crgl", "template", "--name", "web"]);
    assert!(r.is_err());
}
