use chamber::config::Config;
use chamber::crate_types::CrateType;
use chamber::driver::{
    parse_config, resolve_options, Action, ExeMode, OptionValues, EXIT_FAILURE, EXIT_SUCCESS,
};
use chamber::options::usage;

fn args(words: &[&str]) -> Vec<String> {
    words.iter().map(|word| word.to_string()).collect()
}

fn config_for(input: &str) -> Config {
    Config {
        input_file: input.to_string(),
        chamber_name: "rcr_baseline".to_string(),
        crate_types: Vec::new(),
        search_paths: Vec::new(),
        out_dir: None,
        out_file: None,
        sysroot: None,
    }
}

fn no_options() -> OptionValues {
    OptionValues {
        help: false,
        chamber: None,
        search_paths: Vec::new(),
        crate_types: Vec::new(),
        out_file: None,
        out_dir: None,
        sysroot: None,
        free: Vec::new(),
    }
}

#[test]
fn program_name_alone_asks_for_help() {
    assert_eq!(parse_config(args(&["prog"])), ExeMode::Help);
    assert_eq!(parse_config(args(&[""])), ExeMode::Help);
    assert_eq!(parse_config(args(&["--bogus"])), ExeMode::Help);
}

#[test]
fn chamber_and_input_file() {
    let mut expected = config_for("input.rs");
    expected.chamber_name = "foo".to_string();
    assert_eq!(
        parse_config(args(&["prog", "--chamber", "foo", "input.rs"])),
        ExeMode::Run(expected)
    );
}

#[test]
fn input_file_alone_takes_the_default_chamber() {
    assert_eq!(parse_config(args(&["prog", "input.rs"])), ExeMode::Run(config_for("input.rs")));
}

#[test]
fn search_paths_keep_their_order() {
    let mut expected = config_for("input.rs");
    expected.search_paths = args(&["a", "b"]);
    assert_eq!(
        parse_config(args(&["prog", "-L", "a", "-L", "b", "input.rs"])),
        ExeMode::Run(expected)
    );
}

#[test]
fn search_paths_may_repeat_and_stick_to_the_flag() {
    let mut expected = config_for("input.rs");
    expected.search_paths = args(&["b", "a", "b", "/usr/lib"]);
    assert_eq!(
        parse_config(args(&["prog", "-L", "b", "input.rs", "-L", "a", "-L", "b", "-L/usr/lib"])),
        ExeMode::Run(expected)
    );
}

#[test]
fn unknown_crate_type_is_an_error() {
    assert_eq!(
        parse_config(args(&["prog", "--crate-type", "bogus", "input.rs"])),
        ExeMode::ParseError("unknown crate type: `bogus`".to_string())
    );
}

#[test]
fn unknown_crate_type_comes_before_the_missing_input() {
    assert_eq!(
        parse_config(args(&["prog", "--crate-type", "bin,bogus,worse"])),
        ExeMode::ParseError("unknown crate type: `bogus`".to_string())
    );
}

#[test]
fn two_free_arguments_ask_for_help() {
    assert_eq!(parse_config(args(&["prog", "input.rs", "extra.rs"])), ExeMode::Help);
}

#[test]
fn options_without_input_ask_for_help() {
    assert_eq!(parse_config(args(&["prog", "-L", "a", "--chamber", "foo"])), ExeMode::Help);
}

#[test]
fn help_flag_asks_for_help() {
    assert_eq!(parse_config(args(&["prog", "-h"])), ExeMode::Help);
    assert_eq!(parse_config(args(&["prog", "--help"])), ExeMode::Help);
    assert_eq!(parse_config(args(&["prog", "input.rs", "-h"])), ExeMode::Help);
}

#[test]
fn help_flag_comes_before_an_unknown_crate_type() {
    assert_eq!(
        parse_config(args(&["prog", "--crate-type", "bogus", "--help", "input.rs"])),
        ExeMode::Help
    );
}

#[test]
fn malformed_flag_beside_help_is_an_error() {
    assert_eq!(
        parse_config(args(&["prog", "-h", "--badflag"])),
        ExeMode::ParseError("Unrecognized option: 'badflag'".to_string())
    );
}

#[test]
fn unknown_short_option_is_an_error() {
    assert_eq!(
        parse_config(args(&["prog", "-x", "input.rs"])),
        ExeMode::ParseError("Unrecognized option: 'x'".to_string())
    );
}

#[test]
fn option_without_its_value_is_an_error() {
    assert_eq!(
        parse_config(args(&["prog", "input.rs", "-o"])),
        ExeMode::ParseError("Argument to option 'o' missing".to_string())
    );
}

#[test]
fn single_option_given_twice_is_an_error() {
    assert_eq!(
        parse_config(args(&["prog", "--sysroot", "a", "--sysroot", "b", "input.rs"])),
        ExeMode::ParseError("Option 'sysroot' given more than once".to_string())
    );
}

#[test]
fn value_for_the_help_flag_is_an_error() {
    assert_eq!(
        parse_config(args(&["prog", "--help=yes", "input.rs"])),
        ExeMode::ParseError("Option 'help' does not take an argument".to_string())
    );
}

#[test]
fn every_option_reaches_the_configuration() {
    let expected = Config {
        input_file: "main.rs".to_string(),
        chamber_name: "tiny".to_string(),
        crate_types: vec![CrateType::Rlib, CrateType::Executable],
        search_paths: args(&["deps"]),
        out_dir: Some("out".to_string()),
        out_file: Some("main".to_string()),
        sysroot: Some("/opt/rust".to_string()),
    };
    assert_eq!(
        parse_config(args(&[
            "prog",
            "--out-dir=out",
            "-o",
            "main",
            "--sysroot",
            "/opt/rust",
            "--crate-type",
            "lib,bin",
            "main.rs",
            "--chamber",
            "tiny",
            "-Ldeps",
            "--crate-type",
            "rlib",
        ])),
        ExeMode::Run(expected)
    );
}

#[test]
fn double_dash_ends_the_options() {
    assert_eq!(parse_config(args(&["prog", "--", "-h"])), ExeMode::Run(config_for("-h")));
}

#[test]
fn resolve_builds_the_configuration() {
    let mut values = no_options();
    values.chamber = Some("foo".to_string());
    values.search_paths = args(&["a", "b", "a"]);
    values.crate_types = args(&["bin,dylib", "staticlib"]);
    values.out_file = Some("x".to_string());
    values.free = args(&["input.rs"]);
    let expected = Config {
        input_file: "input.rs".to_string(),
        chamber_name: "foo".to_string(),
        crate_types: vec![CrateType::Executable, CrateType::Dylib, CrateType::Staticlib],
        search_paths: args(&["a", "b", "a"]),
        out_dir: None,
        out_file: Some("x".to_string()),
        sysroot: None,
    };
    assert_eq!(resolve_options(values), ExeMode::Run(expected));
}

#[test]
fn resolve_puts_help_first() {
    let mut values = no_options();
    values.help = true;
    values.crate_types = args(&["bogus"]);
    values.free = args(&["input.rs"]);
    assert_eq!(resolve_options(values), ExeMode::Help);
}

#[test]
fn resolve_quotes_the_first_unknown_kind() {
    let mut values = no_options();
    values.crate_types = args(&["bin", "rlib,,dylib", "bogus"]);
    assert_eq!(
        resolve_options(values),
        ExeMode::ParseError("unknown crate type: ``".to_string())
    );
}

#[test]
fn resolve_wants_one_free_argument() {
    assert_eq!(resolve_options(no_options()), ExeMode::Help);
    let mut values = no_options();
    values.free = args(&["a.rs", "b.rs", "c.rs"]);
    assert_eq!(resolve_options(values), ExeMode::Help);
    let mut values = no_options();
    values.free = args(&["a.rs"]);
    assert_eq!(resolve_options(values), ExeMode::Run(config_for("a.rs")));
}

#[test]
fn build_gets_the_defaults() {
    let mut given = config_for("input.rs");
    given.search_paths = args(&["a"]);
    let mut expected = config_for("input.rs");
    expected.search_paths = args(&["a", ".", "./target", "./target/deps"]);
    expected.sysroot = Some("/usr/local".to_string());
    assert_eq!(Action::for_mode(ExeMode::Run(given)), Action::Build(expected));
}

#[test]
fn help_prints_the_usage_text() {
    assert_eq!(Action::for_mode(ExeMode::Help), Action::PrintUsage(usage()));
}

#[test]
fn error_is_printed_on_a_line_that_says_so() {
    assert_eq!(
        Action::for_mode(ExeMode::ParseError("unknown crate type: `bogus`".to_string())),
        Action::PrintError("error: unknown crate type: `bogus`".to_string())
    );
}

#[test]
fn command_line_to_action() {
    assert_eq!(
        Action::for_mode(parse_config(args(&["prog", "-x"]))),
        Action::PrintError("error: Unrecognized option: 'x'".to_string())
    );
    assert_eq!(Action::for_mode(parse_config(args(&["prog"]))), Action::PrintUsage(usage()));
}

#[test]
fn exit_codes_follow_the_action() {
    assert_eq!(EXIT_SUCCESS, 0);
    assert_eq!(EXIT_FAILURE, 1);
    let build = Action::Build(config_for("input.rs"));
    assert_eq!(build.exit_code(true), 0);
    assert_eq!(build.exit_code(false), 1);
    let usage_text = Action::PrintUsage("Usage".to_string());
    assert_eq!(usage_text.exit_code(true), 0);
    assert_eq!(usage_text.exit_code(false), 0);
    let error = Action::PrintError("error: x".to_string());
    assert_eq!(error.exit_code(true), 1);
    assert_eq!(error.exit_code(false), 1);
}
