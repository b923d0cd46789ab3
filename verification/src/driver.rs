//! Command-line processing: from the argument vector to a build to run, a
//! request for the usage text, or a parse error.

use crate::config::{merge_config_defaults, with_defaults, Config, ConfigView, DEFAULT_CHAMBER};
use crate::crate_types::{
    all_tokens, crate_types_from_list, lemma_kinds_distinct, parse_crate_types_from_list,
};
use crate::options::{
    failure_message, first_value, free_args, getopts_outcome, given_values, lemma_schema_valid,
    matched_values, names_option, opt_present, opt_str, opt_strs, optgroups, parse, parsed_of,
    schema, usage, usage_text, Parsed, USAGE_BRIEF,
};
use vstd::prelude::*;

verus! {

/// What a command line asks for.
#[derive(Clone, Debug, PartialEq, Eq)]
pub enum ExeMode {
    /// A build, with the configuration as given on the command line.
    Run(Config),
    /// The usage text.
    Help,
    /// Nothing that can be done: the message says what is wrong.
    ParseError(String),
}

/// The mathematical value of an [`ExeMode`].
pub enum ExeModeView {
    Run(ConfigView),
    Help,
    ParseError(Seq<char>),
}

impl View for ExeMode {
    type V = ExeModeView;

    open spec fn view(&self) -> ExeModeView {
        match self {
            ExeMode::Run(config) => ExeModeView::Run(config@),
            ExeMode::Help => ExeModeView::Help,
            ExeMode::ParseError(message) => ExeModeView::ParseError(message@),
        }
    }
}

/// The options of a command line, each with what was given for it.
#[derive(Clone, Debug, PartialEq, Eq)]
pub struct OptionValues {
    /// Whether `-h` or `--help` was given.
    pub help: bool,
    /// The value of `--chamber`.
    pub chamber: Option<String>,
    /// The values of `-L`, in order.
    pub search_paths: Vec<String>,
    /// The values of `--crate-type`, in order, each a comma-separated list.
    pub crate_types: Vec<String>,
    /// The value of `-o`.
    pub out_file: Option<String>,
    /// The value of `--out-dir`.
    pub out_dir: Option<String>,
    /// The value of `--sysroot`.
    pub sysroot: Option<String>,
    /// The free arguments, in order.
    pub free: Vec<String>,
}

/// The mathematical value of an [`OptionValues`].
pub struct OptionValuesView {
    pub help: bool,
    pub chamber: Option<Seq<char>>,
    pub search_paths: Seq<Seq<char>>,
    pub crate_types: Seq<Seq<char>>,
    pub out_file: Option<Seq<char>>,
    pub out_dir: Option<Seq<char>>,
    pub sysroot: Option<Seq<char>>,
    pub free: Seq<Seq<char>>,
}

impl View for OptionValues {
    type V = OptionValuesView;

    open spec fn view(&self) -> OptionValuesView {
        OptionValuesView {
            help: self.help,
            chamber: self.chamber.deep_view(),
            search_paths: self.search_paths.deep_view(),
            crate_types: self.crate_types.deep_view(),
            out_file: self.out_file.deep_view(),
            out_dir: self.out_dir.deep_view(),
            sysroot: self.sysroot.deep_view(),
            free: self.free.deep_view(),
        }
    }
}

/// What a parsed command line gives for each option of the table.
pub open spec fn option_values(parsed: Parsed) -> OptionValuesView {
    OptionValuesView {
        help: parsed.values["h"@].len() > 0 || parsed.values["help"@].len() > 0,
        chamber: first_value(parsed.values["chamber"@]),
        search_paths: given_values(parsed.values["L"@]),
        crate_types: given_values(parsed.values["crate-type"@]),
        out_file: first_value(parsed.values["o"@]),
        out_dir: first_value(parsed.values["out-dir"@]),
        sysroot: first_value(parsed.values["sysroot"@]),
        free: parsed.free,
    }
}

/// What the options of a command line ask for. A request for help comes
/// before everything else; then a kind of output that does not exist is an
/// error; then anything but one free argument, the input file, is answered
/// with the usage text. What is left is a build: the chamber is the one
/// named, or the default one.
pub open spec fn resolved(values: OptionValuesView) -> ExeModeView {
    if values.help {
        ExeModeView::Help
    } else {
        match crate_types_from_list(values.crate_types) {
            Err(message) => ExeModeView::ParseError(message),
            Ok(kinds) => if values.free.len() != 1 {
                ExeModeView::Help
            } else {
                ExeModeView::Run(
                    ConfigView {
                        input_file: values.free[0],
                        chamber_name: match values.chamber {
                            Some(name) => name,
                            None => DEFAULT_CHAMBER@,
                        },
                        crate_types: kinds,
                        search_paths: values.search_paths,
                        out_dir: values.out_dir,
                        out_file: values.out_file,
                        sysroot: values.sysroot,
                    },
                )
            },
        }
    }
}

/// What an argument vector asks for. The first argument is the name of the
/// program; without any other the answer is the usage text. A command line
/// that `getopts` rejects is an error, whatever else it holds.
pub open spec fn classify(args: Seq<Seq<char>>) -> ExeModeView {
    if args.len() <= 1 {
        ExeModeView::Help
    } else {
        match getopts_outcome(schema(), args.skip(1)) {
            Err(fail) => ExeModeView::ParseError(failure_message(fail)),
            Ok(parsed) => resolved(option_values(parsed)),
        }
    }
}

/// Decides what the options of a command line ask for.
pub fn resolve_options(values: OptionValues) -> (mode: ExeMode)
    ensures
        mode@ == resolved(values@),
        values.help ==> mode is Help,
        mode matches ExeMode::Run(config) ==> config.well_formed(),
{
    if values.help {
        return ExeMode::Help;
    }
    let crate_types = match parse_crate_types_from_list(&values.crate_types) {
        Ok(kinds) => kinds,
        Err(message) => {
            return ExeMode::ParseError(message);
        },
    };
    let chamber_name = match values.chamber {
        Some(name) => name,
        None => String::from_str(DEFAULT_CHAMBER),
    };
    if values.free.len() != 1 {
        return ExeMode::Help;
    }
    let input_file = values.free[0].clone();
    ExeMode::Run(
        Config {
            input_file,
            chamber_name,
            crate_types,
            search_paths: values.search_paths,
            out_dir: values.out_dir,
            out_file: values.out_file,
            sysroot: values.sysroot,
        },
    )
}

/// Whether the matches answer for every option of the command line.
pub open spec fn answers_all(matches: getopts::Matches) -> bool {
    let names = matched_values(matches).dom();
    &&& names.contains("h"@)
    &&& names.contains("help"@)
    &&& names.contains("chamber"@)
    &&& names.contains("L"@)
    &&& names.contains("crate-type"@)
    &&& names.contains("o"@)
    &&& names.contains("out-dir"@)
    &&& names.contains("sysroot"@)
}

/// Reads from the matches what was given for each option.
pub(crate) fn read_options(matches: &getopts::Matches) -> (values: OptionValues)
    requires
        answers_all(*matches),
    ensures
        values@ == option_values(parsed_of(*matches)),
{
    OptionValues {
        help: opt_present(matches, "h") || opt_present(matches, "help"),
        chamber: opt_str(matches, "chamber"),
        search_paths: opt_strs(matches, "L"),
        crate_types: opt_strs(matches, "crate-type"),
        out_file: opt_str(matches, "o"),
        out_dir: opt_str(matches, "out-dir"),
        sysroot: opt_str(matches, "sysroot"),
        free: free_args(matches),
    }
}

/// Every name that the command line is read by is a name of its table.
pub proof fn lemma_schema_names()
    ensures
        names_option(schema(), "h"@),
        names_option(schema(), "help"@),
        names_option(schema(), "chamber"@),
        names_option(schema(), "L"@),
        names_option(schema(), "crate-type"@),
        names_option(schema(), "o"@),
        names_option(schema(), "out-dir"@),
        names_option(schema(), "sysroot"@),
{
    reveal_strlit("h");
    reveal_strlit("help");
    reveal_strlit("chamber");
    reveal_strlit("L");
    reveal_strlit("crate-type");
    reveal_strlit("o");
    reveal_strlit("out-dir");
    reveal_strlit("sysroot");
    let groups = schema();
    assert(groups[0].short_name == "h"@);
    assert(groups[0].long_name == "help"@);
    assert(groups[1].long_name == "chamber"@);
    assert(groups[2].short_name == "L"@);
    assert(groups[3].long_name == "crate-type"@);
    assert(groups[4].short_name == "o"@);
    assert(groups[5].long_name == "out-dir"@);
    assert(groups[6].long_name == "sysroot"@);
}

/// Classifies an argument vector, whose first argument is the name of the
/// program: a build to run, a request for the usage text, or a parse error.
pub fn parse_config(mut args: Vec<String>) -> (mode: ExeMode)
    requires
        args@.len() >= 1,
    ensures
        mode@ == classify(args.deep_view()),
        args@.len() == 1 ==> mode is Help,
        mode matches ExeMode::Run(config) ==> config.well_formed(),
{
    let ghost given = args.deep_view();
    let _ = args.remove(0);
    proof {
        assert(args.deep_view() =~= given.skip(1));
    }
    if args.is_empty() {
        return ExeMode::Help;
    }
    let options = optgroups();
    proof {
        lemma_schema_valid();
        lemma_schema_names();
    }
    match parse(&options, &args) {
        Err(fail) => ExeMode::ParseError(fail.message()),
        Ok(matches) => resolve_options(read_options(&matches)),
    }
}

/// The order in which the options decide: help first, then the kinds of
/// output, then the number of free arguments. A build is what is left, with
/// the one free argument as its input file and the search paths as given.
pub proof fn lemma_resolved_cases(values: OptionValuesView)
    ensures
        values.help ==> resolved(values) is Help,
        !values.help && crate_types_from_list(values.crate_types) is Err ==> resolved(
            values,
        ) is ParseError,
        resolved(values) is Run <==> !values.help && crate_types_from_list(
            values.crate_types,
        ) is Ok && values.free.len() == 1,
        resolved(values) matches ExeModeView::Run(config) ==> {
            &&& config.well_formed()
            &&& config.input_file == values.free[0]
            &&& config.search_paths == values.search_paths
        },
{
    lemma_kinds_distinct(all_tokens(values.crate_types));
}

/// An argument vector of the program's name alone asks for the usage text.
pub proof fn lemma_program_name_alone(args: Seq<Seq<char>>)
    ensures
        args.len() <= 1 ==> classify(args) is Help,
{
}

/// A command line that `getopts` rejects is an error even where it asks for
/// help: the help flag is looked for only among options that parsed.
pub proof fn lemma_rejected_is_error(args: Seq<Seq<char>>)
    ensures
        args.len() > 1 && getopts_outcome(schema(), args.skip(1)) is Err ==> classify(
            args,
        ) is ParseError,
{
}

/// The exit code of a run that did what was asked.
pub const EXIT_SUCCESS: i32 = 0;

/// The exit code of a run that failed.
pub const EXIT_FAILURE: i32 = 1;

/// What the program does for a command line.
#[derive(Clone, Debug, PartialEq, Eq)]
pub enum Action {
    /// Hand the configuration, defaults included, to the compiler.
    Build(Config),
    /// Print the usage text to the standard output.
    PrintUsage(String),
    /// Print the line to the diagnostic output.
    PrintError(String),
}

/// The mathematical value of an [`Action`].
pub enum ActionView {
    Build(ConfigView),
    PrintUsage(Seq<char>),
    PrintError(Seq<char>),
}

impl View for Action {
    type V = ActionView;

    open spec fn view(&self) -> ActionView {
        match self {
            Action::Build(config) => ActionView::Build(config@),
            Action::PrintUsage(text) => ActionView::PrintUsage(text@),
            Action::PrintError(line) => ActionView::PrintError(line@),
        }
    }
}

/// The action that answers a command line: a build with the defaults merged
/// in, the usage text, or the error message on a line of its own.
pub open spec fn action_of(mode: ExeModeView) -> ActionView {
    match mode {
        ExeModeView::Run(config) => ActionView::Build(with_defaults(config)),
        ExeModeView::Help => ActionView::PrintUsage(usage_text(USAGE_BRIEF@, schema())),
        ExeModeView::ParseError(message) => ActionView::PrintError("error: "@ + message),
    }
}

/// The exit code after an action: a build exits with success where the
/// compiler succeeded and with failure where it did not; the usage text is a
/// success, an error message a failure.
pub open spec fn exit_code_of(action: ActionView, built: bool) -> i32 {
    match action {
        ActionView::Build(_) => if built {
            EXIT_SUCCESS
        } else {
            EXIT_FAILURE
        },
        ActionView::PrintUsage(_) => EXIT_SUCCESS,
        ActionView::PrintError(_) => EXIT_FAILURE,
    }
}

impl Action {
    /// Decides what to do for a classified command line.
    pub fn for_mode(mode: ExeMode) -> (action: Action)
        ensures
            action@ == action_of(mode@),
            action matches Action::Build(config) ==> config@.sysroot is Some
                && config.well_formed() == mode->Run_0.well_formed(),
    {
        match mode {
            ExeMode::Run(config) => Action::Build(merge_config_defaults(config)),
            ExeMode::Help => Action::PrintUsage(usage()),
            ExeMode::ParseError(message) => Action::PrintError(
                String::from_str("error: ").concat(message.as_str()),
            ),
        }
    }

    /// The exit code of the program once the action is done. `built` tells
    /// whether the compiler succeeded, and counts for a build only.
    pub fn exit_code(&self, built: bool) -> (code: i32)
        ensures
            code == exit_code_of(self@, built),
    {
        match self {
            Action::Build(_) => if built {
                EXIT_SUCCESS
            } else {
                EXIT_FAILURE
            },
            Action::PrintUsage(_) => EXIT_SUCCESS,
            Action::PrintError(_) => EXIT_FAILURE,
        }
    }
}

} // verus!
