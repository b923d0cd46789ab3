//! The options that the command line takes, as a `getopts` table, and what
//! `getopts` makes of a command line with it.

use vstd::prelude::*;

verus! {

/// `getopts::Options`, the option table of `getopts`. Nothing of its inside
/// is seen here: what it holds goes by the names [`option_groups`] and
/// [`default_style`].
#[verifier::external_type_specification]
#[verifier::external_body]
pub struct ExOptions(getopts::Options);

/// `getopts::Matches`, a command line as `getopts` has sorted it. Nothing of
/// its inside is seen here: what it holds goes by the names
/// [`matched_values`] and [`free_arguments`].
#[verifier::external_type_specification]
#[verifier::external_body]
pub struct ExMatches(getopts::Matches);

/// Whether an option takes a value.
pub enum HasArg {
    /// It must have one.
    Yes,
    /// It takes none.
    No,
    /// It may have one.
    Maybe,
}

/// How often an option may be given.
pub enum Occur {
    /// Once, and it must be.
    Req,
    /// Once at most.
    Optional,
    /// Any number of times.
    Multi,
}

/// One entry of an option table: an option under its short name, its long
/// name or both.
pub struct OptGroup {
    /// One character for `-c`, or empty.
    pub short_name: Seq<char>,
    /// Two characters or more for `--name`, or empty.
    pub long_name: Seq<char>,
    /// What the usage text shows in place of the value.
    pub hint: Seq<char>,
    /// What the usage text says of the option.
    pub desc: Seq<char>,
    /// Whether the option takes a value.
    pub hasarg: HasArg,
    /// How often the option may be given.
    pub occur: Occur,
}

/// An option without a value that may be given once.
pub open spec fn flag_group(short_name: Seq<char>, long_name: Seq<char>, desc: Seq<char>) -> OptGroup {
    OptGroup {
        short_name,
        long_name,
        hint: Seq::<char>::empty(),
        desc,
        hasarg: HasArg::No,
        occur: Occur::Optional,
    }
}

/// An option with a value that may be given once.
pub open spec fn single_group(
    short_name: Seq<char>,
    long_name: Seq<char>,
    desc: Seq<char>,
    hint: Seq<char>,
) -> OptGroup {
    OptGroup { short_name, long_name, hint, desc, hasarg: HasArg::Yes, occur: Occur::Optional }
}

/// An option with a value that may be given any number of times.
pub open spec fn multi_group(
    short_name: Seq<char>,
    long_name: Seq<char>,
    desc: Seq<char>,
    hint: Seq<char>,
) -> OptGroup {
    OptGroup { short_name, long_name, hint, desc, hasarg: HasArg::Yes, occur: Occur::Multi }
}

/// The names that `getopts` accepts for an entry: a short name of one
/// printable ASCII character or none, a long name of two characters or more
/// or none, and at least one of the two.
pub open spec fn valid_names(short_name: Seq<char>, long_name: Seq<char>) -> bool {
    &&& short_name.len() == 0 || (short_name.len() == 1 && '!' <= short_name[0] <= '~')
    &&& long_name.len() != 1
    &&& short_name.len() + long_name.len() > 0
}

/// Whether `name` is the short or the long name of an entry of `groups`.
pub open spec fn names_option(groups: Seq<OptGroup>, name: Seq<char>) -> bool {
    name.len() > 0 && exists|i: int|
        0 <= i < groups.len() && ((#[trigger] groups[i]).short_name == name || groups[i].long_name
            == name)
}

/// The entries of an option table, in the order in which they were added.
pub uninterp spec fn option_groups(options: getopts::Options) -> Seq<OptGroup>;

/// Whether a table parses in the style of a fresh one: options and free
/// arguments may mix, and a long option takes two dashes.
pub uninterp spec fn default_style(options: getopts::Options) -> bool;

/// `getopts::Options::new`: a table without entries, in the default style.
#[verifier::external_body]
pub(crate) fn new_options() -> (options: getopts::Options)
    ensures
        option_groups(options) == Seq::<OptGroup>::empty(),
        default_style(options),
{
    getopts::Options::new()
}

/// `getopts::Options::optflag`: appends an entry for an option without a
/// value that may be given once. It panics on names that are not valid.
#[verifier::external_body]
pub(crate) fn optflag(options: &mut getopts::Options, short_name: &str, long_name: &str, desc: &str)
    requires
        valid_names(short_name@, long_name@),
    ensures
        option_groups(*final(options)) == option_groups(*old(options)).push(
            flag_group(short_name@, long_name@, desc@),
        ),
        default_style(*final(options)) == default_style(*old(options)),
{
    options.optflag(short_name, long_name, desc);
}

/// `getopts::Options::optopt`: appends an entry for an option with a value
/// that may be given once. It panics on names that are not valid.
#[verifier::external_body]
pub(crate) fn optopt(
    options: &mut getopts::Options,
    short_name: &str,
    long_name: &str,
    desc: &str,
    hint: &str,
)
    requires
        valid_names(short_name@, long_name@),
    ensures
        option_groups(*final(options)) == option_groups(*old(options)).push(
            single_group(short_name@, long_name@, desc@, hint@),
        ),
        default_style(*final(options)) == default_style(*old(options)),
{
    options.optopt(short_name, long_name, desc, hint);
}

/// `getopts::Options::optmulti`: appends an entry for an option with a value
/// that may be given any number of times. It panics on names that are not
/// valid.
#[verifier::external_body]
pub(crate) fn optmulti(
    options: &mut getopts::Options,
    short_name: &str,
    long_name: &str,
    desc: &str,
    hint: &str,
)
    requires
        valid_names(short_name@, long_name@),
    ensures
        option_groups(*final(options)) == option_groups(*old(options)).push(
            multi_group(short_name@, long_name@, desc@, hint@),
        ),
        default_style(*final(options)) == default_style(*old(options)),
{
    options.optmulti(short_name, long_name, desc, hint);
}

/// The options of the command line.
pub open spec fn schema() -> Seq<OptGroup> {
    seq![
        flag_group("h"@, "help"@, "Display this message"@),
        single_group(""@, "chamber"@, "The name of the crate link to as `std`"@, "CHAMBER"@),
        multi_group("L"@, ""@, "Add a directory to the library search path"@, "PATH"@),
        multi_group(
            ""@,
            "crate-type"@,
            "Comma separated list of types of crates\n                                    for the compiler to emit"@,
            "[bin|lib|rlib|dylib|staticlib]"@,
        ),
        single_group("o"@, ""@, "Write output to <filename>"@, "FILENAME"@),
        single_group(
            ""@,
            "out-dir"@,
            "Write output to compiler-chosen filename in <dir>"@,
            "DIR"@,
        ),
        single_group(""@, "sysroot"@, "Override the system root"@, "PATH"@),
    ]
}

/// Builds the table of the options that the command line takes.
pub fn optgroups() -> (options: getopts::Options)
    ensures
        option_groups(options) == schema(),
        default_style(options),
{
    proof {
        reveal_strlit("h");
        reveal_strlit("help");
        reveal_strlit("");
        reveal_strlit("chamber");
        reveal_strlit("L");
        reveal_strlit("crate-type");
        reveal_strlit("o");
        reveal_strlit("out-dir");
        reveal_strlit("sysroot");
    }
    let mut options = new_options();
    optflag(&mut options, "h", "help", "Display this message");
    optopt(&mut options, "", "chamber", "The name of the crate link to as `std`", "CHAMBER");
    optmulti(&mut options, "L", "", "Add a directory to the library search path", "PATH");
    optmulti(
        &mut options,
        "",
        "crate-type",
        "Comma separated list of types of crates\n                                    for the compiler to emit",
        "[bin|lib|rlib|dylib|staticlib]",
    );
    optopt(&mut options, "o", "", "Write output to <filename>", "FILENAME");
    optopt(
        &mut options,
        "",
        "out-dir",
        "Write output to compiler-chosen filename in <dir>",
        "DIR",
    );
    optopt(&mut options, "", "sysroot", "Override the system root", "PATH");
    proof {
        assert(option_groups(options) =~= schema());
    }
    options
}

/// Why `getopts` rejected a command line. Each reason carries the name of
/// the option at fault, without its dashes.
#[derive(Clone, Debug, PartialEq, Eq)]
pub enum Fail {
    /// The option takes a value and none followed.
    ArgumentMissing(String),
    /// The table has no such option.
    UnrecognizedOption(String),
    /// The option must be given and was not.
    OptionMissing(String),
    /// The option was given twice and may be given once.
    OptionDuplicated(String),
    /// The option takes no value and was given one.
    UnexpectedArgument(String),
}

/// The mathematical value of a [`Fail`].
pub enum FailView {
    ArgumentMissing(Seq<char>),
    UnrecognizedOption(Seq<char>),
    OptionMissing(Seq<char>),
    OptionDuplicated(Seq<char>),
    UnexpectedArgument(Seq<char>),
}

impl View for Fail {
    type V = FailView;

    open spec fn view(&self) -> FailView {
        match self {
            Fail::ArgumentMissing(name) => FailView::ArgumentMissing(name@),
            Fail::UnrecognizedOption(name) => FailView::UnrecognizedOption(name@),
            Fail::OptionMissing(name) => FailView::OptionMissing(name@),
            Fail::OptionDuplicated(name) => FailView::OptionDuplicated(name@),
            Fail::UnexpectedArgument(name) => FailView::UnexpectedArgument(name@),
        }
    }
}

/// The sentence that tells the user of a failure.
pub open spec fn failure_message(fail: FailView) -> Seq<char> {
    match fail {
        FailView::ArgumentMissing(name) => "Argument to option '"@ + name + "' missing"@,
        FailView::UnrecognizedOption(name) => "Unrecognized option: '"@ + name + "'"@,
        FailView::OptionMissing(name) => "Required option '"@ + name + "' missing"@,
        FailView::OptionDuplicated(name) => "Option '"@ + name + "' given more than once"@,
        FailView::UnexpectedArgument(name) => "Option '"@ + name
            + "' does not take an argument"@,
    }
}

/// `<getopts::Fail as Display>::fmt`, by way of `to_string`: the sentence for
/// a failure, which quotes the name of the option.
#[verifier::external_body]
pub(crate) fn fail_to_string(fail: &Fail) -> (message: String)
    ensures
        message@ == failure_message(fail@),
{
    let fail = match fail {
        Fail::ArgumentMissing(name) => getopts::Fail::ArgumentMissing(name.clone()),
        Fail::UnrecognizedOption(name) => getopts::Fail::UnrecognizedOption(name.clone()),
        Fail::OptionMissing(name) => getopts::Fail::OptionMissing(name.clone()),
        Fail::OptionDuplicated(name) => getopts::Fail::OptionDuplicated(name.clone()),
        Fail::UnexpectedArgument(name) => getopts::Fail::UnexpectedArgument(name.clone()),
    };
    fail.to_string()
}

impl Fail {
    /// The sentence that tells the user of the failure.
    pub fn message(&self) -> (message: String)
        ensures
            message@ == failure_message(self@),
    {
        fail_to_string(self)
    }
}

/// What a command line holds once `getopts` has sorted it.
pub struct Parsed {
    /// For each name of an option of the table, short or long, the
    /// occurrences of that option in order: the value given with it, or
    /// `None` where it stood alone.
    pub values: Map<Seq<char>, Seq<Option<Seq<char>>>>,
    /// The arguments that belong to no option, in order.
    pub free: Seq<Seq<char>>,
}

/// The occurrences of the options in a parsed command line, by option name.
pub uninterp spec fn matched_values(matches: getopts::Matches) -> Map<
    Seq<char>,
    Seq<Option<Seq<char>>>,
>;

/// The free arguments of a parsed command line.
pub uninterp spec fn free_arguments(matches: getopts::Matches) -> Seq<Seq<char>>;

/// What `getopts` makes of the arguments `args` with a table of the entries
/// `groups` in the default style.
pub uninterp spec fn getopts_outcome(groups: Seq<OptGroup>, args: Seq<Seq<char>>) -> Result<
    Parsed,
    FailView,
>;

/// The values among the occurrences of an option, in order.
pub open spec fn given_values(occurrences: Seq<Option<Seq<char>>>) -> Seq<Seq<char>>
    decreases occurrences.len(),
{
    if occurrences.len() == 0 {
        Seq::<Seq<char>>::empty()
    } else {
        let before = given_values(occurrences.drop_last());
        match occurrences.last() {
            Some(value) => before.push(value),
            None => before,
        }
    }
}

/// The value of the first occurrence of an option, if it has one.
pub open spec fn first_value(occurrences: Seq<Option<Seq<char>>>) -> Option<Seq<char>> {
    if occurrences.len() == 0 {
        None
    } else {
        occurrences[0]
    }
}

/// Whether every entry of `groups` has names that `getopts` accepts.
pub open spec fn valid_groups(groups: Seq<OptGroup>) -> bool {
    forall|i: int|
        0 <= i < groups.len() ==> valid_names(
            (#[trigger] groups[i]).short_name,
            groups[i].long_name,
        )
}

/// A parsed command line as a plain value: the occurrences of the options
/// and the free arguments.
pub open spec fn parsed_of(matches: getopts::Matches) -> Parsed {
    Parsed { values: matched_values(matches), free: free_arguments(matches) }
}

/// The outcome of a parse as a plain value.
pub open spec fn outcome_view(outcome: Result<getopts::Matches, Fail>) -> Result<Parsed, FailView> {
    match outcome {
        Ok(found) => Ok(parsed_of(found)),
        Err(fail) => Err(fail@),
    }
}

/// Whether the matches answer for every name of the entries `groups`.
pub open spec fn answers_for(matches: getopts::Matches, groups: Seq<OptGroup>) -> bool {
    forall|name: Seq<char>|
        names_option(groups, name) ==> #[trigger] matched_values(matches).dom().contains(name)
}

/// `getopts::Options::parse`: sorts the arguments into options and free
/// arguments, or tells which option is at fault. The outcome is a function
/// of the table's entries and the arguments, and the matches answer for
/// every name of the table. It panics on an entry without a valid name.
#[verifier::external_body]
pub(crate) fn parse(options: &getopts::Options, args: &Vec<String>) -> (outcome: Result<
    getopts::Matches,
    Fail,
>)
    requires
        default_style(*options),
        valid_groups(option_groups(*options)),
    ensures
        getopts_outcome(option_groups(*options), args.deep_view()) == outcome_view(outcome),
        outcome matches Ok(found) ==> answers_for(found, option_groups(*options)),
{
    match options.parse(args) {
        Ok(matches) => Ok(matches),
        Err(getopts::Fail::ArgumentMissing(name)) => Err(Fail::ArgumentMissing(name)),
        Err(getopts::Fail::UnrecognizedOption(name)) => Err(Fail::UnrecognizedOption(name)),
        Err(getopts::Fail::OptionMissing(name)) => Err(Fail::OptionMissing(name)),
        Err(getopts::Fail::OptionDuplicated(name)) => Err(Fail::OptionDuplicated(name)),
        Err(getopts::Fail::UnexpectedArgument(name)) => Err(Fail::UnexpectedArgument(name)),
    }
}

/// `getopts::Matches::opt_present`: whether the option occurred. It panics
/// on a name that the table lacks.
#[verifier::external_body]
pub(crate) fn opt_present(matches: &getopts::Matches, name: &str) -> (present: bool)
    requires
        matched_values(*matches).dom().contains(name@),
    ensures
        present == (matched_values(*matches)[name@].len() > 0),
{
    matches.opt_present(name)
}

/// `getopts::Matches::opt_strs`: the values given with the option, in order.
/// It panics on a name that the table lacks.
#[verifier::external_body]
pub(crate) fn opt_strs(matches: &getopts::Matches, name: &str) -> (values: Vec<String>)
    requires
        matched_values(*matches).dom().contains(name@),
    ensures
        values.deep_view() == given_values(matched_values(*matches)[name@]),
{
    matches.opt_strs(name)
}

/// `getopts::Matches::opt_str`: the value of the option's first occurrence,
/// if it occurred and had one. It panics on a name that the table lacks.
#[verifier::external_body]
pub(crate) fn opt_str(matches: &getopts::Matches, name: &str) -> (value: Option<String>)
    requires
        matched_values(*matches).dom().contains(name@),
    ensures
        value.deep_view() == first_value(matched_values(*matches)[name@]),
{
    matches.opt_str(name)
}

/// The field `free` of `getopts::Matches`: the free arguments, in order.
#[verifier::external_body]
pub(crate) fn free_args(matches: &getopts::Matches) -> (free: Vec<String>)
    ensures
        free.deep_view() == free_arguments(*matches),
{
    matches.free.clone()
}

/// The rows that describe the entries `groups` in a usage text, one entry
/// after the other, joined by line breaks.
pub uninterp spec fn option_rows(groups: Seq<OptGroup>) -> Seq<char>;

/// The usage text for a table of the entries `groups` under the one-line
/// summary `brief`.
pub open spec fn usage_text(brief: Seq<char>, groups: Seq<OptGroup>) -> Seq<char> {
    brief + "\n\nOptions:\n"@ + option_rows(groups) + "\n"@
}

/// `getopts::Options::usage`: the summary, a blank line, the heading
/// `Options:` and the rows of the entries, each on a line of its own or
/// more. It panics on a short name that is not one column wide.
#[verifier::external_body]
pub(crate) fn usage_of(options: &getopts::Options, brief: &str) -> (text: String)
    requires
        default_style(*options),
        valid_groups(option_groups(*options)),
    ensures
        text@ == brief@ + "\n\nOptions:\n"@ + option_rows(option_groups(*options)) + "\n"@,
{
    options.usage(brief)
}

/// The one-line summary that heads the usage text.
pub const USAGE_BRIEF: &'static str = "Usage: chamber [OPTIONS] INPUT";

/// The entries of the command line's table have names that `getopts` accepts.
pub proof fn lemma_schema_valid()
    ensures
        valid_groups(schema()),
{
    reveal_strlit("h");
    reveal_strlit("help");
    reveal_strlit("");
    reveal_strlit("chamber");
    reveal_strlit("L");
    reveal_strlit("crate-type");
    reveal_strlit("o");
    reveal_strlit("out-dir");
    reveal_strlit("sysroot");
}

/// The usage text of the command line: the summary, then one row for each
/// option of the table.
pub fn usage() -> (text: String)
    ensures
        text@ == usage_text(USAGE_BRIEF@, schema()),
{
    let options = optgroups();
    proof {
        lemma_schema_valid();
    }
    usage_of(&options, USAGE_BRIEF)
}

} // verus!
