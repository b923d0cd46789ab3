//! The build configuration, and the defaults it is completed with.

use crate::crate_types::CrateType;
use vstd::prelude::*;

verus! {

/// The chamber that a build links against when none is named.
pub const DEFAULT_CHAMBER: &'static str = "rcr_baseline";

/// The system root assumed when none is given: the usual place of a toolchain.
pub const DEFAULT_SYSROOT: &'static str = "/usr/local";

/// The current directory, searched so that chambers built in place are found.
pub const CURRENT_DIR: &'static str = ".";

/// The directory into which cargo builds.
pub const TARGET_DIR: &'static str = "./target";

/// The directory into which cargo builds dependencies.
pub const TARGET_DEPS_DIR: &'static str = "./target/deps";

/// A build request.
#[derive(Clone, Debug, PartialEq, Eq)]
pub struct Config {
    /// The source file to build.
    pub input_file: String,
    /// The crate to link against in place of `std`.
    pub chamber_name: String,
    /// The kinds of output asked for, each once; empty to leave the choice
    /// to the compiler.
    pub crate_types: Vec<CrateType>,
    /// The directories searched for dependencies, in order.
    pub search_paths: Vec<String>,
    /// The directory for output under a compiler-chosen name.
    pub out_dir: Option<String>,
    /// The file to write the output to.
    pub out_file: Option<String>,
    /// The root of the toolchain.
    pub sysroot: Option<String>,
}

/// The mathematical value of a [`Config`].
pub struct ConfigView {
    pub input_file: Seq<char>,
    pub chamber_name: Seq<char>,
    pub crate_types: Seq<CrateType>,
    pub search_paths: Seq<Seq<char>>,
    pub out_dir: Option<Seq<char>>,
    pub out_file: Option<Seq<char>>,
    pub sysroot: Option<Seq<char>>,
}

impl View for Config {
    type V = ConfigView;

    open spec fn view(&self) -> ConfigView {
        ConfigView {
            input_file: self.input_file@,
            chamber_name: self.chamber_name@,
            crate_types: self.crate_types@,
            search_paths: self.search_paths.deep_view(),
            out_dir: self.out_dir.deep_view(),
            out_file: self.out_file.deep_view(),
            sysroot: self.sysroot.deep_view(),
        }
    }
}

impl ConfigView {
    /// Whether the kinds of output form a set: none is named twice.
    pub open spec fn well_formed(self) -> bool {
        self.crate_types.no_duplicates()
    }
}

impl Config {
    /// Whether the kinds of output form a set: none is named twice.
    pub open spec fn well_formed(&self) -> bool {
        self@.well_formed()
    }
}

/// The directories appended to every search path, in the order of search.
pub open spec fn convenience_paths() -> Seq<Seq<char>> {
    seq![CURRENT_DIR@, TARGET_DIR@, TARGET_DEPS_DIR@]
}

/// A configuration completed with the defaults: the convenience directories
/// follow the search paths given, and an unset system root becomes the
/// default one.
pub open spec fn with_defaults(config: ConfigView) -> ConfigView {
    ConfigView {
        search_paths: config.search_paths + convenience_paths(),
        sysroot: match config.sysroot {
            Some(root) => Some(root),
            None => Some(DEFAULT_SYSROOT@),
        },
        ..config
    }
}

/// Completes a configuration with the defaults of the environment: appends
/// the convenience directories to the search paths and, where no system root
/// was given, sets the default one. Everything else is kept.
pub fn merge_config_defaults(mut config: Config) -> (merged: Config)
    ensures
        merged@ == with_defaults(config@),
        merged@.search_paths == config@.search_paths + convenience_paths(),
        merged@.sysroot is Some,
        config@.sysroot is Some ==> merged@.sysroot == config@.sysroot,
        merged.well_formed() == config.well_formed(),
{
    let ghost given = config.search_paths.deep_view();
    config.search_paths.push(String::from_str(CURRENT_DIR));
    config.search_paths.push(String::from_str(TARGET_DIR));
    config.search_paths.push(String::from_str(TARGET_DEPS_DIR));
    proof {
        assert(config.search_paths.deep_view() =~= given + convenience_paths());
    }
    if config.sysroot.is_none() {
        config.sysroot = Some(String::from_str(DEFAULT_SYSROOT));
    }
    config
}

/// Completing a configuration twice leaves the system root as the first
/// completion set it: the default never replaces a root that is there.
pub proof fn lemma_sysroot_settled(config: ConfigView)
    ensures
        with_defaults(with_defaults(config)).sysroot == with_defaults(config).sysroot,
        config.sysroot is Some ==> with_defaults(config).sysroot == config.sysroot,
{
}

} // verus!
