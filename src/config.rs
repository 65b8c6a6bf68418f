//! Settings from the command line, and how a project file's `[tool.xc]` table fills
//! in what the command line left unset.

use vstd::prelude::*;

verus! {

/// How test results should be reported
#[derive(Debug, Clone, Copy, PartialEq, Eq)]
pub enum OutputFormat {
    /// The standard output format to the terminal
    Standard,
    /// Output each test as a JSON object on a new line
    Json,
}

/// Coverage settings
#[derive(Debug, Clone)]
pub struct CoverageSettings {
    /// Enable line coverage gathering and reporting
    pub enabled: bool,
    /// List of paths, used to determine files to report coverage for
    pub paths: Vec<String>,
    /// List of paths, used to omit files and/or directories from coverage reporting
    pub exclude: Vec<String>,
}

/// The settings of one run
#[derive(Debug, Clone)]
pub struct Settings {
    /// List of files or directories to test
    pub paths: Vec<String>,
    /// List of files or directories to exclude from testing
    pub exclude: Vec<String>,
    pub coverage: CoverageSettings,
    /// Don't stop executing tests after one has failed
    pub no_fail_fast: bool,
    /// How test results should be reported
    pub output: OutputFormat,
}

/// The `[tool.xc]` table of a project file; every key is optional
#[derive(Debug, Clone)]
pub struct XCSettings {
    pub paths: Option<Vec<String>>,
    pub exclude: Option<Vec<String>>,
    pub no_fail_fast: Option<bool>,
    pub coverage: Option<bool>,
    pub coverage_paths: Option<Vec<String>>,
    pub coverage_exclude: Option<Vec<String>>,
}

/// A list from the command line, replaced by the file's list only when it is empty.
pub open spec fn fill_list(cli: Vec<String>, file: Option<Vec<String>>) -> Vec<String> {
    match file {
        Some(l) => if cli@.len() == 0 {
            l
        } else {
            cli
        },
        None => cli,
    }
}

/// A flag from the command line, set by the file only when it is not set already.
pub open spec fn fill_flag(cli: bool, file: Option<bool>) -> bool {
    match file {
        Some(b) => cli || b,
        None => cli,
    }
}

/// The settings once the file's table has filled in what the command line left unset.
pub open spec fn updated(s: Settings, c: XCSettings) -> Settings {
    Settings {
        paths: fill_list(s.paths, c.paths),
        exclude: fill_list(s.exclude, c.exclude),
        coverage: CoverageSettings {
            enabled: fill_flag(s.coverage.enabled, c.coverage),
            paths: fill_list(s.coverage.paths, c.coverage_paths),
            exclude: fill_list(s.coverage.exclude, c.coverage_exclude),
        },
        no_fail_fast: fill_flag(s.no_fail_fast, c.no_fail_fast),
        output: s.output,
    }
}

fn fill_list_exec(cli: &mut Vec<String>, file: Option<Vec<String>>)
    ensures
        *final(cli) == fill_list(*old(cli), file),
{
    if let Some(l) = file {
        if cli.len() == 0 {
            *cli = l;
        }
    }
}

fn fill_flag_exec(cli: &mut bool, file: Option<bool>)
    ensures
        *final(cli) == fill_flag(*old(cli), file),
{
    if let Some(b) = file {
        if !*cli {
            *cli = b;
        }
    }
}

/// Fill in, from the project file's table, each setting that the command line left unset
pub fn update_settings(settings: &mut Settings, toml_config: XCSettings)
    ensures
        *final(settings) == updated(*old(settings), toml_config),
{
    let XCSettings { paths, exclude, no_fail_fast, coverage, coverage_paths, coverage_exclude } =
        toml_config;
    fill_list_exec(&mut settings.paths, paths);
    fill_list_exec(&mut settings.exclude, exclude);
    fill_flag_exec(&mut settings.no_fail_fast, no_fail_fast);
    fill_flag_exec(&mut settings.coverage.enabled, coverage);
    fill_list_exec(&mut settings.coverage.paths, coverage_paths);
    fill_list_exec(&mut settings.coverage.exclude, coverage_exclude);
}

/// The settings of a run: those of the command line, completed from the project file's
/// table when there is one
pub fn read_settings(cli: Settings, file: Option<XCSettings>) -> (r: Settings)
    ensures
        r == match file {
            Some(c) => updated(cli, c),
            None => cli,
        },
{
    let mut settings = cli;
    if let Some(c) = file {
        update_settings(&mut settings, c);
    }
    settings
}

/// The paths whose files coverage reports on, and those it leaves out: the coverage
/// settings' own lists, or the test paths and exclusions where those are empty
pub fn coverage_targets(settings: &Settings) -> (r: (&Vec<String>, &Vec<String>))
    ensures
        *r.0 == if settings.coverage.paths@.len() == 0 {
            settings.paths
        } else {
            settings.coverage.paths
        },
        *r.1 == if settings.coverage.exclude@.len() == 0 {
            settings.exclude
        } else {
            settings.coverage.exclude
        },
{
    let targets = if settings.coverage.paths.len() == 0 {
        &settings.paths
    } else {
        &settings.coverage.paths
    };
    let exclude = if settings.coverage.exclude.len() == 0 {
        &settings.exclude
    } else {
        &settings.coverage.exclude
    };
    (targets, exclude)
}

} // verus!
