use vstd::prelude::*;

use crate::text::{matching_lines, search_lines};

verus! {

/// The command line of the search tool, with the case flag that the environment sets
/// (`IGNORE_CASE`).
#[derive(Debug)]
pub struct Config {
    pattern: String,
    file_path: String,
    ignore_case: bool,
}

impl Config {
    /// The pattern to search for.
    pub closed spec fn pattern_view(&self) -> Seq<char> {
        self.pattern@
    }

    /// The path of the file to search.
    pub closed spec fn file_path_view(&self) -> Seq<char> {
        self.file_path@
    }

    /// Whether the environment asked for a case-insensitive search.
    pub closed spec fn ignore_case_view(&self) -> bool {
        self.ignore_case
    }

    /// Builds the configuration from the command-line arguments (`args[1]` the pattern,
    /// `args[2]` the file path) and from whether `IGNORE_CASE` is set in the environment.
    pub fn new(args: &[String], ignore_case: bool) -> (r: Result<Config, &'static str>)
        ensures
            match r {
                Ok(config) => {
                    &&& args.len() >= 3
                    &&& config.pattern_view() == args@[1]@
                    &&& config.file_path_view() == args@[2]@
                    &&& config.ignore_case_view() == ignore_case
                },
                Err(e) => args.len() < 3 && e@ == "not enough arguments"@,
            },
    {
        if args.len() < 2 + 1 {
            return Err("not enough arguments");
        }
        let pattern = args[1].clone();
        let file_path = args[2].clone();
        Ok(Config { pattern, file_path, ignore_case })
    }

    /// Builds the configuration by consuming the command-line arguments in order: the
    /// first (the program name) is skipped, the next is the pattern, the one after it the
    /// file path. Each missing argument has its own error.
    pub fn build(args: Vec<String>, ignore_case: bool) -> (r: Result<Config, &'static str>)
        ensures
            match r {
                Ok(config) => {
                    &&& args.len() >= 3
                    &&& config.pattern_view() == args@[1]@
                    &&& config.file_path_view() == args@[2]@
                    &&& config.ignore_case_view() == ignore_case
                },
                Err(e) => {
                    &&& args.len() < 2 ==> e@ == "Didn't get a query string"@
                    &&& args.len() == 2 ==> e@ == "Didn't get a file path"@
                    &&& args.len() < 3
                },
            },
    {
        let mut args = args;
        if args.len() < 2 {
            return Err("Didn't get a query string");
        }
        if args.len() < 3 {
            return Err("Didn't get a file path");
        }
        let file_path = args.swap_remove(2);
        let pattern = args.swap_remove(1);
        Ok(Config { pattern, file_path, ignore_case })
    }

    /// The pattern to search for.
    pub fn pattern(&self) -> (r: &str)
        ensures
            r@ == self.pattern_view(),
    {
        self.pattern.as_str()
    }

    /// The path of the file to search.
    pub fn file_path(&self) -> (r: &str)
        ensures
            r@ == self.file_path_view(),
    {
        self.file_path.as_str()
    }

    /// Whether the search should ignore case.
    pub fn ignore_case(&self) -> (r: bool)
        ensures
            r == self.ignore_case_view(),
    {
        self.ignore_case
    }
}

/// The lines of `contents` that contain `pattern`, in the order in which they appear.
/// The match is case-sensitive whatever `ignore_case` says: the lines are selected by
/// `contains(pattern)` on the line as it stands.
pub fn search<'a>(pattern: &str, contents: &'a str, ignore_case: &bool) -> (r: Vec<&'a str>)
    ensures
        r@.map_values(|line: &str| line@) == matching_lines(pattern@, contents@),
{
    search_lines(pattern, contents)
}

} // verus!
