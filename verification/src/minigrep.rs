use vstd::prelude::*;

use crate::text::{matching_lines, search_lines};

verus! {

/// The command line of the search tool: the pattern to look for and the file to read.
#[derive(Debug)]
pub struct Config {
    pattern: String,
    file_path: String,
}

impl Config {
    /// The pattern to search for.
    pub closed spec fn pattern_view(&self) -> Seq<char> {
        self.pattern@
    }

    /// The path of the file to search.
    pub closed spec fn file_path_view(&self) -> Seq<char> {
        self.file_path@
    }

    /// Builds the configuration from the command-line arguments: `args[1]` is the pattern,
    /// `args[2]` the file path (`args[0]` is the program name). Fewer than three arguments
    /// is an error.
    pub fn new(args: &[String]) -> (r: Result<Config, &'static str>)
        ensures
            match r {
                Ok(config) => {
                    &&& args.len() >= 3
                    &&& config.pattern_view() == args@[1]@
                    &&& config.file_path_view() == args@[2]@
                },
                Err(e) => args.len() < 3 && e@ == "not enough arguments"@,
            },
    {
        if args.len() < 2 + 1 {
            return Err("not enough arguments");
        }
        let pattern = args[1].clone();
        let file_path = args[2].clone();
        Ok(Config { pattern, file_path })
    }

    /// The pattern to search for.
    pub fn pattern(&self) -> (r: &str)
        ensures
            r@ == self.pattern_view(),
    {
        self.pattern.as_str()
    }

    /// The path of the file to search.
    pub fn file_path(&self) -> (r: &str)
        ensures
            r@ == self.file_path_view(),
    {
        self.file_path.as_str()
    }
}

/// The lines of `contents` that contain `pattern`, in the order in which they appear.
pub fn search<'a>(pattern: &str, contents: &'a str) -> (r: Vec<&'a str>)
    ensures
        r@.map_values(|line: &str| line@) == matching_lines(pattern@, contents@),
{
    search_lines(pattern, contents)
}

} // verus!
