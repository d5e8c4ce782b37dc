use rustbook::minigrep::{search, Config};
use rustbook::minigrep_env;

#[test]
fn one_result() {
    let pattern = "duct";
    let contents = "\
Rust:
safe, fast, productive.
Pick three.
";
    assert_eq!(vec!["safe, fast, productive."], search(pattern, contents));
}

#[test]
fn lib_one_result() {
    let pattern = "duct";
    let contents = "\
Rust:
safe, fast, productive.
Pick three.
";
    assert_eq!(
        vec!["safe, fast, productive."],
        minigrep_env::search(pattern, contents, &false)
    );
}

#[test]
fn search_is_case_sensitive_whatever_the_flag() {
    let contents = "Rust:\nsafe, fast, productive.\nTrust me.";
    assert_eq!(vec!["Trust me."], search("rust", contents));
    assert_eq!(vec!["Trust me."], minigrep_env::search("rust", contents, &true));
    assert_eq!(vec!["Trust me."], minigrep_env::search("rust", contents, &false));
    assert_eq!(vec!["Rust:"], search("Rust", contents));
}

#[test]
fn search_with_empty_pattern_gives_every_line_as_lines_does() {
    let samples = [
        "",
        "\n",
        "a",
        "a\n",
        "a\nb",
        "a\r\nb\r\n",
        "a\r",
        "a\rb\n\n\nc",
        "\r\n\r\n",
        "x\n\r\n y \r\r\n",
        "héllo\nwörld\n",
    ];
    for contents in samples {
        let expected: Vec<&str> = contents.lines().collect();
        assert_eq!(expected, search("", contents), "contents {:?}", contents);
    }
}

#[test]
fn search_agrees_with_contains_on_each_line() {
    let contents = "one\ntwo\r\nthree\nfour\r\nonetwo\n\nend\r";
    for pattern in ["o", "one", "two", "\r", "e\r", "", "xyz", "onetwo", "d\r"] {
        let expected: Vec<&str> = contents.lines().filter(|l| l.contains(pattern)).collect();
        assert_eq!(expected, search(pattern, contents), "pattern {:?}", pattern);
    }
}

#[test]
fn search_keeps_repeated_lines_in_order() {
    assert_eq!(vec!["ab", "cab", "ab"], search("ab", "ab\nx\ncab\nab\n"));
}

#[test]
fn config_new_takes_pattern_and_path() {
    let args = vec!["prog".to_string(), "needle".to_string(), "haystack.txt".to_string()];
    let config = Config::new(&args).unwrap();
    assert_eq!(config.pattern(), "needle");
    assert_eq!(config.file_path(), "haystack.txt");
}

#[test]
fn config_new_needs_three_arguments() {
    let args = vec!["prog".to_string(), "needle".to_string()];
    assert_eq!(Config::new(&args).unwrap_err(), "not enough arguments");
    assert_eq!(Config::new(&[]).unwrap_err(), "not enough arguments");
}

#[test]
fn config_new_ignores_extra_arguments() {
    let args: Vec<String> = ["p", "a", "b", "c"].iter().map(|s| s.to_string()).collect();
    let config = Config::new(&args).unwrap();
    assert_eq!(config.pattern(), "a");
    assert_eq!(config.file_path(), "b");
}

#[test]
fn env_config_new_records_the_flag() {
    let args: Vec<String> = ["p", "a", "b"].iter().map(|s| s.to_string()).collect();
    let config = minigrep_env::Config::new(&args, true).unwrap();
    assert_eq!(config.pattern(), "a");
    assert_eq!(config.file_path(), "b");
    assert!(config.ignore_case());
    assert!(!minigrep_env::Config::new(&args, false).unwrap().ignore_case());
    assert_eq!(
        minigrep_env::Config::new(&args[..2], false).unwrap_err(),
        "not enough arguments"
    );
}

#[test]
fn env_config_build_reports_each_missing_argument() {
    let all: Vec<String> = ["p", "a", "b"].iter().map(|s| s.to_string()).collect();
    assert_eq!(
        minigrep_env::Config::build(vec![], false).unwrap_err(),
        "Didn't get a query string"
    );
    assert_eq!(
        minigrep_env::Config::build(all[..1].to_vec(), false).unwrap_err(),
        "Didn't get a query string"
    );
    assert_eq!(
        minigrep_env::Config::build(all[..2].to_vec(), false).unwrap_err(),
        "Didn't get a file path"
    );
    let config = minigrep_env::Config::build(all, true).unwrap();
    assert_eq!(config.pattern(), "a");
    assert_eq!(config.file_path(), "b");
    assert!(config.ignore_case());
}
