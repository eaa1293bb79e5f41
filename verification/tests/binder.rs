use backup::config::cmd_line_parse::{Argument, ArgumentList};
use backup::config::{bind_arguments, get, Config};
use backup::utilities::iterator_list::IteratorList;

fn long(name: &str, dashes: usize) -> Argument {
    Argument::LongOpt(name.to_string(), dashes)
}

fn positional(text: &str) -> Argument {
    Argument::Positional(text.to_string())
}

fn bind(tokens: Vec<Argument>) -> Result<Config, String> {
    bind_arguments(IteratorList::with_vec(tokens))
}

fn raw(args: &[&str]) -> Vec<String> {
    args.iter().map(|arg| arg.to_string()).collect()
}

#[test]
fn new_config_is_empty() {
    let config = Config::new();
    assert_eq!(config.get_filename(), "");
    assert!(!config.should_show_help());
    assert!(!config.should_truncate());
}

#[test]
fn set_filename_changes_only_the_filename() {
    let mut config = bind(vec![Argument::ShortOpt('t'), positional("a.txt")]).unwrap();
    config.set_filename("b.txt".to_string());
    assert_eq!(config.get_filename(), "b.txt");
    assert!(config.should_truncate());
    assert!(!config.should_show_help());
}

#[test]
fn truncate_and_filename_are_bound() {
    let config = bind(vec![Argument::ShortOpt('t'), positional("a.txt")]).unwrap();
    assert!(config.should_truncate());
    assert_eq!(config.get_filename(), "a.txt");
    assert!(!config.should_show_help());
}

#[test]
fn help_suppresses_unknown_option() {
    let config = bind(vec![long("help", 2), Argument::ShortOpt('z')]).unwrap();
    assert!(config.should_show_help());
    assert!(!config.should_truncate());
    assert_eq!(config.get_filename(), "");
}

#[test]
fn help_after_unknown_option_suppresses_it_too() {
    let config = bind(vec![long("bogus", 2), long("help", 2)]).unwrap();
    assert!(config.should_show_help());
}

#[test]
fn help_with_operand_binds_the_operand() {
    let config = bind(vec![positional("a.txt"), long("help", 3), long("truncate", 2)]).unwrap();
    assert!(config.should_show_help());
    assert!(config.should_truncate());
    assert_eq!(config.get_filename(), "a.txt");
}

#[test]
fn unknown_short_option_is_an_error() {
    assert_eq!(bind(vec![Argument::ShortOpt('z')]).unwrap_err(), "invalid option -- z");
}

#[test]
fn unknown_long_option_is_an_error() {
    assert_eq!(bind(vec![long("bogus", 2)]).unwrap_err(), "unrecognized option 'bogus'");
}

#[test]
fn empty_token_sequence_misses_the_operand() {
    assert_eq!(bind(vec![]).unwrap_err(), "missing file operand");
}

#[test]
fn options_without_operand_miss_the_operand() {
    assert_eq!(bind(vec![Argument::ShortOpt('t')]).unwrap_err(), "missing file operand");
    assert_eq!(bind(vec![long("truncate", 2)]).unwrap_err(), "missing file operand");
}

#[test]
fn unknown_option_comes_before_missing_operand() {
    assert_eq!(bind(vec![Argument::ShortOpt('q')]).unwrap_err(), "invalid option -- q");
    assert_eq!(
        bind(vec![positional("a.txt"), long("nope", 4)]).unwrap_err(),
        "unrecognized option 'nope'"
    );
}

#[test]
fn first_unknown_option_is_the_one_reported() {
    let tokens = vec![
        Argument::ShortOpt('t'),
        long("first", 2),
        Argument::ShortOpt('z'),
        long("second", 2),
        positional("a.txt"),
    ];
    assert_eq!(bind(tokens).unwrap_err(), "unrecognized option 'first'");
    let tokens = vec![Argument::ShortOpt('y'), long("first", 2), Argument::ShortOpt('z')];
    assert_eq!(bind(tokens).unwrap_err(), "invalid option -- y");
}

#[test]
fn only_the_first_operand_is_the_filename() {
    let config = bind(vec![positional("a.txt"), positional("b.txt"), positional("c.txt")]).unwrap();
    assert_eq!(config.get_filename(), "a.txt");
    assert!(!config.should_truncate());
}

#[test]
fn long_truncate_with_any_dash_count() {
    let config = bind(vec![long("truncate", 5), positional("a.txt")]).unwrap();
    assert!(config.should_truncate());
    let config = bind(vec![long("help", 7)]).unwrap();
    assert!(config.should_show_help());
}

#[test]
fn short_h_is_not_help() {
    assert_eq!(bind(vec![Argument::ShortOpt('h'), positional("a")]).unwrap_err(), "invalid option -- h");
}

#[test]
fn binding_starts_at_the_cursor() {
    let mut list: ArgumentList = IteratorList::with_vec(vec![Argument::ShortOpt('z'), positional("a.txt")]);
    list.next();
    let config = bind_arguments(list).unwrap();
    assert_eq!(config.get_filename(), "a.txt");
}

#[test]
fn binding_twice_gives_the_same_result() {
    let make = || vec![Argument::ShortOpt('t'), long("bogus", 2), positional("a.txt")];
    assert_eq!(bind(make()).unwrap_err(), bind(make()).unwrap_err());
    let make = || vec![long("truncate", 2), positional("a.txt"), long("help", 2)];
    let first = bind(make()).unwrap();
    let second = bind(make()).unwrap();
    assert_eq!(first.get_filename(), second.get_filename());
    assert_eq!(first.should_show_help(), second.should_show_help());
    assert_eq!(first.should_truncate(), second.should_truncate());
}

#[test]
fn get_tokenizes_and_binds() {
    let config = get(&raw(&["-t", "a.txt"])).unwrap();
    assert!(config.should_truncate());
    assert_eq!(config.get_filename(), "a.txt");
    assert!(!config.should_show_help());

    let config = get(&raw(&["--help", "-z"])).unwrap();
    assert!(config.should_show_help());

    assert_eq!(get(&raw(&["-tz", "a.txt"])).unwrap_err(), "invalid option -- z");
    assert_eq!(get(&raw(&["--bogus"])).unwrap_err(), "unrecognized option 'bogus'");
    assert_eq!(get(&raw(&["---bogus", "a"])).unwrap_err(), "unrecognized option 'bogus'");
    assert_eq!(get(&raw(&[])).unwrap_err(), "missing file operand");
    assert_eq!(get(&raw(&["-", "--"])).unwrap_err(), "missing file operand");
}

#[test]
fn get_ignores_arguments_that_fit_no_shape() {
    let config = get(&raw(&["--dry-run", "a.txt"])).unwrap();
    assert_eq!(config.get_filename(), "a.txt");
    assert!(!config.should_truncate());
}
