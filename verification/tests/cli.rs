use noted::SearchArguments;
use noted::cli::Cli;
use noted::cli::Verbosity;
use noted::command::Command;

#[test]
fn cli_default_is_the_default_command_with_warnings_only() {
    let cli = Cli::default();
    assert_eq!(Command::Default, cli.command);
    assert_eq!(Verbosity::Warn, cli.verbosity);
}

#[test]
fn verbosity_follows_the_count_of_verbose_flags() {
    assert_eq!(Verbosity::Warn, Cli::verbosity_for(0));
    assert_eq!(Verbosity::Info, Cli::verbosity_for(1));
    assert_eq!(Verbosity::Debug, Cli::verbosity_for(2));
    assert_eq!(Verbosity::Trace, Cli::verbosity_for(3));
    assert_eq!(Verbosity::Trace, Cli::verbosity_for(17));
}

#[test]
fn search_arguments_default_is_the_empty_search() {
    let arguments = SearchArguments::default();
    assert_eq!(
        SearchArguments {
            regex: String::new(),
            tags_only: false,
            file_regex: None,
        },
        arguments
    );
}
