use rocksdb_cli::command::DBCommand;
use rocksdb_cli::grammar::{parse_command, usage, ParseError, ParseErrorKind, Parsed};
use rocksdb_cli::number::parse_limit;

fn parse(words: &[&str]) -> Result<Parsed, ParseError> {
    let mut argv: Vec<String> = vec!["shell".to_string()];
    argv.extend(words.iter().map(|w| w.to_string()));
    parse_command(&argv)
}

fn command(words: &[&str]) -> DBCommand {
    match parse(words) {
        Ok(Parsed::Command(command)) => command,
        other => panic!("no command: {:?}", other),
    }
}

fn rejected(words: &[&str]) -> (ParseErrorKind, String) {
    match parse(words) {
        Err(why) => (why.kind, why.word),
        other => panic!("not rejected: {:?}", other),
    }
}

#[test]
fn commands_without_arguments() {
    assert_eq!(command(&["list"]), DBCommand::List);
    assert_eq!(command(&["info"]), DBCommand::Info);
    assert_eq!(command(&["exit"]), DBCommand::Exit);
}

#[test]
fn commands_with_positional_arguments() {
    assert_eq!(command(&["use", "users"]), DBCommand::Use { name: "users".to_string() });
    assert_eq!(command(&["get", "k1"]), DBCommand::Get { key: "k1".to_string(), json: false });
    assert_eq!(command(&["get", "k1", "--json"]), DBCommand::Get { key: "k1".to_string(), json: true });
    assert_eq!(command(&["get", "-j", "k1"]), DBCommand::Get { key: "k1".to_string(), json: true });
    assert_eq!(
        command(&["put", "k", "some value"]),
        DBCommand::Put { key: "k".to_string(), value: "some value".to_string() }
    );
    assert_eq!(command(&["delete", "k"]), DBCommand::Delete { key: "k".to_string() });
}

#[test]
fn keys_has_a_default_limit() {
    assert_eq!(command(&["keys"]), DBCommand::Keys { limit: 10000 });
    assert_eq!(command(&["keys", "--limit", "5"]), DBCommand::Keys { limit: 5 });
    assert_eq!(command(&["keys", "-l", "0"]), DBCommand::Keys { limit: 0 });
}

#[test]
fn contains_key_needs_its_flag() {
    assert_eq!(
        command(&["contains-key", "--key", "k"]),
        DBCommand::ContainsKey { key: "k".to_string() }
    );
    assert_eq!(
        rejected(&["contains-key"]),
        (ParseErrorKind::MissingArgument, "--key".to_string())
    );
    assert_eq!(
        rejected(&["contains-key", "k"]),
        (ParseErrorKind::UnexpectedArgument, "k".to_string())
    );
}

#[test]
fn search_commands_take_all_flags() {
    assert_eq!(
        command(&["search-value", "--value", "X"]),
        DBCommand::SearchValue {
            value: "X".to_string(),
            with_highlight: false,
            limit: 1000,
            all: false,
            output: None
        }
    );
    assert_eq!(
        command(&[
            "search-key", "-k", "us", "--with-highlight", "--limit", "3", "--all", "--output",
            "out.txt"
        ]),
        DBCommand::SearchKey {
            key: "us".to_string(),
            with_highlight: true,
            limit: 3,
            all: true,
            output: Some("out.txt".to_string())
        }
    );
}

#[test]
fn scan_takes_optional_bounds() {
    assert_eq!(
        command(&["scan"]),
        DBCommand::Scan { start: None, end: None, reverse: false, limit: 100, all: false, output: None }
    );
    assert_eq!(
        command(&["scan", "--start", "b", "--end", "e", "--reverse"]),
        DBCommand::Scan {
            start: Some("b".to_string()),
            end: Some("e".to_string()),
            reverse: true,
            limit: 100,
            all: false,
            output: None
        }
    );
    assert_eq!(
        command(&["scan", "-e", "z", "-a", "-o", "dump", "-l", "7", "-s", "a", "-r"]),
        DBCommand::Scan {
            start: Some("a".to_string()),
            end: Some("z".to_string()),
            reverse: true,
            limit: 7,
            all: true,
            output: Some("dump".to_string())
        }
    );
}

#[test]
fn prefix_needs_its_prefix() {
    assert_eq!(
        command(&["prefix", "--prefix", "us", "-w"]),
        DBCommand::Prefix {
            prefix: "us".to_string(),
            with_highlight: true,
            limit: 100,
            all: false,
            output: None
        }
    );
    assert_eq!(rejected(&["prefix"]), (ParseErrorKind::MissingArgument, "--prefix".to_string()));
}

#[test]
fn a_flag_takes_the_next_word_whatever_it_is() {
    assert_eq!(
        command(&["scan", "--start", "--end"]),
        DBCommand::Scan {
            start: Some("--end".to_string()),
            end: None,
            reverse: false,
            limit: 100,
            all: false,
            output: None
        }
    );
}

#[test]
fn double_hyphen_makes_the_rest_positional() {
    assert_eq!(command(&["get", "--", "--json"]), DBCommand::Get { key: "--json".to_string(), json: false });
    assert_eq!(command(&["get", "-"]), DBCommand::Get { key: "-".to_string(), json: false });
}

#[test]
fn help_and_version_are_no_errors() {
    assert_eq!(parse(&["help"]), Ok(Parsed::Help));
    assert_eq!(parse(&["--help"]), Ok(Parsed::Help));
    assert_eq!(parse(&["-h"]), Ok(Parsed::Help));
    assert_eq!(parse(&["scan", "--help"]), Ok(Parsed::Help));
    assert_eq!(parse(&["get", "-h"]), Ok(Parsed::Help));
    assert_eq!(parse(&["--version"]), Ok(Parsed::Version));
    assert_eq!(parse(&["-V"]), Ok(Parsed::Version));
}

#[test]
fn unknown_command_is_rejected() {
    assert_eq!(rejected(&["bogus"]), (ParseErrorKind::UnknownCommand, "bogus".to_string()));
    assert_eq!(rejected(&["LIST"]), (ParseErrorKind::UnknownCommand, "LIST".to_string()));
    assert_eq!(rejected(&[""]), (ParseErrorKind::UnknownCommand, "".to_string()));
}

#[test]
fn missing_command_is_rejected() {
    assert_eq!(
        parse_command(&vec!["shell".to_string()]).unwrap_err().kind,
        ParseErrorKind::MissingArgument
    );
    assert_eq!(parse_command(&Vec::new()).unwrap_err().word, "command");
}

#[test]
fn unknown_flag_is_rejected() {
    assert_eq!(rejected(&["list", "--limit", "3"]), (ParseErrorKind::UnknownFlag, "--limit".to_string()));
    assert_eq!(rejected(&["scan", "--prefix", "a"]), (ParseErrorKind::UnknownFlag, "--prefix".to_string()));
    assert_eq!(rejected(&["scan", "--nothing"]), (ParseErrorKind::UnknownFlag, "--nothing".to_string()));
    assert_eq!(rejected(&["keys", "-x"]), (ParseErrorKind::UnknownFlag, "-x".to_string()));
}

#[test]
fn duplicate_flag_is_rejected() {
    assert_eq!(
        rejected(&["keys", "--limit", "1", "-l", "2"]),
        (ParseErrorKind::DuplicateFlag, "-l".to_string())
    );
    assert_eq!(rejected(&["scan", "-r", "--reverse"]), (ParseErrorKind::DuplicateFlag, "--reverse".to_string()));
}

#[test]
fn flag_without_value_is_rejected() {
    assert_eq!(rejected(&["keys", "--limit"]), (ParseErrorKind::MissingValue, "--limit".to_string()));
    assert_eq!(rejected(&["scan", "--all", "-o"]), (ParseErrorKind::MissingValue, "-o".to_string()));
}

#[test]
fn surplus_and_missing_positionals_are_rejected() {
    assert_eq!(rejected(&["list", "x"]), (ParseErrorKind::UnexpectedArgument, "x".to_string()));
    assert_eq!(rejected(&["get", "a", "b"]), (ParseErrorKind::UnexpectedArgument, "b".to_string()));
    assert_eq!(rejected(&["get"]), (ParseErrorKind::MissingArgument, "key".to_string()));
    assert_eq!(rejected(&["use"]), (ParseErrorKind::MissingArgument, "name".to_string()));
    assert_eq!(rejected(&["put"]), (ParseErrorKind::MissingArgument, "key".to_string()));
    assert_eq!(rejected(&["put", "k"]), (ParseErrorKind::MissingArgument, "value".to_string()));
}

#[test]
fn limit_must_be_a_number_that_fits() {
    assert_eq!(rejected(&["keys", "--limit", "ten"]), (ParseErrorKind::InvalidNumber, "ten".to_string()));
    assert_eq!(rejected(&["keys", "--limit", "-1"]), (ParseErrorKind::InvalidNumber, "-1".to_string()));
    assert_eq!(rejected(&["keys", "--limit", ""]), (ParseErrorKind::InvalidNumber, "".to_string()));
    assert_eq!(rejected(&["keys", "--limit", "1.5"]), (ParseErrorKind::InvalidNumber, "1.5".to_string()));
    let too_large = format!("{}0", usize::MAX);
    assert_eq!(
        rejected(&["scan", "--limit", &too_large]),
        (ParseErrorKind::InvalidNumber, too_large.clone())
    );
    let largest = format!("{}", usize::MAX);
    assert_eq!(command(&["keys", "--limit", &largest]), DBCommand::Keys { limit: usize::MAX });
}

#[test]
fn parse_limit_reads_decimal_numbers() {
    assert_eq!(parse_limit("0"), Some(0));
    assert_eq!(parse_limit("007"), Some(7));
    assert_eq!(parse_limit("+12"), Some(12));
    assert_eq!(parse_limit("10000"), Some(10000));
    assert_eq!(parse_limit(""), None);
    assert_eq!(parse_limit("+"), None);
    assert_eq!(parse_limit("++1"), None);
    assert_eq!(parse_limit("-3"), None);
    assert_eq!(parse_limit("12a"), None);
    assert_eq!(parse_limit(" 1"), None);
    assert_eq!(parse_limit("\u{663}"), None);
    assert_eq!(parse_limit(&format!("{}", usize::MAX)), Some(usize::MAX));
    assert_eq!(parse_limit(&format!("{}", usize::MAX as u128 + 1)), None);
}

#[test]
fn messages_name_the_word() {
    let why = ParseError { kind: ParseErrorKind::UnknownCommand, word: "bogus".to_string() };
    assert_eq!(why.message(), "unrecognized command 'bogus'");
    let why = ParseError { kind: ParseErrorKind::UnknownFlag, word: "--x".to_string() };
    assert_eq!(why.message(), "unexpected flag '--x' found");
    let why = ParseError { kind: ParseErrorKind::DuplicateFlag, word: "-l".to_string() };
    assert_eq!(why.message(), "the flag '-l' cannot be used multiple times");
    let why = ParseError { kind: ParseErrorKind::MissingValue, word: "--limit".to_string() };
    assert_eq!(why.message(), "a value is required for '--limit' but none was supplied");
    let why = ParseError { kind: ParseErrorKind::UnexpectedArgument, word: "x".to_string() };
    assert_eq!(why.message(), "unexpected argument 'x' found");
    let why = ParseError { kind: ParseErrorKind::MissingArgument, word: "key".to_string() };
    assert_eq!(why.message(), "the required argument 'key' was not provided");
    let why = ParseError { kind: ParseErrorKind::InvalidNumber, word: "ten".to_string() };
    assert_eq!(why.message(), "invalid number 'ten' for '--limit'");
}

#[test]
fn usage_lists_every_command() {
    let text = usage();
    for name in [
        "list", "info", "use <name>", "get <key>", "keys", "contains-key", "search-value",
        "search-key", "put <key> <value>", "delete <key>", "scan", "prefix", "exit", "help",
    ] {
        assert!(text.contains(name), "usage lacks {}", name);
    }
}

#[test]
fn a_long_flag_takes_its_value_after_an_equals_sign() {
    assert_eq!(command(&["keys", "--limit=5"]), DBCommand::Keys { limit: 5 });
    assert_eq!(
        command(&["contains-key", "--key=a=b"]),
        DBCommand::ContainsKey { key: "a=b".to_string() }
    );
    assert_eq!(
        command(&["scan", "--start=b", "--end=", "--output=out file"]),
        DBCommand::Scan {
            start: Some("b".to_string()),
            end: Some("".to_string()),
            reverse: false,
            limit: 100,
            all: false,
            output: Some("out file".to_string())
        }
    );
    assert_eq!(rejected(&["keys", "--limit="]), (ParseErrorKind::InvalidNumber, "".to_string()));
    assert_eq!(rejected(&["keys", "--limit=x1"]), (ParseErrorKind::InvalidNumber, "x1".to_string()));
}

#[test]
fn a_switch_takes_no_value() {
    assert_eq!(
        rejected(&["scan", "--all=true"]),
        (ParseErrorKind::UnexpectedValue, "--all=true".to_string())
    );
    assert_eq!(
        rejected(&["get", "k", "--json="]),
        (ParseErrorKind::UnexpectedValue, "--json=".to_string())
    );
    assert_eq!(
        rejected(&["scan", "--nothing=1"]),
        (ParseErrorKind::UnknownFlag, "--nothing=1".to_string())
    );
    assert_eq!(
        rejected(&["scan", "--help=1"]),
        (ParseErrorKind::UnknownFlag, "--help=1".to_string())
    );
}

#[test]
fn a_letter_takes_its_value_from_the_rest_of_the_word() {
    assert_eq!(command(&["keys", "-l5"]), DBCommand::Keys { limit: 5 });
    assert_eq!(command(&["keys", "-l=5"]), DBCommand::Keys { limit: 5 });
    assert_eq!(
        command(&["contains-key", "-kkey"]),
        DBCommand::ContainsKey { key: "key".to_string() }
    );
    assert_eq!(
        command(&["contains-key", "-k==x"]),
        DBCommand::ContainsKey { key: "=x".to_string() }
    );
    assert_eq!(
        command(&["contains-key", "-k="]),
        DBCommand::ContainsKey { key: "".to_string() }
    );
    assert_eq!(rejected(&["keys", "-l5x"]), (ParseErrorKind::InvalidNumber, "5x".to_string()));
}

#[test]
fn letters_may_stand_together_in_one_word() {
    let both = DBCommand::SearchValue {
        value: "X".to_string(),
        with_highlight: true,
        limit: 1000,
        all: true,
        output: None,
    };
    assert_eq!(command(&["search-value", "-wa", "-v", "X"]), both);
    assert_eq!(command(&["search-value", "-awvX"]), both);
    assert_eq!(command(&["search-value", "-wav", "X"]), both);
    assert_eq!(
        command(&["scan", "-ral7", "-sb"]),
        DBCommand::Scan {
            start: Some("b".to_string()),
            end: None,
            reverse: true,
            limit: 7,
            all: true,
            output: None
        }
    );
}

#[test]
fn a_word_of_letters_is_rejected_as_a_whole() {
    assert_eq!(rejected(&["scan", "-ax"]), (ParseErrorKind::UnknownFlag, "-ax".to_string()));
    assert_eq!(rejected(&["scan", "-ap"]), (ParseErrorKind::UnknownFlag, "-ap".to_string()));
    assert_eq!(rejected(&["scan", "-aa"]), (ParseErrorKind::DuplicateFlag, "-aa".to_string()));
    assert_eq!(rejected(&["scan", "-a", "-ra"]), (ParseErrorKind::DuplicateFlag, "-ra".to_string()));
    assert_eq!(rejected(&["scan", "-ao"]), (ParseErrorKind::MissingValue, "-ao".to_string()));
    assert_eq!(rejected(&["scan", "-l1", "--limit=2"]), (ParseErrorKind::DuplicateFlag, "--limit=2".to_string()));
    assert_eq!(parse(&["scan", "-ah"]), Ok(Parsed::Help));
    assert_eq!(parse(&["scan", "-ha"]), Ok(Parsed::Help));
    assert_eq!(rejected(&["scan", "-xh"]), (ParseErrorKind::UnknownFlag, "-xh".to_string()));
}

#[test]
fn an_unexpected_value_has_a_message() {
    let why = ParseError { kind: ParseErrorKind::UnexpectedValue, word: "--all=1".to_string() };
    assert_eq!(why.message(), "unexpected value in '--all=1' for a flag that takes none");
}
