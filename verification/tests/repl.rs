use rocksdb_cli::cli_processor::CliProcessor;
use rocksdb_cli::db::DBHelper;
use rocksdb_cli::grammar::{parse_command, ParseErrorKind};
use rocksdb_cli::repl::{EditError, Outcome, Repl, ReplCommandProcessor, ReplState, Turn};

fn processor() -> CliProcessor {
    CliProcessor::new(DBHelper::new("/tmp/store", vec!["default".to_string()]))
}

fn line(text: &str) -> Result<String, EditError> {
    Ok(text.to_string())
}

#[test]
fn new_repl_prompts_with_the_loaded_history() {
    let repl = Repl::new(vec!["list".to_string()]);
    assert_eq!(repl.state, ReplState::Prompting);
    assert_eq!(repl.history, vec!["list"]);
    assert!(!repl.is_finished());
}

#[test]
fn quit_tokens_leave_without_dispatch_or_history() {
    for token in ["quit", "exit", "QUIT", "Exit", "  quit  ", "exit now", "'quit'"] {
        let mut repl = Repl::new(Vec::new());
        let turn = repl.process_command(&processor(), line(token));
        assert_eq!(turn, Turn::Leave, "for {:?}", token);
        assert_eq!(repl.state, ReplState::Terminated);
        assert!(repl.history.is_empty());
        assert!(repl.is_finished());
    }
}

#[test]
fn a_command_line_is_recorded_and_dispatched() {
    let mut repl = Repl::new(vec!["old".to_string()]);
    let turn = repl.process_command(&processor(), line("GET \"my key\" --json"));
    assert_eq!(
        turn,
        Turn::Dispatch {
            argv: vec!["get".to_string(), "get".to_string(), "my key".to_string(), "--json".to_string()]
        }
    );
    assert_eq!(repl.state, ReplState::Dispatching);
    assert_eq!(repl.history, vec!["old", "GET \"my key\" --json"]);
}

#[test]
fn the_head_is_lowered_and_the_other_words_are_not() {
    let mut repl = Repl::new(Vec::new());
    let turn = repl.process_command(&processor(), line("Use USERS"));
    assert_eq!(turn, Turn::Dispatch { argv: vec!["use".to_string(), "use".to_string(), "USERS".to_string()] });
}

#[test]
fn empty_input_reprompts_without_history() {
    for text in ["", "   ", "\t", "# comment", "\"\"", "'' list"] {
        let mut repl = Repl::new(Vec::new());
        assert_eq!(repl.process_command(&processor(), line(text)), Turn::Again, "for {:?}", text);
        assert_eq!(repl.state, ReplState::Prompting);
        assert!(repl.history.is_empty());
    }
}

#[test]
fn unterminated_quote_is_reported_and_reprompts() {
    let mut repl = Repl::new(Vec::new());
    let turn = repl.process_command(&processor(), line("get \"abc"));
    assert_eq!(turn, Turn::Complain { message: "missing closing quote".to_string() });
    assert_eq!(repl.state, ReplState::Prompting);
    assert!(repl.history.is_empty());
}

#[test]
fn interrupt_and_end_of_input_leave() {
    let mut repl = Repl::new(vec!["a".to_string()]);
    assert_eq!(repl.process_command(&processor(), Err(EditError::Interrupted)), Turn::Leave);
    assert_eq!(repl.state, ReplState::Terminated);
    assert_eq!(repl.history, vec!["a"]);
    let mut repl = Repl::new(Vec::new());
    assert_eq!(repl.process_command(&processor(), Err(EditError::EndOfInput)), Turn::Leave);
    assert_eq!(repl.state, ReplState::Terminated);
}

#[test]
fn other_edit_errors_are_reported_and_reprompt() {
    let mut repl = Repl::new(Vec::new());
    let turn = repl.process_command(&processor(), Err(EditError::Other("io".to_string())));
    assert_eq!(turn, Turn::Complain { message: "io".to_string() });
    assert_eq!(repl.state, ReplState::Prompting);
    assert!(!repl.is_finished());
}

#[test]
fn unknown_single_word_is_rejected_and_the_prompt_returns() {
    let mut repl = Repl::new(Vec::new());
    let turn = repl.process_command(&processor(), line("bogus"));
    let argv = match turn {
        Turn::Dispatch { argv } => argv,
        other => panic!("not dispatched: {:?}", other),
    };
    assert_eq!(argv, vec!["bogus", "bogus"]);
    let why = parse_command(&argv).unwrap_err();
    assert_eq!(why.kind, ParseErrorKind::UnknownCommand);
    assert_eq!(why.word, "bogus");
    assert_eq!(repl.finish_command(Outcome::Rejected), Turn::Again);
    assert_eq!(repl.state, ReplState::Prompting);
    assert_eq!(repl.process_command(&processor(), line("list")), Turn::Dispatch {
        argv: vec!["list".to_string(), "list".to_string()]
    });
}

#[test]
fn a_done_command_leads_back_to_the_prompt() {
    let mut repl = Repl::new(Vec::new());
    repl.process_command(&processor(), line("list"));
    assert_eq!(repl.finish_command(Outcome::Done), Turn::Again);
    assert_eq!(repl.state, ReplState::Prompting);
    assert_eq!(repl.history, vec!["list"]);
}

#[test]
fn a_failed_command_stops_the_loop() {
    let mut repl = Repl::new(Vec::new());
    repl.process_command(&processor(), line("get k"));
    assert_eq!(repl.finish_command(Outcome::Failed), Turn::Abort);
    assert_eq!(repl.state, ReplState::Failed);
    assert!(repl.is_finished());
    assert_eq!(repl.process_command(&processor(), line("list")), Turn::Abort);
    assert_eq!(repl.finish_command(Outcome::Done), Turn::Abort);
    assert_eq!(repl.history, vec!["get k"]);
}

#[test]
fn an_ended_loop_stays_ended() {
    let mut repl = Repl::new(Vec::new());
    repl.process_command(&processor(), line("quit"));
    assert_eq!(repl.process_command(&processor(), line("list")), Turn::Leave);
    assert_eq!(repl.finish_command(Outcome::Failed), Turn::Leave);
    assert_eq!(repl.state, ReplState::Terminated);
    assert!(repl.history.is_empty());
}

#[test]
fn input_during_a_dispatch_changes_nothing() {
    let mut repl = Repl::new(Vec::new());
    repl.process_command(&processor(), line("list"));
    let before = repl.clone();
    assert_eq!(repl.process_command(&processor(), line("quit")), Turn::Again);
    assert_eq!(repl, before);
}

#[test]
fn outcome_without_a_dispatch_changes_nothing() {
    let mut repl = Repl::new(Vec::new());
    assert_eq!(repl.finish_command(Outcome::Failed), Turn::Again);
    assert_eq!(repl.state, ReplState::Prompting);
}

#[test]
fn processor_quits_on_the_two_words_only() {
    let p = processor();
    assert!(p.is_quit("quit"));
    assert!(p.is_quit("exit"));
    assert!(!p.is_quit("Quit"));
    assert!(!p.is_quit("q"));
    assert!(!p.is_quit(""));
    assert!(!p.is_quit("exit "));
}

#[test]
fn prompt_shows_the_active_column_family() {
    let p = processor();
    assert_eq!(p.get_prompt(), "[default] >>");
    let p = CliProcessor::new(DBHelper::new("p", vec![" \tspaced out\u{a0}\n".to_string()]));
    assert_eq!(p.get_prompt(), "[spaced out] >>");
    let p = CliProcessor::new(DBHelper::new("p", Vec::new()));
    assert_eq!(p.get_prompt(), "[] >>");
}

#[test]
fn take_words_decides_by_the_head() {
    let words = |list: &[&str]| -> Vec<String> { list.iter().map(|w| w.to_string()).collect() };
    let mut repl = Repl::new(Vec::new());
    assert_eq!(
        repl.take_words(&processor(), "Get K".to_string(), words(&["Get", "K"]), "get".to_string()),
        Turn::Dispatch { argv: words(&["get", "get", "K"]) }
    );
    assert_eq!(repl.history, vec!["Get K"]);
    assert_eq!(repl.state, ReplState::Dispatching);

    let mut repl = Repl::new(Vec::new());
    assert_eq!(
        repl.take_words(&processor(), "x".to_string(), words(&["x"]), "".to_string()),
        Turn::Again
    );
    assert!(repl.history.is_empty());
    assert_eq!(
        repl.take_words(&processor(), "quit".to_string(), words(&["quit", "now"]), "quit".to_string()),
        Turn::Leave
    );
    assert!(repl.history.is_empty());
    assert_eq!(repl.state, ReplState::Terminated);

    let mut repl = Repl::new(Vec::new());
    assert_eq!(
        repl.take_words(&processor(), "".to_string(), Vec::new(), "list".to_string()),
        Turn::Dispatch { argv: words(&["list", "list"]) }
    );
}
