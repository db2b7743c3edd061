use rocksdb_cli::cli_processor::{
    limited, Action, CliProcessor, Shown, StoreAnswer, StoreRequest,
};
use rocksdb_cli::command::DBCommand;
use rocksdb_cli::db::{DBHelper, DeleteReport, GetReport, Lookup, Pair, StoreError};
use rocksdb_cli::display::StoreProperties;
use rocksdb_cli::repl::ReplCommandProcessor;

fn processor() -> CliProcessor {
    CliProcessor::new(DBHelper::new(
        "/tmp/store",
        vec!["default".to_string(), "users".to_string()],
    ))
}

fn pair(key: &str, value: &str) -> Pair {
    (key.as_bytes().to_vec(), value.as_bytes().to_vec())
}

fn letters() -> Vec<Pair> {
    ["a", "b", "c", "d", "e", "f"].iter().map(|k| pair(k, &k.to_uppercase())).collect()
}

fn scan(limit: usize, all: bool, output: Option<&str>) -> DBCommand {
    DBCommand::Scan {
        start: None,
        end: None,
        reverse: false,
        limit,
        all,
        output: output.map(|s| s.to_string()),
    }
}

fn run(command: DBCommand, answer: StoreAnswer) -> Result<Shown, StoreError> {
    let mut p = processor();
    match p.process_command(command) {
        Action::Ask { family, .. } => assert_eq!(family, "default"),
        other => panic!("no store needed: {:?}", other),
    }
    let shown = p.complete(answer);
    assert_eq!(p.pending, None);
    shown
}

fn table_keys(shown: Result<Shown, StoreError>) -> Vec<String> {
    match shown {
        Ok(Shown::Table(batches)) => batches.into_iter().flatten().map(|r| r.0).collect(),
        other => panic!("no table: {:?}", other),
    }
}

#[test]
fn new_processor_waits_for_nothing() {
    let p = processor();
    assert_eq!(p.pending, None);
    assert_eq!(p.db_helper.current_cf, "default");
}

#[test]
fn list_shows_the_column_families() {
    let mut p = processor();
    assert_eq!(
        p.process_command(DBCommand::List),
        Action::Show(Shown::Families(vec![
            ("default".to_string(), true),
            ("users".to_string(), false)
        ]))
    );
    assert_eq!(p.pending, None);
}

#[test]
fn use_switches_to_a_known_column_family() {
    let mut p = processor();
    assert_eq!(
        p.process_command(DBCommand::Use { name: "users".to_string() }),
        Action::Show(Shown::Switched { name: "users".to_string() })
    );
    assert_eq!(p.db_helper.current_cf, "users");
    assert_eq!(p.handle_list(), vec![("default".to_string(), false), ("users".to_string(), true)]);
}

#[test]
fn use_of_an_unknown_name_changes_nothing() {
    let mut p = processor();
    assert_eq!(
        p.process_command(DBCommand::Use { name: "nope".to_string() }),
        Action::Show(Shown::NotSwitched { name: "nope".to_string() })
    );
    assert_eq!(p.db_helper.current_cf, "default");
    assert!(!p.handle_use("Users".to_string()));
    assert_eq!(p.db_helper.current_cf, "default");
    assert!(p.handle_use("users".to_string()));
    assert_eq!(p.db_helper.current_cf, "users");
}

#[test]
fn exit_is_none_of_the_processors_commands() {
    let mut p = processor();
    assert_eq!(p.process_command(DBCommand::Exit), Action::Show(Shown::Unknown));
    assert_eq!(p.pending, None);
}

#[test]
fn commands_ask_the_store_for_what_they_need() {
    let ask = |command: DBCommand| -> StoreRequest {
        let mut p = processor();
        p.process_command(DBCommand::Use { name: "users".to_string() });
        let action = p.process_command(command.clone());
        assert_eq!(p.pending, Some(command));
        match action {
            Action::Ask { family, request } => {
                assert_eq!(family, "users");
                request
            }
            other => panic!("no request: {:?}", other),
        }
    };
    let all = StoreRequest::Pairs { lower: None, upper: None, reverse: false };
    assert_eq!(
        ask(DBCommand::Get { key: "k\u{e9}".to_string(), json: false }),
        StoreRequest::Lookup { key: vec![b'k', 0xc3, 0xa9] }
    );
    assert_eq!(
        ask(DBCommand::ContainsKey { key: "k".to_string() }),
        StoreRequest::Lookup { key: b"k".to_vec() }
    );
    assert_eq!(
        ask(DBCommand::Put { key: "k".to_string(), value: "v w".to_string() }),
        StoreRequest::Write { key: b"k".to_vec(), value: b"v w".to_vec() }
    );
    assert_eq!(
        ask(DBCommand::Delete { key: "k".to_string() }),
        StoreRequest::Remove { key: b"k".to_vec() }
    );
    assert_eq!(ask(DBCommand::Info), StoreRequest::Properties);
    assert_eq!(ask(DBCommand::Keys { limit: 3 }), all);
    assert_eq!(ask(scan(1, false, None)), all);
    assert_eq!(
        ask(DBCommand::Scan {
            start: Some("b".to_string()),
            end: None,
            reverse: true,
            limit: 1,
            all: false,
            output: None
        }),
        StoreRequest::Pairs { lower: Some(b"b".to_vec()), upper: None, reverse: true }
    );
    assert_eq!(
        ask(DBCommand::Scan {
            start: None,
            end: Some("e".to_string()),
            reverse: false,
            limit: 1,
            all: false,
            output: None
        }),
        StoreRequest::Pairs { lower: None, upper: Some(b"e".to_vec()), reverse: false }
    );
    assert_eq!(
        ask(DBCommand::Prefix {
            prefix: "p".to_string(),
            with_highlight: false,
            limit: 1,
            all: false,
            output: None
        }),
        all
    );
    assert_eq!(
        ask(DBCommand::SearchKey {
            key: "p".to_string(),
            with_highlight: false,
            limit: 1,
            all: false,
            output: None
        }),
        all
    );
    assert_eq!(
        ask(DBCommand::SearchValue {
            value: "p".to_string(),
            with_highlight: false,
            limit: 1,
            all: false,
            output: None
        }),
        all
    );
}

#[test]
fn put_then_get_round_trips_through_a_store() {
    let mut p = processor();
    let mut store: std::collections::BTreeMap<Vec<u8>, Vec<u8>> = std::collections::BTreeMap::new();
    let text = "line\\n \"quoted\" \u{1f600}";
    match p.process_command(DBCommand::Put { key: "k".to_string(), value: text.to_string() }) {
        Action::Ask { request: StoreRequest::Write { key, value }, .. } => {
            store.insert(key, value);
        }
        other => panic!("no write: {:?}", other),
    }
    assert_eq!(
        p.complete(StoreAnswer::Written { done: true }),
        Ok(Shown::Stored { key: "k".to_string(), value: text.to_string() })
    );
    let found = match p.process_command(DBCommand::Get { key: "k".to_string(), json: false }) {
        Action::Ask { request: StoreRequest::Lookup { key }, .. } => match store.get(&key) {
            Some(value) => Lookup::Found(value.clone()),
            None => Lookup::Absent,
        },
        other => panic!("no lookup: {:?}", other),
    };
    assert_eq!(
        p.complete(StoreAnswer::Lookup(found)),
        Ok(Shown::Got(GetReport::Row { key: b"k".to_vec(), value: text.as_bytes().to_vec() }))
    );
}

#[test]
fn get_shows_the_value_or_not_found() {
    let get = DBCommand::Get { key: "k".to_string(), json: false };
    assert_eq!(
        run(get.clone(), StoreAnswer::Lookup(Lookup::Found(b"v".to_vec()))),
        Ok(Shown::Got(GetReport::Row { key: b"k".to_vec(), value: b"v".to_vec() }))
    );
    assert_eq!(run(get.clone(), StoreAnswer::Lookup(Lookup::Absent)), Ok(Shown::Got(GetReport::NotFound)));
    assert_eq!(run(get, StoreAnswer::Lookup(Lookup::Failed)), Err(StoreError));
}

#[test]
fn contains_key_reports_presence() {
    let probe = DBCommand::ContainsKey { key: "k".to_string() };
    assert_eq!(
        run(probe.clone(), StoreAnswer::Lookup(Lookup::Found(Vec::new()))),
        Ok(Shown::Exists { key: "k".to_string(), present: true })
    );
    assert_eq!(
        run(probe, StoreAnswer::Lookup(Lookup::Absent)),
        Ok(Shown::Exists { key: "k".to_string(), present: false })
    );
}

#[test]
fn contains_key_fails_with_the_store() {
    let probe = DBCommand::ContainsKey { key: "k".to_string() };
    assert_eq!(run(probe, StoreAnswer::Lookup(Lookup::Failed)), Err(StoreError));
}

#[test]
fn put_confirms_or_fails_with_the_store() {
    let put = DBCommand::Put { key: "k".to_string(), value: "v".to_string() };
    assert_eq!(
        run(put.clone(), StoreAnswer::Written { done: true }),
        Ok(Shown::Stored { key: "k".to_string(), value: "v".to_string() })
    );
    assert_eq!(run(put, StoreAnswer::Written { done: false }), Err(StoreError));
}

#[test]
fn delete_reports_a_removed_or_an_absent_key() {
    let delete = DBCommand::Delete { key: "k".to_string() };
    assert_eq!(
        run(delete.clone(), StoreAnswer::Removed { present: true, removed: true }),
        Ok(Shown::Removed { key: "k".to_string(), report: DeleteReport::Deleted })
    );
    assert_eq!(
        run(delete, StoreAnswer::Removed { present: false, removed: true }),
        Ok(Shown::Removed { key: "k".to_string(), report: DeleteReport::NotFound })
    );
}

#[test]
fn delete_fails_where_the_store_rejects_it() {
    let delete = DBCommand::Delete { key: "k".to_string() };
    assert_eq!(
        run(delete.clone(), StoreAnswer::Removed { present: true, removed: false }),
        Err(StoreError)
    );
    assert_eq!(
        run(delete, StoreAnswer::Removed { present: false, removed: false }),
        Err(StoreError)
    );
}

#[test]
fn a_store_that_cannot_be_asked_fails_every_command() {
    assert_eq!(run(DBCommand::Delete { key: "k".to_string() }, StoreAnswer::Failed), Err(StoreError));
    assert_eq!(run(DBCommand::Keys { limit: 1 }, StoreAnswer::Failed), Err(StoreError));
    assert_eq!(run(scan(1, true, None), StoreAnswer::Failed), Err(StoreError));
    assert_eq!(run(DBCommand::Info, StoreAnswer::Failed), Err(StoreError));
}

#[test]
fn keys_lists_up_to_the_limit() {
    assert_eq!(
        run(DBCommand::Keys { limit: 2 }, StoreAnswer::Pairs(letters())),
        Ok(Shown::Keys(vec!["a".to_string(), "b".to_string()]))
    );
    assert_eq!(
        run(DBCommand::Keys { limit: 0 }, StoreAnswer::Pairs(letters())),
        Ok(Shown::Keys(Vec::new()))
    );
}

#[test]
fn info_describes_the_store() {
    let properties = StoreProperties {
        creation_time: None,
        version: Some("9".to_string()),
        level0_files: None,
        sst_size: None,
    };
    assert_eq!(
        run(DBCommand::Info, StoreAnswer::Properties(Some(properties))),
        Ok(Shown::Info(vec![
            ("Path".to_string(), "/tmp/store".to_string()),
            ("Current Column Family".to_string(), "default".to_string()),
            ("Version".to_string(), "9".to_string())
        ]))
    );
    assert_eq!(run(DBCommand::Info, StoreAnswer::Properties(None)), Err(StoreError));
}

#[test]
fn limit_is_honoured_exactly() {
    assert_eq!(table_keys(run(scan(0, false, None), StoreAnswer::Pairs(letters()))), Vec::<String>::new());
    assert_eq!(table_keys(run(scan(5, false, None), StoreAnswer::Pairs(letters()))), vec!["a", "b", "c", "d", "e"]);
    assert_eq!(table_keys(run(scan(6, false, None), StoreAnswer::Pairs(letters()))).len(), 6);
    assert_eq!(table_keys(run(scan(7, false, None), StoreAnswer::Pairs(letters()))).len(), 6);
}

#[test]
fn all_overrides_the_limit() {
    assert_eq!(table_keys(run(scan(0, true, None), StoreAnswer::Pairs(letters()))).len(), 6);
    assert_eq!(table_keys(run(scan(2, true, None), StoreAnswer::Pairs(letters()))).len(), 6);
}

#[test]
fn limited_cuts_at_the_limit() {
    assert_eq!(limited(letters(), false, 2), vec![pair("a", "A"), pair("b", "B")]);
    assert_eq!(limited(letters(), false, 6), letters());
    assert_eq!(limited(letters(), false, usize::MAX), letters());
    assert_eq!(limited(letters(), true, 1), letters());
    assert!(limited(letters(), false, 0).is_empty());
    assert!(limited(Vec::new(), false, 3).is_empty());
}

#[test]
fn output_file_gets_lines_and_no_table() {
    assert_eq!(
        run(scan(2, false, Some("out.txt")), StoreAnswer::Pairs(letters())),
        Ok(Shown::File {
            path: "out.txt".to_string(),
            lines: vec!["a: A".to_string(), "b: B".to_string()]
        })
    );
}

#[test]
fn print_or_output_to_file_routes_one_way() {
    let p = processor();
    assert_eq!(
        p.print_or_output_to_file(letters(), true, 0, Some("f")),
        Shown::File {
            path: "f".to_string(),
            lines: vec!["a: A", "b: B", "c: C", "d: D", "e: E", "f: F"]
                .into_iter()
                .map(|s| s.to_string())
                .collect()
        }
    );
    assert_eq!(
        p.print_or_output_to_file(letters(), false, 1, None),
        Shown::Table(vec![vec![("a".to_string(), "A".to_string())]])
    );
    assert_eq!(p.print_or_output_to_file(Vec::new(), false, 1, None), Shown::Table(Vec::new()));
}

#[test]
fn listings_select_before_they_cut() {
    let command = DBCommand::Scan {
        start: Some("b".to_string()),
        end: Some("e".to_string()),
        reverse: true,
        limit: 2,
        all: false,
        output: None,
    };
    assert_eq!(table_keys(run(command, StoreAnswer::Pairs(letters()))), vec!["d", "c"]);
    let command = DBCommand::Prefix {
        prefix: "us".to_string(),
        with_highlight: false,
        limit: 1,
        all: false,
        output: None,
    };
    let entries = vec![pair("admin", "1"), pair("user1", "2"), pair("user2", "3")];
    assert_eq!(table_keys(run(command, StoreAnswer::Pairs(entries))), vec!["user1"]);
    let command = DBCommand::SearchValue {
        value: "X".to_string(),
        with_highlight: false,
        limit: 10,
        all: false,
        output: None,
    };
    let entries = vec![pair("k1", "aXb"), pair("k2", "abc")];
    assert_eq!(table_keys(run(command, StoreAnswer::Pairs(entries))), vec!["k1"]);
    let command = DBCommand::SearchKey {
        key: "2".to_string(),
        with_highlight: false,
        limit: 10,
        all: true,
        output: None,
    };
    let entries = vec![pair("k1", "2"), pair("k2", "1")];
    assert_eq!(table_keys(run(command, StoreAnswer::Pairs(entries))), vec!["k2"]);
}

#[test]
fn an_answer_of_the_wrong_kind_is_an_error() {
    assert_eq!(
        run(DBCommand::Get { key: "k".to_string(), json: false }, StoreAnswer::Pairs(Vec::new())),
        Err(StoreError)
    );
    assert_eq!(run(scan(1, false, None), StoreAnswer::Written { done: true }), Err(StoreError));
    assert_eq!(run(DBCommand::Info, StoreAnswer::Lookup(Lookup::Absent)), Err(StoreError));
}

#[test]
fn an_answer_without_a_waiting_command_is_an_error() {
    let mut p = processor();
    assert_eq!(p.complete(StoreAnswer::Pairs(Vec::new())), Err(StoreError));
    p.process_command(DBCommand::Keys { limit: 1 });
    p.process_command(DBCommand::List);
    assert_eq!(p.complete(StoreAnswer::Pairs(Vec::new())), Err(StoreError));
}

#[test]
fn the_active_column_family_survives_store_commands() {
    let mut p = processor();
    p.process_command(DBCommand::Use { name: "users".to_string() });
    p.process_command(DBCommand::Keys { limit: 1 });
    assert_eq!(p.complete(StoreAnswer::Pairs(letters())), Ok(Shown::Keys(vec!["a".to_string()])));
    assert_eq!(p.db_helper.current_cf, "users");
    assert_eq!(p.db_helper.cf_list, vec!["default", "users"]);
}
