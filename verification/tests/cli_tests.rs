use bpp::cli::{
    after_compose, exit_status, handle_add, handle_rm, handle_search, list_notes, request_add,
    can_send, Action, AddOpts, BppCli, Endpoint, Event, Request, Response, RmOpts, SearchOpts,
    SubCommands, REQUEST_TIMEOUT_SECS,
};
use bpp::compose::{edit_file, edit_file_for};
use bpp::error_def::BppCliError;
use bpp::note::Note;

fn note(id: &str, title: &str, content: &str) -> Note {
    Note { id: id.to_string(), title: title.to_string(), content: content.to_string() }
}

fn add_cli(title: Option<&str>, content: Option<&str>, edit: bool) -> BppCli {
    BppCli {
        subcommands: SubCommands::Add(AddOpts {
            title: title.map(|s| s.to_string()),
            content: content.map(|s| s.to_string()),
            edit,
        }),
        endpoint: Endpoint::new(None, None),
    }
}

fn rm_cli(id: &str) -> BppCli {
    BppCli {
        subcommands: SubCommands::Rm(RmOpts { id: id.to_string() }),
        endpoint: Endpoint::new(None, None),
    }
}

fn search_cli(query: &str, all: bool) -> BppCli {
    BppCli {
        subcommands: SubCommands::Search(SearchOpts { all, query: query.to_string() }),
        endpoint: Endpoint::new(None, None),
    }
}

fn all_events() -> Vec<Event> {
    vec![
        Event::Begin,
        Event::Connected(true),
        Event::Connected(false),
        Event::Composed(None),
        Event::Composed(Some("Groceries\nmilk, eggs".to_string())),
        Event::Replied(None),
        Event::Replied(Some(Response::Note(None))),
        Event::Replied(Some(Response::Note(Some(note("n1", "Groceries", "milk, eggs"))))),
        Event::Replied(Some(Response::Notes(vec![]))),
    ]
}

fn invalid() -> BppCliError {
    BppCliError::InvalidParameters("Title and Content cannot be empty".to_string())
}

#[test]
fn run_begins_by_connecting() {
    let expected = Action::Connect("http://[::1]:8085".to_string());
    assert_eq!(add_cli(Some("a"), Some("b"), false).run(Event::Begin), expected);
    assert_eq!(rm_cli("n1").run(Event::Begin), expected);
    assert_eq!(search_cli("q", true).run(Event::Begin), expected);
}

#[test]
fn add_with_missing_content_fails_before_connecting() {
    let cli = add_cli(Some("Groceries"), None, false);
    assert_eq!(cli.run(Event::Begin), Action::Finish(vec![], Err(invalid())));
    assert!(cli.is_refused());
}

#[test]
fn add_with_missing_content_fails_the_same_way_whatever_happens() {
    for event in all_events() {
        let cli = add_cli(Some("Groceries"), None, false);
        assert_eq!(cli.run(event), Action::Finish(vec![], Err(invalid())));
    }
}

#[test]
fn add_with_missing_or_empty_field_never_connects() {
    for (title, content) in [
        (None, Some("body")),
        (Some("title"), None),
        (None, None),
        (Some(""), Some("body")),
        (Some("title"), Some("")),
        (Some(""), Some("")),
    ] {
        for event in all_events() {
            let cli = add_cli(title, content, false);
            assert!(cli.is_refused());
            assert_eq!(cli.run(event), Action::Finish(vec![], Err(invalid())));
        }
    }
}

#[test]
fn only_an_add_without_editor_can_be_refused() {
    assert!(!add_cli(Some("t"), Some("c"), false).is_refused());
    assert!(!add_cli(None, None, true).is_refused());
    assert!(!rm_cli("").is_refused());
    assert!(!search_cli("", false).is_refused());
}

#[test]
fn can_send_needs_both_fields_non_empty() {
    assert!(can_send(&Some("t".to_string()), &Some("c".to_string())));
    assert!(!can_send(&Some("t".to_string()), &None));
    assert!(!can_send(&None, &Some("c".to_string())));
    assert!(!can_send(&Some(String::new()), &Some("c".to_string())));
    assert!(!can_send(&Some("t".to_string()), &Some(String::new())));
}

#[test]
fn every_reply_ends_the_run() {
    for cli in [add_cli(Some("t"), Some("c"), false), rm_cli("n1"), search_cli("q", true)] {
        for reply in [
            None,
            Some(Response::Note(None)),
            Some(Response::Note(Some(note("n1", "t", "c")))),
            Some(Response::Notes(vec![note("n1", "t", "c")])),
        ] {
            assert!(matches!(cli.run(Event::Replied(reply)), Action::Finish(_, _)));
        }
    }
}

#[test]
fn endpoint_defaults_to_the_local_service() {
    let e = Endpoint::new(None, None);
    assert_eq!(e.host, "[::1]");
    assert_eq!(e.port, 8085);
    assert_eq!(e.url(), "http://[::1]:8085");
    assert_eq!(
        e.connect_failure(),
        BppCliError::FailedToConnect("Failed to connect to port 8085".to_string())
    );
}

#[test]
fn endpoint_takes_what_is_given() {
    let e = Endpoint::new(Some("notes.example.org".to_string()), Some(443));
    assert_eq!(e.url(), "http://notes.example.org:443");
    assert_eq!(
        e.connect_failure(),
        BppCliError::FailedToConnect("Failed to connect to port 443".to_string())
    );
    assert_eq!(Endpoint::new(Some("h".to_string()), None).url(), "http://h:8085");
    assert_eq!(Endpoint::new(None, Some(0)).url(), "http://[::1]:0");
    assert_eq!(Endpoint::new(None, Some(65535)).url(), "http://[::1]:65535");
}

#[test]
fn run_connects_to_the_given_endpoint() {
    let cli = BppCli {
        subcommands: SubCommands::Rm(RmOpts { id: "n1".to_string() }),
        endpoint: Endpoint::new(Some("10.0.0.7".to_string()), Some(9000)),
    };
    assert_eq!(cli.run(Event::Begin), Action::Connect("http://10.0.0.7:9000".to_string()));
    assert_eq!(
        cli.run(Event::Connected(false)),
        Action::Finish(
            vec![],
            Err(BppCliError::FailedToConnect("Failed to connect to port 9000".to_string()))
        )
    );
}

#[test]
fn failed_connection_ends_the_run() {
    let expected = Action::Finish(
        vec![],
        Err(BppCliError::FailedToConnect("Failed to connect to port 8085".to_string())),
    );
    assert_eq!(rm_cli("n1").run(Event::Connected(false)), expected);
    assert_eq!(add_cli(None, None, true).run(Event::Connected(false)), expected);
}

#[test]
fn add_with_fields_sends_them() {
    let cli = add_cli(Some("Groceries"), Some("milk, eggs"), false);
    assert_eq!(
        cli.run(Event::Connected(true)),
        Action::Send(Request::Add {
            title: "Groceries".to_string(),
            content: "milk, eggs".to_string()
        })
    );
}

#[test]
fn add_with_missing_content_fails_locally() {
    let cli = add_cli(Some("Groceries"), None, false);
    assert_eq!(cli.run(Event::Connected(true)), Action::Finish(vec![], Err(invalid())));
}

#[test]
fn add_with_missing_or_empty_field_sends_nothing() {
    for (title, content) in [
        (None, Some("body")),
        (None, None),
        (Some(""), Some("body")),
        (Some("title"), Some("")),
        (Some(""), Some("")),
    ] {
        let cli = add_cli(title, content, false);
        assert_eq!(cli.run(Event::Connected(true)), Action::Finish(vec![], Err(invalid())));
    }
}

#[test]
fn add_with_edit_composes_first() {
    let cli = add_cli(None, None, true);
    assert_eq!(cli.run(Event::Connected(true)), Action::Compose);
}

#[test]
fn composed_text_is_split_into_title_and_body() {
    let cli = add_cli(None, None, true);
    assert_eq!(
        cli.run(Event::Composed(Some("Groceries\nmilk, eggs\nbread\n".to_string()))),
        Action::Send(Request::Add {
            title: "Groceries".to_string(),
            content: "milk, eggs\nbread\n".to_string()
        })
    );
}

#[test]
fn composed_single_line_aborts_with_a_warning() {
    let cli = add_cli(None, None, true);
    let expected = Action::Finish(
        vec!["Invalid text: More than one line required. (First line is the title)".to_string()],
        Err(invalid()),
    );
    assert_eq!(cli.run(Event::Composed(Some("just a title".to_string()))), expected);
    assert_eq!(cli.run(Event::Composed(Some(String::new()))), expected);
    assert_eq!(after_compose("just a title"), expected);
}

#[test]
fn composed_text_with_empty_title_or_body_fails_locally() {
    let cli = add_cli(None, None, true);
    let expected = Action::Finish(vec![], Err(invalid()));
    assert_eq!(cli.run(Event::Composed(Some("\nbody".to_string()))), expected);
    assert_eq!(cli.run(Event::Composed(Some("title\n".to_string()))), expected);
    assert_eq!(cli.run(Event::Composed(Some("\n".to_string()))), expected);
}

#[test]
fn failed_editor_ends_the_run() {
    let cli = add_cli(None, None, true);
    assert_eq!(
        cli.run(Event::Composed(None)),
        Action::Finish(vec![], Err(BppCliError::FailedToEditNote))
    );
}

#[test]
fn composed_text_for_another_command_is_that_commands_failure() {
    let text = || Event::Composed(Some("a\nb".to_string()));
    assert_eq!(
        add_cli(Some("a"), Some("b"), false).run(text()),
        Action::Finish(vec![], Err(BppCliError::FailedToAddNote))
    );
    assert_eq!(rm_cli("n1").run(text()), Action::Finish(vec![], Err(BppCliError::FailedToRmNote)));
    assert_eq!(
        search_cli("q", false).run(Event::Composed(None)),
        Action::Finish(vec![], Err(BppCliError::FailedToSearchNote))
    );
}

#[test]
fn rm_and_search_forward_their_fields() {
    assert_eq!(
        rm_cli("n1").run(Event::Connected(true)),
        Action::Send(Request::Rm { id: "n1".to_string() })
    );
    assert_eq!(
        rm_cli("").run(Event::Connected(true)),
        Action::Send(Request::Rm { id: String::new() })
    );
    assert_eq!(
        search_cli("milk", true).run(Event::Connected(true)),
        Action::Send(Request::Search { query: "milk".to_string(), all: true })
    );
    assert_eq!(
        search_cli("milk", false).run(Event::Connected(true)),
        Action::Send(Request::Search { query: "milk".to_string(), all: false })
    );
}

#[test]
fn add_reply_gives_line_and_status() {
    let cli = add_cli(Some("Groceries"), Some("milk, eggs"), false);
    let reply = Response::Note(Some(note("n1", "Groceries", "milk, eggs")));
    assert_eq!(
        cli.run(Event::Replied(Some(reply))),
        Action::Finish(vec!["Note added! #n1".to_string()], Ok(0))
    );
    assert_eq!(
        cli.run(Event::Replied(Some(Response::Note(None)))),
        Action::Finish(vec![], Ok(1))
    );
    assert_eq!(
        cli.run(Event::Replied(None)),
        Action::Finish(vec![], Err(BppCliError::FailedToAddNote))
    );
    assert_eq!(
        cli.run(Event::Replied(Some(Response::Notes(vec![])))),
        Action::Finish(vec![], Err(BppCliError::FailedToAddNote))
    );
    assert_eq!(handle_add(None), Action::Finish(vec![], Err(BppCliError::FailedToAddNote)));
}

#[test]
fn rm_reply_gives_line_and_status() {
    let cli = rm_cli("n1");
    let reply = Response::Note(Some(note("n1", "Groceries", "milk, eggs")));
    assert_eq!(
        cli.run(Event::Replied(Some(reply))),
        Action::Finish(vec!["Note removed! #n1".to_string()], Ok(0))
    );
    assert_eq!(
        cli.run(Event::Replied(Some(Response::Note(None)))),
        Action::Finish(vec![], Ok(1))
    );
    assert_eq!(
        cli.run(Event::Replied(None)),
        Action::Finish(vec![], Err(BppCliError::FailedToRmNote))
    );
    assert_eq!(
        handle_rm(Some(Response::Notes(vec![]))),
        Action::Finish(vec![], Err(BppCliError::FailedToRmNote))
    );
}

#[test]
fn search_reply_lists_the_notes() {
    let cli = search_cli("milk", true);
    let notes = vec![note("n1", "Groceries", "milk, eggs"), note("n2", "Farm", "milk the cow")];
    assert_eq!(
        cli.run(Event::Replied(Some(Response::Notes(notes)))),
        Action::Finish(
            vec![
                "Groceries: milk, eggs".to_string(),
                "--------".to_string(),
                "Farm: milk the cow".to_string(),
                "--------".to_string(),
            ],
            Ok(0)
        )
    );
}

#[test]
fn search_reply_without_notes_says_so() {
    let cli = search_cli("milk", false);
    assert_eq!(
        cli.run(Event::Replied(Some(Response::Notes(vec![])))),
        Action::Finish(vec!["Found not notes!".to_string()], Ok(0))
    );
    assert_eq!(
        cli.run(Event::Replied(None)),
        Action::Finish(vec![], Err(BppCliError::FailedToSearchNote))
    );
    assert_eq!(
        handle_search(Some(Response::Note(None))),
        Action::Finish(vec![], Err(BppCliError::FailedToSearchNote))
    );
}

#[test]
fn list_notes_of_nothing_is_empty() {
    assert_eq!(list_notes(&vec![]), Vec::<String>::new());
    assert_eq!(
        list_notes(&vec![note("n9", "t", "c")]),
        vec!["t: c".to_string(), "--------".to_string()]
    );
}

#[test]
fn request_add_checks_both_fields() {
    assert_eq!(
        request_add(&Some("t".to_string()), &Some("c".to_string())),
        Action::Send(Request::Add { title: "t".to_string(), content: "c".to_string() })
    );
    assert_eq!(request_add(&Some("t".to_string()), &None), Action::Finish(vec![], Err(invalid())));
}

#[test]
fn exit_status_tells_result_from_failure() {
    assert_eq!(exit_status(&Ok(0)), 0);
    assert_eq!(exit_status(&Ok(1)), 1);
    assert_eq!(exit_status(&Err(BppCliError::FailedToAddNote)), 2);
    assert_eq!(exit_status(&Err(BppCliError::FailedToConnect("x".to_string()))), 2);
    assert_eq!(exit_status(&Err(invalid())), 2);
}

#[test]
fn request_timeout_is_bounded() {
    assert_eq!(REQUEST_TIMEOUT_SECS, 30);
}

#[test]
fn cli_error_messages() {
    assert_eq!(BppCliError::FailedToAddNote.message(), "Failed to Add Note");
    assert_eq!(BppCliError::FailedToRmNote.message(), "Failed to Remove Note");
    assert_eq!(BppCliError::FailedToSearchNote.message(), "Failed to Search Note");
    assert_eq!(BppCliError::FailedToEditNote.message(), "Failed to Edit Note");
    assert_eq!(
        invalid().message(),
        "Invalid Parameters: Title and Content cannot be empty"
    );
    assert_eq!(
        BppCliError::FailedToConnect("Failed to connect to port 8085".to_string()).message(),
        "Failed to connect to port 8085"
    );
}

#[test]
fn edit_file_for_wraps_the_token() {
    assert_eq!(edit_file_for("abc"), "/tmp/note_abc.bpp");
    assert_eq!(edit_file_for(""), "/tmp/note_.bpp");
}

#[test]
fn edit_file_names_differ() {
    let a = edit_file();
    let b = edit_file();
    assert!(a.starts_with("/tmp/note_"));
    assert!(a.ends_with(".bpp"));
    assert_eq!(a.chars().count(), 50);
    assert_eq!(b.chars().count(), 50);
    assert_ne!(a, b);
}

#[test]
fn edit_file_token_is_hyphenated_lower_hex() {
    let path = edit_file();
    let token: Vec<char> = path.chars().skip(10).take(36).collect();
    assert_eq!(token.len(), 36);
    for (i, c) in token.iter().enumerate() {
        if i == 8 || i == 13 || i == 18 || i == 23 {
            assert_eq!(*c, '-');
        } else {
            assert!(('0'..='9').contains(c) || ('a'..='f').contains(c));
        }
    }
}
