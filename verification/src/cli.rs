//! The client: what it is asked to do, and what it decides at each turn of a
//! run, from connecting to the exit status.

use crate::error_def::{BppCliError, CliErrorView};
use crate::note::{views_of, Note, NoteView};
use crate::text::{
    after_first_line, decimal, decimal_string, first_break, first_line, split_first_line,
};
use vstd::prelude::*;
use vstd::string::*;

verus! {

/// What `add` is given.
#[derive(Debug)]
pub struct AddOpts {
    /// The title, where it was given on the command line.
    pub title: Option<String>,
    /// The body, where it was given on the command line.
    pub content: Option<String>,
    /// Whether the note is composed in an editor instead.
    pub edit: bool,
}

/// What `rm` is given.
#[derive(Debug)]
pub struct RmOpts {
    /// The identifier of the note to remove.
    pub id: String,
}

/// What `search` is given.
#[derive(Debug)]
pub struct SearchOpts {
    /// Whether bodies are searched as well as titles.
    pub all: bool,
    /// The text to look for.
    pub query: String,
}

/// The three commands.
#[derive(Debug)]
pub enum SubCommands {
    Add(AddOpts),
    Rm(RmOpts),
    Search(SearchOpts),
}

/// Where the service is reached.
#[derive(Debug)]
pub struct Endpoint {
    /// The host, as it stands in an address: a name, or an address in brackets.
    pub host: String,
    /// The port.
    pub port: u16,
}

/// One invocation of the client.
#[derive(Debug)]
pub struct BppCli {
    /// The command.
    pub subcommands: SubCommands,
    /// The service that the command is for.
    pub endpoint: Endpoint,
}

/// A request to the service.
#[derive(Debug, PartialEq, Eq)]
pub enum Request {
    Add { title: String, content: String },
    Rm { id: String },
    Search { query: String, all: bool },
}

/// A request, with its texts as sequences of characters.
pub enum RequestView {
    Add { title: Seq<char>, content: Seq<char> },
    Rm { id: Seq<char> },
    Search { query: Seq<char>, all: bool },
}

impl View for Request {
    type V = RequestView;

    open spec fn view(&self) -> RequestView {
        match self {
            Request::Add { title, content } => RequestView::Add {
                title: title@,
                content: content@,
            },
            Request::Rm { id } => RequestView::Rm { id: id@ },
            Request::Search { query, all } => RequestView::Search { query: query@, all: *all },
        }
    }
}

/// What the service answers.
#[derive(Debug)]
pub enum Response {
    /// The answer to an add or a removal: the note, where there is one.
    Note(Option<Note>),
    /// The answer to a search.
    Notes(Vec<Note>),
}

/// What happened since the client's last decision.
#[derive(Debug)]
pub enum Event {
    /// The run starts.
    Begin,
    /// The attempt to connect ended; `true` where the service was reached.
    Connected(bool),
    /// The editor was closed: what it left, or `None` where it could not be
    /// run or its file could not be read.
    Composed(Option<String>),
    /// The call ended: the answer, or `None` where the call itself failed.
    Replied(Option<Response>),
}

/// What the client does next.
#[derive(Debug, PartialEq, Eq)]
pub enum Action {
    /// Connect to the service at this address.
    Connect(String),
    /// Let the user compose the note in an editor.
    Compose,
    /// Send this request and wait for the answer.
    Send(Request),
    /// Print these lines and end the run with this result.
    Finish(Vec<String>, Result<i32, BppCliError>),
}

/// An action, with its texts as sequences of characters.
pub enum ActionView {
    Connect(Seq<char>),
    Compose,
    Send(RequestView),
    Finish(Seq<Seq<char>>, Result<i32, CliErrorView>),
}

/// The texts of a list of strings, in order.
pub open spec fn texts_of(lines: Seq<String>) -> Seq<Seq<char>> {
    Seq::new(lines.len(), |i: int| lines[i]@)
}

/// A run's result, with the failure's text as a sequence of characters.
pub open spec fn result_view(result: Result<i32, BppCliError>) -> Result<i32, CliErrorView> {
    match result {
        Ok(code) => Ok(code),
        Err(e) => Err(e@),
    }
}

impl View for Action {
    type V = ActionView;

    open spec fn view(&self) -> ActionView {
        match self {
            Action::Connect(address) => ActionView::Connect(address@),
            Action::Compose => ActionView::Compose,
            Action::Send(request) => ActionView::Send(request@),
            Action::Finish(lines, result) => ActionView::Finish(
                texts_of(lines@),
                result_view(*result),
            ),
        }
    }
}

/// The text of an optional string.
pub open spec fn text_of(s: Option<String>) -> Option<Seq<char>> {
    match s {
        Some(t) => Some(t@),
        None => None,
    }
}

/// The host of the service where none is given.
pub open spec fn default_host() -> Seq<char> {
    "[::1]"@
}

/// The port of the service where none is given.
pub open spec fn default_port() -> u16 {
    8085
}

impl Endpoint {
    /// The address that the client connects to.
    pub open spec fn address(self) -> Seq<char> {
        "http://"@ + self.host@ + ":"@ + decimal(self.port as nat)
    }

    /// The detail of the failure to connect.
    pub open spec fn failure_text(self) -> Seq<char> {
        "Failed to connect to port "@ + decimal(self.port as nat)
    }

    /// The endpoint for the host and the port that were given; the local
    /// host, and the service's usual port, where one was not.
    pub fn new(host: Option<String>, port: Option<u16>) -> (e: Endpoint)
        ensures
            e.host@ == match host {
                Some(h) => h@,
                None => default_host(),
            },
            e.port == match port {
                Some(p) => p,
                None => default_port(),
            },
    {
        let host: String = match host {
            Some(h) => h,
            None => String::from_str("[::1]"),
        };
        let port: u16 = match port {
            Some(p) => p,
            None => 8085,
        };
        Endpoint { host, port }
    }

    /// The address that the client connects to.
    pub fn url(&self) -> (s: String)
        ensures
            s@ == self.address(),
    {
        let port: String = decimal_string(self.port as u64);
        String::from_str("http://").concat(self.host.as_str()).concat(":").concat(port.as_str())
    }

    /// The failure to connect.
    pub fn connect_failure(&self) -> (e: BppCliError)
        ensures
            e@ == CliErrorView::FailedToConnect(self.failure_text()),
    {
        let port: String = decimal_string(self.port as u64);
        BppCliError::FailedToConnect(
            String::from_str("Failed to connect to port ").concat(port.as_str()),
        )
    }
}

/// The detail of the failure for a missing or empty title or body.
pub open spec fn empty_fields_text() -> Seq<char> {
    "Title and Content cannot be empty"@
}

/// The warning for composed text without a line break.
pub open spec fn one_line_text() -> Seq<char> {
    "Invalid text: More than one line required. (First line is the title)"@
}

/// The line printed after each note that a search found.
pub open spec fn separator_text() -> Seq<char> {
    "--------"@
}

/// The line printed where a search found nothing.
pub open spec fn nothing_found_text() -> Seq<char> {
    "Found not notes!"@
}

/// The line printed for a note that was added.
pub open spec fn added_line(id: Seq<char>) -> Seq<char> {
    "Note added! #"@ + id
}

/// The line printed for a note that was removed.
pub open spec fn removed_line(id: Seq<char>) -> Seq<char> {
    "Note removed! #"@ + id
}

/// A run that ends at once with a failure and prints nothing.
pub open spec fn fails_with(e: CliErrorView) -> ActionView {
    ActionView::Finish(Seq::empty(), Err(e))
}

/// Whether an add with this title and body can be sent: both are there and
/// neither is empty.
pub open spec fn spec_can_send(title: Option<Seq<char>>, content: Option<Seq<char>>) -> bool {
    title is Some && content is Some && title->0.len() > 0 && content->0.len() > 0
}

/// The decision for an add with this title and body: the request where both
/// are there and non-empty, else the failure, with nothing sent.
pub open spec fn spec_request_add(
    title: Option<Seq<char>>,
    content: Option<Seq<char>>,
) -> ActionView {
    if spec_can_send(title, content) {
        ActionView::Send(RequestView::Add { title: title->0, content: content->0 })
    } else {
        fails_with(CliErrorView::InvalidParameters(empty_fields_text()))
    }
}

/// The decision for composed text: without a line break the warning and the
/// failure, with nothing sent; else an add of the first line as the title and
/// the rest as the body.
pub open spec fn spec_after_compose(text: Seq<char>) -> ActionView {
    if first_break(text) == text.len() {
        ActionView::Finish(
            seq![one_line_text()],
            Err(CliErrorView::InvalidParameters(empty_fields_text())),
        )
    } else {
        spec_request_add(Some(first_line(text)), Some(after_first_line(text)))
    }
}

/// The lines for the notes that a search found: each note's display form,
/// then the separator.
pub open spec fn listing(notes: Seq<NoteView>) -> Seq<Seq<char>>
    decreases notes.len(),
{
    if notes.len() == 0 {
        Seq::empty()
    } else {
        listing(notes.drop_last()).push(notes.last().rendering()).push(separator_text())
    }
}

/// What is printed for a search's answer.
pub open spec fn search_report(notes: Seq<NoteView>) -> Seq<Seq<char>> {
    if notes.len() == 0 {
        seq![nothing_found_text()]
    } else {
        listing(notes)
    }
}

/// The end of an add, from what the call gave.
pub open spec fn spec_handle_add(reply: Option<Response>) -> ActionView {
    match reply {
        Some(Response::Note(Some(note))) => ActionView::Finish(
            seq![added_line(note.id@)],
            Ok(0i32),
        ),
        Some(Response::Note(None)) => ActionView::Finish(Seq::empty(), Ok(1i32)),
        _ => fails_with(CliErrorView::FailedToAddNote),
    }
}

/// The end of a removal, from what the call gave.
pub open spec fn spec_handle_rm(reply: Option<Response>) -> ActionView {
    match reply {
        Some(Response::Note(Some(note))) => ActionView::Finish(
            seq![removed_line(note.id@)],
            Ok(0i32),
        ),
        Some(Response::Note(None)) => ActionView::Finish(Seq::empty(), Ok(1i32)),
        _ => fails_with(CliErrorView::FailedToRmNote),
    }
}

/// The end of a search, from what the call gave.
pub open spec fn spec_handle_search(reply: Option<Response>) -> ActionView {
    match reply {
        Some(Response::Notes(notes)) => ActionView::Finish(
            search_report(views_of(notes@)),
            Ok(0i32),
        ),
        _ => fails_with(CliErrorView::FailedToSearchNote),
    }
}

/// How many seconds the client waits for the service to answer one request
/// before it takes the call as failed.
pub const REQUEST_TIMEOUT_SECS: u64 = 30;

/// The exit status of a run: the status that the run ended with, or 2 where
/// it failed.
pub open spec fn spec_exit_status(result: Result<i32, BppCliError>) -> i32 {
    match result {
        Ok(code) => code,
        Err(_) => 2i32,
    }
}

/// The exit status of a run.
pub fn exit_status(result: &Result<i32, BppCliError>) -> (code: i32)
    ensures
        code == spec_exit_status(*result),
{
    match result {
        Ok(code) => *code,
        Err(_) => 2,
    }
}

/// No line to print.
fn no_lines() -> (lines: Vec<String>)
    ensures
        texts_of(lines@) == Seq::<Seq<char>>::empty(),
{
    let lines: Vec<String> = Vec::new();
    assert(texts_of(lines@) =~= Seq::empty());
    lines
}

/// A run that ends at once with a failure and prints nothing.
fn fail(e: BppCliError) -> (a: Action)
    ensures
        a@ == fails_with(e@),
{
    Action::Finish(no_lines(), Err(e))
}

/// A run that ends with one printed line and this status.
fn finish_with_line(line: String, code: i32) -> (a: Action)
    ensures
        a@ == ActionView::Finish(seq![line@], Ok(code)),
{
    let mut lines: Vec<String> = Vec::new();
    lines.push(line);
    assert(texts_of(lines@) =~= seq![line@]);
    Action::Finish(lines, Ok(code))
}

/// The failure for a missing or empty title or body.
fn empty_fields() -> (e: BppCliError)
    ensures
        e@ == CliErrorView::InvalidParameters(empty_fields_text()),
{
    BppCliError::InvalidParameters(String::from_str("Title and Content cannot be empty"))
}

/// Whether an add with this title and body can be sent.
pub fn can_send(title: &Option<String>, content: &Option<String>) -> (r: bool)
    ensures
        r == spec_can_send(text_of(*title), text_of(*content)),
{
    match (title, content) {
        (Some(t), Some(c)) => !t.as_str().is_empty() && !c.as_str().is_empty(),
        _ => false,
    }
}

/// Decides an add from the title and the body that were given.
pub fn request_add(title: &Option<String>, content: &Option<String>) -> (a: Action)
    ensures
        a@ == spec_request_add(text_of(*title), text_of(*content)),
{
    match (title, content) {
        (Some(t), Some(c)) => {
            if can_send(title, content) {
                Action::Send(Request::Add { title: t.clone(), content: c.clone() })
            } else {
                fail(empty_fields())
            }
        },
        _ => fail(empty_fields()),
    }
}

/// Decides an add from the text that the user composed.
pub fn after_compose(text: &str) -> (a: Action)
    ensures
        a@ == spec_after_compose(text@),
{
    match split_first_line(text) {
        Some((head, rest)) => {
            let title: Option<String> = Some(head);
            let content: Option<String> = Some(rest);
            request_add(&title, &content)
        },
        None => {
            let mut lines: Vec<String> = Vec::new();
            let warning: String = String::from_str(
                "Invalid text: More than one line required. (First line is the title)",
            );
            lines.push(warning);
            assert(texts_of(lines@) =~= seq![one_line_text()]);
            Action::Finish(lines, Err(empty_fields()))
        },
    }
}

/// The lines for the notes that a search found.
pub fn list_notes(notes: &Vec<Note>) -> (lines: Vec<String>)
    ensures
        texts_of(lines@) == listing(views_of(notes@)),
{
    let mut lines: Vec<String> = Vec::new();
    let mut i: usize = 0;
    assert(views_of(notes@).subrange(0, 0) =~= Seq::empty());
    assert(texts_of(lines@) =~= Seq::empty());
    while i < notes.len()
        invariant
            i <= notes.len(),
            texts_of(lines@) == listing(views_of(notes@).subrange(0, i as int)),
        decreases notes.len() - i,
    {
        let ghost before = texts_of(lines@);
        let shown: String = notes[i].render();
        lines.push(shown);
        lines.push(String::from_str("--------"));
        proof {
            let upto = views_of(notes@).subrange(0, i + 1);
            assert(upto.drop_last() =~= views_of(notes@).subrange(0, i as int));
            assert(upto.last() == notes@[i as int]@);
            assert(texts_of(lines@) =~= before.push(notes@[i as int]@.rendering()).push(
                separator_text(),
            ));
        }
        i = i + 1;
    }
    assert(views_of(notes@).subrange(0, i as int) =~= views_of(notes@));
    lines
}

/// Ends an add: the note's identifier is printed and the status is 0 where
/// the service created it, 1 where it answered without a note; any other
/// outcome of the call is the add's failure.
pub fn handle_add(reply: Option<Response>) -> (a: Action)
    ensures
        a@ == spec_handle_add(reply),
{
    match reply {
        Some(Response::Note(Some(note))) => finish_with_line(
            String::from_str("Note added! #").concat(note.id.as_str()),
            0,
        ),
        Some(Response::Note(None)) => Action::Finish(no_lines(), Ok(1)),
        _ => fail(BppCliError::FailedToAddNote),
    }
}

/// Ends a removal: the note's identifier is printed and the status is 0
/// where the service removed it, 1 where nothing was removed; any other
/// outcome of the call is the removal's failure.
pub fn handle_rm(reply: Option<Response>) -> (a: Action)
    ensures
        a@ == spec_handle_rm(reply),
{
    match reply {
        Some(Response::Note(Some(note))) => finish_with_line(
            String::from_str("Note removed! #").concat(note.id.as_str()),
            0,
        ),
        Some(Response::Note(None)) => Action::Finish(no_lines(), Ok(1)),
        _ => fail(BppCliError::FailedToRmNote),
    }
}

/// Ends a search: every note that was found is printed with a separator
/// after it, or one line says that nothing was found; the status is 0 either
/// way. Any other outcome of the call is the search's failure.
pub fn handle_search(reply: Option<Response>) -> (a: Action)
    ensures
        a@ == spec_handle_search(reply),
{
    match reply {
        Some(Response::Notes(notes)) => {
            if notes.len() > 0 {
                Action::Finish(list_notes(&notes), Ok(0))
            } else {
                let mut lines: Vec<String> = Vec::new();
                lines.push(String::from_str("Found not notes!"));
                assert(texts_of(lines@) =~= seq![nothing_found_text()]);
                assert(views_of(notes@).len() == 0);
                Action::Finish(lines, Ok(0))
            }
        },
        _ => fail(BppCliError::FailedToSearchNote),
    }
}

impl BppCli {
    /// Whether the note is composed in an editor.
    pub open spec fn composes(self) -> bool {
        match self.subcommands {
            SubCommands::Add(opts) => opts.edit,
            _ => false,
        }
    }

    /// The failure of the command's own call.
    pub open spec fn failure(self) -> CliErrorView {
        match self.subcommands {
            SubCommands::Add(_) => CliErrorView::FailedToAddNote,
            SubCommands::Rm(_) => CliErrorView::FailedToRmNote,
            SubCommands::Search(_) => CliErrorView::FailedToSearchNote,
        }
    }

    /// What the client does once it is connected.
    pub open spec fn spec_first_step(self) -> ActionView {
        match self.subcommands {
            SubCommands::Add(opts) => if opts.edit {
                ActionView::Compose
            } else {
                spec_request_add(text_of(opts.title), text_of(opts.content))
            },
            SubCommands::Rm(opts) => ActionView::Send(RequestView::Rm { id: opts.id@ }),
            SubCommands::Search(opts) => ActionView::Send(
                RequestView::Search { query: opts.query@, all: opts.all },
            ),
        }
    }

    /// What the client does after the editor was closed.
    pub open spec fn spec_composed(self, text: Option<String>) -> ActionView {
        if !self.composes() {
            fails_with(self.failure())
        } else {
            match text {
                Some(t) => spec_after_compose(t@),
                None => fails_with(CliErrorView::FailedToEditNote),
            }
        }
    }

    /// What the client does with the outcome of its call.
    pub open spec fn spec_replied(self, reply: Option<Response>) -> ActionView {
        match self.subcommands {
            SubCommands::Add(_) => spec_handle_add(reply),
            SubCommands::Rm(_) => spec_handle_rm(reply),
            SubCommands::Search(_) => spec_handle_search(reply),
        }
    }

    /// Whether the command is refused as it stands: an add that is not
    /// composed in an editor and whose title or body is missing or empty.
    pub open spec fn refused(self) -> bool {
        match self.subcommands {
            SubCommands::Add(opts) => !opts.edit && !spec_can_send(
                text_of(opts.title),
                text_of(opts.content),
            ),
            _ => false,
        }
    }

    /// The client's decision after `event`.
    pub open spec fn spec_run(self, event: Event) -> ActionView {
        if self.refused() {
            fails_with(CliErrorView::InvalidParameters(empty_fields_text()))
        } else {
            match event {
                Event::Begin => ActionView::Connect(self.endpoint.address()),
                Event::Connected(reached) => if reached {
                    self.spec_first_step()
                } else {
                    fails_with(CliErrorView::FailedToConnect(self.endpoint.failure_text()))
                },
                Event::Composed(text) => self.spec_composed(text),
                Event::Replied(reply) => self.spec_replied(reply),
            }
        }
    }

    /// Whether the command is refused as it stands.
    pub fn is_refused(&self) -> (r: bool)
        ensures
            r == self.refused(),
    {
        match &self.subcommands {
            SubCommands::Add(opts) => !opts.edit && !can_send(&opts.title, &opts.content),
            _ => false,
        }
    }

    /// The failure of the command's own call.
    fn own_failure(&self) -> (e: BppCliError)
        ensures
            e@ == self.failure(),
    {
        match &self.subcommands {
            SubCommands::Add(_) => BppCliError::FailedToAddNote,
            SubCommands::Rm(_) => BppCliError::FailedToRmNote,
            SubCommands::Search(_) => BppCliError::FailedToSearchNote,
        }
    }

    /// One turn of a run: takes what happened and decides what is done next.
    ///
    /// A run starts with `Begin` and ends with the first `Finish`. An add
    /// whose title or body is missing or empty is refused at once, before
    /// the service is contacted, whatever happened. Else the client connects
    /// first. Connected, it sends the command's request or lets the user
    /// compose the note. After the call it prints the outcome and gives the
    /// status. An event that does not belong to the command ends the run
    /// with the command's failure.
    pub fn run(&self, event: Event) -> (action: Action)
        ensures
            action@ == self.spec_run(event),
    {
        if self.is_refused() {
            return fail(empty_fields());
        }
        match event {
            Event::Begin => Action::Connect(self.endpoint.url()),
            Event::Connected(reached) => {
                if !reached {
                    return fail(self.endpoint.connect_failure());
                }
                match &self.subcommands {
                    SubCommands::Add(opts) => {
                        if opts.edit {
                            Action::Compose
                        } else {
                            request_add(&opts.title, &opts.content)
                        }
                    },
                    SubCommands::Rm(opts) => Action::Send(Request::Rm { id: opts.id.clone() }),
                    SubCommands::Search(opts) => Action::Send(
                        Request::Search { query: opts.query.clone(), all: opts.all },
                    ),
                }
            },
            Event::Composed(text) => {
                let composes: bool = match &self.subcommands {
                    SubCommands::Add(opts) => opts.edit,
                    _ => false,
                };
                if !composes {
                    return fail(self.own_failure());
                }
                match text {
                    Some(t) => after_compose(t.as_str()),
                    None => fail(BppCliError::FailedToEditNote),
                }
            },
            Event::Replied(reply) => {
                match &self.subcommands {
                    SubCommands::Add(_) => handle_add(reply),
                    SubCommands::Rm(_) => handle_rm(reply),
                    SubCommands::Search(_) => handle_search(reply),
                }
            },
        }
    }
}

/// Whatever the command and whatever happened, an add is sent only with a
/// non-empty title and a non-empty body.
pub proof fn lemma_sent_add_is_complete(cli: BppCli, event: Event)
    ensures
        match cli.spec_run(event) {
            ActionView::Send(RequestView::Add { title, content }) => title.len() > 0
                && content.len() > 0,
            _ => true,
        },
{
}

/// An add whose title or body is missing or empty, and which is not
/// composed in an editor, fails with the same local failure whatever
/// happened: the client neither connects nor sends, whether the service can
/// be reached or not.
pub proof fn lemma_missing_field_is_refused_first(cli: BppCli, event: Event)
    requires
        cli.refused(),
    ensures
        cli.spec_run(event) == fails_with(CliErrorView::InvalidParameters(empty_fields_text())),
{
}

/// Whatever the outcome of the call, the turn after it ends the run: a run
/// sends no second request.
pub proof fn lemma_reply_ends_the_run(cli: BppCli, reply: Option<Response>)
    ensures
        cli.spec_run(Event::Replied(reply)) is Finish,
{
}

/// Composed text without a line break sends nothing: the run ends with the
/// warning and a failure.
pub proof fn lemma_one_line_sends_nothing(cli: BppCli, text: String)
    requires
        cli.composes(),
        !text@.contains('\n'),
    ensures
        cli.spec_run(Event::Composed(Some(text))) == ActionView::Finish(
            seq![one_line_text()],
            Err(CliErrorView::InvalidParameters(empty_fields_text())),
        ),
{
    crate::text::lemma_no_break(text@);
}

} // verus!
