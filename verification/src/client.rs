//! The session with the analysis process, as far as it is decided here: how
//! the process is to be started, the stages a session goes through, and what
//! the bytes it wrote amount to.
//!
//! Starting the process, reading its output and ending it are the caller's
//! part. The caller starts what [`Builder::build`] describes, and hands the
//! outcome of reading to [`Client::load_project`].

use crate::cbor::{cbor_doc, parse, Cause, CauseView, Doc, Item};
use crate::decode::{
    decode_list, lemma_list_decodes, lemma_list_keeps_order, list_decoded, FromItem, ShapeError,
};
use crate::proto::{
    pair_views, views, Diagnostic, DiagnosticView, ProjectResponse, ProjectResponseView,
};
use vstd::prelude::*;

verus! {

/// std's owned path. It is carried from the options to the launch as it is.
#[verifier::external_type_specification]
#[verifier::external_body]
pub struct ExPathBuf(std::path::PathBuf);

/// std's error of input and output. It is carried to the caller as it is.
#[verifier::external_type_specification]
#[verifier::external_body]
pub struct ExIoError(std::io::Error);

/// The flag that asks the process to answer with one binary payload.
pub const API_FLAG: &'static str = "--api";

/// The flag that goes before the path of the configuration file.
pub const CONFIG_FLAG: &'static str = "-config";

/// The variable in which the process is given the name of the log file.
pub const LOG_FILE_VARIABLE: &'static str = "TSGO_LOG_FILE";

/// How a session is to be started.
#[derive(Debug)]
pub struct Options {
    /// The working directory of the process; that of the caller if none.
    pub cwd: Option<std::path::PathBuf>,
    /// The name of a log file. It is handed to the process and not looked
    /// at.
    pub log_file: Option<String>,
    /// The path of the configuration file; empty for none.
    pub config_file: String,
}

impl Default for Options {
    fn default() -> (r: Options)
        ensures
            r.cwd is None,
            r.log_file is None,
            r.config_file@.len() == 0,
    {
        Options { cwd: None, log_file: None, config_file: String::new() }
    }
}

/// The tag of a message.
#[derive(Clone, Copy, Debug, PartialEq, Eq, PartialOrd, Ord)]
pub struct MessageType(u8);

/// The process could not be started.
#[derive(Debug)]
pub struct ProcessError(pub std::io::Error);

impl From<std::io::Error> for ProcessError {
    fn from(cause: std::io::Error) -> (r: ProcessError) {
        ProcessError(cause)
    }
}

impl vstd::std_specs::convert::FromSpecImpl<std::io::Error> for ProcessError {
    open spec fn obeys_from_spec() -> bool {
        true
    }

    open spec fn from_spec(cause: std::io::Error) -> ProcessError {
        ProcessError(cause)
    }
}

/// The bytes are not a payload.
#[derive(Debug)]
pub enum DecodeFailure {
    /// The bytes do not start with a data item; the cause is `cbor4ii`'s.
    Core(Cause),
    /// The data item is not of the payload's shape.
    Shape(ShapeError),
}

/// Why a session gave no project.
#[derive(Debug)]
#[non_exhaustive]
pub enum ProtocolError {
    /// The bytes could not be decoded.
    DecodeError(DecodeFailure),
    /// The process answered, and reports that the project is invalid.
    InvalidTsProject(Vec<Diagnostic>),
    /// The process answered with a message of failure, or its output could
    /// not be read: the text says which.
    Error(String),
}

/// What a [`ProtocolError`] says.
pub ghost enum Failure {
    /// The bytes do not start with a data item.
    Malformed(CauseView),
    Shape(ShapeError),
    InvalidTsProject(Seq<DiagnosticView>),
    Error(Seq<char>),
}

impl View for ProtocolError {
    type V = Failure;

    open spec fn view(&self) -> Failure {
        match self {
            ProtocolError::DecodeError(DecodeFailure::Core(cause)) => Failure::Malformed(
                cause@,
            ),
            ProtocolError::DecodeError(DecodeFailure::Shape(e)) => Failure::Shape(*e),
            ProtocolError::InvalidTsProject(diagnostics) => Failure::InvalidTsProject(
                views(diagnostics@),
            ),
            ProtocolError::Error(message) => Failure::Error(message@),
        }
    }
}

/// What a payload amounts to. A text at the top is the process's message of
/// failure. An array at the top is its list of diagnostics on a project that
/// it found invalid. Anything else is read as the record of a project.
pub open spec fn payload_decoded(doc: Doc) -> Result<ProjectResponseView, Failure> {
    match doc {
        Doc::Text(message) => Err(Failure::Error(message)),
        Doc::Array(_) => match list_decoded::<Diagnostic>(doc) {
            Ok(diagnostics) => Err(Failure::InvalidTsProject(diagnostics)),
            Err(e) => Err(Failure::Shape(e)),
        },
        _ => match ProjectResponse::decoded(doc) {
            Ok(project) => Ok(project),
            Err(e) => Err(Failure::Shape(e)),
        },
    }
}

/// A report of the process is told from bytes that could not be decoded.
/// A text at the top is the message of failure, whatever it says; an array
/// at the top whose elements all decode as diagnostics is the report of an
/// invalid project, with those diagnostics in their order.
pub proof fn lemma_report_is_no_decode_error(message: Seq<char>, items: Seq<Doc>)
    requires
        forall|i: int| 0 <= i < items.len() ==> Diagnostic::decoded(#[trigger] items[i]) is Ok,
    ensures
        payload_decoded(Doc::Text(message)) == Err::<ProjectResponseView, Failure>(
            Failure::Error(message),
        ),
        payload_decoded(Doc::Array(items)) is Err,
        payload_decoded(Doc::Array(items))->Err_0 is InvalidTsProject,
        payload_decoded(Doc::Array(items))->Err_0->InvalidTsProject_0.len() == items.len(),
        forall|i: int|
            0 <= i < items.len() ==> Diagnostic::decoded(#[trigger] items[i]) == Ok::<
                DiagnosticView,
                ShapeError,
            >(payload_decoded(Doc::Array(items))->Err_0->InvalidTsProject_0[i]),
{
    lemma_list_decodes::<Diagnostic>(items);
    lemma_list_keeps_order::<Diagnostic>(items);
}

/// What the bytes of an answer amount to: what the data item at their start
/// amounts to as a payload, or, where they start with none, the cause.
pub open spec fn answer_decoded(bytes: Seq<u8>) -> Result<ProjectResponseView, Failure> {
    match cbor_doc(bytes) {
        Err(cause) => Err(Failure::Malformed(cause)),
        Ok(doc) => payload_decoded(doc),
    }
}

/// Decodes a payload that has been read into an item.
pub fn decode_payload(item: &Item) -> (r: Result<ProjectResponse, ProtocolError>)
    ensures
        match r {
            Ok(project) => payload_decoded(item@) == Ok::<ProjectResponseView, Failure>(project@),
            Err(e) => payload_decoded(item@) == Err::<ProjectResponseView, Failure>(e@),
        },
{
    match item {
        Item::Text(message) => Err(ProtocolError::Error(message.clone())),
        Item::Array(_) => match decode_list::<Diagnostic>(item) {
            Ok(diagnostics) => Err(ProtocolError::InvalidTsProject(diagnostics)),
            Err(e) => Err(ProtocolError::DecodeError(DecodeFailure::Shape(e))),
        },
        _ => match ProjectResponse::from_item(item) {
            Ok(project) => Ok(project),
            Err(e) => Err(ProtocolError::DecodeError(DecodeFailure::Shape(e))),
        },
    }
}

/// Decodes the bytes of an answer: the data item they start with, read as a
/// payload.
pub fn decode_answer(bytes: &[u8]) -> (r: Result<ProjectResponse, ProtocolError>)
    ensures
        match r {
            Ok(project) => answer_decoded(bytes@) == Ok::<ProjectResponseView, Failure>(project@),
            Err(e) => answer_decoded(bytes@) == Err::<ProjectResponseView, Failure>(e@),
        },
{
    match parse(bytes) {
        Ok(item) => decode_payload(&item),
        Err(cause) => Err(ProtocolError::DecodeError(DecodeFailure::Core(cause))),
    }
}

/// What a standard stream of the process is tied to.
#[derive(Debug, Clone, Copy, PartialEq, Eq, Structural)]
pub enum Stream {
    /// A pipe to the caller.
    Piped,
    /// The caller's own stream.
    Inherited,
}

/// A program and the arguments it is called with.
#[derive(Debug)]
pub struct Command {
    pub program: std::path::PathBuf,
    pub args: Vec<String>,
}

/// A process to start: what to run, with which variables set beside those
/// of the caller, where, and with which streams.
#[derive(Debug)]
pub struct Launch {
    pub program: std::path::PathBuf,
    pub args: Vec<String>,
    pub vars: Vec<(String, String)>,
    pub cwd: Option<std::path::PathBuf>,
    pub stdin: Stream,
    pub stdout: Stream,
    pub stderr: Stream,
}

/// A session that is being configured.
#[derive(Debug)]
pub struct Builder {
    cmd: Command,
    options: Options,
}

/// A session whose process runs and has not been confirmed ready.
#[derive(Debug)]
pub struct UninitializedClient {
    client: Client,
}

/// A session that is ready for its answer to be loaded.
#[derive(Debug)]
pub struct Client {
    launch: Launch,
}

/// The arguments that name the configuration file `path`: none for the
/// empty path, else the flag and the path.
pub open spec fn config_args(path: Seq<char>) -> Seq<Seq<char>> {
    if path.len() == 0 {
        Seq::empty()
    } else {
        seq![CONFIG_FLAG@, path]
    }
}

/// The variables that hand the log file's name on: none where there is no
/// log file, else the one variable with the name for its value.
pub open spec fn log_vars(log_file: Option<String>) -> Seq<(Seq<char>, Seq<char>)> {
    match log_file {
        Some(name) => seq![(LOG_FILE_VARIABLE@, name@)],
        None => Seq::empty(),
    }
}

impl Builder {
    /// The command that this builder starts from.
    pub closed spec fn command(self) -> Command {
        self.cmd
    }

    /// The options that this builder holds.
    pub closed spec fn options(self) -> Options {
        self.options
    }

    /// Sets the working directory.
    pub fn cwd(self, path: std::path::PathBuf) -> (r: Builder)
        ensures
            r.command() == self.command(),
            r.options().cwd == Some(path),
            r.options().log_file == self.options().log_file,
            r.options().config_file == self.options().config_file,
    {
        let Builder { cmd, options } = self;
        Builder {
            cmd,
            options: Options {
                cwd: Some(path),
                log_file: options.log_file,
                config_file: options.config_file,
            },
        }
    }

    /// Sets the name of the log file.
    pub fn log_file(self, filename: String) -> (r: Builder)
        ensures
            r.command() == self.command(),
            r.options().cwd == self.options().cwd,
            r.options().log_file == Some(filename),
            r.options().config_file == self.options().config_file,
    {
        let Builder { cmd, options } = self;
        Builder {
            cmd,
            options: Options {
                cwd: options.cwd,
                log_file: Some(filename),
                config_file: options.config_file,
            },
        }
    }

    /// Describes the process to start. The command's arguments come first,
    /// then the configuration file if its path is not empty. The log file's
    /// name, if there is one, is handed on in a variable. The working
    /// directory is that of the options. Input and output are pipes; the
    /// error stream is the caller's own, so that what the process reports
    /// there is seen.
    pub fn build(self) -> (launch: Launch)
        ensures
            launch.program == self.command().program,
            views(launch.args@) == views(self.command().args@) + config_args(
                self.options().config_file@,
            ),
            pair_views(launch.vars@) == log_vars(self.options().log_file),
            launch.cwd == self.options().cwd,
            launch.stdin == Stream::Piped,
            launch.stdout == Stream::Piped,
            launch.stderr == Stream::Inherited,
    {
        let Builder { cmd, options } = self;
        let Command { program, args } = cmd;
        let mut args = args;
        let ghost given = views(args@);
        if !options.config_file.as_str().is_empty() {
            args.push(CONFIG_FLAG.to_owned());
            args.push(options.config_file);
            assert(views(args@) =~= given + config_args(self.options().config_file@));
        } else {
            assert(views(args@) =~= given + config_args(self.options().config_file@));
        }
        let mut vars: Vec<(String, String)> = Vec::new();
        match options.log_file {
            Some(name) => {
                vars.push((LOG_FILE_VARIABLE.to_owned(), name));
                assert(pair_views(vars@) =~= log_vars(self.options().log_file));
            },
            None => {
                assert(pair_views(vars@) =~= log_vars(self.options().log_file));
            },
        }
        Launch {
            program,
            args,
            vars,
            cwd: options.cwd,
            stdin: Stream::Piped,
            stdout: Stream::Piped,
            stderr: Stream::Inherited,
        }
    }
}

impl UninitializedClient {
    /// The launch whose process this session runs.
    pub closed spec fn launch(self) -> Launch {
        self.client.launch
    }

    /// The session of a process that was started as `launch` says.
    pub fn new(launch: Launch) -> (r: UninitializedClient)
        ensures
            r.launch() == launch,
    {
        UninitializedClient { client: Client { launch } }
    }

    /// Confirms that the session is ready. Nothing is exchanged with the
    /// process for that, so this succeeds.
    pub fn init(self) -> (r: Result<Client, ProtocolError>)
        ensures
            r is Ok,
            r->Ok_0.launch() == self.launch(),
    {
        Ok(self.client)
    }
}

impl Client {
    /// The launch whose process this session runs.
    pub closed spec fn launch(self) -> Launch {
        self.launch
    }

    /// The process that this session runs.
    pub fn started_as(&self) -> (r: &Launch)
        ensures
            *r == self.launch(),
    {
        &self.launch
    }

    /// A builder for the program `exe`, called with the flag that asks for
    /// one binary payload.
    pub fn builder(exe: std::path::PathBuf, options: Options) -> (r: Builder)
        ensures
            r.command().program == exe,
            views(r.command().args@) == seq![API_FLAG@],
            r.options() == options,
    {
        let mut args: Vec<String> = Vec::new();
        args.push(API_FLAG.to_owned());
        assert(views(args@) =~= seq![API_FLAG@]);
        Client::with_command(Command { program: exe, args }, options)
    }

    /// A builder for a command of the caller's own.
    pub fn with_command(cmd: Command, options: Options) -> (r: Builder)
        ensures
            r.command() == cmd,
            r.options() == options,
    {
        Builder { cmd, options }
    }

    /// Ends a load. `read` is how reading the process's output to its end
    /// went: the bytes that were read, or the text of what stopped the
    /// reading. A reading that failed is reported with that text; bytes
    /// are decoded. The session is as it was.
    pub fn load_project(&mut self, read: Result<&Vec<u8>, String>) -> (r: Result<
        ProjectResponse,
        ProtocolError,
    >)
        ensures
            *final(self) == *old(self),
            match read {
                Ok(resp) => match r {
                    Ok(project) => answer_decoded(resp@) == Ok::<ProjectResponseView, Failure>(
                        project@,
                    ),
                    Err(e) => answer_decoded(resp@) == Err::<ProjectResponseView, Failure>(e@),
                },
                Err(cause) => r is Err && r->Err_0@ == Failure::Error(cause@),
            },
    {
        match read {
            Ok(resp) => decode_answer(resp.as_slice()),
            Err(cause) => Err(ProtocolError::Error(cause)),
        }
    }
}

} // verus!
