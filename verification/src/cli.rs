//! The command line's decisions: which commands are carried out in place,
//! which become a request to the running daemon, and what such a request
//! looks like on the wire. Reading the arguments and talking to the socket
//! are the caller's part.

use vstd::prelude::*;
use crate::daemon_communication::server::command_named;
use crate::daemon_communication::server::lemma_command_words_differ;
use crate::daemon_communication::server::respond;
use crate::daemon_communication::server::short_lived_record;
use crate::daemon_communication::server::ActionData;
use crate::daemon_communication::server::Command;
use crate::daemon_communication::server::OutboundData;
use crate::daemon_communication::server::Rejection;
use crate::daemon_communication::server::Response;
use crate::events::BodyData;
use crate::events::ShortLivedData;
use crate::events::ShortLivedProcessLog;
use crate::json::lookup;
use crate::json::text_items;
use crate::json::lemma_array_view;
use crate::json::lemma_object_view;
use crate::json::item_views;
use crate::json::member_views;
use crate::json::JsonData;
use crate::json::JsonValue;
use crate::process_watcher::short_lived_data;
use crate::process_watcher::ProcessWatcher;
use crate::text::texts;
use crate::tracer_client::ClientData;
use crate::tracer_client::ClientOp;

verus! {

/// The parsed command line.
#[derive(Debug)]
pub struct Cli {
    pub command: Commands,
}

/// The subcommands.
#[derive(Debug)]
pub enum Commands {
    /// Write the configuration anew from the values given.
    Setup {
        api_key: Option<String>,
        service_url: Option<String>,
        process_polling_interval_ms: Option<u64>,
        batch_submission_interval_ms: Option<u64>,
    },
    /// Log a message to the service.
    Log { message: String },
    /// Send an alert to the service.
    Alert { message: String },
    /// Start the daemon.
    Init,
    /// Stop the daemon.
    Terminate,
    /// Remove the files that a daemon left behind.
    Cleanup,
    /// Show the configuration and the daemon's status.
    Info,
    /// Update the daemon to the latest version.
    Update,
    /// Start a new pipeline run.
    Start,
    /// End the current pipeline run.
    End,
    /// Test the configuration by a request to the service.
    Test,
    /// Upload a file to the service without the daemon.
    Upload { file_path: String },
    /// Ask the daemon to upload a file.
    UploadDaemon,
    /// Change the tags of the current pipeline run.
    Tag { tags: Vec<String> },
    /// Add the aliases for short-lived commands to the shell's start file.
    ApplyBashrc,
    /// Log a command that was run and has ended.
    LogShortLivedProcess { command: String },
    /// Show the version.
    Version,
}

/// A request to the running daemon.
#[derive(Debug, PartialEq, Eq)]
pub enum IpcRequest {
    Log { message: String },
    Alert { message: String },
    Terminate,
    Start,
    End,
    Tag { tags: Vec<String> },
    LogShortLivedProcess { log: ShortLivedProcessLog },
    Upload,
}

/// The mathematical content of an [`IpcRequest`].
pub enum RequestData {
    Log { message: Seq<char> },
    Alert { message: Seq<char> },
    Terminate,
    Start,
    End,
    Tag { tags: Seq<Seq<char>> },
    LogShortLivedProcess { log: ShortLivedData },
    Upload,
}

impl View for IpcRequest {
    type V = RequestData;

    open spec fn view(&self) -> RequestData {
        match self {
            IpcRequest::Log { message } => RequestData::Log { message: message@ },
            IpcRequest::Alert { message } => RequestData::Alert { message: message@ },
            IpcRequest::Terminate => RequestData::Terminate,
            IpcRequest::Start => RequestData::Start,
            IpcRequest::End => RequestData::End,
            IpcRequest::Tag { tags } => RequestData::Tag { tags: texts(tags@) },
            IpcRequest::LogShortLivedProcess { log } => RequestData::LogShortLivedProcess {
                log: log@,
            },
            IpcRequest::Upload => RequestData::Upload,
        }
    }
}

impl RequestData {
    /// The word by which the request names its command.
    pub open spec fn word(self) -> Seq<char> {
        match self {
            RequestData::Log { .. } => "log"@,
            RequestData::Alert { .. } => "alert"@,
            RequestData::Terminate => "terminate"@,
            RequestData::Start => "start"@,
            RequestData::End => "end"@,
            RequestData::Tag { .. } => "tag"@,
            RequestData::LogShortLivedProcess { .. } => "log_short_lived_process"@,
            RequestData::Upload => "upload"@,
        }
    }
}

/// The member `name` with a JSON string as its value.
pub open spec fn text_entry(name: Seq<char>, text: Seq<char>) -> (Seq<char>, JsonData) {
    (name, JsonData::Text(text))
}

/// The JSON array of the strings `texts`.
pub open spec fn text_array_data(texts: Seq<Seq<char>>) -> JsonData {
    JsonData::Array(Seq::new(texts.len(), |i: int| JsonData::Text(texts[i])))
}

/// The JSON object that describes a short-lived-process record: the strings
/// `tool_name` and `tool_pid` and the number `duration_sec`, in this order.
pub open spec fn record_document(log: ShortLivedData) -> JsonData {
    JsonData::Object(
        seq![
            text_entry("tool_name"@, log.tool_name),
            text_entry("tool_pid"@, log.tool_pid),
            ("duration_sec"@, JsonData::Number(log.duration_sec)),
        ],
    )
}

/// The JSON object that carries `request` to the daemon: first the member
/// `command` with the request's word, then, where the request carries
/// anything, the member that carries it: `message` for `log` and `alert`,
/// `tags` for `tag`, `log` for `log_short_lived_process`.
pub open spec fn request_document(request: RequestData) -> JsonData {
    let command = text_entry("command"@, request.word());
    JsonData::Object(
        match request {
            RequestData::Log { message } => seq![command, text_entry("message"@, message)],
            RequestData::Alert { message } => seq![command, text_entry("message"@, message)],
            RequestData::Tag { tags } => seq![command, ("tags"@, text_array_data(tags))],
            RequestData::LogShortLivedProcess { log } => seq![
                command,
                ("log"@, record_document(log)),
            ],
            _ => seq![command],
        },
    )
}

fn text_value(text: &str) -> (r: JsonValue)
    ensures
        r@ == JsonData::Text(text@),
{
    JsonValue::Text(text.to_owned())
}

fn text_array(items: &Vec<String>) -> (r: JsonValue)
    ensures
        r@ == text_array_data(texts(items@)),
{
    let mut values: Vec<JsonValue> = Vec::new();
    let mut i: usize = 0;
    while i < items.len()
        invariant
            i <= items.len(),
            values@.len() == i,
            forall|j: int| 0 <= j < i ==> (#[trigger] values@[j])@ == JsonData::Text(items@[j]@),
        decreases items.len() - i,
    {
        values.push(JsonValue::Text(items[i].clone()));
        i += 1;
    }
    proof {
        lemma_array_view(values);
        assert(item_views(values@) =~= text_array_data(texts(items@))->Array_0);
    }
    JsonValue::Array(values)
}

/// The JSON object that describes a short-lived-process record.
pub fn short_lived_document(log: &ShortLivedProcessLog) -> (r: JsonValue)
    ensures
        r@ == record_document(log@),
{
    let mut fields: Vec<(String, JsonValue)> = Vec::new();
    fields.push(("tool_name".to_owned(), text_value(log.tool_name.as_str())));
    fields.push(("tool_pid".to_owned(), text_value(log.tool_pid.as_str())));
    fields.push(("duration_sec".to_owned(), JsonValue::Number(log.duration_sec.clone())));
    proof {
        lemma_object_view(fields);
        assert(member_views(fields@) =~= record_document(log@)->Object_0);
    }
    JsonValue::Object(fields)
}

impl IpcRequest {
    /// The JSON object that carries the request to the daemon.
    pub fn document(&self) -> (r: JsonValue)
        ensures
            r@ == request_document(self@),
    {
        let mut fields: Vec<(String, JsonValue)> = Vec::new();
        match self {
            IpcRequest::Log { message } => {
                fields.push(("command".to_owned(), text_value("log")));
                fields.push(("message".to_owned(), text_value(message.as_str())));
            },
            IpcRequest::Alert { message } => {
                fields.push(("command".to_owned(), text_value("alert")));
                fields.push(("message".to_owned(), text_value(message.as_str())));
            },
            IpcRequest::Terminate => {
                fields.push(("command".to_owned(), text_value("terminate")));
            },
            IpcRequest::Start => {
                fields.push(("command".to_owned(), text_value("start")));
            },
            IpcRequest::End => {
                fields.push(("command".to_owned(), text_value("end")));
            },
            IpcRequest::Tag { tags } => {
                fields.push(("command".to_owned(), text_value("tag")));
                fields.push(("tags".to_owned(), text_array(tags)));
            },
            IpcRequest::LogShortLivedProcess { log } => {
                fields.push(("command".to_owned(), text_value("log_short_lived_process")));
                fields.push(("log".to_owned(), short_lived_document(log)));
            },
            IpcRequest::Upload => {
                fields.push(("command".to_owned(), text_value("upload")));
            },
        }
        proof {
            lemma_object_view(fields);
            assert(member_views(fields@) =~= request_document(self@)->Object_0);
        }
        JsonValue::Object(fields)
    }
}

/// What is to be done for a command that is not carried out in place.
#[derive(Debug)]
pub enum AsyncPlan {
    /// Send this request to the running daemon.
    Request(IpcRequest),
    /// Update the daemon to the latest version.
    Update,
    /// Write the configuration anew from these values.
    Setup {
        api_key: Option<String>,
        service_url: Option<String>,
        process_polling_interval_ms: Option<u64>,
        batch_submission_interval_ms: Option<u64>,
    },
    /// Upload this file without the daemon.
    UploadFile { file_path: String },
    /// Say that the command is not there yet.
    NotImplemented,
}

/// Whether `plan` is what is to be done for `commands`.
pub open spec fn is_plan_for(plan: AsyncPlan, commands: Commands) -> bool {
    match commands {
        Commands::Log { message } => plan == AsyncPlan::Request(IpcRequest::Log { message }),
        Commands::Alert { message } => plan == AsyncPlan::Request(IpcRequest::Alert { message }),
        Commands::Terminate => plan == AsyncPlan::Request(IpcRequest::Terminate),
        Commands::Start => plan == AsyncPlan::Request(IpcRequest::Start),
        Commands::End => plan == AsyncPlan::Request(IpcRequest::End),
        Commands::Update => plan == AsyncPlan::Update,
        Commands::Tag { tags } => plan == AsyncPlan::Request(IpcRequest::Tag { tags }),
        Commands::Setup {
            api_key,
            service_url,
            process_polling_interval_ms,
            batch_submission_interval_ms,
        } => plan == (AsyncPlan::Setup {
            api_key,
            service_url,
            process_polling_interval_ms,
            batch_submission_interval_ms,
        }),
        Commands::LogShortLivedProcess { command } => plan matches AsyncPlan::Request(
            IpcRequest::LogShortLivedProcess { log },
        ) && log@ == short_lived_data(command@),
        Commands::Upload { file_path } => plan == (AsyncPlan::UploadFile { file_path }),
        Commands::UploadDaemon => plan == AsyncPlan::Request(IpcRequest::Upload),
        _ => plan == AsyncPlan::NotImplemented,
    }
}

/// What is to be done for a command that is not carried out in place: the
/// request to send to the daemon, or the work to do without it.
pub fn run_async_command(commands: Commands) -> (plan: AsyncPlan)
    ensures
        is_plan_for(plan, commands),
{
    match commands {
        Commands::Log { message } => AsyncPlan::Request(IpcRequest::Log { message }),
        Commands::Alert { message } => AsyncPlan::Request(IpcRequest::Alert { message }),
        Commands::Terminate => AsyncPlan::Request(IpcRequest::Terminate),
        Commands::Start => AsyncPlan::Request(IpcRequest::Start),
        Commands::End => AsyncPlan::Request(IpcRequest::End),
        Commands::Update => AsyncPlan::Update,
        Commands::Tag { tags } => AsyncPlan::Request(IpcRequest::Tag { tags }),
        Commands::Setup {
            api_key,
            service_url,
            process_polling_interval_ms,
            batch_submission_interval_ms,
        } => AsyncPlan::Setup {
            api_key,
            service_url,
            process_polling_interval_ms,
            batch_submission_interval_ms,
        },
        Commands::LogShortLivedProcess { command } => AsyncPlan::Request(
            IpcRequest::LogShortLivedProcess {
                log: ProcessWatcher::gather_short_lived_process_data(command.as_str()),
            },
        ),
        Commands::Upload { file_path } => AsyncPlan::UploadFile { file_path },
        Commands::UploadDaemon => AsyncPlan::Request(IpcRequest::Upload),
        _ => AsyncPlan::NotImplemented,
    }
}

/// What is to be done for a command line.
#[derive(Debug)]
pub enum CliPlan {
    /// Start the daemon, by the steps of [`InitStep`].
    Init,
    /// Test the configuration by a request to the service.
    Test,
    /// Remove the files that a daemon left behind.
    Cleanup,
    /// Add the aliases to the shell's start file.
    ApplyBashrc,
    /// Show the configuration and the daemon's status.
    Info,
    /// Anything else, as [`run_async_command`] says.
    Async(AsyncPlan),
}

/// Whether `plan` is what is to be done for `cli`.
pub open spec fn is_cli_plan_for(plan: CliPlan, cli: Cli) -> bool {
    match cli.command {
        Commands::Init => plan is Init,
        Commands::Test => plan is Test,
        Commands::Cleanup => plan is Cleanup,
        Commands::ApplyBashrc => plan is ApplyBashrc,
        Commands::Info => plan is Info,
        other => plan matches CliPlan::Async(rest) && is_plan_for(rest, other),
    }
}

/// What is to be done for a command line: `init`, `test`, `cleanup`,
/// `apply-bashrc` and `info` are carried out in place, every other command
/// as [`run_async_command`] says.
pub fn process_cli(cli: Cli) -> (plan: CliPlan)
    ensures
        is_cli_plan_for(plan, cli),
{
    match cli.command {
        Commands::Init => CliPlan::Init,
        Commands::Test => CliPlan::Test,
        Commands::Cleanup => CliPlan::Cleanup,
        Commands::ApplyBashrc => CliPlan::ApplyBashrc,
        Commands::Info => CliPlan::Info,
        other => CliPlan::Async(run_async_command(other)),
    }
}

/// The steps of `init`, in order.
#[derive(Clone, Copy, Debug, PartialEq, Eq, Structural)]
pub enum InitStep {
    /// Test the configuration by a request to the service.
    TestConfig,
    /// The test failed: show the configuration, and stop.
    ShowConfigInfo,
    /// Start the daemon.
    StartDaemon,
    /// The start failed: say that a daemon may be running already, and stop.
    ReportStartFailure,
    /// Run the daemon's loop until it is told to terminate.
    Run,
    /// Remove the files that the daemon leaves behind.
    CleanUp,
    /// Nothing is left to do; `failed` says whether the command failed.
    Finished { failed: bool },
}

/// The step that follows `step`, given whether `step` succeeded. A failed
/// test of the configuration and a failed start are reported and end the
/// command without failing it; a failure to show the configuration, to run
/// or to clean up fails it.
pub open spec fn init_step_after(step: InitStep, succeeded: bool) -> InitStep {
    match step {
        InitStep::TestConfig => if succeeded {
            InitStep::StartDaemon
        } else {
            InitStep::ShowConfigInfo
        },
        InitStep::ShowConfigInfo => InitStep::Finished { failed: !succeeded },
        InitStep::StartDaemon => if succeeded {
            InitStep::Run
        } else {
            InitStep::ReportStartFailure
        },
        InitStep::ReportStartFailure => InitStep::Finished { failed: false },
        InitStep::Run => if succeeded {
            InitStep::CleanUp
        } else {
            InitStep::Finished { failed: true }
        },
        InitStep::CleanUp => InitStep::Finished { failed: !succeeded },
        InitStep::Finished { failed } => InitStep::Finished { failed },
    }
}

impl InitStep {
    /// The first step of `init`.
    pub fn first() -> (r: InitStep)
        ensures
            r == InitStep::TestConfig,
    {
        InitStep::TestConfig
    }

    /// The step that follows this one, given whether this one succeeded.
    pub fn next(self, succeeded: bool) -> (r: InitStep)
        ensures
            r == init_step_after(self, succeeded),
    {
        match self {
            InitStep::TestConfig => if succeeded {
                InitStep::StartDaemon
            } else {
                InitStep::ShowConfigInfo
            },
            InitStep::ShowConfigInfo => InitStep::Finished { failed: !succeeded },
            InitStep::StartDaemon => if succeeded {
                InitStep::Run
            } else {
                InitStep::ReportStartFailure
            },
            InitStep::ReportStartFailure => InitStep::Finished { failed: false },
            InitStep::Run => if succeeded {
                InitStep::CleanUp
            } else {
                InitStep::Finished { failed: true }
            },
            InitStep::CleanUp => InitStep::Finished { failed: !succeeded },
            InitStep::Finished { failed } => InitStep::Finished { failed },
        }
    }
}

/// What the server makes of `request` in the state `state` at `now`.
pub open spec fn answer_to(state: ClientData, request: RequestData, now: u64) -> Response {
    match request {
        RequestData::Log { message } => Response {
            state,
            action: ActionData::Send(
                OutboundData {
                    service_url: state.service_url,
                    api_key: state.api_key,
                    body: BodyData::Log { message },
                },
            ),
        },
        RequestData::Alert { message } => Response {
            state,
            action: ActionData::Send(
                OutboundData {
                    service_url: state.service_url,
                    api_key: state.api_key,
                    body: BodyData::Alert { message },
                },
            ),
        },
        RequestData::Terminate => Response { state, action: ActionData::Shutdown },
        RequestData::Start => Response {
            state,
            action: ActionData::Send(
                OutboundData {
                    service_url: state.service_url,
                    api_key: state.api_key,
                    body: BodyData::RunStart,
                },
            ),
        },
        RequestData::End => Response {
            state,
            action: ActionData::Send(
                OutboundData {
                    service_url: state.service_url,
                    api_key: state.api_key,
                    body: BodyData::RunEnd,
                },
            ),
        },
        RequestData::Tag { tags } => Response {
            state,
            action: ActionData::Send(
                OutboundData {
                    service_url: state.service_url,
                    api_key: state.api_key,
                    body: BodyData::TagUpdate { tags },
                },
            ),
        },
        RequestData::LogShortLivedProcess { log } => Response {
            state: state.apply(ClientOp::ShortLived { log, now }),
            action: ActionData::Idle,
        },
        RequestData::Upload => Response {
            state,
            action: ActionData::Reject(Rejection::UnknownCommand),
        },
    }
}

/// A record is read back from its document as it was written.
pub proof fn lemma_record_survives_its_document(log: ShortLivedData)
    ensures
        short_lived_record(record_document(log)) == Some(log),
{
    reveal_strlit("tool_name");
    reveal_strlit("tool_pid");
    reveal_strlit("duration_sec");
    assert("tool_name"@.len() == 9 && "tool_pid"@.len() == 8 && "duration_sec"@.len() == 12);
    let all = record_document(log)->Object_0;
    let two = all.drop_first();
    let one = two.drop_first();
    assert(one.drop_first().len() == 0);
    assert(lookup(one, "duration_sec"@) == Some(all[2].1));
    assert(lookup(two, "duration_sec"@) == Some(all[2].1));
    assert(lookup(two, "tool_pid"@) == Some(all[1].1));
}

/// The texts of the JSON array of some strings are those strings.
pub proof fn lemma_text_array_is_read_back(texts: Seq<Seq<char>>)
    ensures
        text_array_data(texts).text_list() == Some(texts),
{
    let items = text_array_data(texts)->Array_0;
    assert(text_items(items).unwrap() =~= texts);
}

/// The server understands every request as the command line means it: the
/// document of a request brings about the event, the log entry or the
/// shutdown that the request stands for. The server of this library knows
/// no `upload` and rejects it.
pub proof fn lemma_request_is_understood(state: ClientData, request: RequestData, now: u64)
    ensures
        respond(state, request_document(request), now) == answer_to(state, request, now),
{
    lemma_command_words_differ();
    reveal_strlit("command");
    reveal_strlit("message");
    reveal_strlit("tags");
    reveal_strlit("log");
    reveal_strlit("upload");
    reveal_strlit("terminate");
    reveal_strlit("alert");
    reveal_strlit("start");
    reveal_strlit("end");
    reveal_strlit("refresh_config");
    reveal_strlit("tag");
    reveal_strlit("log_short_lived_process");
    reveal_strlit("ping");
    let fields = request_document(request)->Object_0;
    assert("command"@.len() == 7 && "message"@[0] == 'm' && "tags"@.len() == 4 && "log"@.len()
        == 3);
    assert("upload"@.len() == 6);
    assert(command_named("upload"@) == Command::Unknown);
    assert(lookup(fields, "command"@) == Some(fields[0].1));
    if fields.len() == 2 {
        let rest = fields.drop_first();
        assert(rest[0] == fields[1]);
        assert(lookup(rest, fields[1].0) == Some(fields[1].1));
        assert(lookup(fields, fields[1].0) == Some(fields[1].1));
    }
    match request {
        RequestData::Tag { tags } => {
            lemma_text_array_is_read_back(tags);
        },
        RequestData::LogShortLivedProcess { log } => {
            lemma_record_survives_its_document(log);
        },
        _ => {},
    }
}

} // verus!
