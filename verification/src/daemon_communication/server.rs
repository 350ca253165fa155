//! The command server's decisions: what one message received on the local
//! socket asks for, what it does to the daemon's state, and what is left for
//! the caller to do. Accepting connections, sending events and reading the
//! configuration are the caller's part.

use vstd::prelude::*;
use vstd::utf8::decode_utf8;
use vstd::utf8::valid_utf8;
use crate::config_manager::Config;
use crate::events::BodyData;
use crate::events::EventBody;
use crate::events::ShortLivedData;
use crate::events::ShortLivedProcessLog;
use crate::json::find;
use crate::json::json_document;
use crate::json::lookup;
use crate::json::member_views;
use crate::json::parse_json;
use crate::json::JsonData;
use crate::json::JsonValue;
use crate::text::text_eq;
use crate::text::utf8_text;
use crate::tracer_client::ClientData;
use crate::tracer_client::ClientOp;
use crate::tracer_client::TracerClient;

verus! {

/// The commands that the server knows, and `Unknown` for any other word.
#[derive(Clone, Copy, Debug, PartialEq, Eq, Structural)]
pub enum Command {
    Log,
    Alert,
    Start,
    End,
    RefreshConfig,
    Tag,
    LogShortLivedProcess,
    Terminate,
    Ping,
    Unknown,
}

/// The command that a word names.
pub open spec fn command_named(word: Seq<char>) -> Command {
    if word == "terminate"@ {
        Command::Terminate
    } else if word == "log"@ {
        Command::Log
    } else if word == "alert"@ {
        Command::Alert
    } else if word == "start"@ {
        Command::Start
    } else if word == "end"@ {
        Command::End
    } else if word == "refresh_config"@ {
        Command::RefreshConfig
    } else if word == "tag"@ {
        Command::Tag
    } else if word == "log_short_lived_process"@ {
        Command::LogShortLivedProcess
    } else if word == "ping"@ {
        Command::Ping
    } else {
        Command::Unknown
    }
}

impl Command {
    /// The command that `word` names; `Unknown` where it names none.
    pub fn from_word(word: &str) -> (r: Command)
        ensures
            r == command_named(word@),
    {
        if text_eq(word, "terminate") {
            Command::Terminate
        } else if text_eq(word, "log") {
            Command::Log
        } else if text_eq(word, "alert") {
            Command::Alert
        } else if text_eq(word, "start") {
            Command::Start
        } else if text_eq(word, "end") {
            Command::End
        } else if text_eq(word, "refresh_config") {
            Command::RefreshConfig
        } else if text_eq(word, "tag") {
            Command::Tag
        } else if text_eq(word, "log_short_lived_process") {
            Command::LogShortLivedProcess
        } else if text_eq(word, "ping") {
            Command::Ping
        } else {
            Command::Unknown
        }
    }
}

/// An event to send to the remote service at once, with the service address
/// and the key that were configured when the command was handled.
#[derive(Debug, PartialEq, Eq)]
pub struct OutboundEvent {
    pub service_url: String,
    pub api_key: String,
    pub body: EventBody,
}

/// The mathematical content of an [`OutboundEvent`].
pub struct OutboundData {
    pub service_url: Seq<char>,
    pub api_key: Seq<char>,
    pub body: BodyData,
}

impl View for OutboundEvent {
    type V = OutboundData;

    open spec fn view(&self) -> OutboundData {
        OutboundData {
            service_url: self.service_url@,
            api_key: self.api_key@,
            body: self.body@,
        }
    }
}

/// The content of an optional outbound event.
pub open spec fn outbound_view(output: Option<OutboundEvent>) -> Option<OutboundData> {
    match output {
        Some(event) => Some(event@),
        None => None,
    }
}

/// Why a message was turned down.
#[derive(Clone, Copy, Debug, PartialEq, Eq, Structural)]
pub enum Rejection {
    /// The bytes are not UTF-8 text.
    NotUtf8,
    /// The text is not JSON.
    InvalidJson,
    /// The document is not a JSON object.
    NotAnObject,
    /// The object has no member `command` that is a string.
    MissingCommand,
    /// The command is not one that the server knows.
    UnknownCommand,
    /// A member that the command needs is absent or of the wrong type.
    MissingField,
}

/// What is left for the caller to do once a message has been handled.
#[derive(Debug, PartialEq, Eq)]
pub enum ServerAction {
    /// Nothing: wait for the next connection.
    Idle,
    /// Send this event to the remote service, then wait for the next
    /// connection, whether or not the sending succeeds.
    Send(OutboundEvent),
    /// Load the configuration and apply it with
    /// [`process_refresh_config_command`].
    ReloadConfig,
    /// Signal cancellation and leave the accept loop.
    Shutdown,
    /// Report the message as invalid and wait for the next connection.
    Reject(Rejection),
}

/// The mathematical content of a [`ServerAction`].
pub enum ActionData {
    Idle,
    Send(OutboundData),
    ReloadConfig,
    Shutdown,
    Reject(Rejection),
}

impl ActionData {
    /// Whether the accept loop goes on after this action. Only a shutdown
    /// ends it.
    pub open spec fn keeps_serving(self) -> bool {
        !(self is Shutdown)
    }

    /// Whether this action signals cancellation to the kernel-event readers.
    pub open spec fn cancels(self) -> bool {
        self is Shutdown
    }
}

impl View for ServerAction {
    type V = ActionData;

    open spec fn view(&self) -> ActionData {
        match self {
            ServerAction::Idle => ActionData::Idle,
            ServerAction::Send(event) => ActionData::Send(event@),
            ServerAction::ReloadConfig => ActionData::ReloadConfig,
            ServerAction::Shutdown => ActionData::Shutdown,
            ServerAction::Reject(reason) => ActionData::Reject(*reason),
        }
    }
}

impl ServerAction {
    /// Whether the accept loop goes on after this action.
    pub fn keeps_serving(&self) -> (r: bool)
        ensures
            r == self@.keeps_serving(),
    {
        match self {
            ServerAction::Shutdown => false,
            _ => true,
        }
    }

    /// Whether this action signals cancellation to the kernel-event readers.
    pub fn cancels(&self) -> (r: bool)
        ensures
            r == self@.cancels(),
    {
        match self {
            ServerAction::Shutdown => true,
            _ => false,
        }
    }
}

/// The text of the member `key`, where the object has one that is a string.
pub open spec fn text_member(fields: Seq<(Seq<char>, JsonData)>, key: Seq<char>) -> Option<
    Seq<char>,
> {
    match lookup(fields, key) {
        Some(value) => value.text(),
        None => None,
    }
}

/// The printed form of the member `key`, where the object has one that is a
/// number.
pub open spec fn number_member(fields: Seq<(Seq<char>, JsonData)>, key: Seq<char>) -> Option<
    Seq<char>,
> {
    match lookup(fields, key) {
        Some(value) => value.number(),
        None => None,
    }
}

/// The event that a `log` command asks to send: it needs a member `message`
/// that is a string.
pub open spec fn log_request(
    service_url: Seq<char>,
    api_key: Seq<char>,
    fields: Seq<(Seq<char>, JsonData)>,
) -> Option<OutboundData> {
    match text_member(fields, "message"@) {
        Some(message) => Some(
            OutboundData { service_url, api_key, body: BodyData::Log { message } },
        ),
        None => None,
    }
}

/// The event that an `alert` command asks to send: it needs a member
/// `message` that is a string.
pub open spec fn alert_request(
    service_url: Seq<char>,
    api_key: Seq<char>,
    fields: Seq<(Seq<char>, JsonData)>,
) -> Option<OutboundData> {
    match text_member(fields, "message"@) {
        Some(message) => Some(
            OutboundData { service_url, api_key, body: BodyData::Alert { message } },
        ),
        None => None,
    }
}

/// The tags of a `tag` command: it needs a member `tags` that is an array of
/// strings.
pub open spec fn tags_member(fields: Seq<(Seq<char>, JsonData)>) -> Option<Seq<Seq<char>>> {
    match lookup(fields, "tags"@) {
        Some(value) => value.text_list(),
        None => None,
    }
}

/// The event that a `tag` command asks to send.
pub open spec fn tag_request(
    service_url: Seq<char>,
    api_key: Seq<char>,
    fields: Seq<(Seq<char>, JsonData)>,
) -> Option<OutboundData> {
    match tags_member(fields) {
        Some(tags) => Some(
            OutboundData { service_url, api_key, body: BodyData::TagUpdate { tags } },
        ),
        None => None,
    }
}

/// The record that a JSON value describes: an object with the strings
/// `tool_name` and `tool_pid` and the number `duration_sec`.
pub open spec fn short_lived_record(value: JsonData) -> Option<ShortLivedData> {
    match value.members() {
        Some(fields) => match (
            text_member(fields, "tool_name"@),
            text_member(fields, "tool_pid"@),
            number_member(fields, "duration_sec"@),
        ) {
            (Some(tool_name), Some(tool_pid), Some(duration_sec)) => Some(
                ShortLivedData { tool_name, tool_pid, duration_sec },
            ),
            _ => None,
        },
        None => None,
    }
}

/// The record of a `log_short_lived_process` command: it needs a member
/// `log` that describes one.
pub open spec fn short_lived_member(fields: Seq<(Seq<char>, JsonData)>) -> Option<ShortLivedData> {
    match lookup(fields, "log"@) {
        Some(value) => short_lived_record(value),
        None => None,
    }
}

fn find_text(fields: &Vec<(String, JsonValue)>, key: &str) -> (r: Option<String>)
    ensures
        r is Some <==> text_member(member_views(fields@), key@) is Some,
        r matches Some(s) ==> text_member(member_views(fields@), key@) == Some(s@),
{
    match find(fields, key) {
        Some(value) => match value.as_text() {
            Some(s) => Some(s.to_owned()),
            None => None,
        },
        None => None,
    }
}

fn find_number(fields: &Vec<(String, JsonValue)>, key: &str) -> (r: Option<String>)
    ensures
        r is Some <==> number_member(member_views(fields@), key@) is Some,
        r matches Some(s) ==> number_member(member_views(fields@), key@) == Some(s@),
{
    match find(fields, key) {
        Some(value) => match value.as_number() {
            Some(s) => Some(s.to_owned()),
            None => None,
        },
        None => None,
    }
}

/// Reads a short-lived-process record from a JSON value. A value that is
/// not an object, or lacks one of the three members, or has one of another
/// type, gives `None`.
pub fn parse_short_lived_log(value: &JsonValue) -> (r: Option<ShortLivedProcessLog>)
    ensures
        match r {
            Some(log) => Some(log@),
            None => None,
        } == short_lived_record(value@),
{
    let fields = match value.as_object() {
        Some(fields) => fields,
        None => {
            return None;
        },
    };
    let tool_name = match find_text(fields, "tool_name") {
        Some(s) => s,
        None => {
            return None;
        },
    };
    let tool_pid = match find_text(fields, "tool_pid") {
        Some(s) => s,
        None => {
            return None;
        },
    };
    let duration_sec = match find_number(fields, "duration_sec") {
        Some(s) => s,
        None => {
            return None;
        },
    };
    Some(ShortLivedProcessLog { tool_name, tool_pid, duration_sec })
}

/// The `log` command: a log event to send, or `None` where the object has
/// no member `message` that is a string.
pub fn process_log_command(
    service_url: &str,
    api_key: &str,
    object: &Vec<(String, JsonValue)>,
) -> (r: Option<OutboundEvent>)
    ensures
        outbound_view(r) == log_request(service_url@, api_key@, member_views(object@)),
{
    match find_text(object, "message") {
        Some(message) => Some(
            OutboundEvent {
                service_url: service_url.to_owned(),
                api_key: api_key.to_owned(),
                body: EventBody::Log { message },
            },
        ),
        None => None,
    }
}

/// The `alert` command: an alert event to send, or `None` where the object
/// has no member `message` that is a string.
pub fn process_alert_command(
    service_url: &str,
    api_key: &str,
    object: &Vec<(String, JsonValue)>,
) -> (r: Option<OutboundEvent>)
    ensures
        outbound_view(r) == alert_request(service_url@, api_key@, member_views(object@)),
{
    match find_text(object, "message") {
        Some(message) => Some(
            OutboundEvent {
                service_url: service_url.to_owned(),
                api_key: api_key.to_owned(),
                body: EventBody::Alert { message },
            },
        ),
        None => None,
    }
}

/// The `start` command: the event that opens a pipeline run.
pub fn process_start_run_command(service_url: &str, api_key: &str) -> (r: Option<OutboundEvent>)
    ensures
        outbound_view(r) == Some(
            OutboundData { service_url: service_url@, api_key: api_key@, body: BodyData::RunStart },
        ),
{
    Some(
        OutboundEvent {
            service_url: service_url.to_owned(),
            api_key: api_key.to_owned(),
            body: EventBody::RunStart,
        },
    )
}

/// The `end` command: the event that closes the pipeline run.
pub fn process_end_run_command(service_url: &str, api_key: &str) -> (r: Option<OutboundEvent>)
    ensures
        outbound_view(r) == Some(
            OutboundData { service_url: service_url@, api_key: api_key@, body: BodyData::RunEnd },
        ),
{
    Some(
        OutboundEvent {
            service_url: service_url.to_owned(),
            api_key: api_key.to_owned(),
            body: EventBody::RunEnd,
        },
    )
}

/// The `refresh_config` command, once the configuration has been loaded:
/// the daemon's state and the shared copy both take the loaded values.
pub fn process_refresh_config_command(
    tracer_client: &mut TracerClient,
    config: &mut Config,
    config_file: &Config,
)
    ensures
        final(tracer_client)@ == old(tracer_client)@.apply(
            ClientOp::Reload { config: config_file@ },
        ),
        final(config)@ == config_file@,
{
    tracer_client.reload_config_file(config_file);
    *config = config_file.clone();
}

/// The `tag` command: a tag update to send, or `None` where the object has
/// no member `tags` that is an array of strings.
pub fn process_tag_command(
    service_url: &str,
    api_key: &str,
    object: &Vec<(String, JsonValue)>,
) -> (r: Option<OutboundEvent>)
    ensures
        outbound_view(r) == tag_request(service_url@, api_key@, member_views(object@)),
{
    let tags = match find(object, "tags") {
        Some(value) => match value.as_text_list() {
            Some(tags) => tags,
            None => {
                return None;
            },
        },
        None => {
            return None;
        },
    };
    Some(
        OutboundEvent {
            service_url: service_url.to_owned(),
            api_key: api_key.to_owned(),
            body: EventBody::TagUpdate { tags },
        },
    )
}

/// The `log_short_lived_process` command: where the object has a member
/// `log` that describes a record, one short-lived-process event made at
/// `now` joins the log and the result is `true`; otherwise nothing changes
/// and the result is `false`.
pub fn process_log_short_lived_process_command(
    tracer_client: &mut TracerClient,
    object: &Vec<(String, JsonValue)>,
    now: u64,
) -> (logged: bool)
    ensures
        logged == short_lived_member(member_views(object@)) is Some,
        final(tracer_client)@ == match short_lived_member(member_views(object@)) {
            Some(log) => old(tracer_client)@.apply(ClientOp::ShortLived { log, now }),
            None => old(tracer_client)@,
        },
{
    let log = match find(object, "log") {
        Some(value) => match parse_short_lived_log(value) {
            Some(log) => log,
            None => {
                return false;
            },
        },
        None => {
            return false;
        },
    };
    tracer_client.fill_logs_with_short_lived_process(log, now);
    true
}

/// What handling one message comes to: the daemon's state afterwards and
/// what is left for the caller to do.
pub struct Response {
    pub state: ClientData,
    pub action: ActionData,
}

/// The action for a command that asks to send an event, or the rejection of
/// a command whose members do not give one.
pub open spec fn send_or_reject(request: Option<OutboundData>) -> ActionData {
    match request {
        Some(event) => ActionData::Send(event),
        None => ActionData::Reject(Rejection::MissingField),
    }
}

/// What the command `command` with the members `fields` comes to in the
/// state `state` at the time `now`.
pub open spec fn dispatch(
    state: ClientData,
    command: Command,
    fields: Seq<(Seq<char>, JsonData)>,
    now: u64,
) -> Response {
    match command {
        Command::Terminate => Response { state, action: ActionData::Shutdown },
        Command::Log => Response {
            state,
            action: send_or_reject(log_request(state.service_url, state.api_key, fields)),
        },
        Command::Alert => Response {
            state,
            action: send_or_reject(alert_request(state.service_url, state.api_key, fields)),
        },
        Command::Start => Response {
            state,
            action: ActionData::Send(
                OutboundData {
                    service_url: state.service_url,
                    api_key: state.api_key,
                    body: BodyData::RunStart,
                },
            ),
        },
        Command::End => Response {
            state,
            action: ActionData::Send(
                OutboundData {
                    service_url: state.service_url,
                    api_key: state.api_key,
                    body: BodyData::RunEnd,
                },
            ),
        },
        Command::RefreshConfig => Response { state, action: ActionData::ReloadConfig },
        Command::Tag => Response {
            state,
            action: send_or_reject(tag_request(state.service_url, state.api_key, fields)),
        },
        Command::LogShortLivedProcess => match short_lived_member(fields) {
            Some(log) => Response {
                state: state.apply(ClientOp::ShortLived { log, now }),
                action: ActionData::Idle,
            },
            None => Response { state, action: ActionData::Reject(Rejection::MissingField) },
        },
        Command::Ping => Response { state, action: ActionData::Idle },
        Command::Unknown => Response {
            state,
            action: ActionData::Reject(Rejection::UnknownCommand),
        },
    }
}

/// What a JSON document received as a message comes to.
pub open spec fn respond(state: ClientData, document: JsonData, now: u64) -> Response {
    match document.members() {
        None => Response { state, action: ActionData::Reject(Rejection::NotAnObject) },
        Some(fields) => match text_member(fields, "command"@) {
            None => Response { state, action: ActionData::Reject(Rejection::MissingCommand) },
            Some(word) => dispatch(state, command_named(word), fields, now),
        },
    }
}

/// What a message comes to, given the document that was read from its text,
/// if one was.
pub open spec fn respond_to(state: ClientData, document: Option<JsonData>, now: u64) -> Response {
    match document {
        None => Response { state, action: ActionData::Reject(Rejection::InvalidJson) },
        Some(document) => respond(state, document, now),
    }
}

fn send_or_reject_output(output: Option<OutboundEvent>) -> (action: ServerAction)
    ensures
        action@ == send_or_reject(outbound_view(output)),
{
    match output {
        Some(event) => ServerAction::Send(event),
        None => ServerAction::Reject(Rejection::MissingField),
    }
}

/// Handles one JSON document received as a message at `now`.
///
/// A document that is not an object, has no string member `command`, names
/// a command that the server does not know, or lacks what its command needs
/// is rejected and changes nothing. `log`, `alert`, `start`, `end` and `tag`
/// ask to send an event with the service address and key of this moment.
/// `log_short_lived_process` appends one event to the log. `refresh_config`
/// asks for the configuration to be loaded, `terminate` for the shutdown,
/// and `ping` for nothing.
pub fn handle_document(tracer_client: &mut TracerClient, document: &JsonValue, now: u64) -> (action:
    ServerAction)
    ensures
        final(tracer_client)@ == respond(old(tracer_client)@, document@, now).state,
        action@ == respond(old(tracer_client)@, document@, now).action,
{
    let object = match document.as_object() {
        Some(object) => object,
        None => {
            return ServerAction::Reject(Rejection::NotAnObject);
        },
    };
    let command = match find(object, "command") {
        Some(value) => match value.as_text() {
            Some(word) => Command::from_word(word),
            None => {
                return ServerAction::Reject(Rejection::MissingCommand);
            },
        },
        None => {
            return ServerAction::Reject(Rejection::MissingCommand);
        },
    };
    match command {
        Command::Terminate => ServerAction::Shutdown,
        Command::Log => send_or_reject_output(
            process_log_command(
                tracer_client.get_service_url(),
                tracer_client.get_api_key(),
                object,
            ),
        ),
        Command::Alert => send_or_reject_output(
            process_alert_command(
                tracer_client.get_service_url(),
                tracer_client.get_api_key(),
                object,
            ),
        ),
        Command::Start => send_or_reject_output(
            process_start_run_command(
                tracer_client.get_service_url(),
                tracer_client.get_api_key(),
            ),
        ),
        Command::End => send_or_reject_output(
            process_end_run_command(tracer_client.get_service_url(), tracer_client.get_api_key()),
        ),
        Command::RefreshConfig => ServerAction::ReloadConfig,
        Command::Tag => send_or_reject_output(
            process_tag_command(
                tracer_client.get_service_url(),
                tracer_client.get_api_key(),
                object,
            ),
        ),
        Command::LogShortLivedProcess => {
            if process_log_short_lived_process_command(tracer_client, object, now) {
                ServerAction::Idle
            } else {
                ServerAction::Reject(Rejection::MissingField)
            }
        },
        Command::Ping => ServerAction::Idle,
        Command::Unknown => ServerAction::Reject(Rejection::UnknownCommand),
    }
}

/// Handles the text of one message received at `now`: text that is not JSON
/// is rejected and changes nothing; any other is handled as
/// [`handle_document`] handles the document read from it.
pub fn handle_message(tracer_client: &mut TracerClient, message: &str, now: u64) -> (action:
    ServerAction)
    ensures
        final(tracer_client)@ == respond_to(
            old(tracer_client)@,
            json_document(message@),
            now,
        ).state,
        action@ == respond_to(old(tracer_client)@, json_document(message@), now).action,
{
    match parse_json(message) {
        Some(document) => handle_document(tracer_client, &document, now),
        None => ServerAction::Reject(Rejection::InvalidJson),
    }
}

/// What the bytes of a message come to: bytes that are not UTF-8 text are
/// rejected, any others come to what their text does.
pub open spec fn respond_to_bytes(state: ClientData, bytes: Seq<u8>, now: u64) -> Response {
    if valid_utf8(bytes) {
        respond_to(state, json_document(decode_utf8(bytes)), now)
    } else {
        Response { state, action: ActionData::Reject(Rejection::NotUtf8) }
    }
}

/// Handles the bytes of one message, read from a connection to its end and
/// received at `now`. Bytes that are not UTF-8 text are rejected and change
/// nothing; any others are handled as [`handle_message`] handles their text.
pub fn handle_request(tracer_client: &mut TracerClient, bytes: &[u8], now: u64) -> (action:
    ServerAction)
    ensures
        final(tracer_client)@ == respond_to_bytes(old(tracer_client)@, bytes@, now).state,
        action@ == respond_to_bytes(old(tracer_client)@, bytes@, now).action,
{
    match utf8_text(bytes) {
        Some(message) => handle_message(tracer_client, message, now),
        None => ServerAction::Reject(Rejection::NotUtf8),
    }
}

/// The server between two connections: the daemon's state, and whether the
/// accept loop is still running.
pub struct ServerData {
    pub client: ClientData,
    pub serving: bool,
}

/// The server after one more message, whose bytes arrive at `now`. A server
/// that has left its accept loop takes no message.
pub open spec fn serve(server: ServerData, bytes: Seq<u8>, now: u64) -> ServerData {
    if server.serving {
        ServerData {
            client: respond_to_bytes(server.client, bytes, now).state,
            serving: respond_to_bytes(server.client, bytes, now).action.keeps_serving(),
        }
    } else {
        server
    }
}

/// Whether a document is an object whose member `command` is the string
/// `word`.
pub open spec fn names_command(document: JsonData, word: Seq<char>) -> bool {
    match document.members() {
        None => false,
        Some(fields) => text_member(fields, "command"@) == Some(word),
    }
}

/// Whether the bytes of a message carry the command `word`: they are the
/// text of a JSON object whose member `command` is that string.
pub open spec fn carries_command(bytes: Seq<u8>, word: Seq<char>) -> bool {
    valid_utf8(bytes) && match json_document(decode_utf8(bytes)) {
        None => false,
        Some(document) => names_command(document, word),
    }
}

/// Whether the bytes of a message are none that the server can take a
/// command from: bytes that are not UTF-8 text, text that is not JSON, a
/// document that is not an object, or an object without a string member
/// `command`.
pub open spec fn is_malformed(bytes: Seq<u8>) -> bool {
    !valid_utf8(bytes) || match json_document(decode_utf8(bytes)) {
        None => true,
        Some(document) => match document.members() {
            None => true,
            Some(fields) => text_member(fields, "command"@) is None,
        },
    }
}

/// A malformed message is rejected, changes nothing and leaves the server
/// in its accept loop; a `ping` that comes after it is answered as on any
/// running server: it asks for nothing and changes nothing.
pub proof fn lemma_malformed_message_is_survived(
    server: ServerData,
    malformed: Seq<u8>,
    now: u64,
    ping: Seq<u8>,
    later: u64,
)
    requires
        server.serving,
        is_malformed(malformed),
        carries_command(ping, "ping"@),
    ensures
        respond_to_bytes(server.client, malformed, now).action is Reject,
        serve(server, malformed, now) == server,
        respond_to_bytes(serve(server, malformed, now).client, ping, later).action
            == ActionData::Idle,
        serve(serve(server, malformed, now), ping, later) == server,
{
    lemma_command_words_differ();
}

/// Only `terminate` ends the accept loop: whatever else arrives, the server
/// goes on serving.
pub proof fn lemma_only_terminate_stops_the_server(server: ServerData, bytes: Seq<u8>, now: u64)
    requires
        server.serving,
    ensures
        !serve(server, bytes, now).serving <==> carries_command(bytes, "terminate"@),
{
    lemma_command_words_differ();
}

/// A `terminate` message asks for the shutdown: the action signals
/// cancellation, the accept loop ends, and the daemon's state is as it was.
pub proof fn lemma_terminate_shuts_down(server: ServerData, bytes: Seq<u8>, now: u64)
    requires
        server.serving,
        carries_command(bytes, "terminate"@),
    ensures
        respond_to_bytes(server.client, bytes, now).action == ActionData::Shutdown,
        respond_to_bytes(server.client, bytes, now).action.cancels(),
        !serve(server, bytes, now).serving,
        serve(server, bytes, now).client == server.client,
{
}

/// No message but one that carries `log_short_lived_process` with its
/// record changes the daemon's state, and that one appends exactly one
/// event to the log and changes nothing else.
pub proof fn lemma_messages_append_at_most_one_event(state: ClientData, bytes: Seq<u8>, now: u64)
    ensures
        ({
            let after = respond_to_bytes(state, bytes, now).state;
            ||| after == state
            ||| exists|log: ShortLivedData|
                after == state.apply(ClientOp::ShortLived { log, now }) && carries_command(
                    bytes,
                    "log_short_lived_process"@,
                )
        }),
{
    lemma_command_words_differ();
    reveal_strlit("log_short_lived_process");
    reveal_strlit("terminate");
    reveal_strlit("log");
    reveal_strlit("alert");
    reveal_strlit("start");
    reveal_strlit("end");
    reveal_strlit("refresh_config");
    reveal_strlit("tag");
    reveal_strlit("ping");
    assert("log_short_lived_process"@.len() == 23);
}

/// The words of the commands are pairwise different, so each names its own
/// command.
pub proof fn lemma_command_words_differ()
    ensures
        command_named("terminate"@) == Command::Terminate,
        command_named("log"@) == Command::Log,
        command_named("alert"@) == Command::Alert,
        command_named("start"@) == Command::Start,
        command_named("end"@) == Command::End,
        command_named("refresh_config"@) == Command::RefreshConfig,
        command_named("tag"@) == Command::Tag,
        command_named("log_short_lived_process"@) == Command::LogShortLivedProcess,
        command_named("ping"@) == Command::Ping,
        forall|word: Seq<char>| command_named(word) == Command::Terminate <==> word == "terminate"@,
{
    reveal_strlit("terminate");
    reveal_strlit("log");
    reveal_strlit("alert");
    reveal_strlit("start");
    reveal_strlit("end");
    reveal_strlit("refresh_config");
    reveal_strlit("tag");
    reveal_strlit("log_short_lived_process");
    reveal_strlit("ping");
    assert("terminate"@.len() == 9);
    assert("log"@.len() == 3);
    assert("alert"@.len() == 5);
    assert("start"@.len() == 5);
    assert("end"@.len() == 3);
    assert("refresh_config"@.len() == 14);
    assert("tag"@.len() == 3);
    assert("log_short_lived_process"@.len() == 23);
    assert("ping"@.len() == 4);
    assert("log"@[0] == 'l' && "end"@[0] == 'e' && "tag"@[0] == 't');
    assert("alert"@[0] == 'a' && "start"@[0] == 's');
}

} // verus!
