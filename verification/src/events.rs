//! Event records: one structured observation each, as the daemon queues them
//! for submission or sends them at once.

use vstd::prelude::*;
use crate::text::clone_texts;
use crate::text::texts;

verus! {

/// What an event reports.
#[derive(Clone, Copy, Debug, PartialEq, Eq, Structural)]
pub enum EventKind {
    ProcessStart,
    ProcessEnd,
    ShortLivedProcess,
    Log,
    Alert,
    TagUpdate,
    RunStart,
    RunEnd,
}

/// A process whose whole life fell between two polls, as the command line or
/// the kernel probe reports it. `duration_sec` keeps the printed form of the
/// number of seconds.
#[derive(Debug, PartialEq, Eq)]
pub struct ShortLivedProcessLog {
    pub tool_name: String,
    pub tool_pid: String,
    pub duration_sec: String,
}

/// The texts of a [`ShortLivedProcessLog`].
pub struct ShortLivedData {
    pub tool_name: Seq<char>,
    pub tool_pid: Seq<char>,
    pub duration_sec: Seq<char>,
}

impl View for ShortLivedProcessLog {
    type V = ShortLivedData;

    open spec fn view(&self) -> ShortLivedData {
        ShortLivedData {
            tool_name: self.tool_name@,
            tool_pid: self.tool_pid@,
            duration_sec: self.duration_sec@,
        }
    }
}

impl Clone for ShortLivedProcessLog {
    fn clone(&self) -> (r: ShortLivedProcessLog)
        ensures
            r@ == self@,
    {
        ShortLivedProcessLog {
            tool_name: self.tool_name.clone(),
            tool_pid: self.tool_pid.clone(),
            duration_sec: self.duration_sec.clone(),
        }
    }
}

/// The fields of an event, by kind.
#[derive(Debug, PartialEq, Eq)]
pub enum EventBody {
    ProcessStart { name: String, pid: u32, start_time: u64 },
    ProcessEnd { name: String, pid: u32, exit_status: Option<i32> },
    ShortLivedProcess { log: ShortLivedProcessLog },
    Log { message: String },
    Alert { message: String },
    TagUpdate { tags: Vec<String> },
    RunStart,
    RunEnd,
}

/// The mathematical content of an [`EventBody`].
pub enum BodyData {
    ProcessStart { name: Seq<char>, pid: u32, start_time: u64 },
    ProcessEnd { name: Seq<char>, pid: u32, exit_status: Option<i32> },
    ShortLivedProcess { log: ShortLivedData },
    Log { message: Seq<char> },
    Alert { message: Seq<char> },
    TagUpdate { tags: Seq<Seq<char>> },
    RunStart,
    RunEnd,
}

impl BodyData {
    /// The kind of event that these fields belong to.
    pub open spec fn kind(self) -> EventKind {
        match self {
            BodyData::ProcessStart { .. } => EventKind::ProcessStart,
            BodyData::ProcessEnd { .. } => EventKind::ProcessEnd,
            BodyData::ShortLivedProcess { .. } => EventKind::ShortLivedProcess,
            BodyData::Log { .. } => EventKind::Log,
            BodyData::Alert { .. } => EventKind::Alert,
            BodyData::TagUpdate { .. } => EventKind::TagUpdate,
            BodyData::RunStart => EventKind::RunStart,
            BodyData::RunEnd => EventKind::RunEnd,
        }
    }
}

impl View for EventBody {
    type V = BodyData;

    open spec fn view(&self) -> BodyData {
        match self {
            EventBody::ProcessStart { name, pid, start_time } => BodyData::ProcessStart {
                name: name@,
                pid: *pid,
                start_time: *start_time,
            },
            EventBody::ProcessEnd { name, pid, exit_status } => BodyData::ProcessEnd {
                name: name@,
                pid: *pid,
                exit_status: *exit_status,
            },
            EventBody::ShortLivedProcess { log } => BodyData::ShortLivedProcess { log: log@ },
            EventBody::Log { message } => BodyData::Log { message: message@ },
            EventBody::Alert { message } => BodyData::Alert { message: message@ },
            EventBody::TagUpdate { tags } => BodyData::TagUpdate { tags: texts(tags@) },
            EventBody::RunStart => BodyData::RunStart,
            EventBody::RunEnd => BodyData::RunEnd,
        }
    }
}

impl Clone for EventBody {
    fn clone(&self) -> (r: EventBody)
        ensures
            r@ == self@,
    {
        match self {
            EventBody::ProcessStart { name, pid, start_time } => EventBody::ProcessStart {
                name: name.clone(),
                pid: *pid,
                start_time: *start_time,
            },
            EventBody::ProcessEnd { name, pid, exit_status } => EventBody::ProcessEnd {
                name: name.clone(),
                pid: *pid,
                exit_status: *exit_status,
            },
            EventBody::ShortLivedProcess { log } => EventBody::ShortLivedProcess {
                log: log.clone(),
            },
            EventBody::Log { message } => EventBody::Log { message: message.clone() },
            EventBody::Alert { message } => EventBody::Alert { message: message.clone() },
            EventBody::TagUpdate { tags } => EventBody::TagUpdate { tags: clone_texts(tags) },
            EventBody::RunStart => EventBody::RunStart,
            EventBody::RunEnd => EventBody::RunEnd,
        }
    }
}

impl EventBody {
    /// The kind of event that these fields belong to.
    pub fn kind(&self) -> (r: EventKind)
        ensures
            r == self@.kind(),
    {
        match self {
            EventBody::ProcessStart { .. } => EventKind::ProcessStart,
            EventBody::ProcessEnd { .. } => EventKind::ProcessEnd,
            EventBody::ShortLivedProcess { .. } => EventKind::ShortLivedProcess,
            EventBody::Log { .. } => EventKind::Log,
            EventBody::Alert { .. } => EventKind::Alert,
            EventBody::TagUpdate { .. } => EventKind::TagUpdate,
            EventBody::RunStart => EventKind::RunStart,
            EventBody::RunEnd => EventKind::RunEnd,
        }
    }
}

/// One observation: when it was made, in milliseconds, and what it reports.
/// A record is not changed once it is made.
#[derive(Debug, PartialEq, Eq)]
pub struct EventRecord {
    pub timestamp: u64,
    pub body: EventBody,
}

/// The mathematical content of an [`EventRecord`].
pub struct EventData {
    pub timestamp: u64,
    pub body: BodyData,
}

impl View for EventRecord {
    type V = EventData;

    open spec fn view(&self) -> EventData {
        EventData { timestamp: self.timestamp, body: self.body@ }
    }
}

impl Clone for EventRecord {
    fn clone(&self) -> (r: EventRecord)
        ensures
            r@ == self@,
    {
        EventRecord { timestamp: self.timestamp, body: self.body.clone() }
    }
}

impl EventRecord {
    /// The record of what `body` reports, made at `timestamp`.
    pub fn new(timestamp: u64, body: EventBody) -> (r: EventRecord)
        ensures
            r@ == (EventData { timestamp, body: body@ }),
    {
        EventRecord { timestamp, body }
    }

    /// What the record reports.
    pub fn kind(&self) -> (r: EventKind)
        ensures
            r == self@.body.kind(),
    {
        self.body.kind()
    }
}

/// The contents of a list of records, in order.
pub open spec fn event_views(records: Seq<EventRecord>) -> Seq<EventData> {
    records.map_values(|e: EventRecord| e@)
}

} // verus!
