//! Kernel event ingestion: the record that the kernel probe writes for each
//! process it sees start, its decoding from a per-CPU event buffer, and the
//! decisions of the tasks that read those buffers. Loading the probe and
//! waiting on the buffers are the caller's part.

use vstd::prelude::*;
use vstd::slice::slice_subrange;
use vstd::utf8::decode_utf8;
use vstd::utf8::valid_utf8;
use crate::daemon_communication::server::carries_command;
use crate::daemon_communication::server::respond_to_bytes;
use crate::daemon_communication::server::serve;
use crate::daemon_communication::server::ServerData;
use crate::events::EventData;
use crate::process_watcher::short_lived_data;
use crate::process_watcher::ProcessWatcher;
use crate::text::utf8_text;
use crate::tracer_client::run;
use crate::tracer_client::short_lived_event;
use crate::tracer_client::ClientData;
use crate::tracer_client::ClientOp;
use crate::tracer_client::TracerClient;

verus! {

/// Bytes that a record reserves for the process name.
pub const COMM_CAPACITY: usize = 128;

/// Bytes of the length field that follows the name, least significant first.
pub const LENGTH_FIELD_SIZE: usize = 8;

/// Bytes of a whole record.
pub const RECORD_SIZE: usize = 136;

/// Bytes that each buffer of a reader can take.
pub const BUFFER_CAPACITY: usize = 10240;

/// Pages of the kernel's ring for each CPU.
pub const PERF_PAGE_COUNT: usize = 256;

/// The name reported for a process whose name bytes are not UTF-8.
pub open spec fn invalid_name() -> Seq<char> {
    "Invalid UTF-8"@
}

/// One record of the kernel probe: the bytes reserved for the process name,
/// and how many of them the name takes.
#[derive(Clone, Copy, Debug)]
pub struct ProcessData {
    pub comm: [u8; 128],
    pub len: usize,
}

/// Why a buffer or a record gives no process name.
#[derive(Clone, Copy, Debug, PartialEq, Eq, Structural)]
pub enum DecodeError {
    /// The buffer is shorter than one record.
    Truncated,
    /// The length field exceeds the bytes reserved for the name.
    LengthOutOfRange,
}

/// The number that eight bytes spell, least significant byte first.
pub open spec fn le_u64(bytes: Seq<u8>) -> int
    recommends
        bytes.len() == 8,
{
    bytes[0] as int + bytes[1] as int * 0x100 + bytes[2] as int * 0x1_0000 + bytes[3] as int
        * 0x100_0000 + bytes[4] as int * 0x1_0000_0000 + bytes[5] as int * 0x100_0000_0000
        + bytes[6] as int * 0x1_0000_0000_0000 + bytes[7] as int * 0x100_0000_0000_0000
}

/// The length field of the record at the start of `buffer`.
pub open spec fn record_length(buffer: Seq<u8>) -> int
    recommends
        buffer.len() >= 136,
{
    le_u64(buffer.subrange(128, 136))
}

/// The name that `len` bytes of `comm` spell: their text where they are
/// UTF-8, and the words "Invalid UTF-8" where they are not.
pub open spec fn name_of(comm: Seq<u8>, len: int) -> Seq<char>
    recommends
        0 <= len <= comm.len(),
{
    if valid_utf8(comm.subrange(0, len)) {
        decode_utf8(comm.subrange(0, len))
    } else {
        invalid_name()
    }
}

/// Why the record at the start of `buffer` cannot be read, if it cannot: the
/// buffer is shorter than one record, or the record's length field exceeds
/// the bytes reserved for the name.
pub open spec fn decode_error(buffer: Seq<u8>) -> Option<DecodeError> {
    if buffer.len() < RECORD_SIZE {
        Some(DecodeError::Truncated)
    } else if record_length(buffer) > COMM_CAPACITY {
        Some(DecodeError::LengthOutOfRange)
    } else {
        None
    }
}

/// The process name that the record at the start of `buffer` reports, or
/// why the record cannot be read.
pub open spec fn decoded_name(buffer: Seq<u8>) -> Result<Seq<char>, DecodeError> {
    match decode_error(buffer) {
        Some(e) => Err(e),
        None => Ok(name_of(buffer.subrange(0, 128), record_length(buffer))),
    }
}

fn read_le_u64(bytes: &[u8]) -> (r: u64)
    requires
        bytes@.len() == 8,
    ensures
        r == le_u64(bytes@),
{
    let b0 = bytes[0] as u64;
    let b1 = bytes[1] as u64;
    let b2 = bytes[2] as u64;
    let b3 = bytes[3] as u64;
    let b4 = bytes[4] as u64;
    let b5 = bytes[5] as u64;
    let b6 = bytes[6] as u64;
    let b7 = bytes[7] as u64;
    b0 + b1 * 0x100 + b2 * 0x1_0000 + b3 * 0x100_0000 + b4 * 0x1_0000_0000 + b5
        * 0x100_0000_0000 + b6 * 0x1_0000_0000_0000 + b7 * 0x100_0000_0000_0000
}

impl ProcessData {
    /// Reads the record at the start of `buffer`. The length field is never
    /// trusted beyond the bytes reserved for the name.
    pub fn decode(buffer: &[u8]) -> (r: Result<ProcessData, DecodeError>)
        ensures
            match r {
                Ok(data) => {
                    &&& decode_error(buffer@) is None
                    &&& data.comm@ == buffer@.subrange(0, 128)
                    &&& data.len == record_length(buffer@)
                },
                Err(e) => decode_error(buffer@) == Some(e),
            },
    {
        if buffer.len() < RECORD_SIZE {
            return Err(DecodeError::Truncated);
        }
        let length = read_le_u64(slice_subrange(buffer, COMM_CAPACITY, RECORD_SIZE));
        if length > COMM_CAPACITY as u64 {
            return Err(DecodeError::LengthOutOfRange);
        }
        let mut comm: [u8; 128] = [0u8; 128];
        let mut i: usize = 0;
        while i < COMM_CAPACITY
            invariant
                i <= COMM_CAPACITY,
                buffer@.len() >= RECORD_SIZE,
                forall|j: int| 0 <= j < i ==> comm@[j] == buffer@[j],
            decreases COMM_CAPACITY - i,
        {
            comm[i] = buffer[i];
            i += 1;
        }
        assert(comm@ =~= buffer@.subrange(0, 128));
        Ok(ProcessData { comm, len: length as usize })
    }

    /// The process name that the record reports, or the error of a record
    /// whose length exceeds the bytes reserved for the name.
    pub fn name(&self) -> (r: Result<String, DecodeError>)
        ensures
            name_view(r) == if self.len > COMM_CAPACITY {
                Err::<Seq<char>, DecodeError>(DecodeError::LengthOutOfRange)
            } else {
                Ok(name_of(self.comm@, self.len as int))
            },
    {
        if self.len > COMM_CAPACITY {
            return Err(DecodeError::LengthOutOfRange);
        }
        let bytes = slice_subrange(self.comm.as_slice(), 0, self.len);
        match utf8_text(bytes) {
            Some(text) => Ok(text.to_owned()),
            None => Ok("Invalid UTF-8".to_owned()),
        }
    }
}

/// The content of a decoding result.
pub open spec fn name_view(result: Result<String, DecodeError>) -> Result<Seq<char>, DecodeError> {
    match result {
        Ok(name) => Ok(name@),
        Err(e) => Err(e),
    }
}

/// The contents of a list of decoding results.
pub open spec fn name_views(results: Seq<Result<String, DecodeError>>) -> Seq<
    Result<Seq<char>, DecodeError>,
> {
    results.map_values(|r: Result<String, DecodeError>| name_view(r))
}

/// The process name that the record at the start of `buffer` reports.
pub fn decode_process_name(buffer: &[u8]) -> (r: Result<String, DecodeError>)
    ensures
        name_view(r) == decoded_name(buffer@),
{
    match ProcessData::decode(buffer) {
        Ok(data) => data.name(),
        Err(e) => Err(e),
    }
}

/// What a reader task does when it wakes.
#[derive(Debug)]
pub struct ReaderStep {
    /// What each filled buffer gave, in the buffers' order.
    pub names: Vec<Result<String, DecodeError>>,
    /// Whether the task waits for more events. It does unless cancellation
    /// was signalled.
    pub keeps_reading: bool,
}

/// How many buffers a read has filled: as many as it reports, and never
/// more than there are.
pub open spec fn filled(buffers: Seq<Vec<u8>>, read: int) -> int {
    if read <= buffers.len() {
        read
    } else {
        buffers.len() as int
    }
}

/// What the filled buffers give, each decoded on its own.
pub open spec fn decoded_names(buffers: Seq<Vec<u8>>, read: int) -> Seq<
    Result<Seq<char>, DecodeError>,
>
    recommends
        0 <= read,
{
    Seq::new(filled(buffers, read) as nat, |i: int| decoded_name(buffers[i]@))
}

/// One wake of a reader task: `read` buffers were filled, and `cancelled`
/// says whether cancellation was signalled. Every filled buffer is decoded;
/// one that cannot be decoded gives its error and does not keep the others
/// from being decoded. The task goes on exactly if cancellation was not
/// signalled.
pub fn on_wake(cancelled: bool, buffers: &Vec<Vec<u8>>, read: usize) -> (step: ReaderStep)
    ensures
        step.keeps_reading == !cancelled,
        name_views(step.names@) == decoded_names(buffers@, read as int),
{
    let count: usize = if read <= buffers.len() {
        read
    } else {
        buffers.len()
    };
    let mut names: Vec<Result<String, DecodeError>> = Vec::new();
    let mut i: usize = 0;
    while i < count
        invariant
            i <= count,
            count == filled(buffers@, read as int),
            names@.len() == i,
            forall|j: int| 0 <= j < i ==> name_view(#[trigger] names@[j]) == decoded_name(buffers@[j]@),
        decreases count - i,
    {
        names.push(decode_process_name(buffers[i].as_slice()));
        i += 1;
    }
    assert(name_views(names@) =~= decoded_names(buffers@, read as int));
    ReaderStep { names, keeps_reading: !cancelled }
}

/// The events that record the processes named in `results`, in order: one
/// short-lived-process event for each name, none for an error.
pub open spec fn captured_events(results: Seq<Result<Seq<char>, DecodeError>>, now: u64) -> Seq<
    EventData,
>
    decreases results.len(),
{
    if results.len() == 0 {
        Seq::empty()
    } else {
        let front = captured_events(results.drop_last(), now);
        match results.last() {
            Ok(name) => front.push(short_lived_event(short_lived_data(name), now)),
            Err(_) => front,
        }
    }
}

/// The operations on the daemon's state by which the processes named in
/// `results` are captured: one for each name, in order.
pub open spec fn capture_ops(results: Seq<Result<Seq<char>, DecodeError>>, now: u64) -> Seq<
    ClientOp,
>
    decreases results.len(),
{
    if results.len() == 0 {
        Seq::empty()
    } else {
        let front = capture_ops(results.drop_last(), now);
        match results.last() {
            Ok(name) => front.push(ClientOp::ShortLived { log: short_lived_data(name), now }),
            Err(_) => front,
        }
    }
}

/// Forwarding decoded names is capturing short-lived processes: it leaves
/// the daemon's state as the capture of each name in turn does.
pub proof fn lemma_forwarding_is_capturing(
    state: ClientData,
    results: Seq<Result<Seq<char>, DecodeError>>,
    now: u64,
)
    ensures
        run(state, capture_ops(results, now)) == (ClientData {
            logs: state.logs + captured_events(results, now),
            ..state
        }),
    decreases results.len(),
{
    if results.len() == 0 {
        assert(state.logs + captured_events(results, now) =~= state.logs);
    } else {
        let front = capture_ops(results.drop_last(), now);
        lemma_forwarding_is_capturing(state, results.drop_last(), now);
        match results.last() {
            Ok(name) => {
                let op = ClientOp::ShortLived { log: short_lived_data(name), now };
                assert(front.push(op).drop_last() =~= front);
                assert(front.push(op).last() == op);
                assert(run(state, front.push(op)).logs =~= state.logs + captured_events(
                    results,
                    now,
                ));
            },
            Err(_) => {},
        }
    }
}

/// Hands the process names that a reader decoded to the daemon's state:
/// each name joins the log as one short-lived-process event made at `now`.
/// The result is the number of events appended.
pub fn forward_process_names(
    tracer_client: &mut TracerClient,
    names: &Vec<Result<String, DecodeError>>,
    now: u64,
) -> (forwarded: usize)
    ensures
        final(tracer_client)@ == (ClientData {
            logs: old(tracer_client)@.logs + captured_events(name_views(names@), now),
            ..old(tracer_client)@
        }),
        forwarded == captured_events(name_views(names@), now).len(),
{
    let ghost all = name_views(names@);
    let mut forwarded: usize = 0;
    let mut i: usize = 0;
    proof {
        assert(all.subrange(0, 0) =~= Seq::empty());
        assert(tracer_client@.logs =~= old(tracer_client)@.logs + captured_events(
            all.subrange(0, 0),
            now,
        ));
    }
    while i < names.len()
        invariant
            i <= names.len(),
            all == name_views(names@),
            forwarded <= i,
            forwarded == captured_events(all.subrange(0, i as int), now).len(),
            tracer_client@ == (ClientData {
                logs: old(tracer_client)@.logs + captured_events(all.subrange(0, i as int), now),
                ..old(tracer_client)@
            }),
        decreases names.len() - i,
    {
        let ghost before = all.subrange(0, i as int);
        let ghost upto = all.subrange(0, i + 1);
        proof {
            assert(upto.drop_last() =~= before);
            assert(upto.last() == name_view(names@[i as int]));
        }
        match &names[i] {
            Ok(name) => {
                let record = ProcessWatcher::gather_short_lived_process_data(name.as_str());
                tracer_client.fill_logs_with_short_lived_process(record, now);
                forwarded += 1;
                proof {
                    assert(tracer_client@.logs =~= old(tracer_client)@.logs + captured_events(
                        upto,
                        now,
                    ));
                }
            },
            Err(_) => {},
        }
        i += 1;
    }
    proof {
        assert(all.subrange(0, names.len() as int) =~= all);
    }
    forwarded
}

/// The steps in which ingestion starts, in order.
#[derive(Clone, Copy, Debug, PartialEq, Eq, Structural)]
pub enum StartupStep {
    /// Lift the limit on locked memory.
    RaiseMemlockLimit,
    /// Load the probe program.
    LoadProbe,
    /// Start the probe's logger.
    InitLogger,
    /// Attach the probe to the tracepoint of process creation.
    AttachProbe,
    /// Open the event buffers, one for each CPU that is online.
    OpenBuffers,
    /// The readers run.
    Running,
}

/// The step whose failure ends the start.
#[derive(Clone, Copy, Debug, PartialEq, Eq, Structural)]
pub enum StartupError {
    ProbeNotLoaded,
    ProbeNotAttached,
    BuffersNotOpened,
}

/// What follows a step that succeeded or failed. Lifting the memory limit
/// and starting the logger are tried and their failure is passed over; the
/// failure of any other step ends the start.
pub open spec fn step_after(step: StartupStep, succeeded: bool) -> Result<
    StartupStep,
    StartupError,
> {
    match step {
        StartupStep::RaiseMemlockLimit => Ok(StartupStep::LoadProbe),
        StartupStep::LoadProbe => if succeeded {
            Ok(StartupStep::InitLogger)
        } else {
            Err(StartupError::ProbeNotLoaded)
        },
        StartupStep::InitLogger => Ok(StartupStep::AttachProbe),
        StartupStep::AttachProbe => if succeeded {
            Ok(StartupStep::OpenBuffers)
        } else {
            Err(StartupError::ProbeNotAttached)
        },
        StartupStep::OpenBuffers => if succeeded {
            Ok(StartupStep::Running)
        } else {
            Err(StartupError::BuffersNotOpened)
        },
        StartupStep::Running => Ok(StartupStep::Running),
    }
}

impl StartupStep {
    /// The first step.
    pub fn first() -> (r: StartupStep)
        ensures
            r == StartupStep::RaiseMemlockLimit,
    {
        StartupStep::RaiseMemlockLimit
    }

    /// The step to take after this one, given whether this one succeeded.
    pub fn next(self, succeeded: bool) -> (r: Result<StartupStep, StartupError>)
        ensures
            r == step_after(self, succeeded),
    {
        match self {
            StartupStep::RaiseMemlockLimit => Ok(StartupStep::LoadProbe),
            StartupStep::LoadProbe => if succeeded {
                Ok(StartupStep::InitLogger)
            } else {
                Err(StartupError::ProbeNotLoaded)
            },
            StartupStep::InitLogger => Ok(StartupStep::AttachProbe),
            StartupStep::AttachProbe => if succeeded {
                Ok(StartupStep::OpenBuffers)
            } else {
                Err(StartupError::ProbeNotAttached)
            },
            StartupStep::OpenBuffers => if succeeded {
                Ok(StartupStep::Running)
            } else {
                Err(StartupError::BuffersNotOpened)
            },
            StartupStep::Running => Ok(StartupStep::Running),
        }
    }
}

/// What one reader task is started with.
#[derive(Clone, Copy, Debug, PartialEq, Eq, Structural)]
pub struct ReaderPlan {
    /// The CPU whose buffer the task reads.
    pub cpu_id: u32,
    /// How many buffers the task holds for one read.
    pub buffer_count: usize,
    /// How many bytes each of them can take.
    pub buffer_capacity: usize,
    /// How many pages the kernel's ring for this CPU has.
    pub page_count: usize,
}

/// The plan of the reader for the CPU at position `i` of `cpus`.
pub open spec fn plan_for(cpus: Seq<u32>, i: int) -> ReaderPlan {
    ReaderPlan {
        cpu_id: cpus[i],
        buffer_count: cpus.len() as usize,
        buffer_capacity: 10240,
        page_count: 256,
    }
}

/// One reader for each CPU that is online, in their order, each with as
/// many buffers as there are CPUs.
pub fn plan_readers(cpus: &Vec<u32>) -> (plans: Vec<ReaderPlan>)
    ensures
        plans@ == Seq::new(cpus@.len(), |i: int| plan_for(cpus@, i)),
{
    let mut plans: Vec<ReaderPlan> = Vec::new();
    let mut i: usize = 0;
    while i < cpus.len()
        invariant
            i <= cpus.len(),
            plans@.len() == i,
            forall|j: int| 0 <= j < i ==> plans@[j] == plan_for(cpus@, j),
        decreases cpus.len() - i,
    {
        plans.push(
            ReaderPlan {
                cpu_id: cpus[i],
                buffer_count: cpus.len(),
                buffer_capacity: BUFFER_CAPACITY,
                page_count: PERF_PAGE_COUNT,
            },
        );
        i += 1;
    }
    assert(plans@ =~= Seq::new(cpus@.len(), |i: int| plan_for(cpus@, i)));
    plans
}

/// Which readers run after each of them has woken once: those that ran
/// before, unless cancellation was signalled.
pub open spec fn readers_after_wake(running: Seq<bool>, cancelled: bool) -> Seq<bool> {
    Seq::new(running.len(), |i: int| running[i] && !cancelled)
}

/// Once cancellation is signalled, no reader is left running after each has
/// woken once; while it is not, every reader that ran still runs.
pub proof fn lemma_cancellation_stops_every_reader(running: Seq<bool>, cancelled: bool)
    ensures
        cancelled ==> forall|i: int|
            0 <= i < running.len() ==> !(#[trigger] readers_after_wake(running, cancelled)[i]),
        !cancelled ==> readers_after_wake(running, cancelled) == running,
{
    if !cancelled {
        assert(readers_after_wake(running, cancelled) =~= running);
    }
}

/// A `terminate` message stops the whole daemon: the server leaves its
/// accept loop, its action signals cancellation, and with that signal no
/// reader is left running once each has woken.
pub proof fn lemma_terminate_stops_server_and_readers(
    server: ServerData,
    bytes: Seq<u8>,
    now: u64,
    running: Seq<bool>,
)
    requires
        server.serving,
        carries_command(bytes, "terminate"@),
    ensures
        !serve(server, bytes, now).serving,
        respond_to_bytes(server.client, bytes, now).action.cancels(),
        forall|i: int|
            0 <= i < running.len() ==> !(#[trigger] readers_after_wake(
                running,
                respond_to_bytes(server.client, bytes, now).action.cancels(),
            )[i]),
{
}

/// How a start ends, given what became of each step: the readers run, or
/// the start ended at the first step whose failure ends it.
pub open spec fn startup_result(
    memlock_raised: bool,
    probe_loaded: bool,
    logger_started: bool,
    probe_attached: bool,
    buffers_opened: bool,
) -> Result<StartupStep, StartupError> {
    match step_after(StartupStep::RaiseMemlockLimit, memlock_raised) {
        Err(e) => Err(e),
        Ok(second) => match step_after(second, probe_loaded) {
            Err(e) => Err(e),
            Ok(third) => match step_after(third, logger_started) {
                Err(e) => Err(e),
                Ok(fourth) => match step_after(fourth, probe_attached) {
                    Err(e) => Err(e),
                    Ok(fifth) => step_after(fifth, buffers_opened),
                },
            },
        },
    }
}

/// The readers run exactly if the probe was loaded and attached and the
/// buffers were opened, whatever became of lifting the memory limit and of
/// starting the logger; otherwise the start ends with the error of the
/// first of those three steps that failed.
pub proof fn lemma_startup_needs_probe_and_buffers(
    memlock_raised: bool,
    probe_loaded: bool,
    logger_started: bool,
    probe_attached: bool,
    buffers_opened: bool,
)
    ensures
        startup_result(
            memlock_raised,
            probe_loaded,
            logger_started,
            probe_attached,
            buffers_opened,
        ) == if !probe_loaded {
            Err::<StartupStep, StartupError>(StartupError::ProbeNotLoaded)
        } else if !probe_attached {
            Err(StartupError::ProbeNotAttached)
        } else if !buffers_opened {
            Err(StartupError::BuffersNotOpened)
        } else {
            Ok(StartupStep::Running)
        },
{
}

} // verus!
