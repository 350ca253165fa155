//! The orchestrator: the daemon's state, which owns the event log, the
//! discovery engine and the submission timer, and the operations that poll,
//! record and flush.
//!
//! Time is a reading of a monotonic clock in milliseconds, which the caller
//! takes and hands in. Flushing hands the batch to the caller to send: the
//! log is empty and the timer is reset before anything is sent, so a batch
//! whose sending fails is lost and never queued again.

use vstd::prelude::*;
use crate::config_manager::Config;
use crate::config_manager::ConfigData;
use crate::event_recorder::EventRecorder;
use crate::events::event_views;
use crate::events::BodyData;
use crate::events::EventBody;
use crate::events::EventData;
use crate::events::EventRecord;
use crate::events::ShortLivedData;
use crate::events::ShortLivedProcessLog;
use crate::process_watcher::info_views;
use crate::process_watcher::InfoData;
use crate::process_watcher::ProcessInfo;
use crate::process_watcher::ProcessWatcher;
use crate::process_watcher::WatcherData;

verus! {

/// Milliseconds from one clock reading to a later one; zero when the second
/// reading is not after the first.
pub open spec fn elapsed_ms(earlier: u64, later: u64) -> u64 {
    if later >= earlier {
        (later - earlier) as u64
    } else {
        0
    }
}

/// What is handed over to be sent in one submission: the queued events and
/// the service address and key that were configured when they were taken.
#[derive(Debug, PartialEq, Eq)]
pub struct Batch {
    pub service_url: String,
    pub api_key: String,
    pub logs: Vec<EventRecord>,
}

/// The mathematical content of a [`Batch`].
pub struct BatchData {
    pub service_url: Seq<char>,
    pub api_key: Seq<char>,
    pub logs: Seq<EventData>,
}

impl View for Batch {
    type V = BatchData;

    open spec fn view(&self) -> BatchData {
        BatchData {
            service_url: self.service_url@,
            api_key: self.api_key@,
            logs: event_views(self.logs@),
        }
    }
}

/// The event that records a short-lived process.
pub open spec fn short_lived_event(log: ShortLivedData, now: u64) -> EventData {
    EventData { timestamp: now, body: BodyData::ShortLivedProcess { log } }
}

/// The daemon's state as a mathematical value.
pub struct ClientData {
    pub api_key: Seq<char>,
    pub service_url: Seq<char>,
    pub polling_interval: u64,
    pub submission_interval: u64,
    pub last_sent: u64,
    pub logs: Seq<EventData>,
    pub watcher: WatcherData,
}

/// One operation on the daemon's state.
pub enum ClientOp {
    /// A discovery poll on the processes that the system reports.
    Poll { snapshot: Seq<InfoData>, now: u64 },
    /// The removal of the monitored processes that are gone.
    Cleanup { snapshot: Seq<InfoData>, now: u64 },
    /// The capture of one short-lived process.
    ShortLived { log: ShortLivedData, now: u64 },
    /// The replacement of the configured values.
    Reload { config: ConfigData },
    /// A submission attempt, with the metrics collected for it.
    Submit { now: u64, metrics: Seq<EventData> },
}

impl ClientData {
    /// The state of a daemon that starts at `now` with `config`.
    pub open spec fn initial(config: ConfigData, now: u64) -> ClientData {
        ClientData {
            api_key: config.api_key,
            service_url: config.service_url,
            polling_interval: config.process_polling_interval_ms,
            submission_interval: config.batch_submission_interval_ms,
            last_sent: now,
            logs: Seq::empty(),
            watcher: WatcherData { targets: config.targets, seen: Seq::empty() },
        }
    }

    /// Whether a submission is due at `now`: the submission interval has
    /// passed since the last one.
    pub open spec fn submission_due(self, now: u64) -> bool {
        elapsed_ms(self.last_sent, now) >= self.submission_interval
    }

    /// The events that `op` appends to the log.
    pub open spec fn appended(self, op: ClientOp) -> Seq<EventData> {
        match op {
            ClientOp::Poll { snapshot, now } => self.watcher.poll_events(snapshot, now),
            ClientOp::Cleanup { snapshot, now } => self.watcher.cleanup_events(snapshot, now),
            ClientOp::ShortLived { log, now } => seq![short_lived_event(log, now)],
            ClientOp::Reload { config } => Seq::empty(),
            ClientOp::Submit { now, metrics } => if self.submission_due(now) {
                metrics
            } else {
                Seq::empty()
            },
        }
    }

    /// The batch that `op` hands over to be sent, if it hands one over.
    pub open spec fn batch(self, op: ClientOp) -> Option<BatchData> {
        match op {
            ClientOp::Submit { now, metrics } => if self.submission_due(now) {
                Some(
                    BatchData {
                        service_url: self.service_url,
                        api_key: self.api_key,
                        logs: self.logs + metrics,
                    },
                )
            } else {
                None
            },
            _ => None,
        }
    }

    /// The events that leave the log with `op`.
    pub open spec fn sent(self, op: ClientOp) -> Seq<EventData> {
        match self.batch(op) {
            Some(batch) => batch.logs,
            None => Seq::empty(),
        }
    }

    /// The state after `op`.
    pub open spec fn apply(self, op: ClientOp) -> ClientData {
        match op {
            ClientOp::Poll { snapshot, now } => ClientData {
                logs: self.logs + self.appended(op),
                watcher: self.watcher.after_poll(snapshot),
                ..self
            },
            ClientOp::Cleanup { snapshot, now } => ClientData {
                logs: self.logs + self.appended(op),
                watcher: self.watcher.after_cleanup(snapshot),
                ..self
            },
            ClientOp::ShortLived { log, now } => ClientData {
                logs: self.logs + self.appended(op),
                ..self
            },
            ClientOp::Reload { config } => ClientData {
                api_key: config.api_key,
                service_url: config.service_url,
                polling_interval: config.process_polling_interval_ms,
                submission_interval: config.batch_submission_interval_ms,
                ..self
            },
            ClientOp::Submit { now, metrics } => if self.submission_due(now) {
                ClientData { logs: Seq::empty(), last_sent: now, ..self }
            } else {
                self
            },
        }
    }
}

/// The daemon's state. Its view is a [`ClientData`].
#[derive(Debug)]
pub struct TracerClient {
    api_key: String,
    service_url: String,
    polling_interval: u64,
    submission_interval: u64,
    last_sent: u64,
    logs: EventRecorder,
    process_watcher: ProcessWatcher,
}

impl View for TracerClient {
    type V = ClientData;

    closed spec fn view(&self) -> ClientData {
        ClientData {
            api_key: self.api_key@,
            service_url: self.service_url@,
            polling_interval: self.polling_interval,
            submission_interval: self.submission_interval,
            last_sent: self.last_sent,
            logs: self.logs@,
            watcher: self.process_watcher@,
        }
    }
}

impl TracerClient {
    /// The state of a daemon that starts at `now`: nothing logged, nothing
    /// monitored, and the last submission taken to be at `now`.
    pub fn new(config: Config, now: u64) -> (r: TracerClient)
        ensures
            r@ == ClientData::initial(config@, now),
    {
        TracerClient {
            api_key: config.api_key,
            service_url: config.service_url,
            polling_interval: config.process_polling_interval_ms,
            submission_interval: config.batch_submission_interval_ms,
            last_sent: now,
            logs: EventRecorder::new(),
            process_watcher: ProcessWatcher::new(config.targets),
        }
    }

    /// The address of the remote service.
    pub fn get_service_url(&self) -> (r: &str)
        ensures
            r@ == self@.service_url,
    {
        self.service_url.as_str()
    }

    /// The key that the remote service asks for.
    pub fn get_api_key(&self) -> (r: &str)
        ensures
            r@ == self@.api_key,
    {
        self.api_key.as_str()
    }

    /// Milliseconds between two discovery polls.
    pub fn get_polling_interval(&self) -> (r: u64)
        ensures
            r == self@.polling_interval,
    {
        self.polling_interval
    }

    /// Milliseconds between two submissions.
    pub fn get_submission_interval(&self) -> (r: u64)
        ensures
            r == self@.submission_interval,
    {
        self.submission_interval
    }

    /// The clock reading of the last submission.
    pub fn get_last_sent(&self) -> (r: u64)
        ensures
            r == self@.last_sent,
    {
        self.last_sent
    }

    /// The events queued at present, oldest first.
    pub fn get_logs(&self) -> (r: &Vec<EventRecord>)
        ensures
            event_views(r@) == self@.logs,
    {
        self.logs.get_events()
    }

    /// The discovery engine.
    pub fn get_process_watcher(&self) -> (r: &ProcessWatcher)
        ensures
            r@ == self@.watcher,
    {
        &self.process_watcher
    }

    /// Whether a submission is due at `now`.
    pub fn is_submission_due(&self, now: u64) -> (r: bool)
        ensures
            r == self@.submission_due(now),
    {
        let elapsed: u64 = if now >= self.last_sent {
            now - self.last_sent
        } else {
            0
        };
        elapsed >= self.submission_interval
    }

    /// A submission attempt at `now`. Where the submission interval has
    /// passed since the last submission, `metrics` joins the log, the whole
    /// log is handed back as a batch with the service address and key, the
    /// log is left empty and `now` becomes the time of the last submission.
    /// Otherwise nothing changes, `metrics` is dropped and there is no
    /// batch.
    pub fn submit_batched_data(&mut self, now: u64, metrics: Vec<EventRecord>) -> (r: Option<
        Batch,
    >)
        ensures
            final(self)@ == old(self)@.apply(
                ClientOp::Submit { now, metrics: event_views(metrics@) },
            ),
            r is Some <==> old(self)@.submission_due(now),
            match r {
                Some(batch) => Some(batch@),
                None => None,
            } == old(self)@.batch(ClientOp::Submit { now, metrics: event_views(metrics@) }),
    {
        if self.is_submission_due(now) {
            self.logs.extend(metrics);
            let logs = self.logs.drain();
            self.last_sent = now;
            Some(
                Batch {
                    service_url: self.service_url.clone(),
                    api_key: self.api_key.clone(),
                    logs,
                },
            )
        } else {
            None
        }
    }

    /// One discovery poll on the processes that the system reports at `now`;
    /// the start and end events it finds join the log.
    pub fn poll_processes(&mut self, snapshot: &Vec<ProcessInfo>, now: u64)
        ensures
            final(self)@ == old(self)@.apply(
                ClientOp::Poll { snapshot: info_views(snapshot@), now },
            ),
    {
        self.process_watcher.poll_processes(snapshot, &mut self.logs, now);
    }

    /// Removes the monitored processes that the system no longer reports
    /// at `now`; their end events join the log.
    pub fn remove_completed_processes(&mut self, snapshot: &Vec<ProcessInfo>, now: u64)
        ensures
            final(self)@ == old(self)@.apply(
                ClientOp::Cleanup { snapshot: info_views(snapshot@), now },
            ),
    {
        self.process_watcher.remove_completed_processes(snapshot, &mut self.logs, now);
    }

    /// Appends one short-lived-process event, made at `now`, to the log.
    pub fn fill_logs_with_short_lived_process(&mut self, record: ShortLivedProcessLog, now: u64)
        ensures
            final(self)@ == old(self)@.apply(ClientOp::ShortLived { log: record@, now }),
    {
        let event = EventRecord::new(now, EventBody::ShortLivedProcess { log: record });
        self.logs.record(event);
        assert(self@.logs =~= old(self)@.logs + seq![short_lived_event(record@, now)]);
    }

    /// Replaces the service address, the key and both intervals by those of
    /// `config`, all at once. The log, the timer and discovery are kept.
    pub fn reload_config_file(&mut self, config: &Config)
        ensures
            final(self)@ == old(self)@.apply(ClientOp::Reload { config: config@ }),
    {
        self.api_key = config.api_key.clone();
        self.service_url = config.service_url.clone();
        self.polling_interval = config.process_polling_interval_ms;
        self.submission_interval = config.batch_submission_interval_ms;
    }
}

/// The state after the operations `ops`, applied in order.
pub open spec fn run(start: ClientData, ops: Seq<ClientOp>) -> ClientData
    decreases ops.len(),
{
    if ops.len() == 0 {
        start
    } else {
        run(start, ops.drop_last()).apply(ops.last())
    }
}

/// Every event that the operations `ops` append to the log, in the order in
/// which they are appended.
pub open spec fn all_appended(start: ClientData, ops: Seq<ClientOp>) -> Seq<EventData>
    decreases ops.len(),
{
    if ops.len() == 0 {
        Seq::empty()
    } else {
        all_appended(start, ops.drop_last()) + run(start, ops.drop_last()).appended(ops.last())
    }
}

/// Every event that leaves in a batch during the operations `ops`, batch
/// after batch.
pub open spec fn all_sent(start: ClientData, ops: Seq<ClientOp>) -> Seq<EventData>
    decreases ops.len(),
{
    if ops.len() == 0 {
        Seq::empty()
    } else {
        all_sent(start, ops.drop_last()) + run(start, ops.drop_last()).sent(ops.last())
    }
}

/// Whether `op` leaves the submission timer and the configured values alone.
pub open spec fn is_producer(op: ClientOp) -> bool {
    op is Poll || op is Cleanup || op is ShortLived
}

/// Whatever operations are applied in whatever order, the batches handed
/// over so far, followed by what is still queued, are the events that were
/// queued at the start followed by every event appended since, each once and
/// in the order of appending: no event is lost, none is handed over twice.
pub proof fn lemma_batches_partition_the_log(start: ClientData, ops: Seq<ClientOp>)
    ensures
        all_sent(start, ops) + run(start, ops).logs == start.logs + all_appended(start, ops),
    decreases ops.len(),
{
    if ops.len() == 0 {
        assert(all_sent(start, ops) + run(start, ops).logs =~= start.logs + all_appended(
            start,
            ops,
        ));
    } else {
        let front = ops.drop_last();
        let op = ops.last();
        let before = run(start, front);
        lemma_batches_partition_the_log(start, front);
        assert((all_sent(start, front) + before.sent(op)) + before.apply(op).logs =~= (all_sent(
            start,
            front,
        ) + before.logs) + before.appended(op));
        assert((start.logs + all_appended(start, front)) + before.appended(op) =~= start.logs + (
        all_appended(start, front) + before.appended(op)));
    }
}

/// A batch holds exactly what was appended since the batch before it: from
/// an empty log, after operations during which no event left, a submission
/// that is due hands over every event those operations appended, in order,
/// followed by its metrics, and leaves the log empty.
pub proof fn lemma_batch_is_what_was_appended(
    start: ClientData,
    ops: Seq<ClientOp>,
    now: u64,
    metrics: Seq<EventData>,
)
    requires
        start.logs.len() == 0,
        all_sent(start, ops).len() == 0,
        run(start, ops).submission_due(now),
    ensures
        run(start, ops).batch(ClientOp::Submit { now, metrics }) is Some,
        run(start, ops).batch(ClientOp::Submit { now, metrics }).unwrap().logs == all_appended(
            start,
            ops,
        ) + metrics,
        run(start, ops).apply(ClientOp::Submit { now, metrics }).logs.len() == 0,
{
    lemma_batches_partition_the_log(start, ops);
    assert(all_sent(start, ops) + run(start, ops).logs =~= run(start, ops).logs);
    assert(start.logs + all_appended(start, ops) =~= all_appended(start, ops));
}

/// Polling, cleanup and the capture of short-lived processes leave the
/// submission timer and the configured values as they were.
pub proof fn lemma_producers_keep_the_timer(start: ClientData, ops: Seq<ClientOp>)
    requires
        forall|i: int| 0 <= i < ops.len() ==> is_producer(#[trigger] ops[i]),
    ensures
        run(start, ops).last_sent == start.last_sent,
        run(start, ops).submission_interval == start.submission_interval,
        run(start, ops).polling_interval == start.polling_interval,
        run(start, ops).service_url == start.service_url,
        run(start, ops).api_key == start.api_key,
        all_sent(start, ops) == Seq::<EventData>::empty(),
    decreases ops.len(),
{
    if ops.len() > 0 {
        let front = ops.drop_last();
        assert forall|i: int| 0 <= i < front.len() implies is_producer(#[trigger] front[i]) by {
            assert(front[i] == ops[i]);
        }
        lemma_producers_keep_the_timer(start, front);
        assert(is_producer(ops[ops.len() - 1]));
        assert(all_sent(start, ops) =~= Seq::<EventData>::empty());
    }
}

/// Two submission attempts less than the submission interval apart hand
/// over at most one batch, whatever is polled, cleaned up or captured
/// between them.
pub proof fn lemma_at_most_one_batch_per_interval(
    start: ClientData,
    first_now: u64,
    first_metrics: Seq<EventData>,
    between: Seq<ClientOp>,
    second_now: u64,
    second_metrics: Seq<EventData>,
)
    requires
        first_now <= second_now,
        second_now - first_now < start.submission_interval,
        forall|i: int| 0 <= i < between.len() ==> is_producer(#[trigger] between[i]),
    ensures
        ({
            let first = ClientOp::Submit { now: first_now, metrics: first_metrics };
            let second = ClientOp::Submit { now: second_now, metrics: second_metrics };
            !(start.batch(first) is Some && run(start.apply(first), between).batch(second) is Some)
        }),
{
    let first = ClientOp::Submit { now: first_now, metrics: first_metrics };
    lemma_producers_keep_the_timer(start.apply(first), between);
}

/// A submission attempt made once the submission interval has passed hands
/// over one batch, which holds the whole log and the metrics, and leaves the
/// log empty and the timer at the time of the attempt.
pub proof fn lemma_due_submission_hands_over_the_log(
    start: ClientData,
    now: u64,
    metrics: Seq<EventData>,
)
    requires
        elapsed_ms(start.last_sent, now) >= start.submission_interval,
    ensures
        ({
            let op = ClientOp::Submit { now, metrics };
            &&& start.batch(op) is Some
            &&& start.batch(op).unwrap().logs == start.logs + metrics
            &&& start.apply(op).logs == Seq::<EventData>::empty()
            &&& start.apply(op).last_sent == now
        }),
{
}

/// Once the configured values are replaced, the very next check of whether
/// a submission is due goes by the new submission interval.
pub proof fn lemma_reload_sets_the_threshold(start: ClientData, config: ConfigData, now: u64)
    ensures
        start.apply(ClientOp::Reload { config }).submission_due(now) <==> elapsed_ms(
            start.last_sent,
            now,
        ) >= config.batch_submission_interval_ms,
        start.apply(ClientOp::Reload { config }).logs == start.logs,
        start.apply(ClientOp::Reload { config }).watcher == start.watcher,
{
}

} // verus!
