//! Process discovery: matching the processes that the system reports against
//! the configured target names, and following each match from the poll that
//! first sees it to the poll that no longer does.

use vstd::prelude::*;
use crate::event_recorder::EventRecorder;
use crate::events::BodyData;
use crate::events::EventBody;
use crate::events::EventData;
use crate::events::EventRecord;
use crate::events::ShortLivedData;
use crate::events::ShortLivedProcessLog;
use crate::text::contains_text;
use crate::text::texts;

verus! {

/// One live process, as the system reports it.
#[derive(Debug, PartialEq, Eq)]
pub struct ProcessInfo {
    pub pid: u32,
    pub name: String,
    pub start_time: u64,
}

/// The mathematical content of a [`ProcessInfo`].
pub struct InfoData {
    pub pid: u32,
    pub name: Seq<char>,
    pub start_time: u64,
}

impl View for ProcessInfo {
    type V = InfoData;

    open spec fn view(&self) -> InfoData {
        InfoData { pid: self.pid, name: self.name@, start_time: self.start_time }
    }
}

impl Clone for ProcessInfo {
    fn clone(&self) -> (r: ProcessInfo)
        ensures
            r@ == self@,
    {
        ProcessInfo { pid: self.pid, name: self.name.clone(), start_time: self.start_time }
    }
}

/// A process that discovery has matched and still takes to be running.
#[derive(Debug, PartialEq, Eq)]
pub struct MonitoredProcess {
    pub pid: u32,
    pub name: String,
    pub start_time: u64,
    pub target: String,
}

/// The mathematical content of a [`MonitoredProcess`].
pub struct MonitoredData {
    pub pid: u32,
    pub name: Seq<char>,
    pub start_time: u64,
    pub target: Seq<char>,
}

impl View for MonitoredProcess {
    type V = MonitoredData;

    open spec fn view(&self) -> MonitoredData {
        MonitoredData {
            pid: self.pid,
            name: self.name@,
            start_time: self.start_time,
            target: self.target@,
        }
    }
}

impl Clone for MonitoredProcess {
    fn clone(&self) -> (r: MonitoredProcess)
        ensures
            r@ == self@,
    {
        MonitoredProcess {
            pid: self.pid,
            name: self.name.clone(),
            start_time: self.start_time,
            target: self.target.clone(),
        }
    }
}

/// The contents of a list of reported processes, in order.
pub open spec fn info_views(snapshot: Seq<ProcessInfo>) -> Seq<InfoData> {
    snapshot.map_values(|p: ProcessInfo| p@)
}

/// The contents of a list of monitored processes, in order.
pub open spec fn monitored_views(seen: Seq<MonitoredProcess>) -> Seq<MonitoredData> {
    seen.map_values(|m: MonitoredProcess| m@)
}

/// Whether the monitored set has an entry for `pid`.
pub open spec fn is_monitored(seen: Seq<MonitoredData>, pid: u32) -> bool {
    exists|i: int| 0 <= i < seen.len() && (#[trigger] seen[i]).pid == pid
}

/// Whether the system reports a process `pid`.
pub open spec fn is_live(snapshot: Seq<InfoData>, pid: u32) -> bool {
    exists|i: int| 0 <= i < snapshot.len() && (#[trigger] snapshot[i]).pid == pid
}

/// No process identifier has two entries.
pub open spec fn distinct_pids(seen: Seq<MonitoredData>) -> bool {
    forall|i: int, j: int|
        0 <= i < j < seen.len() ==> (#[trigger] seen[i]).pid != (#[trigger] seen[j]).pid
}

/// The entry that discovery makes for a process whose name is a target.
pub open spec fn entry_for(p: InfoData) -> MonitoredData {
    MonitoredData { pid: p.pid, name: p.name, start_time: p.start_time, target: p.name }
}

/// The monitored set after discovery has looked at one process: a process
/// whose name is among the targets and that has no entry yet gets one.
pub open spec fn observe(seen: Seq<MonitoredData>, targets: Seq<Seq<char>>, p: InfoData) -> Seq<
    MonitoredData,
> {
    if targets.contains(p.name) && !is_monitored(seen, p.pid) {
        seen.push(entry_for(p))
    } else {
        seen
    }
}

/// The monitored set after discovery has looked at every process of
/// `snapshot`, in order.
pub open spec fn discover(
    seen: Seq<MonitoredData>,
    targets: Seq<Seq<char>>,
    snapshot: Seq<InfoData>,
) -> Seq<MonitoredData>
    decreases snapshot.len(),
{
    if snapshot.len() == 0 {
        seen
    } else {
        observe(discover(seen, targets, snapshot.drop_last()), targets, snapshot.last())
    }
}

/// The entries whose process the system no longer reports.
pub open spec fn completed(seen: Seq<MonitoredData>, snapshot: Seq<InfoData>) -> Seq<
    MonitoredData,
> {
    seen.filter(|m: MonitoredData| !is_live(snapshot, m.pid))
}

/// The entries whose process the system still reports.
pub open spec fn surviving(seen: Seq<MonitoredData>, snapshot: Seq<InfoData>) -> Seq<
    MonitoredData,
> {
    seen.filter(|m: MonitoredData| is_live(snapshot, m.pid))
}

/// The event that records, at `now`, that a process was first seen.
pub open spec fn start_event(m: MonitoredData, now: u64) -> EventData {
    EventData {
        timestamp: now,
        body: BodyData::ProcessStart { name: m.name, pid: m.pid, start_time: m.start_time },
    }
}

/// The event that records, at `now`, that a monitored process is gone.
/// Polling does not learn how the process ended, so no exit status is given.
pub open spec fn end_event(m: MonitoredData, now: u64) -> EventData {
    EventData {
        timestamp: now,
        body: BodyData::ProcessEnd { name: m.name, pid: m.pid, exit_status: None },
    }
}

/// A start event for each of `added`, in order.
pub open spec fn start_events(added: Seq<MonitoredData>, now: u64) -> Seq<EventData> {
    added.map_values(|m: MonitoredData| start_event(m, now))
}

/// An end event for each of `ended`, in order.
pub open spec fn end_events(ended: Seq<MonitoredData>, now: u64) -> Seq<EventData> {
    ended.map_values(|m: MonitoredData| end_event(m, now))
}

/// The entries that discovery adds to `seen` on `snapshot`.
pub open spec fn newly_seen(
    seen: Seq<MonitoredData>,
    targets: Seq<Seq<char>>,
    snapshot: Seq<InfoData>,
) -> Seq<MonitoredData> {
    let found = discover(seen, targets, snapshot);
    found.subrange(seen.len() as int, found.len() as int)
}

/// Discovery only ever adds entries behind those it had.
pub proof fn lemma_discover_extends(
    seen: Seq<MonitoredData>,
    targets: Seq<Seq<char>>,
    snapshot: Seq<InfoData>,
)
    ensures
        seen.len() <= discover(seen, targets, snapshot).len(),
        discover(seen, targets, snapshot).subrange(0, seen.len() as int) == seen,
        discover(seen, targets, snapshot) == seen + newly_seen(seen, targets, snapshot),
    decreases snapshot.len(),
{
    let found = discover(seen, targets, snapshot);
    if snapshot.len() > 0 {
        lemma_discover_extends(seen, targets, snapshot.drop_last());
    }
    assert(found.subrange(0, seen.len() as int) =~= seen);
    assert(found =~= seen + newly_seen(seen, targets, snapshot));
}

/// Discovery keeps the process identifiers of the monitored set distinct.
pub proof fn lemma_discover_distinct(
    seen: Seq<MonitoredData>,
    targets: Seq<Seq<char>>,
    snapshot: Seq<InfoData>,
)
    requires
        distinct_pids(seen),
    ensures
        distinct_pids(discover(seen, targets, snapshot)),
    decreases snapshot.len(),
{
    if snapshot.len() > 0 {
        lemma_discover_distinct(seen, targets, snapshot.drop_last());
    }
}

/// Every entry that discovery adds stands for a process of the snapshot
/// whose name is a target and which had no entry before.
pub proof fn lemma_newly_seen_are_matches(
    seen: Seq<MonitoredData>,
    targets: Seq<Seq<char>>,
    snapshot: Seq<InfoData>,
    k: int,
)
    requires
        0 <= k < newly_seen(seen, targets, snapshot).len(),
    ensures
        targets.contains(newly_seen(seen, targets, snapshot)[k].name),
        is_live(snapshot, newly_seen(seen, targets, snapshot)[k].pid),
        !is_monitored(seen, newly_seen(seen, targets, snapshot)[k].pid),
        exists|i: int|
            0 <= i < snapshot.len() && newly_seen(seen, targets, snapshot)[k] == entry_for(
                #[trigger] snapshot[i],
            ),
    decreases snapshot.len(),
{
    lemma_discover_extends(seen, targets, snapshot);
    if snapshot.len() > 0 {
        let before = snapshot.drop_last();
        lemma_discover_extends(seen, targets, before);
        let earlier = newly_seen(seen, targets, before);
        let found_before = discover(seen, targets, before);
        if k < earlier.len() {
            lemma_newly_seen_are_matches(seen, targets, before, k);
            assert(newly_seen(seen, targets, snapshot)[k] == earlier[k]);
            let i = choose|i: int|
                0 <= i < before.len() && earlier[k] == entry_for(#[trigger] before[i]);
            assert(snapshot[i] == before[i]);
            let j = choose|j: int| 0 <= j < before.len() && (#[trigger] before[j]).pid == earlier[k].pid;
            assert(snapshot[j] == before[j]);
        } else {
            let p = snapshot.last();
            assert(newly_seen(seen, targets, snapshot)[k] == entry_for(p));
            assert(snapshot[snapshot.len() - 1] == p);
            assert(!is_monitored(found_before, p.pid));
            if is_monitored(seen, p.pid) {
                let i = choose|i: int| 0 <= i < seen.len() && (#[trigger] seen[i]).pid == p.pid;
                assert(found_before[i] == seen[i]);
            }
        }
    }
}

/// Keeping some of the entries, in their order, keeps their process
/// identifiers distinct, and keeps only entries that were there.
pub proof fn lemma_filter_keeps_distinct(
    seen: Seq<MonitoredData>,
    pred: spec_fn(MonitoredData) -> bool,
)
    requires
        distinct_pids(seen),
    ensures
        distinct_pids(seen.filter(pred)),
        forall|k: int|
            0 <= k < seen.filter(pred).len() ==> exists|i: int|
                0 <= i < seen.len() && seen[i] == #[trigger] seen.filter(pred)[k],
    decreases seen.len(),
{
    reveal(Seq::filter);
    if seen.len() > 0 {
        let front = seen.drop_last();
        let last = seen.last();
        lemma_filter_keeps_distinct(front, pred);
        let kept = front.filter(pred);
        let all = seen.filter(pred);
        assert forall|k: int| 0 <= k < all.len() implies exists|i: int|
            0 <= i < seen.len() && seen[i] == #[trigger] all[k] by {
            if k < kept.len() {
                let i = choose|i: int| 0 <= i < front.len() && front[i] == kept[k];
                assert(seen[i] == all[k]);
            } else {
                assert(seen[seen.len() - 1] == all[k]);
            }
        }
        assert forall|i: int, j: int| 0 <= i < j < all.len() implies (#[trigger] all[i]).pid != (
        #[trigger] all[j]).pid by {
            if j == kept.len() {
                let a = choose|a: int| 0 <= a < front.len() && front[a] == kept[i];
                assert(seen[a] == kept[i]);
                assert(seen[seen.len() - 1] == all[j]);
            }
        }
    }
}

/// What a [`ProcessWatcher`] holds: the target names, and the monitored set
/// in the order in which its entries were first seen.
pub struct WatcherData {
    pub targets: Seq<Seq<char>>,
    pub seen: Seq<MonitoredData>,
}

impl WatcherData {
    /// The watcher after one poll on `snapshot`: each process whose name is
    /// a target and that was not monitored has joined the set, and each
    /// entry whose process is not in the snapshot has left it.
    pub open spec fn after_poll(self, snapshot: Seq<InfoData>) -> WatcherData {
        WatcherData {
            targets: self.targets,
            seen: surviving(discover(self.seen, self.targets, snapshot), snapshot),
        }
    }

    /// The events of one poll: a start event for each entry that joined, in
    /// the snapshot's order, then an end event for each entry that left.
    pub open spec fn poll_events(self, snapshot: Seq<InfoData>, now: u64) -> Seq<EventData> {
        start_events(newly_seen(self.seen, self.targets, snapshot), now) + end_events(
            completed(discover(self.seen, self.targets, snapshot), snapshot),
            now,
        )
    }

    /// The watcher after the entries whose process is not in `snapshot` have
    /// left the set.
    pub open spec fn after_cleanup(self, snapshot: Seq<InfoData>) -> WatcherData {
        WatcherData { targets: self.targets, seen: surviving(self.seen, snapshot) }
    }

    /// An end event for each entry that leaves on `snapshot`, in the order
    /// in which they were first seen.
    pub open spec fn cleanup_events(self, snapshot: Seq<InfoData>, now: u64) -> Seq<EventData> {
        end_events(completed(self.seen, snapshot), now)
    }
}

/// Discovery gives an entry to every process of the snapshot whose name is
/// a target: after it, each such process is monitored.
pub proof fn lemma_discover_finds_matches(
    seen: Seq<MonitoredData>,
    targets: Seq<Seq<char>>,
    snapshot: Seq<InfoData>,
    i: int,
)
    requires
        0 <= i < snapshot.len(),
        targets.contains(snapshot[i].name),
    ensures
        is_monitored(discover(seen, targets, snapshot), snapshot[i].pid),
    decreases snapshot.len(),
{
    let before = snapshot.drop_last();
    let found_before = discover(seen, targets, before);
    let found = discover(seen, targets, snapshot);
    let pid = snapshot[i].pid;
    if i < snapshot.len() - 1 {
        assert(before[i] == snapshot[i]);
        lemma_discover_finds_matches(seen, targets, before, i);
        let k = choose|k: int| 0 <= k < found_before.len() && (#[trigger] found_before[k]).pid == pid;
        assert(found[k] == found_before[k]);
    } else {
        if is_monitored(found_before, pid) {
            let k = choose|k: int|
                0 <= k < found_before.len() && (#[trigger] found_before[k]).pid == pid;
            assert(found[k] == found_before[k]);
        } else {
            assert(found[found.len() - 1] == entry_for(snapshot[i]));
        }
    }
}

/// After a poll, every process that the system reports under a target's
/// name is monitored, and no process that it does not report is.
pub proof fn lemma_poll_monitors_what_runs(watcher: WatcherData, snapshot: Seq<InfoData>)
    ensures
        forall|i: int|
            0 <= i < snapshot.len() && watcher.targets.contains((#[trigger] snapshot[i]).name)
                ==> is_monitored(watcher.after_poll(snapshot).seen, snapshot[i].pid),
        forall|k: int|
            0 <= k < watcher.after_poll(snapshot).seen.len() ==> is_live(
                snapshot,
                (#[trigger] watcher.after_poll(snapshot).seen[k]).pid,
            ),
{
    let found = discover(watcher.seen, watcher.targets, snapshot);
    let alive = |m: MonitoredData| is_live(snapshot, m.pid);
    let kept = found.filter(alive);
    assert forall|i: int|
        0 <= i < snapshot.len() && watcher.targets.contains(
            (#[trigger] snapshot[i]).name,
        ) implies is_monitored(kept, snapshot[i].pid) by {
        lemma_discover_finds_matches(watcher.seen, watcher.targets, snapshot, i);
        let k = choose|k: int| 0 <= k < found.len() && (#[trigger] found[k]).pid == snapshot[i].pid;
        assert(alive(found[k]));
        found.lemma_filter_contains(alive, k);
        let j = choose|j: int| 0 <= j < kept.len() && kept[j] == found[k];
        assert(kept[j].pid == snapshot[i].pid);
    }
    assert forall|k: int| 0 <= k < kept.len() implies is_live(snapshot, (#[trigger] kept[k]).pid) by {
        found.lemma_filter_pred(alive, k);
    }
}

/// On cleanup, an entry whose process the system no longer reports leaves
/// the monitored set, and one end event for it is logged.
pub proof fn lemma_cleanup_ends_what_is_gone(
    watcher: WatcherData,
    snapshot: Seq<InfoData>,
    now: u64,
    k: int,
)
    requires
        0 <= k < watcher.seen.len(),
        !is_live(snapshot, watcher.seen[k].pid),
    ensures
        !is_monitored(watcher.after_cleanup(snapshot).seen, watcher.seen[k].pid),
        watcher.cleanup_events(snapshot, now).contains(end_event(watcher.seen[k], now)),
{
    let alive = |m: MonitoredData| is_live(snapshot, m.pid);
    let gone = |m: MonitoredData| !is_live(snapshot, m.pid);
    let kept = watcher.seen.filter(alive);
    let ended = watcher.seen.filter(gone);
    assert forall|j: int| 0 <= j < kept.len() implies (#[trigger] kept[j]).pid
        != watcher.seen[k].pid by {
        watcher.seen.lemma_filter_pred(alive, j);
    }
    assert(gone(watcher.seen[k]));
    watcher.seen.lemma_filter_contains(gone, k);
    let j = choose|j: int| 0 <= j < ended.len() && ended[j] == watcher.seen[k];
    assert(end_events(ended, now)[j] == end_event(watcher.seen[k], now));
}

/// On cleanup, an entry whose process the system still reports stays in
/// the monitored set, and no end event is logged for its process.
pub proof fn lemma_cleanup_keeps_what_runs(watcher: WatcherData, snapshot: Seq<InfoData>, k: int)
    requires
        0 <= k < watcher.seen.len(),
        is_live(snapshot, watcher.seen[k].pid),
    ensures
        watcher.after_cleanup(snapshot).seen.contains(watcher.seen[k]),
        forall|j: int|
            0 <= j < completed(watcher.seen, snapshot).len() ==> (#[trigger] completed(
                watcher.seen,
                snapshot,
            )[j]).pid != watcher.seen[k].pid,
{
    let alive = |m: MonitoredData| is_live(snapshot, m.pid);
    let gone = |m: MonitoredData| !is_live(snapshot, m.pid);
    assert(alive(watcher.seen[k]));
    watcher.seen.lemma_filter_contains(alive, k);
    assert forall|j: int| 0 <= j < completed(watcher.seen, snapshot).len() implies (
    #[trigger] completed(watcher.seen, snapshot)[j]).pid != watcher.seen[k].pid by {
        watcher.seen.lemma_filter_pred(gone, j);
    }
}

/// Every entry either stays or ends: cleanup logs as many end events as
/// entries leave the monitored set.
pub proof fn lemma_cleanup_accounts_for_every_entry(
    watcher: WatcherData,
    snapshot: Seq<InfoData>,
    now: u64,
)
    ensures
        watcher.after_cleanup(snapshot).seen.len() + watcher.cleanup_events(snapshot, now).len()
            == watcher.seen.len(),
    decreases watcher.seen.len(),
{
    reveal(Seq::filter);
    if watcher.seen.len() > 0 {
        lemma_cleanup_accounts_for_every_entry(
            WatcherData { seen: watcher.seen.drop_last(), ..watcher },
            snapshot,
            now,
        );
    }
}

fn is_seen(seen: &Vec<MonitoredProcess>, pid: u32) -> (r: bool)
    ensures
        r == is_monitored(monitored_views(seen@), pid),
{
    let mut i: usize = 0;
    while i < seen.len()
        invariant
            i <= seen.len(),
            forall|j: int| 0 <= j < i ==> (#[trigger] monitored_views(seen@)[j]).pid != pid,
        decreases seen.len() - i,
    {
        if seen[i].pid == pid {
            assert(monitored_views(seen@)[i as int].pid == pid);
            return true;
        }
        i += 1;
    }
    false
}

fn is_reported(snapshot: &Vec<ProcessInfo>, pid: u32) -> (r: bool)
    ensures
        r == is_live(info_views(snapshot@), pid),
{
    let mut i: usize = 0;
    while i < snapshot.len()
        invariant
            i <= snapshot.len(),
            forall|j: int| 0 <= j < i ==> (#[trigger] info_views(snapshot@)[j]).pid != pid,
        decreases snapshot.len() - i,
    {
        if snapshot[i].pid == pid {
            assert(info_views(snapshot@)[i as int].pid == pid);
            return true;
        }
        i += 1;
    }
    false
}

/// Looks at every process of `snapshot` in turn, gives each first-seen match
/// an entry and logs its start.
fn discover_into(
    seen: &mut Vec<MonitoredProcess>,
    targets: &Vec<String>,
    snapshot: &Vec<ProcessInfo>,
    log: &mut EventRecorder,
    now: u64,
)
    ensures
        monitored_views(final(seen)@) == discover(
            monitored_views(old(seen)@),
            texts(targets@),
            info_views(snapshot@),
        ),
        final(log)@ == old(log)@ + start_events(
            newly_seen(monitored_views(old(seen)@), texts(targets@), info_views(snapshot@)),
            now,
        ),
{
    let ghost seen0 = monitored_views(seen@);
    let ghost names = texts(targets@);
    let ghost all = info_views(snapshot@);
    let mut i: usize = 0;
    proof {
        assert(all.subrange(0, 0) =~= Seq::<InfoData>::empty());
        assert(newly_seen(seen0, names, all.subrange(0, 0)) =~= Seq::<MonitoredData>::empty());
        assert(log@ =~= old(log)@ + start_events(Seq::<MonitoredData>::empty(), now));
    }
    while i < snapshot.len()
        invariant
            i <= snapshot.len(),
            seen0 == monitored_views(old(seen)@),
            names == texts(targets@),
            all == info_views(snapshot@),
            monitored_views(seen@) == discover(seen0, names, all.subrange(0, i as int)),
            log@ == old(log)@ + start_events(
                newly_seen(seen0, names, all.subrange(0, i as int)),
                now,
            ),
        decreases snapshot.len() - i,
    {
        let p = &snapshot[i];
        let ghost before = all.subrange(0, i as int);
        let ghost upto = all.subrange(0, i + 1);
        proof {
            assert(upto.drop_last() =~= before);
            assert(upto.last() == p@);
            lemma_discover_extends(seen0, names, before);
            lemma_discover_extends(seen0, names, upto);
        }
        if contains_text(targets, p.name.as_str()) && !is_seen(seen, p.pid) {
            let entry = MonitoredProcess {
                pid: p.pid,
                name: p.name.clone(),
                start_time: p.start_time,
                target: p.name.clone(),
            };
            let event = EventRecord::new(
                now,
                EventBody::ProcessStart {
                    name: p.name.clone(),
                    pid: p.pid,
                    start_time: p.start_time,
                },
            );
            proof {
                assert(entry@ == entry_for(p@));
                assert(event@ == start_event(entry_for(p@), now));
                assert(newly_seen(seen0, names, upto) =~= newly_seen(seen0, names, before).push(
                    entry_for(p@),
                ));
                assert(start_events(newly_seen(seen0, names, upto), now) =~= start_events(
                    newly_seen(seen0, names, before),
                    now,
                ).push(start_event(entry_for(p@), now)));
            }
            seen.push(entry);
            log.record(event);
            proof {
                assert(monitored_views(seen@) =~= discover(seen0, names, before).push(
                    entry_for(p@),
                ));
                assert(log@ =~= old(log)@ + start_events(newly_seen(seen0, names, upto), now));
            }
        } else {
            proof {
                assert(newly_seen(seen0, names, upto) =~= newly_seen(seen0, names, before));
            }
        }
        i += 1;
    }
    proof {
        assert(all.subrange(0, snapshot.len() as int) =~= all);
    }
}

/// Drops every entry whose process is not in `snapshot` and logs its end.
fn retire_from(
    seen: &mut Vec<MonitoredProcess>,
    snapshot: &Vec<ProcessInfo>,
    log: &mut EventRecorder,
    now: u64,
)
    ensures
        monitored_views(final(seen)@) == surviving(
            monitored_views(old(seen)@),
            info_views(snapshot@),
        ),
        final(log)@ == old(log)@ + end_events(
            completed(monitored_views(old(seen)@), info_views(snapshot@)),
            now,
        ),
{
    let ghost seen0 = monitored_views(seen@);
    let ghost live = info_views(snapshot@);
    let mut kept: Vec<MonitoredProcess> = Vec::new();
    let mut i: usize = 0;
    proof {
        reveal(Seq::filter);
        assert(seen0.subrange(0, 0) =~= Seq::<MonitoredData>::empty());
        assert(monitored_views(kept@) =~= surviving(seen0.subrange(0, 0), live));
        assert(log@ =~= old(log)@ + end_events(completed(seen0.subrange(0, 0), live), now));
    }
    while i < seen.len()
        invariant
            i <= seen.len(),
            seen@ == old(seen)@,
            seen0 == monitored_views(seen@),
            live == info_views(snapshot@),
            monitored_views(kept@) == surviving(seen0.subrange(0, i as int), live),
            log@ == old(log)@ + end_events(completed(seen0.subrange(0, i as int), live), now),
        decreases seen.len() - i,
    {
        let m = &seen[i];
        let ghost before = seen0.subrange(0, i as int);
        let ghost upto = seen0.subrange(0, i + 1);
        proof {
            reveal(Seq::filter);
            assert(upto.drop_last() =~= before);
            assert(upto.last() == m@);
        }
        if is_reported(snapshot, m.pid) {
            kept.push(m.clone());
            proof {
                assert(monitored_views(kept@) =~= surviving(before, live).push(m@));
            }
        } else {
            let event = EventRecord::new(
                now,
                EventBody::ProcessEnd { name: m.name.clone(), pid: m.pid, exit_status: None },
            );
            proof {
                assert(event@ == end_event(m@, now));
                assert(end_events(completed(upto, live), now) =~= end_events(
                    completed(before, live),
                    now,
                ).push(end_event(m@, now)));
            }
            log.record(event);
            proof {
                assert(log@ =~= old(log)@ + end_events(completed(upto, live), now));
            }
        }
        i += 1;
    }
    proof {
        assert(seen0.subrange(0, seen.len() as int) =~= seen0);
    }
    *seen = kept;
}

/// The record made for a command that is reported by name alone: the
/// command as the tool's name, no process identifier, and no time measured.
pub open spec fn short_lived_data(command: Seq<char>) -> ShortLivedData {
    ShortLivedData { tool_name: command, tool_pid: ""@, duration_sec: "0"@ }
}

/// The discovery engine: the configured target names and the monitored set.
/// No process identifier has two entries in the set.
#[derive(Debug)]
pub struct ProcessWatcher {
    targets: Vec<String>,
    seen: Vec<MonitoredProcess>,
}

impl View for ProcessWatcher {
    type V = WatcherData;

    closed spec fn view(&self) -> WatcherData {
        WatcherData { targets: texts(self.targets@), seen: monitored_views(self.seen@) }
    }
}

impl ProcessWatcher {
    #[verifier::type_invariant]
    spec fn well_formed(self) -> bool {
        distinct_pids(monitored_views(self.seen@))
    }

    /// A watcher for `targets` that monitors nothing yet.
    pub fn new(targets: Vec<String>) -> (r: ProcessWatcher)
        ensures
            r@ == (WatcherData { targets: texts(targets@), seen: Seq::empty() }),
    {
        let r = ProcessWatcher { targets, seen: Vec::new() };
        assert(r@.seen =~= Seq::<MonitoredData>::empty());
        r
    }

    /// The monitored set, in the order in which its entries were first seen.
    /// No process identifier has two entries in it.
    pub fn get_seen(&self) -> (r: &Vec<MonitoredProcess>)
        ensures
            monitored_views(r@) == self@.seen,
            distinct_pids(self@.seen),
    {
        proof {
            use_type_invariant(self);
        }
        &self.seen
    }

    /// The configured target names.
    pub fn get_targets(&self) -> (r: &Vec<String>)
        ensures
            texts(r@) == self@.targets,
    {
        &self.targets
    }

    /// One discovery poll on the processes that the system reports: gives
    /// each first-seen match an entry and logs its start, then drops each
    /// entry whose process is gone and logs its end.
    pub fn poll_processes(
        &mut self,
        snapshot: &Vec<ProcessInfo>,
        log: &mut EventRecorder,
        now: u64,
    )
        ensures
            final(self)@ == old(self)@.after_poll(info_views(snapshot@)),
            final(log)@ == old(log)@ + old(self)@.poll_events(info_views(snapshot@), now),
    {
        proof {
            use_type_invariant(&*self);
        }
        let ghost seen0 = self@.seen;
        let ghost names = self@.targets;
        let ghost live = info_views(snapshot@);
        let mut seen: Vec<MonitoredProcess> = Vec::new();
        std::mem::swap(&mut seen, &mut self.seen);
        discover_into(&mut seen, &self.targets, snapshot, log, now);
        retire_from(&mut seen, snapshot, log, now);
        proof {
            lemma_discover_distinct(seen0, names, live);
            lemma_filter_keeps_distinct(
                discover(seen0, names, live),
                |m: MonitoredData| is_live(live, m.pid),
            );
        }
        self.seen = seen;
    }

    /// Drops each entry whose process the system no longer reports and logs
    /// its end; nothing joins the monitored set.
    pub fn remove_completed_processes(
        &mut self,
        snapshot: &Vec<ProcessInfo>,
        log: &mut EventRecorder,
        now: u64,
    )
        ensures
            final(self)@ == old(self)@.after_cleanup(info_views(snapshot@)),
            final(log)@ == old(log)@ + old(self)@.cleanup_events(info_views(snapshot@), now),
    {
        proof {
            use_type_invariant(&*self);
        }
        let ghost seen0 = self@.seen;
        let ghost live = info_views(snapshot@);
        let mut seen: Vec<MonitoredProcess> = Vec::new();
        std::mem::swap(&mut seen, &mut self.seen);
        retire_from(&mut seen, snapshot, log, now);
        proof {
            lemma_filter_keeps_distinct(seen0, |m: MonitoredData| is_live(live, m.pid));
        }
        self.seen = seen;
    }

    /// The record for a command that was run and is reported by its name
    /// alone. The monitored set plays no part and is not touched.
    pub fn gather_short_lived_process_data(command: &str) -> (r: ShortLivedProcessLog)
        ensures
            r@ == short_lived_data(command@),
    {
        ShortLivedProcessLog {
            tool_name: command.to_owned(),
            tool_pid: "".to_owned(),
            duration_sec: "0".to_owned(),
        }
    }
}

} // verus!
