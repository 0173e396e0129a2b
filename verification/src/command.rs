//! Uplink commands and the bounded queue that holds them until dispatch.
//!
//! The queue keeps its commands in the order in which they arrived. When it
//! is full, the command that has waited longest makes room for a new one.
//! Dispatch takes the most urgent command, and among equally urgent ones the
//! one that arrived first.

use vstd::prelude::*;

verus! {

/// Largest number of commands that wait in the queue at one time.
pub const MAX_COMMAND_QUEUE_SIZE: usize = 20;

/// A command for the spacecraft.
#[derive(Debug, Clone, PartialEq, Eq)]
pub struct Command {
    pub command_id: u32,
    pub command_type: String,
    /// Urgency; higher is more urgent.
    pub priority: u8,
    /// Instant at which the command was issued, in microseconds.
    pub timestamp: u64,
    /// Longest time, in microseconds, that may pass between issue and
    /// dispatch.
    pub deadline: u64,
}

/// Whether more time than its deadline allows has passed at `now` since the
/// command was issued.
pub open spec fn overdue(c: Command, now: u64) -> bool {
    now - c.timestamp > c.deadline
}

impl Command {
    /// A command issued at the instant `now`.
    pub fn new(command_id: u32, command_type: &str, priority: u8, now: u64, max_delay: u64) -> (c:
        Command)
        ensures
            c.command_id == command_id,
            c.command_type@ == command_type@,
            c.priority == priority,
            c.timestamp == now,
            c.deadline == max_delay,
    {
        Command {
            command_id,
            command_type: command_type.to_owned(),
            priority,
            timestamp: now,
            deadline: max_delay,
        }
    }

    /// Whether the command is overdue at the instant `now`.
    pub fn is_overdue(&self, now: u64) -> (r: bool)
        ensures
            r == overdue(*self, now),
    {
        now > self.timestamp && now - self.timestamp > self.deadline
    }
}

/// The position of the command to dispatch next from a non-empty queue in
/// arrival order: the first command of the highest priority.
pub open spec fn next_index(q: Seq<Command>) -> int
    decreases q.len(),
{
    if q.len() <= 1 {
        0
    } else {
        let among_earlier = next_index(q.drop_last());
        if q.last().priority > q[among_earlier].priority {
            q.len() - 1
        } else {
            among_earlier
        }
    }
}

/// The queue after `command` arrived: if the queue was full, the command that
/// had waited longest is gone; the new command is the latest arrival.
pub open spec fn after_arrival(q: Seq<Command>, command: Command) -> Seq<Command> {
    if q.len() >= MAX_COMMAND_QUEUE_SIZE {
        q.drop_first().push(command)
    } else {
        q.push(command)
    }
}

/// The command that makes room when another arrives: the one that has waited
/// longest, if the queue is full.
pub open spec fn evicted_by_arrival(q: Seq<Command>) -> Option<Command> {
    if q.len() >= MAX_COMMAND_QUEUE_SIZE {
        Some(q[0])
    } else {
        None
    }
}

/// The order in which the commands of a queue are dispatched if nothing else
/// arrives.
pub open spec fn dispatch_order(q: Seq<Command>) -> Seq<Command>
    decreases q.len(),
{
    if q.len() == 0 {
        Seq::empty()
    } else {
        proof {
            lemma_next_index(q);
        }
        seq![q[next_index(q)]] + dispatch_order(q.remove(next_index(q)))
    }
}

/// The command at `next_index` is the most urgent one, and the first of the
/// most urgent ones.
pub proof fn lemma_next_index(q: Seq<Command>)
    requires
        q.len() > 0,
    ensures
        0 <= next_index(q) < q.len(),
        forall|j: int| 0 <= j < q.len() ==> (#[trigger] q[j]).priority <= q[next_index(q)].priority,
        forall|j: int|
            0 <= j < next_index(q) ==> (#[trigger] q[j]).priority < q[next_index(q)].priority,
    decreases q.len(),
{
    if q.len() > 1 {
        let earlier = q.drop_last();
        let best = next_index(q);
        lemma_next_index(earlier);
        assert(q[next_index(earlier)] == earlier[next_index(earlier)]);
        assert forall|j: int| 0 <= j < q.len() implies (#[trigger] q[j]).priority
            <= q[best].priority by {
            if j < earlier.len() {
                assert(earlier[j] == q[j]);
            }
        }
        assert forall|j: int| 0 <= j < best implies (#[trigger] q[j]).priority
            < q[best].priority by {
            assert(earlier[j] == q[j]);
        }
    }
}

/// The character of a decimal digit.
pub open spec fn digit_char(d: nat) -> char {
    if d == 0 {
        '0'
    } else if d == 1 {
        '1'
    } else if d == 2 {
        '2'
    } else if d == 3 {
        '3'
    } else if d == 4 {
        '4'
    } else if d == 5 {
        '5'
    } else if d == 6 {
        '6'
    } else if d == 7 {
        '7'
    } else if d == 8 {
        '8'
    } else {
        '9'
    }
}

/// The decimal numeral of `n`, without leading zeros.
pub open spec fn decimal(n: nat) -> Seq<char>
    decreases n,
{
    if n < 10 {
        seq![digit_char(n)]
    } else {
        decimal(n / 10).push(digit_char(n % 10))
    }
}

/// The text that records the execution of the command with the given
/// identifier.
pub open spec fn result_text(command_id: u32) -> Seq<char> {
    "Executed command #"@ + decimal(command_id as nat)
}

/// The one-character string of a decimal digit.
fn digit_str(d: u32) -> (s: &'static str)
    requires
        d < 10,
    ensures
        s@ == seq![digit_char(d as nat)],
{
    proof {
        reveal_strlit("0");
        reveal_strlit("1");
        reveal_strlit("2");
        reveal_strlit("3");
        reveal_strlit("4");
        reveal_strlit("5");
        reveal_strlit("6");
        reveal_strlit("7");
        reveal_strlit("8");
        reveal_strlit("9");
    }
    let s = if d == 0 {
        "0"
    } else if d == 1 {
        "1"
    } else if d == 2 {
        "2"
    } else if d == 3 {
        "3"
    } else if d == 4 {
        "4"
    } else if d == 5 {
        "5"
    } else if d == 6 {
        "6"
    } else if d == 7 {
        "7"
    } else if d == 8 {
        "8"
    } else {
        "9"
    };
    assert(s@ =~= seq![digit_char(d as nat)]);
    s
}

/// The decimal numeral of `n`.
fn decimal_string(n: u32) -> (s: String)
    ensures
        s@ == decimal(n as nat),
{
    let mut s = String::from_str(digit_str(n % 10));
    let mut rest: u32 = n / 10;
    while rest > 0
        invariant
            rest > 0 ==> decimal(n as nat) == decimal(rest as nat) + s@,
            rest == 0 ==> decimal(n as nat) == s@,
        decreases rest,
    {
        let ghost before = s@;
        let ghost digit = digit_char((rest % 10) as nat);
        s = String::from_str(digit_str(rest % 10)).concat(s.as_str());
        proof {
            assert(s@ == seq![digit] + before);
            if rest < 10 {
                assert(decimal(rest as nat) == seq![digit]);
            } else {
                assert(decimal(rest as nat) == decimal((rest / 10) as nat).push(digit));
                assert(decimal((rest / 10) as nat).push(digit) + before =~= decimal(
                    (rest / 10) as nat,
                ) + (seq![digit] + before));
            }
        }
        rest = rest / 10;
    }
    s
}

/// What is kept of a command that was taken from the queue.
#[derive(Debug, Clone, PartialEq, Eq)]
pub struct ExecutionRecord {
    pub command_id: u32,
    pub command_type: String,
    /// Instant of the dispatch, in microseconds.
    pub executed_at: u64,
    /// Time the dispatch took, in microseconds, as the caller measured it.
    pub execution_time_us: u64,
    pub result: String,
    /// Whether the command was overdue at the instant of the dispatch.
    pub was_overdue: bool,
}

/// Whether `record` is the record of dispatching `command` at `now`.
pub open spec fn records_dispatch(
    record: ExecutionRecord,
    command: Command,
    now: u64,
    execution_time_us: u64,
) -> bool {
    &&& record.command_id == command.command_id
    &&& record.command_type == command.command_type
    &&& record.executed_at == now
    &&& record.execution_time_us == execution_time_us
    &&& record.result@ == result_text(command.command_id)
    &&& record.was_overdue == overdue(command, now)
}

/// A copy of a record.
fn copy_record(record: &ExecutionRecord) -> (copy: ExecutionRecord)
    ensures
        copy == *record,
{
    ExecutionRecord {
        command_id: record.command_id,
        command_type: record.command_type.clone(),
        executed_at: record.executed_at,
        execution_time_us: record.execution_time_us,
        result: record.result.clone(),
        was_overdue: record.was_overdue,
    }
}

/// The position of the command to dispatch next.
fn find_next(queue: &Vec<Command>) -> (best: usize)
    requires
        queue@.len() > 0,
    ensures
        best == next_index(queue@),
        best < queue@.len(),
{
    let mut best: usize = 0;
    let mut i: usize = 1;
    assert(queue@.take(1).len() == 1);
    while i < queue.len()
        invariant
            1 <= i <= queue@.len(),
            best < i,
            best == next_index(queue@.take(i as int)),
        decreases queue@.len() - i,
    {
        proof {
            let longer = queue@.take(i + 1);
            assert(longer.drop_last() =~= queue@.take(i as int));
            assert(longer.last() == queue@[i as int]);
            assert(longer[best as int] == queue@[best as int]);
        }
        if queue[i].priority > queue[best].priority {
            best = i;
        }
        i += 1;
    }
    assert(queue@.take(i as int) =~= queue@);
    best
}

/// The bounded queue of commands awaiting dispatch, with the history of the
/// commands dispatched so far and the next free command identifier.
pub struct CommandExecutor {
    queue: Vec<Command>,
    execution_history: Vec<ExecutionRecord>,
    next_command_id: u32,
}

impl CommandExecutor {
    /// The waiting commands, in the order in which they arrived.
    pub closed spec fn pending(&self) -> Seq<Command> {
        self.queue@
    }

    /// The records of the commands dispatched so far, oldest first.
    pub closed spec fn history(&self) -> Seq<ExecutionRecord> {
        self.execution_history@
    }

    /// The identifier that the next command will get.
    pub closed spec fn next_id(&self) -> u32 {
        self.next_command_id
    }

    /// Whether the queue respects its capacity.
    pub open spec fn wf(&self) -> bool {
        self.pending().len() <= MAX_COMMAND_QUEUE_SIZE
    }

    /// An empty queue with an empty history; identifiers start at 1.
    pub fn new() -> (e: CommandExecutor)
        ensures
            e.pending() == Seq::<Command>::empty(),
            e.history() == Seq::<ExecutionRecord>::empty(),
            e.next_id() == 1,
            e.wf(),
    {
        CommandExecutor { queue: Vec::new(), execution_history: Vec::new(), next_command_id: 1 }
    }

    /// Puts `command` into the queue. If the queue is full, the command that
    /// has waited longest, whatever its priority, leaves the queue and is
    /// handed back.
    pub fn add_command(&mut self, command: Command) -> (evicted: Option<Command>)
        ensures
            final(self).pending() == after_arrival(old(self).pending(), command),
            evicted == evicted_by_arrival(old(self).pending()),
            final(self).history() == old(self).history(),
            final(self).next_id() == old(self).next_id(),
            old(self).wf() ==> final(self).wf(),
    {
        let evicted = if self.queue.len() >= MAX_COMMAND_QUEUE_SIZE {
            let oldest = self.queue.remove(0);
            assert(self.queue@ =~= old(self).queue@.drop_first());
            Some(oldest)
        } else {
            None
        };
        self.queue.push(command);
        evicted
    }

    /// Takes the most urgent command from the queue, the first to have arrived
    /// among equally urgent ones, and says whether it is overdue at `now`.
    /// An empty queue yields nothing.
    pub fn dispatch_next(&mut self, now: u64) -> (r: Option<(Command, bool)>)
        ensures
            old(self).pending().len() == 0 ==> r is None && final(self).pending() == old(
                self,
            ).pending(),
            old(self).pending().len() > 0 ==> r == Some(
                (
                    old(self).pending()[next_index(old(self).pending())],
                    overdue(old(self).pending()[next_index(old(self).pending())], now),
                ),
            ) && final(self).pending() == old(self).pending().remove(
                next_index(old(self).pending()),
            ),
            old(self).pending().len() > 0 ==> dispatch_order(old(self).pending()) == seq![
                old(self).pending()[next_index(old(self).pending())],
            ] + dispatch_order(final(self).pending()),
            final(self).history() == old(self).history(),
            final(self).next_id() == old(self).next_id(),
            old(self).wf() ==> final(self).wf(),
    {
        if self.queue.len() == 0 {
            return None;
        }
        let best = find_next(&self.queue);
        let command = self.queue.remove(best);
        let was_overdue = command.is_overdue(now);
        Some((command, was_overdue))
    }

    /// Dispatches the next command at the instant `now` and adds its record,
    /// with the time `execution_time_us` that the caller measured for it, to
    /// the history. An empty queue yields nothing and changes nothing.
    pub fn execute_next(&mut self, now: u64, execution_time_us: u64) -> (r: Option<
        ExecutionRecord,
    >)
        ensures
            old(self).pending().len() == 0 ==> r is None && final(self).pending() == old(
                self,
            ).pending() && final(self).history() == old(self).history(),
            old(self).pending().len() > 0 ==> r is Some && records_dispatch(
                r->0,
                old(self).pending()[next_index(old(self).pending())],
                now,
                execution_time_us,
            ) && final(self).pending() == old(self).pending().remove(
                next_index(old(self).pending()),
            ) && final(self).history() == old(self).history().push(r->0),
            final(self).next_id() == old(self).next_id(),
            old(self).wf() ==> final(self).wf(),
    {
        match self.dispatch_next(now) {
            None => None,
            Some((command, was_overdue)) => {
                let mut result = String::from_str("Executed command #");
                result.append(decimal_string(command.command_id).as_str());
                let record = ExecutionRecord {
                    command_id: command.command_id,
                    command_type: command.command_type,
                    executed_at: now,
                    execution_time_us,
                    result,
                    was_overdue,
                };
                self.execution_history.push(copy_record(&record));
                Some(record)
            },
        }
    }

    /// Hands out the next free command identifier.
    pub fn get_next_id(&mut self) -> (id: u32)
        requires
            old(self).next_id() < u32::MAX,
        ensures
            id == old(self).next_id(),
            final(self).next_id() == id + 1,
            final(self).pending() == old(self).pending(),
            final(self).history() == old(self).history(),
    {
        let id = self.next_command_id;
        self.next_command_id += 1;
        id
    }

    /// Whether another identifier can be handed out.
    pub fn has_next_id(&self) -> (r: bool)
        ensures
            r == (self.next_id() < u32::MAX),
    {
        self.next_command_id < u32::MAX
    }

    /// Number of commands waiting in the queue.
    pub fn queue_len(&self) -> (n: usize)
        ensures
            n == self.pending().len(),
    {
        self.queue.len()
    }
}

/// The commands of priority `p` in a queue, in the order in which they stand.
pub open spec fn with_priority(q: Seq<Command>, p: u8) -> Seq<Command>
    decreases q.len(),
{
    if q.len() == 0 {
        Seq::empty()
    } else if q[0].priority == p {
        seq![q[0]] + with_priority(q.drop_first(), p)
    } else {
        with_priority(q.drop_first(), p)
    }
}

/// Whether no command stands before a more urgent one.
pub open spec fn most_urgent_first(q: Seq<Command>) -> bool {
    forall|a: int, b: int| 0 <= a < b < q.len() ==> q[a].priority >= q[b].priority
}

/// Taking a command of another priority out of a queue leaves the commands
/// of priority `p` as they were.
proof fn lemma_remove_other_priority(q: Seq<Command>, i: int, p: u8)
    requires
        0 <= i < q.len(),
        q[i].priority != p,
    ensures
        with_priority(q.remove(i), p) == with_priority(q, p),
    decreases i,
{
    if i == 0 {
        assert(q.remove(0) =~= q.drop_first());
    } else {
        let tail = q.drop_first();
        assert(tail[i - 1] == q[i]);
        lemma_remove_other_priority(tail, i - 1, p);
        assert(q.remove(i).drop_first() =~= tail.remove(i - 1));
        assert(q.remove(i)[0] == q[0]);
    }
}

/// Taking the first command of priority `p` out of a queue takes it from the
/// front of the commands of that priority.
proof fn lemma_remove_first_of_priority(q: Seq<Command>, i: int, p: u8)
    requires
        0 <= i < q.len(),
        q[i].priority == p,
        forall|j: int| 0 <= j < i ==> (#[trigger] q[j]).priority != p,
    ensures
        seq![q[i]] + with_priority(q.remove(i), p) == with_priority(q, p),
    decreases i,
{
    if i == 0 {
        assert(q.remove(0) =~= q.drop_first());
    } else {
        let tail = q.drop_first();
        assert(q[0].priority != p);
        assert(tail[i - 1] == q[i]);
        assert forall|j: int| 0 <= j < i - 1 implies (#[trigger] tail[j]).priority != p by {
            assert(tail[j] == q[j + 1]);
        }
        lemma_remove_first_of_priority(tail, i - 1, p);
        assert(q.remove(i).drop_first() =~= tail.remove(i - 1));
        assert(q.remove(i)[0] == q[0]);
    }
}

/// No command in the dispatch order is more urgent than every command of the
/// queue is known to be at most.
proof fn lemma_dispatch_order_bounded(q: Seq<Command>, bound: u8)
    requires
        forall|j: int| 0 <= j < q.len() ==> (#[trigger] q[j]).priority <= bound,
    ensures
        dispatch_order(q).len() == q.len(),
        forall|k: int|
            0 <= k < dispatch_order(q).len() ==> (#[trigger] dispatch_order(q)[k]).priority
                <= bound,
    decreases q.len(),
{
    if q.len() > 0 {
        lemma_next_index(q);
        let i = next_index(q);
        let rest = q.remove(i);
        assert forall|j: int| 0 <= j < rest.len() implies (#[trigger] rest[j]).priority
            <= bound by {
            if j < i {
                assert(rest[j] == q[j]);
            } else {
                assert(rest[j] == q[j + 1]);
            }
        }
        lemma_dispatch_order_bounded(rest, bound);
        let d = dispatch_order(q);
        assert forall|k: int| 0 <= k < d.len() implies (#[trigger] d[k]).priority <= bound by {
            if k > 0 {
                assert(d[k] == dispatch_order(rest)[k - 1]);
            }
        }
    }
}

/// Dispatch is a stable sort by urgency: the dispatch order holds every
/// waiting command once, most urgent first, and commands of equal priority
/// leave in the order in which they arrived.
pub proof fn lemma_dispatch_order_is_stable(q: Seq<Command>)
    ensures
        dispatch_order(q).len() == q.len(),
        most_urgent_first(dispatch_order(q)),
        forall|p: u8| #[trigger] with_priority(dispatch_order(q), p) == with_priority(q, p),
    decreases q.len(),
{
    if q.len() > 0 {
        lemma_next_index(q);
        let i = next_index(q);
        let first = q[i];
        let rest = q.remove(i);
        let d = dispatch_order(q);
        let later = dispatch_order(rest);
        lemma_dispatch_order_is_stable(rest);
        assert forall|j: int| 0 <= j < rest.len() implies (#[trigger] rest[j]).priority
            <= first.priority by {
            if j < i {
                assert(rest[j] == q[j]);
            } else {
                assert(rest[j] == q[j + 1]);
            }
        }
        lemma_dispatch_order_bounded(rest, first.priority);
        assert forall|a: int, b: int| 0 <= a < b < d.len() implies d[a].priority
            >= d[b].priority by {
            assert(d[b] == later[b - 1]);
            if a > 0 {
                assert(d[a] == later[a - 1]);
            }
        }
        assert forall|p: u8| #[trigger] with_priority(d, p) == with_priority(q, p) by {
            assert(d.drop_first() =~= later);
            assert(with_priority(later, p) == with_priority(rest, p));
            if first.priority == p {
                lemma_remove_first_of_priority(q, i, p);
            } else {
                lemma_remove_other_priority(q, i, p);
            }
        }
    }
}

/// A command that joins a queue stands last among the commands of its own
/// priority and leaves the commands of every other priority as they were.
proof fn lemma_with_priority_push(q: Seq<Command>, command: Command, p: u8)
    ensures
        with_priority(q.push(command), p) == with_priority(q, p) + (if command.priority == p {
            seq![command]
        } else {
            Seq::empty()
        }),
    decreases q.len(),
{
    let joined = q.push(command);
    if q.len() == 0 {
        assert(joined.drop_first() =~= Seq::<Command>::empty());
        assert(with_priority(joined.drop_first(), p) =~= Seq::<Command>::empty());
        assert(with_priority(joined, p) =~= with_priority(q, p) + (if command.priority == p {
            seq![command]
        } else {
            Seq::empty()
        }));
    } else {
        lemma_with_priority_push(q.drop_first(), command, p);
        assert(joined.drop_first() =~= q.drop_first().push(command));
        assert(joined[0] == q[0]);
        assert(with_priority(joined, p) =~= with_priority(q, p) + (if command.priority == p {
            seq![command]
        } else {
            Seq::empty()
        }));
    }
}

/// The queue stays sorted on arrival, and ties keep the order of arrival: in
/// the dispatch order, a command that arrives at a queue with room comes
/// after every waiting command of its own priority, and the commands of every
/// priority stay in the order that they had.
pub proof fn lemma_arrival_keeps_dispatch_order(q: Seq<Command>, command: Command)
    requires
        q.len() < MAX_COMMAND_QUEUE_SIZE,
    ensures
        most_urgent_first(dispatch_order(after_arrival(q, command))),
        forall|p: u8| #[trigger]
            with_priority(dispatch_order(after_arrival(q, command)), p) == with_priority(
                dispatch_order(q),
                p,
            ) + (if command.priority == p {
                seq![command]
            } else {
                Seq::empty()
            }),
{
    lemma_dispatch_order_is_stable(q);
    lemma_dispatch_order_is_stable(q.push(command));
    assert forall|p: u8| #[trigger]
        with_priority(dispatch_order(after_arrival(q, command)), p) == with_priority(
            dispatch_order(q),
            p,
        ) + (if command.priority == p {
            seq![command]
        } else {
            Seq::empty()
        }) by {
        lemma_with_priority_push(q, command, p);
    }
}

/// A command that arrives at a full queue drops the command that has waited
/// longest, whatever the priorities: every other command stays, in its
/// place in the order of arrival, and the new command is the latest.
pub proof fn lemma_full_queue_drops_longest_resident(q: Seq<Command>, command: Command)
    requires
        q.len() == MAX_COMMAND_QUEUE_SIZE,
    ensures
        evicted_by_arrival(q) == Some(q[0]),
        after_arrival(q, command).len() == MAX_COMMAND_QUEUE_SIZE,
        forall|i: int| 1 <= i < q.len() ==> after_arrival(q, command)[i - 1] == #[trigger] q[i],
        after_arrival(q, command).last() == command,
{
}

/// A command that arrives at a queue with room drops nothing: every command
/// stays in its place and the new command is the latest.
pub proof fn lemma_queue_with_room_drops_nothing(q: Seq<Command>, command: Command)
    requires
        q.len() < MAX_COMMAND_QUEUE_SIZE,
    ensures
        evicted_by_arrival(q) is None,
        after_arrival(q, command).len() == q.len() + 1,
        forall|i: int| 0 <= i < q.len() ==> after_arrival(q, command)[i] == #[trigger] q[i],
        after_arrival(q, command).last() == command,
{
}

/// A command whose deadline allows no delay is overdue as soon as any time
/// has passed since its issue; no command is overdue at the instant of its
/// issue or before it, nor while the time passed is within its deadline.
pub proof fn lemma_overdue_boundaries(c: Command, now: u64)
    ensures
        c.deadline == 0 && now > c.timestamp ==> overdue(c, now),
        now <= c.timestamp ==> !overdue(c, now),
        now - c.timestamp <= c.deadline ==> !overdue(c, now),
{
}

} // verus!
