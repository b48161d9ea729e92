//! The batch sink: buffers domain messages and turns them into storage writes.
//!
//! The sink's worker waits on the channel and writes to the database, which
//! this crate does not do. What it decides is here: [`BatchSink::step`] takes
//! what the last wait on the channel brought and says whether to flush and
//! whether to leave; [`prepare_flush`] turns a batch into the chunks of rows
//! to write, each with the policy "ignore a row whose `message_id` exists".

use crate::db::model::{project, AuditRecordsSelfserviceInsert, RecordFields};
use crate::messaging::handlers::user_action::{UserActionFields, UserActionMessage};
use crate::messaging::model::{EnvelopeWithPayload, PayloadFields};
use crate::misc::error::Error;
use crate::misc::time::{elapsed_between, span_between, Elapsed};
use chrono::NaiveDateTime;
use vstd::prelude::*;

verus! {

/// A buffer that is not empty is flushed once more than this many seconds
/// have passed since the last flush, by however little.
pub const FLUSH_INTERVAL_SECONDS: i64 = 5;

/// The most rows that one storage write carries.
pub const CHUNK_SIZE: usize = 4000;

/// What a handler hands to the sink: one variant per supported event type.
#[derive(Debug)]
pub enum Message {
    UserAction(EnvelopeWithPayload<UserActionMessage>),
}

/// The content of a [`Message`].
pub ghost enum MessageView {
    UserAction(PayloadFields<UserActionFields>),
}

impl View for Message {
    type V = MessageView;

    open spec fn view(&self) -> MessageView {
        match self {
            Message::UserAction(message) => MessageView::UserAction(message@),
        }
    }
}

/// What the last wait on the channel brought.
#[derive(Debug)]
pub enum SinkEvent {
    /// A message arrived.
    Received(Message),
    /// The wait timed out.
    Timeout,
    /// Every sender is gone. This is not how the service shuts down, so the
    /// sink asks for a global shutdown.
    Disconnected,
}

/// What the sink's worker does after a step.
#[derive(Debug)]
pub struct SinkStep {
    /// The batch to write, where one is due.
    pub flush: Option<Vec<EnvelopeWithPayload<UserActionMessage>>>,
    /// Whether to signal the global shutdown.
    pub trigger_shutdown: bool,
    /// Whether to leave the loop.
    pub stop: bool,
}

/// The buffer of the sink and the time of its last flush.
pub struct BatchSink {
    pub insert_buffer: Vec<EnvelopeWithPayload<UserActionMessage>>,
    pub last_insert_time: NaiveDateTime,
}

/// The buffer once `event` is taken in: a received message is appended.
pub open spec fn buffered(
    buffer: Seq<EnvelopeWithPayload<UserActionMessage>>,
    event: SinkEvent,
) -> Seq<EnvelopeWithPayload<UserActionMessage>> {
    match event {
        SinkEvent::Received(Message::UserAction(message)) => buffer.push(message),
        _ => buffer,
    }
}

/// Whether the sink leaves its loop: the channel is disconnected or the
/// global shutdown was requested.
pub open spec fn leaves(event: SinkEvent, shutdown_requested: bool) -> bool {
    event is Disconnected || shutdown_requested
}

/// Whether a buffer of `len` messages is flushed: it is not empty, and
/// either the flush interval has passed or the sink is leaving, in which
/// case what is left goes out in a last flush.
pub open spec fn flush_due(len: nat, elapsed: Elapsed, leaving: bool) -> bool {
    len > 0 && (elapsed.exceeds(FLUSH_INTERVAL_SECONDS) || leaving)
}

impl BatchSink {
    /// A sink with an empty buffer whose flush interval starts at `now`.
    pub fn new(now: NaiveDateTime) -> (sink: BatchSink)
        ensures
            sink.insert_buffer@.len() == 0,
            sink.last_insert_time == now,
    {
        BatchSink { insert_buffer: Vec::new(), last_insert_time: now }
    }

    /// One step of the sink, given the time that has passed since the last
    /// flush.
    ///
    /// A flush hands the whole buffer out and leaves an empty one behind, so
    /// that messages which arrive during the write gather in a fresh buffer.
    pub fn step_after(
        &mut self,
        event: SinkEvent,
        elapsed: Elapsed,
        now: NaiveDateTime,
        shutdown_requested: bool,
    ) -> (step: SinkStep)
        ensures
            step.stop == leaves(event, shutdown_requested),
            step.trigger_shutdown == (event is Disconnected),
            step.flush is Some == flush_due(
                buffered(old(self).insert_buffer@, event).len(),
                elapsed,
                leaves(event, shutdown_requested),
            ),
            match step.flush {
                Some(batch) => {
                    &&& batch@ == buffered(old(self).insert_buffer@, event)
                    &&& final(self).insert_buffer@.len() == 0
                    &&& final(self).last_insert_time == now
                },
                None => {
                    &&& final(self).insert_buffer@ == buffered(old(self).insert_buffer@, event)
                    &&& final(self).last_insert_time == old(self).last_insert_time
                },
            },
    {
        let disconnected = match event {
            SinkEvent::Received(Message::UserAction(message)) => {
                self.insert_buffer.push(message);
                false
            },
            SinkEvent::Timeout => false,
            SinkEvent::Disconnected => true,
        };
        let stop = disconnected || shutdown_requested;
        let flush = if self.insert_buffer.len() > 0 && (elapsed.longer_than(FLUSH_INTERVAL_SECONDS)
            || stop) {
            let mut batch: Vec<EnvelopeWithPayload<UserActionMessage>> = Vec::new();
            std::mem::swap(&mut self.insert_buffer, &mut batch);
            self.last_insert_time = now;
            Some(batch)
        } else {
            None
        };
        SinkStep { flush, trigger_shutdown: disconnected, stop }
    }

    /// One step of the sink at the time `now`.
    ///
    /// This is [`BatchSink::step_after`] with the time that `chrono` measures
    /// from the last flush to `now`.
    pub fn step(&mut self, event: SinkEvent, now: NaiveDateTime, shutdown_requested: bool) -> (step:
        SinkStep)
        ensures
            step.stop == leaves(event, shutdown_requested),
            step.trigger_shutdown == (event is Disconnected),
            step.flush is Some == flush_due(
                buffered(old(self).insert_buffer@, event).len(),
                span_between(now, old(self).last_insert_time),
                leaves(event, shutdown_requested),
            ),
            match step.flush {
                Some(batch) => {
                    &&& batch@ == buffered(old(self).insert_buffer@, event)
                    &&& final(self).insert_buffer@.len() == 0
                    &&& final(self).last_insert_time == now
                },
                None => {
                    &&& final(self).insert_buffer@ == buffered(old(self).insert_buffer@, event)
                    &&& final(self).last_insert_time == old(self).last_insert_time
                },
            },
    {
        let elapsed = elapsed_between(&now, &self.last_insert_time);
        self.step_after(event, elapsed, now, shutdown_requested)
    }
}

/// The `index`-th chunk of `items` cut into pieces of `size`.
pub open spec fn chunk_at<T>(items: Seq<T>, size: nat, index: int) -> Seq<T> {
    items.subrange(
        index * size,
        if (index + 1) * size <= items.len() {
            (index + 1) * size
        } else {
            items.len() as int
        },
    )
}

/// `chunks` is `items` cut, in order, into pieces of `size` with a shorter
/// last piece where the length is no multiple of `size`: as many pieces as
/// are needed and no empty one.
pub open spec fn chunked<T>(chunks: Seq<Vec<T>>, items: Seq<T>, size: nat) -> bool {
    &&& items.len() == 0 ==> chunks.len() == 0
    &&& items.len() > 0 ==> (chunks.len() - 1) * size < items.len() <= chunks.len() * size
    &&& forall|i: int| 0 <= i < chunks.len() ==> (#[trigger] chunks[i])@ == chunk_at(items, size, i)
}

/// Cuts `items` into chunks of `chunk_size`.
pub fn split_into_chunks<T>(items: Vec<T>, chunk_size: usize) -> (chunks: Vec<Vec<T>>)
    requires
        chunk_size > 0,
    ensures
        chunked(chunks@, items@, chunk_size as nat),
        forall|i: int| 0 <= i < chunks@.len() ==> 0 < (#[trigger] chunks@[i])@.len() <= chunk_size,
{
    let ghost all = items@;
    let mut rest = items;
    let mut chunks: Vec<Vec<T>> = Vec::new();
    proof {
        assert(chunks@.len() * chunk_size == 0) by (nonlinear_arith)
            requires
                chunks@.len() == 0,
        ;
        assert(rest@ =~= all.subrange(0, all.len() as int));
    }
    while rest.len() > chunk_size
        invariant
            chunk_size > 0,
            chunks@.len() * chunk_size + rest@.len() == all.len(),
            rest@ == all.subrange(chunks@.len() * chunk_size, all.len() as int),
            chunks@.len() > 0 ==> rest@.len() > 0,
            forall|i: int|
                0 <= i < chunks@.len() ==> (#[trigger] chunks@[i])@ == chunk_at(
                    all,
                    chunk_size as nat,
                    i,
                ),
        decreases rest@.len(),
    {
        let ghost done = chunks@.len() as int;
        let ghost before = rest@;
        let tail = rest.split_off(chunk_size);
        proof {
            assert((done + 1) * chunk_size == done * chunk_size + chunk_size) by (nonlinear_arith);
            assert(rest@ =~= chunk_at(all, chunk_size as nat, done));
            assert(tail@ =~= all.subrange((done + 1) * chunk_size, all.len() as int));
        }
        chunks.push(rest);
        rest = tail;
    }
    if rest.len() > 0 {
        proof {
            let done = chunks@.len() as int;
            assert((done + 1) * chunk_size == done * chunk_size + chunk_size) by (nonlinear_arith);
            assert(rest@ =~= chunk_at(all, chunk_size as nat, done));
        }
        chunks.push(rest);
    }
    proof {
        lemma_chunks_fit(chunks@, all, chunk_size as nat);
    }
    chunks
}

/// However long `items` is, no chunk is empty and none is longer than
/// `size`; every chunk but the last has exactly `size` items, and together
/// the chunks hold as many items as there are.
pub proof fn lemma_chunks_fit<T>(chunks: Seq<Vec<T>>, items: Seq<T>, size: nat)
    requires
        size > 0,
        chunked(chunks, items, size),
    ensures
        forall|i: int| 0 <= i < chunks.len() ==> 0 < (#[trigger] chunks[i])@.len() <= size,
        forall|i: int| 0 <= i < chunks.len() - 1 ==> (#[trigger] chunks[i])@.len() == size,
        chunks.len() > 0 ==> chunks.last()@.len() == items.len() - (chunks.len() - 1) * size,
{
    assert forall|i: int| 0 <= i < chunks.len() implies 0 < (#[trigger] chunks[i])@.len() <= size
        && (i < chunks.len() - 1 ==> chunks[i]@.len() == size) by {
        let count = chunks.len() as int;
        assert(chunks[i]@ == chunk_at(items, size, i));
        assert((i + 1) * size == i * size + size) by (nonlinear_arith);
        assert(i * size <= (count - 1) * size) by (nonlinear_arith)
            requires
                0 <= i <= count - 1,
                size > 0,
        ;
        if i < count - 1 {
            assert((i + 1) * size <= (count - 1) * size) by (nonlinear_arith)
                requires
                    0 <= i + 1 <= count - 1,
                    size > 0,
            ;
        }
    }
    if chunks.len() > 0 {
        let last = chunks.len() - 1;
        assert(chunks[last]@ == chunk_at(items, size, last));
        assert((last + 1) * size == last * size + size) by (nonlinear_arith);
    }
}

/// The rows of the first `count` messages of `batch`, or `None` where one of
/// them has a timestamp that no date can hold.
pub open spec fn rows_of(
    batch: Seq<EnvelopeWithPayload<UserActionMessage>>,
    created_at: NaiveDateTime,
    count: int,
) -> Option<Seq<RecordFields>>
    decreases count,
{
    if count <= 0 {
        Some(Seq::empty())
    } else {
        match (rows_of(batch, created_at, count - 1), project(batch[count - 1]@, created_at)) {
            (Some(rows), Some(row)) => Some(rows.push(row)),
            _ => None,
        }
    }
}

/// The content of each row.
pub open spec fn row_views(rows: Seq<AuditRecordsSelfserviceInsert>) -> Seq<RecordFields> {
    rows.map_values(|row: AuditRecordsSelfserviceInsert| row@)
}

/// Turns every message of `batch` into its row, in order. All rows carry
/// `created_at` as the time they were taken in.
pub fn to_rows(batch: &Vec<EnvelopeWithPayload<UserActionMessage>>, created_at: NaiveDateTime) -> (rows:
    Result<Vec<AuditRecordsSelfserviceInsert>, Error>)
    ensures
        match rows {
            Ok(rows) => rows_of(batch@, created_at, batch@.len() as int) == Some(row_views(rows@)),
            Err(error) => error == Error::TimestampOutOfRange && rows_of(
                batch@,
                created_at,
                batch@.len() as int,
            ) is None,
        },
{
    let mut rows: Vec<AuditRecordsSelfserviceInsert> = Vec::new();
    let mut i: usize = 0;
    while i < batch.len()
        invariant
            i <= batch@.len(),
            rows_of(batch@, created_at, i as int) == Some(row_views(rows@)),
        decreases batch@.len() - i,
    {
        match AuditRecordsSelfserviceInsert::from_message(&batch[i], created_at) {
            None => {
                proof {
                    lemma_rows_fail_onwards(batch@, created_at, i + 1, batch@.len() as int);
                }
                return Err(Error::TimestampOutOfRange);
            },
            Some(row) => {
                proof {
                    assert(row_views(rows@.push(row)) =~= row_views(rows@).push(row@));
                }
                rows.push(row);
            },
        }
        i += 1;
    }
    Ok(rows)
}

/// Once the rows of a prefix cannot be built, those of a longer one cannot.
pub proof fn lemma_rows_fail_onwards(
    batch: Seq<EnvelopeWithPayload<UserActionMessage>>,
    created_at: NaiveDateTime,
    count: int,
    longer: int,
)
    requires
        count <= longer,
        rows_of(batch, created_at, count) is None,
    ensures
        rows_of(batch, created_at, longer) is None,
    decreases longer - count,
{
    if count < longer {
        lemma_rows_fail_onwards(batch, created_at, count, longer - 1);
    }
}

/// `chunks` holds `rows`, in order, in pieces of `size` with a shorter last
/// piece where the number of rows is no multiple of `size`.
pub open spec fn writes_of(
    chunks: Seq<Vec<AuditRecordsSelfserviceInsert>>,
    rows: Seq<RecordFields>,
    size: nat,
) -> bool {
    &&& rows.len() == 0 ==> chunks.len() == 0
    &&& rows.len() > 0 ==> (chunks.len() - 1) * size < rows.len() <= chunks.len() * size
    &&& forall|i: int|
        0 <= i < chunks.len() ==> row_views((#[trigger] chunks[i])@) == chunk_at(rows, size, i)
}

/// The writes of one flush: the rows of `batch`, in order, in chunks of at
/// most [`CHUNK_SIZE`]. Nothing is to be written where a message's timestamp
/// cannot be turned into a date.
pub fn prepare_flush(
    batch: &Vec<EnvelopeWithPayload<UserActionMessage>>,
    created_at: NaiveDateTime,
) -> (writes: Result<Vec<Vec<AuditRecordsSelfserviceInsert>>, Error>)
    ensures
        match writes {
            Ok(chunks) => {
                &&& rows_of(batch@, created_at, batch@.len() as int) is Some
                &&& writes_of(
                    chunks@,
                    rows_of(batch@, created_at, batch@.len() as int).unwrap(),
                    CHUNK_SIZE as nat,
                )
                &&& forall|i: int|
                    0 <= i < chunks@.len() ==> 0 < (#[trigger] chunks@[i])@.len() <= CHUNK_SIZE
            },
            Err(error) => error == Error::TimestampOutOfRange && rows_of(
                batch@,
                created_at,
                batch@.len() as int,
            ) is None,
        },
{
    match to_rows(batch, created_at) {
        Err(error) => Err(error),
        Ok(rows) => {
            let ghost all = rows@;
            let chunks = split_into_chunks(rows, CHUNK_SIZE);
            proof {
                assert(row_views(all).len() == all.len());
                assert forall|i: int| 0 <= i < chunks@.len() implies row_views(
                    (#[trigger] chunks@[i])@,
                ) == chunk_at(row_views(all), CHUNK_SIZE as nat, i) by {
                    assert(chunks@[i]@ == chunk_at(all, CHUNK_SIZE as nat, i));
                    assert(0 < chunks@[i]@.len() <= CHUNK_SIZE);
                    assert(row_views(chunk_at(all, CHUNK_SIZE as nat, i)) =~= chunk_at(
                        row_views(all),
                        CHUNK_SIZE as nat,
                        i,
                    ));
                }
            }
            Ok(chunks)
        },
    }
}

} // verus!
