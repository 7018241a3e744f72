use vstd::prelude::*;

verus! {

/// The mathematical state of the result stream: the FIFO of ready results,
/// the count of registered producers whose results have not been consumed,
/// whether a consumer's waker is parked in the slot, and whether the stream
/// was cancelled.
pub struct StreamState<T> {
    pub buffer: Seq<T>,
    pub outstanding: nat,
    pub waker_registered: bool,
    pub cancelled: bool,
}

/// What one poll of the stream hands the consumer.
pub enum StreamPoll<T> {
    /// No producer is outstanding and nothing is buffered: the stream ends.
    Finished,
    /// The oldest buffered result.
    Ready(T),
    /// Nothing buffered yet but producers remain: the consumer's waker is
    /// parked and the consumer suspends.
    Pending,
}

/// A fresh stream.
pub open spec fn initial_stream<T>() -> StreamState<T> {
    StreamState { buffer: Seq::empty(), outstanding: 0, waker_registered: false, cancelled: false }
}

/// Registering one more producer.
pub open spec fn stream_register<T>(s: StreamState<T>) -> StreamState<T> {
    StreamState { outstanding: s.outstanding + 1, ..s }
}

/// A producer's result landing in the buffer: it is appended at the back and
/// any parked waker is taken out of the slot (to be invoked once the lock is
/// released).
pub open spec fn stream_insert<T>(s: StreamState<T>, value: T) -> StreamState<T> {
    StreamState { buffer: s.buffer.push(value), waker_registered: false, ..s }
}

/// Whether a producer's insert must invoke a waker: exactly when a consumer
/// parked one.
pub open spec fn stream_insert_wakes<T>(s: StreamState<T>) -> bool {
    s.waker_registered
}

/// What a poll returns in state `s`.
pub open spec fn stream_poll_result<T>(s: StreamState<T>) -> StreamPoll<T> {
    if s.buffer.len() == 0 && s.outstanding == 0 {
        StreamPoll::Finished
    } else if s.buffer.len() > 0 {
        StreamPoll::Ready(s.buffer[0])
    } else {
        StreamPoll::Pending
    }
}

/// The state after a poll: a yielded result leaves the buffer and settles
/// one outstanding producer; a pending poll parks the consumer's waker.
pub open spec fn stream_poll_state<T>(s: StreamState<T>) -> StreamState<T> {
    if s.buffer.len() == 0 && s.outstanding == 0 {
        s
    } else if s.buffer.len() > 0 {
        StreamState {
            buffer: s.buffer.drop_first(),
            outstanding: if s.outstanding > 0 {
                (s.outstanding - 1) as nat
            } else {
                0
            },
            ..s
        }
    } else {
        StreamState { waker_registered: true, ..s }
    }
}

/// Cancellation: pending producers are written off, but what is already
/// buffered stays readable.
pub open spec fn stream_cancel<T>(s: StreamState<T>) -> StreamState<T> {
    StreamState { cancelled: true, outstanding: 0, ..s }
}

/// Everything the consumer reads when it polls until the buffer is empty.
pub open spec fn stream_drained<T>(s: StreamState<T>) -> Seq<T>
    decreases s.buffer.len(),
{
    if s.buffer.len() == 0 {
        Seq::empty()
    } else {
        seq![s.buffer[0]] + stream_drained(stream_poll_state(s))
    }
}

/// The state left behind by that drain.
pub open spec fn stream_drained_state<T>(s: StreamState<T>) -> StreamState<T>
    decreases s.buffer.len(),
{
    if s.buffer.len() == 0 {
        s
    } else {
        stream_drained_state(stream_poll_state(s))
    }
}

/// First-in first-out delivery: polling the stream until its buffer is empty
/// yields exactly the buffered results, in the order they were pushed.
pub proof fn lemma_stream_fifo<T>(s: StreamState<T>)
    ensures
        stream_drained(s) == s.buffer,
    decreases s.buffer.len(),
{
    if s.buffer.len() == 0 {
        assert(stream_drained(s) =~= s.buffer);
    } else {
        lemma_stream_fifo(stream_poll_state(s));
        assert(stream_drained(s) =~= s.buffer);
    }
}

/// Outstanding-counter balance: in a scope that was not cancelled and whose
/// producers have all delivered — every outstanding producer's result is in
/// the buffer — consuming the stream brings the outstanding count to zero
/// and the very next poll reports the end of the stream.
pub proof fn lemma_outstanding_balance<T>(s: StreamState<T>)
    requires
        s.outstanding == s.buffer.len(),
    ensures
        stream_drained_state(s).outstanding == 0,
        stream_drained_state(s).buffer.len() == 0,
        stream_poll_result(stream_drained_state(s)) is Finished,
    decreases s.buffer.len(),
{
    if s.buffer.len() > 0 {
        lemma_outstanding_balance(stream_poll_state(s));
    }
}

/// Waker economy: a push wakes only a parked consumer, and since the push
/// takes the waker out of the slot, a second push with no poll in between
/// wakes nobody — one wake per transition out of emptiness.
pub proof fn lemma_waker_economy<T>(s: StreamState<T>, first: T, second: T)
    ensures
        stream_insert_wakes(s) ==> s.waker_registered,
        !stream_insert_wakes(stream_insert(s, first)),
        !stream_insert_wakes(stream_insert(stream_insert(s, first), second)),
{
}

/// The executable core of the result stream. In the blocking shell the
/// buffer sits under a lock, the outstanding count is an atomic and the
/// waker slot holds a real waker; every decision about them is made here,
/// against the state the view denotes.
pub struct AsyncStream<T> {
    buffer: Vec<T>,
    outstanding: usize,
    waker_registered: bool,
    cancelled: bool,
}

impl<T> View for AsyncStream<T> {
    type V = StreamState<T>;

    closed spec fn view(&self) -> StreamState<T> {
        StreamState {
            buffer: self.buffer@,
            outstanding: self.outstanding as nat,
            waker_registered: self.waker_registered,
            cancelled: self.cancelled,
        }
    }
}

impl<T> AsyncStream<T> {
    /// A fresh, empty stream with no producers registered.
    pub fn new() -> (s: Self)
        ensures
            s@ == initial_stream::<T>(),
    {
        AsyncStream { buffer: Vec::new(), outstanding: 0, waker_registered: false, cancelled: false }
    }

    /// Registers one more producer whose result the stream owes.
    pub fn increment(&mut self)
        requires
            old(self)@.outstanding < usize::MAX,
        ensures
            final(self)@ == stream_register(old(self)@),
    {
        self.outstanding = self.outstanding + 1;
    }

    /// A producer's result lands in the buffer. Returns whether the caller
    /// must invoke the consumer's waker, which it took out of the slot.
    pub fn insert_item(&mut self, value: T) -> (woke: bool)
        requires
            old(self)@.buffer.len() < usize::MAX,
        ensures
            final(self)@ == stream_insert(old(self)@, value),
            woke == stream_insert_wakes(old(self)@),
    {
        self.buffer.push(value);
        let woke = self.waker_registered;
        self.waker_registered = false;
        woke
    }

    /// One poll by the consumer: the end of the stream once nothing is owed
    /// and nothing is buffered, the oldest result when one is buffered, and
    /// otherwise a suspension with the consumer's waker parked in the slot.
    pub fn poll_next(&mut self) -> (r: StreamPoll<T>)
        ensures
            final(self)@ == stream_poll_state(old(self)@),
            r == stream_poll_result(old(self)@),
    {
        if self.buffer.len() == 0 && self.outstanding == 0 {
            StreamPoll::Finished
        } else if self.buffer.len() > 0 {
            let value = self.buffer.remove(0);
            if self.outstanding > 0 {
                self.outstanding = self.outstanding - 1;
            }
            proof {
                assert(self@.buffer =~= old(self)@.buffer.drop_first());
            }
            StreamPoll::Ready(value)
        } else {
            self.waker_registered = true;
            StreamPoll::Pending
        }
    }

    /// The oldest buffered result, consumed — exactly what one poll yields
    /// while something is buffered — or `None` when nothing is buffered;
    /// never suspends and parks no waker, so results already delivered stay
    /// reachable even after a cancellation wrote the producers off.
    pub fn first(&mut self) -> (r: Option<T>)
        ensures
            old(self)@.buffer.len() == 0 ==> r is None && final(self)@ == old(self)@,
            old(self)@.buffer.len() > 0 ==> r == Some(old(self)@.buffer[0]) && final(self)@
                == stream_poll_state(old(self)@),
    {
        if self.buffer.len() == 0 {
            return None;
        }
        let value = self.buffer.remove(0);
        if self.outstanding > 0 {
            self.outstanding = self.outstanding - 1;
        }
        proof {
            assert(self@.buffer =~= old(self)@.buffer.drop_first());
        }
        Some(value)
    }

    /// Cancels the stream: pending producers are written off so that the
    /// stream can end, while results already buffered stay readable.
    pub fn cancel_tasks(&mut self)
        ensures
            final(self)@ == stream_cancel(old(self)@),
    {
        self.cancelled = true;
        self.outstanding = 0;
    }

    /// Writes the outstanding count off without cancelling: the forcible
    /// reset a collective wait performs once the pool has quiesced, which
    /// also settles producers that died without delivering.
    pub fn reset_outstanding(&mut self)
        ensures
            final(self)@ == (StreamState { outstanding: 0, ..old(self)@ }),
    {
        self.outstanding = 0;
    }

    /// How many producers' results are still owed.
    pub fn item_count(&self) -> (n: usize)
        ensures
            n == self@.outstanding,
    {
        self.outstanding
    }

    /// How many results are buffered and unread.
    pub fn buffer_count(&self) -> (n: usize)
        ensures
            n == self@.buffer.len(),
    {
        self.buffer.len()
    }

    /// Whether the stream was cancelled.
    pub fn is_cancelled(&self) -> (r: bool)
        ensures
            r == self@.cancelled,
    {
        self.cancelled
    }
}

} // verus!
