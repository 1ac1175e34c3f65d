use vstd::prelude::*;

verus! {

/// Buffer capacity of every channel the factory builds: small on purpose, so
/// slow subscribers lag rather than hold memory.
pub const CAPACITY: usize = 1;

/// The state of one multi-subscriber broadcast channel: everything published
/// on it so far, its buffer capacity, and how many subscriptions are attached.
/// Only the most recent `capacity` messages are still deliverable; older ones
/// are gone and show up as lag.
pub struct Broadcast<T> {
    history: Vec<T>,
    capacity: usize,
    subscribers: usize,
}

/// One subscriber's private cursor into a channel: which message it reads
/// next, and (ghost) where the channel's history ended when the subscription
/// was created. Each cursor advances independently of every other.
pub struct Subscription {
    pos: usize,
    since: Ghost<int>,
}

impl Subscription {
    /// The index of the next message this subscriber will see.
    pub closed spec fn pos(&self) -> int {
        self.pos as int
    }

    /// Where the channel's history ended when this subscription was created.
    pub closed spec fn since(&self) -> int {
        self.since@
    }

    pub closed spec fn wf(&self) -> bool {
        0 <= self.since@ <= self.pos as int
    }
}

/// One receive outcome: the index of the next message, a lag report carrying
/// the number of messages this subscriber missed for good, or nothing to read
/// yet.
#[derive(Copy, Clone, PartialEq, Eq, Structural, Debug)]
pub enum Recv {
    Ready(usize),
    Lagged(usize),
    Pending,
}

impl<T> Broadcast<T> {
    /// Every message ever published on this channel, oldest first.
    pub closed spec fn messages(&self) -> Seq<T> {
        self.history@
    }

    /// The buffer capacity: how many of the newest messages are deliverable.
    pub closed spec fn cap(&self) -> int {
        self.capacity as int
    }

    /// How many subscriptions are currently attached.
    pub closed spec fn sub_count(&self) -> int {
        self.subscribers as int
    }

    pub closed spec fn wf(&self) -> bool {
        self.capacity >= 1
    }

    pub fn new(capacity: usize) -> (b: Broadcast<T>)
        requires
            1 <= capacity,
        ensures
            b.wf(),
            b.messages() == Seq::<T>::empty(),
            b.cap() == capacity,
            b.sub_count() == 0,
    {
        Broadcast { history: Vec::new(), capacity, subscribers: 0 }
    }

    /// Publish one value to all current subscribers. With no live subscriber
    /// the value comes straight back to the caller, unsent: that is not an
    /// error, the caller may retry once a subscriber exists. Otherwise the
    /// value is appended to the history and the subscriber count returned.
    pub fn send(&mut self, value: T) -> (r: Result<usize, T>)
        ensures
            final(self).cap() == old(self).cap(),
            final(self).sub_count() == old(self).sub_count(),
            final(self).wf() == old(self).wf(),
            old(self).sub_count() == 0 ==> (r matches Err(v) && v == value
                && final(self).messages() == old(self).messages()),
            old(self).sub_count() > 0 ==> (r matches Ok(n) && n == old(self).sub_count()
                && final(self).messages() == old(self).messages().push(value)),
    {
        if self.subscribers == 0 {
            Err(value)
        } else {
            self.history.push(value);
            Ok(self.subscribers)
        }
    }

    /// Attach a new subscription. Its cursor starts at the current end of the
    /// history, so it sees only messages published after this call; messages
    /// published earlier are never delivered to it, however many other
    /// subscribers already received them.
    pub fn subscribe(&mut self) -> (s: Subscription)
        requires
            old(self).sub_count() < usize::MAX,
        ensures
            final(self).messages() == old(self).messages(),
            final(self).cap() == old(self).cap(),
            final(self).wf() == old(self).wf(),
            final(self).sub_count() == old(self).sub_count() + 1,
            s.wf(),
            s.pos() == final(self).messages().len(),
            s.since() == s.pos(),
    {
        self.subscribers = self.subscribers + 1;
        let pos = self.history.len();
        Subscription { pos, since: Ghost(pos as int) }
    }

    /// One receive attempt by one subscriber. A cursor at the end of the
    /// history has nothing to read yet. A cursor that fell more than the
    /// buffer capacity behind gets a lag report naming how many messages it
    /// missed, and resumes at the oldest still-deliverable message rather
    /// than stopping. Otherwise the subscriber gets the message at its cursor
    /// and the cursor advances by one. A ready message never lies before the
    /// point at which the subscription was created.
    pub fn recv(&self, sub: &mut Subscription) -> (r: Recv)
        requires
            old(sub).wf(),
            old(sub).pos() <= self.messages().len(),
        ensures
            final(sub).wf(),
            final(sub).since() == old(sub).since(),
            old(sub).pos() <= final(sub).pos() <= self.messages().len(),
            ({
                let tail = self.messages().len() as int;
                let p = old(sub).pos();
                if p == tail {
                    r is Pending && final(sub).pos() == p
                } else if tail - p > self.cap() {
                    r matches Recv::Lagged(n) && n == tail - self.cap() - p && final(sub).pos()
                        == tail - self.cap()
                } else {
                    r matches Recv::Ready(i) && i == p && final(sub).pos() == p + 1
                }
            }),
            r matches Recv::Ready(i) ==> old(sub).since() <= i < self.messages().len(),
    {
        let tail = self.history.len();
        if sub.pos == tail {
            Recv::Pending
        } else if tail - sub.pos > self.capacity {
            let missed = tail - self.capacity - sub.pos;
            sub.pos = tail - self.capacity;
            Recv::Lagged(missed)
        } else {
            let i = sub.pos;
            sub.pos = sub.pos + 1;
            Recv::Ready(i)
        }
    }

    /// The message at one index of the history.
    pub fn read(&self, i: usize) -> (v: &T)
        requires
            i < self.messages().len(),
        ensures
            *v == self.messages()[i as int],
    {
        &self.history[i]
    }
}

/// The channel factory: given a message type, a fresh broadcast channel with
/// the fixed small buffer, no subscribers and nothing published yet.
pub fn create<M>() -> (b: Broadcast<M>)
    ensures
        b.wf(),
        b.messages() == Seq::<M>::empty(),
        b.cap() == CAPACITY,
        b.sub_count() == 0,
{
    Broadcast::new(CAPACITY)
}

} // verus!
