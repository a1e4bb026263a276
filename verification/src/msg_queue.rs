use std::collections::VecDeque;
use vstd::prelude::*;

verus! {

/// The first-in first-out queue of messages behind the runtime's shared
/// message queue: senders append at the back, receivers take from the front.
pub struct Mq<T> {
    queue: VecDeque<T>,
}

impl<T> View for Mq<T> {
    type V = Seq<T>;

    /// The queued messages, oldest first.
    closed spec fn view(&self) -> Seq<T> {
        self.queue@
    }
}

/// The queue after sending `msg`.
pub open spec fn send_spec<T>(q: Seq<T>, msg: T) -> Seq<T> {
    q.push(msg)
}

/// The queue and the message after one receive: the oldest message, or
/// nothing when the queue is empty.
pub open spec fn recv_spec<T>(q: Seq<T>) -> (Seq<T>, Option<T>) {
    if q.len() == 0 {
        (q, None)
    } else {
        (q.drop_first(), Some(q[0]))
    }
}

/// The queue after sending every message of `msgs` in order.
pub open spec fn send_all<T>(q: Seq<T>, msgs: Seq<T>) -> Seq<T>
    decreases msgs.len(),
{
    if msgs.len() == 0 {
        q
    } else {
        send_all(send_spec(q, msgs[0]), msgs.drop_first())
    }
}

/// The messages that `n` receives in a row hand out, in the order received.
pub open spec fn recv_n<T>(q: Seq<T>, n: nat) -> Seq<Option<T>>
    decreases n,
{
    if n == 0 {
        Seq::empty()
    } else {
        seq![recv_spec(q).1] + recv_n(recv_spec(q).0, (n - 1) as nat)
    }
}

impl<T> Mq<T> {
    /// An empty queue.
    pub fn new() -> (mq: Mq<T>)
        ensures
            mq@ == Seq::<T>::empty(),
    {
        Mq { queue: VecDeque::new() }
    }

    /// Appends `msg` behind every message already queued.
    pub fn send(&mut self, msg: T)
        ensures
            final(self)@ == send_spec(old(self)@, msg),
    {
        self.queue.push_back(msg);
    }

    /// Takes the oldest message, or returns `None` when the queue is empty,
    /// in which case the caller waits for a sender and tries again.
    pub fn recv(&mut self) -> (r: Option<T>)
        ensures
            (final(self)@, r) == recv_spec(old(self)@),
    {
        let r = self.queue.pop_front();
        proof {
            if old(self)@.len() > 0 {
                assert(self.queue@ =~= old(self)@.drop_first());
            }
        }
        r
    }

    /// The number of queued messages.
    pub fn len(&self) -> (n: usize)
        ensures
            n == self@.len(),
    {
        self.queue.len()
    }

    /// Whether no message is queued.
    pub fn is_empty(&self) -> (b: bool)
        ensures
            b == (self@.len() == 0),
    {
        self.queue.len() == 0
    }
}

/// Sending messages appends them, in order, behind the queued ones.
pub proof fn lemma_send_all_appends<T>(q: Seq<T>, msgs: Seq<T>)
    ensures
        send_all(q, msgs) == q + msgs,
    decreases msgs.len(),
{
    if msgs.len() > 0 {
        lemma_send_all_appends(q.push(msgs[0]), msgs.drop_first());
        assert(q.push(msgs[0]) + msgs.drop_first() =~= q + msgs);
    }
}

/// Receiving from a queue hands out its messages oldest first.
pub proof fn lemma_recv_in_order<T>(q: Seq<T>)
    ensures
        recv_n(q, q.len()) == q.map_values(|m: T| Some(m)),
    decreases q.len(),
{
    if q.len() > 0 {
        lemma_recv_in_order(q.drop_first());
        assert(recv_n(q, q.len()) =~= q.map_values(|m: T| Some(m)));
    } else {
        assert(recv_n(q, 0) =~= q.map_values(|m: T| Some(m)));
    }
}

/// Messages come out of the queue in the order they were sent: sending
/// `msgs` to an empty queue and then receiving as many times yields exactly
/// `msgs`, and leaves the queue empty.
pub proof fn lemma_fifo<T>(msgs: Seq<T>)
    ensures
        recv_n(send_all(Seq::<T>::empty(), msgs), msgs.len()) == msgs.map_values(
            |m: T| Some(m),
        ),
{
    lemma_send_all_appends(Seq::<T>::empty(), msgs);
    assert(Seq::<T>::empty() + msgs =~= msgs);
    lemma_recv_in_order(msgs);
}

/// One operation on the queue: sending a message, or receiving.
pub enum QueueOp<T> {
    Send(T),
    Recv,
}

/// The queue after applying `ops` in order to `q`, and the messages the
/// receives among them handed out, in the order handed out (a receive that
/// found the queue empty hands out nothing).
pub open spec fn apply_ops<T>(q: Seq<T>, ops: Seq<QueueOp<T>>) -> (Seq<T>, Seq<T>)
    decreases ops.len(),
{
    if ops.len() == 0 {
        (q, Seq::empty())
    } else {
        let last = ops.last();
        let (q1, got) = apply_ops(q, ops.drop_last());
        match last {
            QueueOp::Send(m) => (send_spec(q1, m), got),
            QueueOp::Recv => match recv_spec(q1).1 {
                Some(m) => (recv_spec(q1).0, got.push(m)),
                None => (q1, got),
            },
        }
    }
}

/// The messages that the sends among `ops` send, in order.
pub open spec fn sent_by<T>(ops: Seq<QueueOp<T>>) -> Seq<T>
    decreases ops.len(),
{
    if ops.len() == 0 {
        Seq::empty()
    } else {
        match ops.last() {
            QueueOp::Send(m) => sent_by(ops.drop_last()).push(m),
            QueueOp::Recv => sent_by(ops.drop_last()),
        }
    }
}

/// Over any interleaving of sends and receives, nothing is lost, duplicated
/// or reordered: the messages handed out, followed by those still queued,
/// are exactly the messages queued at the start followed by those sent.
pub proof fn lemma_interleaved<T>(q: Seq<T>, ops: Seq<QueueOp<T>>)
    ensures
        apply_ops(q, ops).1 + apply_ops(q, ops).0 == q + sent_by(ops),
    decreases ops.len(),
{
    if ops.len() > 0 {
        let rest = ops.drop_last();
        lemma_interleaved(q, rest);
        let (q1, got) = apply_ops(q, rest);
        match ops.last() {
            QueueOp::Send(m) => {
                assert(got + q1.push(m) =~= (got + q1).push(m));
                assert(q + sent_by(rest).push(m) =~= (q + sent_by(rest)).push(m));
            },
            QueueOp::Recv => {
                if q1.len() > 0 {
                    assert(got.push(q1[0]) + q1.drop_first() =~= got + q1);
                }
            },
        }
    }
}

/// Starting from an empty queue, any interleaving of sends and receives
/// hands out a prefix of the sent messages, in send order, and the queue
/// holds exactly the rest of them.
pub proof fn lemma_interleaved_from_empty<T>(ops: Seq<QueueOp<T>>)
    ensures
        apply_ops(Seq::<T>::empty(), ops).1.len() <= sent_by(ops).len(),
        apply_ops(Seq::<T>::empty(), ops).1 == sent_by(ops).take(
            apply_ops(Seq::<T>::empty(), ops).1.len() as int,
        ),
        apply_ops(Seq::<T>::empty(), ops).0 == sent_by(ops).skip(
            apply_ops(Seq::<T>::empty(), ops).1.len() as int,
        ),
{
    lemma_interleaved(Seq::<T>::empty(), ops);
    let (fin, got) = apply_ops(Seq::<T>::empty(), ops);
    let sent = sent_by(ops);
    assert(Seq::<T>::empty() + sent =~= sent);
    assert(got + fin == sent);
    assert(got.len() + fin.len() == sent.len());
    assert(got =~= sent.take(got.len() as int)) by {
        assert forall|i: int| 0 <= i < got.len() implies got[i] == sent[i] by {
            assert((got + fin)[i] == got[i]);
        }
    }
    assert(fin =~= sent.skip(got.len() as int)) by {
        assert forall|i: int| 0 <= i < fin.len() implies fin[i] == sent[got.len() + i] by {
            assert((got + fin)[got.len() + i] == fin[i]);
        }
    }
}

/// A receive from an empty queue hands out nothing and changes nothing.
pub proof fn lemma_recv_empty<T>(q: Seq<T>)
    requires
        q.len() == 0,
    ensures
        recv_spec(q) == (q, None::<T>),
{
}

} // verus!
