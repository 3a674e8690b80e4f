//! Bounded, order-preserving retrieval of the most recent messages of one
//! target conversation.
//!
//! The remote service yields messages newest-first. Retrieval keeps at most
//! `cap` of them, stopping eagerly once the bound is reached, and the batch is
//! then reversed so that the emitted order is oldest-first.

use vstd::prelude::*;

verus! {

/// One retrieved message: a timestamp (seconds since the Unix epoch) and the
/// raw text body.
#[derive(Debug)]
pub struct MessageRecord {
    pub timestamp: i64,
    pub text: String,
}

/// One conversation as the remote service presents it: its numeric identity
/// and its messages, newest first.
#[derive(Debug)]
pub struct ChatFeed {
    pub chat_id: i64,
    pub newest_first: Vec<MessageRecord>,
}

/// What bounded retrieval keeps from a newest-first feed: the first `cap`
/// entries (all of them when fewer exist), reversed, so the result runs
/// oldest-first.
pub open spec fn recent_spec(s: Seq<MessageRecord>, cap: nat) -> Seq<MessageRecord> {
    if s.len() <= cap {
        s.reverse()
    } else {
        s.take(cap as int).reverse()
    }
}

/// Accumulates messages in retrieval order, never beyond its bound.
pub struct Collector {
    items: Vec<MessageRecord>,
    cap: usize,
}

impl Collector {
    /// The messages taken so far, in retrieval order (newest first).
    pub closed spec fn items_spec(&self) -> Seq<MessageRecord> {
        self.items@
    }

    /// The bound this collector was created with.
    pub closed spec fn cap_spec(&self) -> nat {
        self.cap as nat
    }

    /// The retrieval bound is never exceeded.
    pub closed spec fn wf(&self) -> bool {
        self.items@.len() <= self.cap
    }

    pub fn new(cap: usize) -> (c: Collector)
        ensures
            c.wf(),
            c.items_spec() == Seq::<MessageRecord>::empty(),
            c.cap_spec() == cap as nat,
    {
        Collector { items: Vec::new(), cap }
    }

    /// Whether the bound has not been reached yet, so another message may be
    /// taken from the feed.
    pub fn wants_more(&self) -> (b: bool)
        ensures
            b == (self.items_spec().len() < self.cap_spec()),
    {
        self.items.len() < self.cap
    }

    /// Take one more message. The result says whether the feed should keep
    /// being consumed; once it is false, retrieval must stop.
    pub fn push(&mut self, m: MessageRecord) -> (more: bool)
        requires
            old(self).wf(),
            old(self).items_spec().len() < old(self).cap_spec(),
        ensures
            final(self).wf(),
            final(self).cap_spec() == old(self).cap_spec(),
            final(self).items_spec() == old(self).items_spec().push(m),
            more == (final(self).items_spec().len() < final(self).cap_spec()),
    {
        self.items.push(m);
        self.items.len() < self.cap
    }

    /// Emit the batch oldest-first: the reverse of retrieval order.
    pub fn finish(self) -> (r: Vec<MessageRecord>)
        ensures
            r@ == self.items_spec().reverse(),
    {
        let mut taken = self.items;
        let mut out: Vec<MessageRecord> = Vec::new();
        while taken.len() > 0
            invariant
                out@.len() + taken@.len() == self.items@.len(),
                forall|k: int|
                    0 <= k < out@.len() ==> out@[k] == self.items@[self.items@.len() - 1 - k],
                taken@ == self.items@.take(taken@.len() as int),
            decreases taken@.len(),
        {
            let m = taken.pop().unwrap();
            assert(taken@ == self.items@.take(taken@.len() as int));
            out.push(m);
        }
        assert(out@ =~= self.items@.reverse());
        out
    }
}

/// Whether a conversation is the retrieval target.
pub fn is_target_chat(chat_id: i64, target: i64) -> (r: bool)
    ensures
        r == (chat_id == target),
{
    chat_id == target
}

/// Bounded retrieval of one newest-first feed: keep the first `cap` messages
/// (all of them when fewer exist), stopping eagerly at the bound, and emit
/// them oldest-first.
pub fn take_recent(newest_first: Vec<MessageRecord>, cap: usize) -> (r: Vec<MessageRecord>)
    ensures
        r@ == recent_spec(newest_first@, cap as nat),
{
    let ghost orig: Seq<MessageRecord> = newest_first@;
    let mut feed = newest_first;
    let mut c = Collector::new(cap);
    proof {
        assert(orig.take(0) =~= c.items_spec());
        assert(orig.skip(0) =~= orig);
    }
    while feed.len() > 0 && c.wants_more()
        invariant
            c.wf(),
            c.cap_spec() == cap as nat,
            c.items_spec().len() <= orig.len(),
            c.items_spec() == orig.take(c.items_spec().len() as int),
            feed@ == orig.skip(c.items_spec().len() as int),
        decreases feed@.len(),
    {
        let m = feed.remove(0);
        proof {
            let k = c.items_spec().len() as int;
            assert(orig.skip(k)[0] == orig[k]);
            assert(orig.skip(k).remove(0) =~= orig.skip(k + 1));
            assert(orig.take(k).push(orig[k]) =~= orig.take(k + 1));
        }
        let _more = c.push(m);
    }
    proof {
        let k = c.items_spec().len() as int;
        if orig.len() <= cap as nat {
            assert(k == orig.len());
            assert(orig.take(k) =~= orig);
        } else {
            assert(k == cap as int);
        }
    }
    c.finish()
}

/// What a full scan retrieves: for each conversation whose identity matches
/// the target — in the order the service yields them — the bounded,
/// oldest-first batch of its feed; nothing from any other conversation.
pub open spec fn retrieve_spec(chats: Seq<ChatFeed>, target: i64, cap: nat) -> Seq<MessageRecord>
    decreases chats.len(),
{
    if chats.len() == 0 {
        Seq::<MessageRecord>::empty()
    } else {
        let head = if chats[0].chat_id == target {
            recent_spec(chats[0].newest_first@, cap)
        } else {
            Seq::<MessageRecord>::empty()
        };
        head + retrieve_spec(chats.drop_first(), target, cap)
    }
}

/// Scan a conversation list for the target identity and retrieve the bounded
/// recent batch of every match, in scan order.
pub fn collect_recent(chats: Vec<ChatFeed>, target: i64, cap: usize) -> (r: Vec<MessageRecord>)
    ensures
        r@ == retrieve_spec(chats@, target, cap as nat),
{
    let ghost orig: Seq<ChatFeed> = chats@;
    let mut rest = chats;
    let mut out: Vec<MessageRecord> = Vec::new();
    while rest.len() > 0
        invariant
            retrieve_spec(orig, target, cap as nat) == out@ + retrieve_spec(
                rest@,
                target,
                cap as nat,
            ),
        decreases rest@.len(),
    {
        let ghost prev: Seq<ChatFeed> = rest@;
        let chat = rest.remove(0);
        proof {
            assert(prev.remove(0) =~= prev.drop_first());
        }
        if is_target_chat(chat.chat_id, target) {
            let mut batch = take_recent(chat.newest_first, cap);
            out.append(&mut batch);
        }
    }
    proof {
        assert(out@ + retrieve_spec(rest@, target, cap as nat) =~= out@);
    }
    out
}

/// Retrieval is bounded by `cap`, and a feed with at most `cap` messages is
/// retrieved whole.
pub proof fn lemma_recent_bounded(s: Seq<MessageRecord>, cap: nat)
    ensures
        recent_spec(s, cap).len() <= cap,
        recent_spec(s, cap).len() == if s.len() <= cap {
            s.len()
        } else {
            cap
        },
        s.len() <= cap ==> recent_spec(s, cap) == s.reverse(),
{
}

/// The emitted order is the reverse of retrieval order: position `i` of the
/// result holds the message retrieved `len - 1 - i` steps in, so position 0
/// is the oldest of the batch and the last position the newest.
pub proof fn lemma_recent_reverses(s: Seq<MessageRecord>, cap: nat, i: int)
    requires
        0 <= i < recent_spec(s, cap).len(),
    ensures
        recent_spec(s, cap)[i] == s[recent_spec(s, cap).len() - 1 - i],
{
}

/// A scan in which no conversation matches the target yields nothing at all;
/// that outcome is valid, not an error.
pub proof fn lemma_no_match_empty(chats: Seq<ChatFeed>, target: i64, cap: nat)
    requires
        forall|i: int| 0 <= i < chats.len() ==> #[trigger] chats[i].chat_id != target,
    ensures
        retrieve_spec(chats, target, cap) == Seq::<MessageRecord>::empty(),
    decreases chats.len(),
{
    if chats.len() > 0 {
        assert(chats[0].chat_id != target);
        assert forall|i: int|
            0 <= i < chats.drop_first().len() implies #[trigger] chats.drop_first()[i].chat_id
            != target by {
            assert(chats.drop_first()[i] == chats[i + 1]);
        }
        lemma_no_match_empty(chats.drop_first(), target, cap);
        assert(retrieve_spec(chats, target, cap) =~= Seq::<MessageRecord>::empty());
    }
}

} // verus!
