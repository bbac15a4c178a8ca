use vstd::prelude::*;
use std::collections::VecDeque;
use crate::message::{Message, MessageView};

verus! {

/// The two queues: what is being written now and what can be read now.
pub struct DataView {
    pub pending: Seq<MessageView>,
    pub current: Seq<MessageView>,
}

/// State with both queues empty.
pub open spec fn empty_data() -> DataView {
    DataView { pending: Seq::empty(), current: Seq::empty() }
}

/// Views of a sequence of messages.
pub open spec fn views(s: Seq<Message>) -> Seq<MessageView> {
    s.map_values(|m: Message| m@)
}

/// The stored message state: messages pushed during the present request
/// (`pending_messages`) and messages readable during it (`messages`), each
/// oldest first.
#[derive(Debug, Clone)]
pub struct Data {
    /// Messages written during the present request.
    pub pending_messages: VecDeque<Message>,
    /// Messages that the present request can read.
    pub messages: VecDeque<Message>,
}

impl View for Data {
    type V = DataView;

    open spec fn view(&self) -> DataView {
        DataView { pending: views(self.pending_messages@), current: views(self.messages@) }
    }
}

impl Data {
    /// Both queues empty.
    pub fn new() -> (r: Data)
        ensures
            r@ == empty_data(),
    {
        let r = Data { pending_messages: VecDeque::new(), messages: VecDeque::new() };
        proof {
            assert(r@.pending =~= Seq::<MessageView>::empty());
            assert(r@.current =~= Seq::<MessageView>::empty());
        }
        r
    }

    /// Appends `m` to the pending queue.
    pub fn push(&mut self, m: Message)
        ensures
            final(self)@.pending == old(self)@.pending.push(m@),
            final(self)@.current == old(self)@.current,
    {
        self.pending_messages.push_back(m);
        proof {
            assert(final(self)@.pending =~= old(self)@.pending.push(m@));
        }
    }

    /// Makes the pending messages the readable ones and empties the pending
    /// queue; what was readable before is dropped.
    pub fn rotate(&mut self)
        ensures
            final(self)@.current == old(self)@.pending,
            final(self)@.pending == Seq::<MessageView>::empty(),
    {
        let mut taken: VecDeque<Message> = VecDeque::new();
        std::mem::swap(&mut taken, &mut self.pending_messages);
        self.messages = taken;
        proof {
            assert(final(self)@.pending =~= Seq::<MessageView>::empty());
        }
    }

    /// Removes and returns the oldest readable message, if any.
    pub fn take_next(&mut self) -> (r: Option<Message>)
        ensures
            final(self)@.pending == old(self)@.pending,
            match r {
                Some(m) => {
                    &&& old(self)@.current.len() > 0
                    &&& m@ == old(self)@.current[0]
                    &&& final(self)@.current == old(self)@.current.drop_first()
                },
                None => {
                    &&& old(self)@.current.len() == 0
                    &&& final(self)@.current == old(self)@.current
                },
            },
    {
        let r = self.messages.pop_front();
        proof {
            if r is Some {
                assert(final(self)@.current =~= old(self)@.current.drop_first());
            }
        }
        r
    }

    /// Number of readable messages.
    pub fn len(&self) -> (r: usize)
        ensures
            r == self@.current.len(),
    {
        self.messages.len()
    }
}

} // verus!
