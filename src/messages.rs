use vstd::prelude::*;
use crate::level::Level;
use crate::message::{Message, MessageView};
use crate::store::{Data, DataView, empty_data};

verus! {

/// The message state of one request: the two queues and whether they have
/// changed since they were loaded.
pub struct MessagesView {
    pub data: DataView,
    pub modified: bool,
}

/// What the session store holds, or the empty state where it holds nothing.
pub open spec fn loaded(stored: Option<DataView>) -> DataView {
    match stored {
        Some(d) => d,
        None => empty_data(),
    }
}

/// The state at the start of a request: the stored pending messages become
/// readable, nothing is pending and nothing has changed yet.
pub open spec fn opened(stored: Option<DataView>) -> MessagesView {
    MessagesView {
        data: DataView { pending: Seq::empty(), current: loaded(stored).pending },
        modified: false,
    }
}

/// A pushed message: the level and the text, with no attributes.
pub open spec fn new_message(level: Level, text: Seq<char>) -> MessageView {
    MessageView { level, text, args: Map::empty() }
}

/// The state after pushing a message.
pub open spec fn pushed(m: MessagesView, level: Level, text: Seq<char>) -> MessagesView {
    MessagesView {
        data: DataView { pending: m.data.pending.push(new_message(level, text)), current: m.data.current },
        modified: true,
    }
}

/// The message that a read returns: the oldest readable one.
pub open spec fn next_of(m: MessagesView) -> Option<MessageView> {
    if m.data.current.len() > 0 {
        Some(m.data.current[0])
    } else {
        None
    }
}

/// The state after a read: a returned message is gone and marks the state
/// modified; a read that finds nothing changes nothing.
pub open spec fn after_next(m: MessagesView) -> MessagesView {
    if m.data.current.len() > 0 {
        MessagesView {
            data: DataView { pending: m.data.pending, current: m.data.current.drop_first() },
            modified: true,
        }
    } else {
        m
    }
}

/// What the session store holds after the request: the request's state
/// where it changed, else what it held before.
pub open spec fn stored_after(stored: Option<DataView>, m: MessagesView) -> Option<DataView> {
    if m.modified {
        Some(m.data)
    } else {
        stored
    }
}

/// The message state of one request, rotated once when it is opened.
#[derive(Debug)]
pub struct Messages {
    data: Data,
    is_modified: bool,
}

impl View for Messages {
    type V = MessagesView;

    closed spec fn view(&self) -> MessagesView {
        MessagesView { data: self.data@, modified: self.is_modified }
    }
}

impl Messages {
    /// Opens a request on `data` as loaded from the session: rotates it once
    /// and starts unmodified.
    pub fn new(data: Data) -> (r: Messages)
        ensures
            r@ == opened(Some(data@)),
    {
        let mut data = data;
        data.rotate();
        Messages { data, is_modified: false }
    }

    /// Opens a request on what the session store held, starting from empty
    /// queues where it held nothing.
    pub fn open(stored: Option<Data>) -> (r: Messages)
        ensures
            r@ == opened(
                match stored {
                    Some(d) => Some(d@),
                    None => None,
                },
            ),
    {
        match stored {
            Some(d) => Messages::new(d),
            None => Messages::new(Data::new()),
        }
    }

    /// Push a message with the given level.
    pub fn push(self, level: Level, message: String) -> (r: Messages)
        ensures
            r@ == pushed(self@, level, message@),
    {
        let mut s = self;
        s.data.push(Message::new(level, message));
        s.is_modified = true;
        s
    }

    /// Push a `Debug` message.
    pub fn debug(self, message: String) -> (r: Messages)
        ensures
            r@ == pushed(self@, Level::Debug, message@),
    {
        self.push(Level::Debug, message)
    }

    /// Push an `Info` message.
    pub fn info(self, message: String) -> (r: Messages)
        ensures
            r@ == pushed(self@, Level::Info, message@),
    {
        self.push(Level::Info, message)
    }

    /// Push a `Success` message.
    pub fn success(self, message: String) -> (r: Messages)
        ensures
            r@ == pushed(self@, Level::Success, message@),
    {
        self.push(Level::Success, message)
    }

    /// Push a `Warning` message.
    pub fn warning(self, message: String) -> (r: Messages)
        ensures
            r@ == pushed(self@, Level::Warning, message@),
    {
        self.push(Level::Warning, message)
    }

    /// Push an `Error` message.
    pub fn error(self, message: String) -> (r: Messages)
        ensures
            r@ == pushed(self@, Level::Error, message@),
    {
        self.push(Level::Error, message)
    }

    /// Removes and returns the oldest readable message; `None` once they
    /// are all read.
    pub fn next(&mut self) -> (r: Option<Message>)
        ensures
            final(self)@ == after_next(old(self)@),
            match r {
                Some(m) => next_of(old(self)@) == Some(m@),
                None => next_of(old(self)@) is None,
            },
    {
        let r = self.data.take_next();
        if r.is_some() {
            self.is_modified = true;
        }
        r
    }

    /// Whether a message was pushed or read since the state was opened.
    pub fn is_modified(&self) -> (r: bool)
        ensures
            r == self@.modified,
    {
        self.is_modified
    }

    /// The two queues as they stand.
    pub fn data(&self) -> (r: &Data)
        ensures
            r@ == self@.data,
    {
        &self.data
    }

    /// What to write back to the session store at the end of the request:
    /// the queues where they changed, nothing otherwise.
    pub fn into_saved(self) -> (r: Option<Data>)
        ensures
            self@.modified ==> (r matches Some(d) && d@ == self@.data),
            !self@.modified ==> r is None,
    {
        if self.is_modified {
            Some(self.data)
        } else {
            None
        }
    }
}

} // verus!
