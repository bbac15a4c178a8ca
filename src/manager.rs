use vstd::prelude::*;
use crate::messages::{Messages, opened};
use crate::store::Data;

verus! {

/// Why a request is answered with a server error instead of reaching, or
/// leaving, the inner handler.
#[derive(Debug, Clone, Copy, PartialEq, Eq, Structural)]
pub enum Rejection {
    /// The request carries no session: the session layer is not installed.
    MissingSession,
    /// The handler asked for the messages but the request carries none: the
    /// messages layer is not installed.
    MissingMessages,
    /// The session store failed to read the message state.
    LoadFailed,
    /// The session store failed to write the message state.
    SaveFailed,
}

/// Text that explains a rejection.
pub open spec fn diagnostic_of(r: Rejection) -> Seq<char> {
    match r {
        Rejection::MissingSession => "Could not get session."@,
        Rejection::MissingMessages => "Could not extract messages. Is `MessagesManagerLayer` installed?"@,
        Rejection::LoadFailed => "Could not load messages from the session."@,
        Rejection::SaveFailed => "Could not save messages to the session."@,
    }
}

impl Rejection {
    /// HTTP status of the response: always 500 (internal server error).
    pub fn status_code(&self) -> (r: u16)
        ensures
            r == 500,
    {
        500
    }

    /// Text that explains the rejection.
    pub fn diagnostic(&self) -> (r: &'static str)
        ensures
            r@ == diagnostic_of(*self),
    {
        match self {
            Rejection::MissingSession => "Could not get session.",
            Rejection::MissingMessages => "Could not extract messages. Is `MessagesManagerLayer` installed?",
            Rejection::LoadFailed => "Could not load messages from the session.",
            Rejection::SaveFailed => "Could not save messages to the session.",
        }
    }
}

/// Middleware that opens the message state before the inner service runs
/// and writes it back afterwards where it changed.
#[derive(Debug, Clone)]
pub struct MessagesManager<S> {
    inner: S,
}

/// Layer that wraps a service in a [`MessagesManager`].
#[derive(Debug, Clone, Copy)]
pub struct MessagesManagerLayer;

impl MessagesManagerLayer {
    /// Wraps `inner`.
    pub fn layer<S>(&self, inner: S) -> (r: MessagesManager<S>)
        ensures
            r.wrapped() == inner,
    {
        MessagesManager::new(inner)
    }
}

impl<S> MessagesManager<S> {
    /// The wrapped service.
    pub closed spec fn wrapped(&self) -> S {
        self.inner
    }

    /// Wraps `inner`.
    pub fn new(inner: S) -> (r: MessagesManager<S>)
        ensures
            r.wrapped() == inner,
    {
        MessagesManager { inner }
    }

    /// The wrapped service.
    pub fn inner(&self) -> (r: &S)
        ensures
            *r == self.wrapped(),
    {
        &self.inner
    }

    /// Gives the wrapped service back.
    pub fn into_inner(self) -> (r: S)
        ensures
            r == self.wrapped(),
    {
        self.inner
    }

    /// First step of a request: the session that the request carries, or a
    /// rejection where it carries none.
    pub fn check_session<T>(session: Option<T>) -> (r: Result<T, Rejection>)
        ensures
            match session {
                Some(s) => r == Ok::<T, Rejection>(s),
                None => r == Err::<T, Rejection>(Rejection::MissingSession),
            },
    {
        match session {
            Some(s) => Ok(s),
            None => Err(Rejection::MissingSession),
        }
    }

    /// Second step: opens the message state on what the session store
    /// returned. Nothing stored means empty queues; a failed read rejects the
    /// request before the inner service runs.
    pub fn begin<E>(loaded: Result<Option<Data>, E>) -> (r: Result<Messages, Rejection>)
        ensures
            match loaded {
                Ok(Some(d)) => r matches Ok(m) && m@ == opened(Some(d@)),
                Ok(None) => r matches Ok(m) && m@ == opened(None),
                Err(_) => r == Err::<Messages, Rejection>(Rejection::LoadFailed),
            },
    {
        match loaded {
            Ok(stored) => Ok(Messages::open(stored)),
            Err(_) => Err(Rejection::LoadFailed),
        }
    }

    /// Last step: the inner service's response, or a rejection where writing
    /// the message state back failed. `saved` is `None` where nothing was
    /// written because nothing changed.
    pub fn finish<R, E>(response: R, saved: Option<Result<(), E>>) -> (r: Result<R, Rejection>)
        ensures
            match saved {
                Some(Err(_)) => r == Err::<R, Rejection>(Rejection::SaveFailed),
                _ => r == Ok::<R, Rejection>(response),
            },
    {
        match saved {
            Some(Err(_)) => Err(Rejection::SaveFailed),
            _ => Ok(response),
        }
    }
}

/// The message state that an earlier layer attached to the request, or a
/// rejection where none was attached.
pub fn extract<T>(found: Option<T>) -> (r: Result<T, Rejection>)
    ensures
        match found {
            Some(t) => r == Ok::<T, Rejection>(t),
            None => r == Err::<T, Rejection>(Rejection::MissingMessages),
        },
{
    match found {
        Some(t) => Ok(t),
        None => Err(Rejection::MissingMessages),
    }
}

} // verus!
