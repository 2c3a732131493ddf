//! Work handed to the main thread from elsewhere.

use std::collections::VecDeque;
use vstd::prelude::*;

verus! {

/// Why a request to the main thread failed.
#[derive(Clone, Copy, Debug, PartialEq, Eq, Structural)]
pub enum RuntimeMessageError {
    /// The main thread takes no more requests.
    SendError,
    /// The main thread gave up the request before it had a result.
    ReceiveError,
}

/// A request to the main thread: `W` is called with the window, `C` with a
/// channel, `S` with the state of the window.
pub enum MainThreadCallback<W, C, S> {
    WindowFn(W),
    ChannelFn(&'static str, C),
    PlatformMessage(String, Vec<u8>),
    WindowStateFn(S),
}

/// A message for the engine.
pub struct PlatformMessage {
    pub channel: String,
    pub message: Vec<u8>,
    /// Somebody waits for the engine to respond.
    pub awaits_response: bool,
}

/// What the main thread does for one request.
pub enum MainThreadAction<W, C, S> {
    /// Call this with the window.
    CallWithWindow(W),
    /// Call this with the channel of the given name, if there is one.
    CallWithChannel(&'static str, C),
    /// Send the engine a message.
    SendPlatformMessage(PlatformMessage),
    /// Call this with the state of the window.
    CallWithWindowState(S),
}

/// The main thread's answer to `callback`.
pub open spec fn served<W, C, S>(callback: MainThreadCallback<W, C, S>) -> MainThreadAction<W, C, S> {
    match callback {
        MainThreadCallback::WindowFn(f) => MainThreadAction::CallWithWindow(f),
        MainThreadCallback::ChannelFn(name, f) => MainThreadAction::CallWithChannel(name, f),
        MainThreadCallback::PlatformMessage(channel, message) => {
            MainThreadAction::SendPlatformMessage(
                PlatformMessage { channel, message, awaits_response: false },
            )
        },
        MainThreadCallback::WindowStateFn(f) => MainThreadAction::CallWithWindowState(f),
    }
}

impl<W, C, S> MainThreadCallback<W, C, S> {
    /// Returns the main thread's answer.
    pub fn serve(self) -> (action: MainThreadAction<W, C, S>)
        ensures
            action == served(self),
    {
        match self {
            MainThreadCallback::WindowFn(f) => MainThreadAction::CallWithWindow(f),
            MainThreadCallback::ChannelFn(name, f) => MainThreadAction::CallWithChannel(name, f),
            MainThreadCallback::PlatformMessage(channel, message) => {
                MainThreadAction::SendPlatformMessage(
                    PlatformMessage { channel, message, awaits_response: false },
                )
            },
            MainThreadCallback::WindowStateFn(f) => MainThreadAction::CallWithWindowState(f),
        }
    }
}

/// The requests to the main thread. They wait in the order in which they came
/// until the main thread takes them.
pub struct RuntimeData<W, C, S> {
    pending: VecDeque<MainThreadCallback<W, C, S>>,
    connected: bool,
}

/// What a `RuntimeData` stands for.
#[verifier::ext_equal]
pub struct RuntimeModel<W, C, S> {
    /// The main thread takes requests.
    pub connected: bool,
    /// The requests that wait, oldest first.
    pub pending: Seq<MainThreadCallback<W, C, S>>,
}

impl<W, C, S> RuntimeModel<W, C, S> {
    /// No request waits for a main thread that takes none.
    pub open spec fn well_formed(self) -> bool {
        !self.connected ==> self.pending.len() == 0
    }

    /// What posting `callback` comes to: it waits behind all others, or it is
    /// refused and nothing changes.
    pub open spec fn posting(self, callback: MainThreadCallback<W, C, S>) -> (
        RuntimeModel<W, C, S>,
        Result<(), RuntimeMessageError>,
    ) {
        if self.connected {
            (RuntimeModel { pending: self.pending.push(callback), ..self }, Ok(()))
        } else {
            (self, Err(RuntimeMessageError::SendError))
        }
    }

    /// The state once the main thread took all requests.
    pub open spec fn drained(self) -> RuntimeModel<W, C, S> {
        RuntimeModel { pending: Seq::empty(), ..self }
    }
}

impl<W, C, S> View for RuntimeData<W, C, S> {
    type V = RuntimeModel<W, C, S>;

    closed spec fn view(&self) -> RuntimeModel<W, C, S> {
        RuntimeModel { connected: self.connected, pending: self.pending@ }
    }
}

impl<W, C, S> RuntimeData<W, C, S> {
    /// Returns the empty collection of requests to a main thread that takes
    /// requests.
    pub fn new() -> (runtime: Self)
        ensures
            runtime@ == (RuntimeModel::<W, C, S> { connected: true, pending: Seq::empty() }),
            runtime@.well_formed(),
    {
        RuntimeData { pending: VecDeque::new(), connected: true }
    }

    fn post(&mut self, callback: MainThreadCallback<W, C, S>) -> (posted: Result<
        (),
        RuntimeMessageError,
    >)
        ensures
            (final(self)@, posted) == old(self)@.posting(callback),
    {
        if self.connected {
            self.pending.push_back(callback);
            Ok(())
        } else {
            Err(RuntimeMessageError::SendError)
        }
    }

    /// Requests a call of `f` with the window.
    pub fn with_window(&mut self, f: W) -> (posted: Result<(), RuntimeMessageError>)
        ensures
            (final(self)@, posted) == old(self)@.posting(MainThreadCallback::WindowFn(f)),
            old(self)@.well_formed() ==> final(self)@.well_formed(),
    {
        self.post(MainThreadCallback::WindowFn(f))
    }

    /// Requests a call of `f` with the window, where `f` passes on a result
    /// that `window_result` is to be given.
    pub fn with_window_result(&mut self, f: W) -> (posted: Result<(), RuntimeMessageError>)
        ensures
            (final(self)@, posted) == old(self)@.posting(MainThreadCallback::WindowFn(f)),
            old(self)@.well_formed() ==> final(self)@.well_formed(),
    {
        self.post(MainThreadCallback::WindowFn(f))
    }

    /// Returns the result of a call requested by `with_window_result`, where
    /// `received` is what the call passed on, or `None` if it never will.
    pub fn window_result<R>(received: Option<R>) -> (result: Result<R, RuntimeMessageError>)
        ensures
            match received {
                Some(value) => result == Ok::<R, RuntimeMessageError>(value),
                None => result == Err::<R, RuntimeMessageError>(RuntimeMessageError::ReceiveError),
            },
    {
        match received {
            Some(value) => Ok(value),
            None => Err(RuntimeMessageError::ReceiveError),
        }
    }

    /// Requests a call of `f` with the channel of the given name.
    pub fn with_channel(&mut self, channel_name: &'static str, f: C) -> (posted: Result<
        (),
        RuntimeMessageError,
    >)
        ensures
            (final(self)@, posted) == old(self)@.posting(
                MainThreadCallback::ChannelFn(channel_name, f),
            ),
            old(self)@.well_formed() ==> final(self)@.well_formed(),
    {
        self.post(MainThreadCallback::ChannelFn(channel_name, f))
    }

    /// Requests that the engine be sent `data` on the channel of the given name.
    pub fn send_message(&mut self, channel_name: String, data: Vec<u8>) -> (posted: Result<
        (),
        RuntimeMessageError,
    >)
        ensures
            (final(self)@, posted) == old(self)@.posting(
                MainThreadCallback::PlatformMessage(channel_name, data),
            ),
            old(self)@.well_formed() ==> final(self)@.well_formed(),
    {
        self.post(MainThreadCallback::PlatformMessage(channel_name, data))
    }

    /// Requests a call of `f` with the state of the window.
    pub fn with_window_state(&mut self, f: S) -> (posted: Result<(), RuntimeMessageError>)
        ensures
            (final(self)@, posted) == old(self)@.posting(MainThreadCallback::WindowStateFn(f)),
            old(self)@.well_formed() ==> final(self)@.well_formed(),
    {
        self.post(MainThreadCallback::WindowStateFn(f))
    }

    /// Takes all requests, oldest first.
    pub(crate) fn take_pending(&mut self) -> (callbacks: VecDeque<MainThreadCallback<W, C, S>>)
        ensures
            callbacks@ == old(self)@.pending,
            final(self)@ == old(self)@.drained(),
    {
        let mut callbacks: VecDeque<MainThreadCallback<W, C, S>> = VecDeque::new();
        callbacks.append(&mut self.pending);
        callbacks
    }

    /// Stops taking requests. Returns those that will not be served, oldest
    /// first.
    pub fn disconnect(&mut self) -> (abandoned: VecDeque<MainThreadCallback<W, C, S>>)
        ensures
            abandoned@ == old(self)@.pending,
            final(self)@ == (RuntimeModel::<W, C, S> { connected: false, pending: Seq::empty() }),
            final(self)@.well_formed(),
    {
        self.connected = false;
        self.take_pending()
    }
}

} // verus!
