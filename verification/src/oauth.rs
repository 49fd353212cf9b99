//! Capture of the redirect with which an OAuth provider answers.
//!
//! The host binds a listener to a loopback port and hands over each address
//! that a browser was redirected to. This module decides what the user
//! interface hears of it: the first address, once, under a fixed event name,
//! and exactly as it came in. The address is not trusted here or anywhere in
//! the shell; the user interface has to check it before use.

use vstd::prelude::*;
use crate::error::{ShellError, ShellErrorView, reply_view};

verus! {

/// Name of the event that carries the captured address.
pub const REDIRECT_EVENT: &'static str = "redirect_uri";

/// An event for the window of the user interface.
#[derive(Debug, PartialEq, Eq)]
pub struct Emission {
    pub event: &'static str,
    pub payload: String,
}

/// Mathematical value of an [`Emission`].
pub struct EmissionView {
    pub event: Seq<char>,
    pub payload: Seq<char>,
}

impl View for Emission {
    type V = EmissionView;

    open spec fn view(&self) -> EmissionView {
        EmissionView { event: self.event@, payload: self.payload@ }
    }
}

/// The event that reports the address `url`: the whole address, unchanged.
pub open spec fn redirect_emission(url: Seq<char>) -> EmissionView {
    EmissionView { event: REDIRECT_EVENT@, payload: url }
}

/// What becomes of a capture that had or had not delivered, when the
/// address `url` comes in: whether it has delivered afterwards, and what it
/// emits.
pub open spec fn capture_step(delivered: bool, url: Seq<char>) -> (bool, Option<EmissionView>) {
    if delivered {
        (true, None)
    } else {
        (true, Some(redirect_emission(url)))
    }
}

/// Everything that a capture emits while the addresses `urls` come in, in
/// their order.
pub open spec fn emissions(delivered: bool, urls: Seq<Seq<char>>) -> Seq<EmissionView>
    decreases urls.len(),
{
    if urls.len() == 0 {
        Seq::empty()
    } else {
        let (next, emitted) = capture_step(delivered, urls[0]);
        let rest = emissions(next, urls.drop_first());
        match emitted {
            Some(emission) => seq![emission] + rest,
            None => rest,
        }
    }
}

/// The side of one listener that faces the user interface. It delivers the
/// first address that comes in and is silent from then on.
#[derive(Debug)]
pub struct RedirectCapture {
    delivered: bool,
}

impl RedirectCapture {
    /// Whether the capture has delivered an address.
    pub closed spec fn delivered(&self) -> bool {
        self.delivered
    }

    /// A capture that has delivered nothing yet.
    pub fn new() -> (capture: RedirectCapture)
        ensures
            !capture.delivered(),
    {
        RedirectCapture { delivered: false }
    }

    /// Whether the capture has delivered an address.
    pub fn has_delivered(&self) -> (delivered: bool)
        ensures
            delivered == self.delivered(),
    {
        self.delivered
    }

    /// Takes an address that the listener saw. The first one is handed on
    /// for emission; any later one is dropped.
    pub fn on_redirect(&mut self, url: String) -> (emitted: Option<Emission>)
        ensures
            final(self).delivered() == capture_step(old(self).delivered(), url@).0,
            match capture_step(old(self).delivered(), url@).1 {
                Some(emission) => emitted is Some && emitted->0@ == emission,
                None => emitted is None,
            },
    {
        if self.delivered {
            None
        } else {
            self.delivered = true;
            Some(Emission { event: REDIRECT_EVENT, payload: url })
        }
    }
}

/// The reply to the command that starts the listener, given how the bind
/// went: the port on success, the cause of the failure otherwise.
pub open spec fn start_reply_for(bound: Result<u16, Seq<char>>) -> Result<u16, ShellErrorView> {
    match bound {
        Ok(port) => Ok(port),
        Err(cause) => Err(ShellErrorView::Bind(cause)),
    }
}

/// Mathematical value of the outcome of a bind.
pub open spec fn bind_view(bound: Result<u16, String>) -> Result<u16, Seq<char>> {
    match bound {
        Ok(port) => Ok(port),
        Err(cause) => Err(cause@),
    }
}

/// Turns the outcome of the bind into the reply to the command that starts
/// the listener. A port is replied only where the bind succeeded, and then
/// it is the port that was bound.
pub fn start_reply(bound: Result<u16, String>) -> (reply: Result<u16, ShellError>)
    ensures
        reply_view(reply) == start_reply_for(bind_view(bound)),
{
    match bound {
        Ok(port) => Ok(port),
        Err(cause) => Err(ShellError::Bind(cause)),
    }
}

/// A capture that has delivered stays silent, whatever comes in.
pub proof fn lemma_delivered_capture_is_silent(urls: Seq<Seq<char>>)
    ensures
        emissions(true, urls) == Seq::<EmissionView>::empty(),
    decreases urls.len(),
{
    if urls.len() > 0 {
        lemma_delivered_capture_is_silent(urls.drop_first());
    }
}

/// Exactly one event: a fresh capture to which at least one address comes
/// in emits a single event, and that event carries the first address as it
/// was received.
pub proof fn lemma_first_redirect_is_emitted_once(urls: Seq<Seq<char>>)
    requires
        urls.len() > 0,
    ensures
        emissions(false, urls) == seq![redirect_emission(urls[0])],
        emissions(false, urls)[0].payload == urls[0],
        emissions(false, urls)[0].event == REDIRECT_EVENT@,
{
    lemma_delivered_capture_is_silent(urls.drop_first());
}

} // verus!
