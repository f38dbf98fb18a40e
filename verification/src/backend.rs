//! The backend itself: what it remembers from one request to the next.

use crate::payment::{Bolt11Settings, SettingsResponse};
use std::collections::HashMap;
use vstd::prelude::*;

verus! {

/// How many events may wait for the mint to read them.
pub const EVENT_CHANNEL_CAPACITY: usize = 100;

/// A payment backend on top of the SDK.
///
/// It asks for what it needs: a method that needs the SDK or the quote database returns the
/// request together with a state to resume from, and that state takes the reply.
#[derive(Debug)]
pub struct BreezBackend {
    wait_invoice_active: bool,
    listener_ids: Vec<String>,
}

/// What a backend remembers.
#[verifier::ext_equal]
pub struct BackendView {
    /// The mint is waiting for payments.
    pub wait_invoice_active: bool,
    /// The event listeners that the SDK has for this backend, the oldest first.
    pub listeners: Seq<Seq<char>>,
}

impl BackendView {
    /// A backend that nobody waits on and that has no listener.
    pub open spec fn idle() -> Self {
        BackendView { wait_invoice_active: false, listeners: Seq::empty() }
    }

    /// The backend with the mint waiting for payments.
    pub open spec fn waiting(self) -> Self {
        BackendView { wait_invoice_active: true, ..self }
    }

    /// The backend with the mint waiting no longer.
    pub open spec fn cancelled(self) -> Self {
        BackendView { wait_invoice_active: false, ..self }
    }

    /// The backend with one more listener.
    pub open spec fn with_listener(self, listener_id: Seq<char>) -> Self {
        BackendView { listeners: self.listeners.push(listener_id), ..self }
    }

    /// The backend with its listeners gone.
    pub open spec fn without_listeners(self) -> Self {
        BackendView { listeners: Seq::empty(), ..self }
    }
}

/// The texts of a list of strings.
pub open spec fn texts(strings: Seq<String>) -> Seq<Seq<char>> {
    strings.map_values(|s: String| s@)
}

impl View for BreezBackend {
    type V = BackendView;

    closed spec fn view(&self) -> BackendView {
        BackendView {
            wait_invoice_active: self.wait_invoice_active,
            listeners: texts(self.listener_ids@),
        }
    }
}

/// Asks for an event listener whose events the mint reads from a channel.
#[derive(Debug, PartialEq, Eq)]
pub struct AddListener {
    pub channel_capacity: usize,
}

impl BreezBackend {
    /// A backend that nobody waits on and that has no listener.
    pub(crate) fn idle() -> (backend: Self)
        ensures
            backend@ == BackendView::idle(),
    {
        assert(texts(Seq::empty()) =~= Seq::empty());
        BreezBackend { wait_invoice_active: false, listener_ids: Vec::new() }
    }

    /// The capabilities of the backend: it counts in sats and knows BOLT11 only.
    pub fn get_settings(&self) -> (settings: SettingsResponse)
        ensures
            settings.unit@ == "sat"@,
            settings.bolt11 == Some(
                Bolt11Settings { mpp: true, amountless: false, invoice_description: false },
            ),
            settings.bolt12 is None,
            settings.custom@ == Map::<String, String>::empty(),
    {
        SettingsResponse {
            unit: "sat".to_owned(),
            bolt11: Some(
                Bolt11Settings { mpp: true, amountless: false, invoice_description: false },
            ),
            bolt12: None,
            custom: HashMap::new(),
        }
    }

    /// Starts waiting for payments. The listener that the SDK hands out in return is to be
    /// given to [`BreezBackend::listener_added`].
    pub fn wait_payment_event(&mut self) -> (request: AddListener)
        ensures
            final(self)@ == old(self)@.waiting(),
            request.channel_capacity == EVENT_CHANNEL_CAPACITY,
    {
        self.wait_invoice_active = true;
        AddListener { channel_capacity: EVENT_CHANNEL_CAPACITY }
    }

    /// Remembers a listener, to remove it on disconnect.
    pub fn listener_added(&mut self, listener_id: String)
        ensures
            final(self)@ == old(self)@.with_listener(listener_id@),
    {
        self.listener_ids.push(listener_id);
        assert(texts(self.listener_ids@) =~= texts(old(self).listener_ids@).push(listener_id@));
    }

    /// Whether the mint is waiting for payments.
    pub fn is_wait_invoice_active(&self) -> (active: bool)
        ensures
            active == self@.wait_invoice_active,
    {
        self.wait_invoice_active
    }

    /// Stops waiting for payments.
    pub fn cancel_wait_invoice(&mut self)
        ensures
            final(self)@ == old(self)@.cancelled(),
    {
        self.wait_invoice_active = false;
    }

    /// Forgets all listeners and hands them out, the oldest first.
    pub(crate) fn take_listeners(&mut self) -> (listener_ids: Vec<String>)
        ensures
            texts(listener_ids@) == old(self)@.listeners,
            final(self)@ == old(self)@.without_listeners(),
    {
        let mut listener_ids: Vec<String> = Vec::new();
        std::mem::swap(&mut listener_ids, &mut self.listener_ids);
        assert(texts(self.listener_ids@) =~= Seq::empty());
        listener_ids
    }
}

} // verus!
