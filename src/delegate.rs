use vstd::prelude::*;

use crate::notification_response::NotificationResponse;

verus! {

/// One installed delegate: its identity and the callback it forwards to.
pub struct Registration<C> {
    pub delegate: u64,
    pub callback: C,
}

/// The process-wide delegate slot of the notification center, as values.
pub struct CenterState<C> {
    /// The delegate currently installed, if any.
    pub installed: Option<Registration<C>>,
    /// How many delegates have been created so far; the next one gets this number.
    pub issued: u64,
}

impl<C> CenterState<C> {
    /// Whether another delegate can still be given a fresh identity.
    pub open spec fn can_register(self) -> bool {
        self.issued < u64::MAX
    }

    /// The slot after a new delegate, bound to `callback`, has been installed:
    /// it replaces whatever was installed before.
    pub open spec fn registered(self, callback: C) -> CenterState<C> {
        CenterState {
            installed: Some(Registration { delegate: self.issued, callback }),
            issued: (self.issued + 1) as u64,
        }
    }

    /// The slot after an owner whose delegate is `owned` is torn down: it is
    /// cleared only when the installed delegate is that one.
    pub open spec fn torn_down(self, owned: Option<u64>) -> CenterState<C> {
        match (self.installed, owned) {
            (Some(r), Some(d)) => if r.delegate == d {
                CenterState { installed: None, issued: self.issued }
            } else {
                self
            },
            _ => self,
        }
    }

    /// The callback that an activation reaches, if any.
    pub open spec fn active_callback(self) -> Option<C> {
        match self.installed {
            Some(r) => Some(r.callback),
            None => None,
        }
    }

    /// The identity of the installed delegate, if any.
    pub open spec fn active_delegate(self) -> Option<u64> {
        match self.installed {
            Some(r) => Some(r.delegate),
            None => None,
        }
    }
}

/// The notification center's single delegate slot. At most one delegate is
/// installed at any time; installing one supersedes the previous one, and only
/// the owner of the installed delegate can clear it.
pub struct DelegateCenter<C> {
    installed: Option<Registration<C>>,
    issued: u64,
}

impl<C> View for DelegateCenter<C> {
    type V = CenterState<C>;

    closed spec fn view(&self) -> CenterState<C> {
        CenterState { installed: self.installed, issued: self.issued }
    }
}

impl<C> DelegateCenter<C> {
    /// A slot with no delegate installed and none created yet.
    pub fn new() -> (r: Self)
        ensures
            r@.installed is None,
            r@.issued == 0,
    {
        DelegateCenter { installed: None, issued: 0 }
    }

    /// Whether another delegate can still be given a fresh identity.
    pub fn can_register(&self) -> (r: bool)
        ensures
            r == self@.can_register(),
    {
        self.issued < u64::MAX
    }

    /// Creates a delegate bound to `callback` and installs it in place of any
    /// earlier one; returns the new delegate's identity.
    pub fn register(&mut self, callback: C) -> (d: u64)
        requires
            old(self)@.can_register(),
        ensures
            d == old(self)@.issued,
            final(self)@ == old(self)@.registered(callback),
    {
        let d = self.issued;
        self.installed = Some(Registration { delegate: d, callback });
        self.issued = d + 1;
        d
    }

    /// Clears the installed delegate if and only if it is `owned`.
    pub fn teardown(&mut self, owned: Option<u64>)
        ensures
            final(self)@ == old(self)@.torn_down(owned),
    {
        let clear = match (&self.installed, owned) {
            (Some(r), Some(d)) => r.delegate == d,
            _ => false,
        };
        if clear {
            self.installed = None;
        }
    }

    /// The identity of the installed delegate, if any.
    pub fn active_delegate(&self) -> (r: Option<u64>)
        ensures
            r == self@.active_delegate(),
    {
        match &self.installed {
            Some(r) => Some(r.delegate),
            None => None,
        }
    }

    /// Routes an activation of the notification `identifier` to the installed
    /// callback, with the arguments it is to be called with. Nothing is
    /// routed when no delegate is installed, or when the platform reported the
    /// notification without an identifier.
    pub fn dispatch(&self, identifier: Option<String>, response: NotificationResponse) -> (r:
        Option<(&C, String, NotificationResponse)>)
        ensures
            r is Some <==> (self@.installed is Some && identifier is Some),
            r matches Some((c, id, resp)) ==> {
                &&& self@.active_callback() == Some(*c)
                &&& identifier matches Some(i) && id@ == i@
                &&& resp == response
            },
    {
        match (&self.installed, identifier) {
            (Some(reg), Some(id)) => Some((&reg.callback, id, response)),
            _ => None,
        }
    }
}


/// Installing a second callback supersedes the first: from then on every
/// activation reaches only the newer callback, and the first delegate is no
/// longer the installed one.
pub proof fn lemma_newer_callback_supersedes<C>(s: CenterState<C>, first: C, second: C)
    requires
        s.can_register(),
        s.registered(first).can_register(),
    ensures
        s.registered(first).registered(second).active_callback() == Some(second),
        s.registered(first).registered(second).active_delegate() != s.registered(
            first,
        ).active_delegate(),
{
}

/// Teardown by an owner that never created a delegate, or whose delegate was
/// superseded by another owner's, leaves the installed delegate in place;
/// teardown by the owner of the installed delegate clears it.
pub proof fn lemma_teardown_spares_other_owner<C>(s: CenterState<C>, first: C, second: C)
    requires
        s.can_register(),
        s.registered(first).can_register(),
    ensures
        ({
            let superseded = s.registered(first);
            let current = superseded.registered(second);
            &&& current.torn_down(None) == current
            &&& current.torn_down(superseded.active_delegate()) == current
            &&& current.torn_down(current.active_delegate()).installed is None
        }),
{
}

/// Teardown clears nothing unless the owner's delegate is the installed one.
pub proof fn lemma_teardown_needs_ownership<C>(s: CenterState<C>, owned: Option<u64>)
    requires
        owned is None || owned != s.active_delegate(),
    ensures
        s.torn_down(owned) == s,
{
}

} // verus!
