//! Keeps the authorization of an account and renews it once for all who ask.
//!
//! Any number of callers may use one authorization at the same time. When there is
//! none, or when the one at hand is reported as expired, a single request for a new
//! one is made, however many callers ask meanwhile: the first becomes the leader and
//! starts the request, the others queue up. When the request ends, well or badly,
//! every caller in the queue is told the one outcome.
//!
//! An [`AuthSource`] holds the state and decides. It makes no request and wakes
//! nobody: each method says what its caller has to do. `W` is whatever the caller
//! needs to wake one who waits. Calls on one `AuthSource` happen one after the other;
//! callers on several threads keep it behind a lock.

use crate::auth::B2Authorization;
use crate::error::B2Error;
use vstd::prelude::*;

verus! {

/// The store as a mathematical value.
pub struct Cache<W> {
    /// The authorization at hand.
    pub active: Option<B2Authorization>,
    /// A request for a new authorization is under way.
    pub refreshing: bool,
    /// Those who wait for its outcome, in the order in which they came.
    pub waiters: Seq<W>,
}

impl<W> Cache<W> {
    /// A store with no authorization, no request under way and nobody waiting.
    pub open spec fn start() -> Cache<W> {
        Cache { active: None, refreshing: false, waiters: Seq::empty() }
    }

    /// The store after an attempt to become the leader: whoever finds no request
    /// under way becomes the leader, which drops the authorization at hand.
    pub open spec fn start_reauth(self) -> Cache<W> {
        if self.refreshing {
            self
        } else {
            Cache { active: None, refreshing: true, ..self }
        }
    }

    /// The store after `waiter` asked for the authorization.
    pub open spec fn request(self, waiter: W) -> Cache<W> {
        if self.active is Some {
            self
        } else {
            Cache { waiters: self.waiters.push(waiter), ..self.start_reauth() }
        }
    }

    /// Whether one who asks now has to start the request for a new authorization.
    pub open spec fn request_starts(self) -> bool {
        self.active is None && !self.refreshing
    }

    /// Whether a report that `observed` has expired is heeded: it is not when another
    /// authorization is at hand.
    pub open spec fn heeds(self, observed: B2Authorization) -> bool {
        match self.active {
            Some(active) => active.same(&observed),
            None => true,
        }
    }

    /// The store after `observed` was reported as expired.
    pub open spec fn mark_expired(self, observed: B2Authorization) -> Cache<W> {
        if self.heeds(observed) {
            self.start_reauth()
        } else {
            self
        }
    }

    /// Whether the one who reports `observed` as expired has to start the request for
    /// a new authorization.
    pub open spec fn report_starts(self, observed: B2Authorization) -> bool {
        self.heeds(observed) && !self.refreshing
    }

    /// The store after an authorization was provided from outside.
    pub open spec fn provide(self, auth: B2Authorization) -> Cache<W> {
        Cache { active: Some(auth), ..self }
    }

    /// The store after the request for a new authorization ended with `outcome`,
    /// `None` standing for a failure.
    pub open spec fn finish(self, outcome: Option<B2Authorization>) -> Cache<W> {
        Cache { active: outcome, refreshing: false, waiters: Seq::empty() }
    }

    /// The store after each of `waiters` asked for the authorization, one after the
    /// other.
    pub open spec fn requests(self, waiters: Seq<W>) -> Cache<W>
        decreases waiters.len(),
    {
        if waiters.len() == 0 {
            self
        } else {
            self.request(waiters.first()).requests(waiters.drop_first())
        }
    }

    /// How many of `waiters`, asking one after the other, have to start a request
    /// for a new authorization.
    pub open spec fn started_by(self, waiters: Seq<W>) -> nat
        decreases waiters.len(),
    {
        if waiters.len() == 0 {
            0
        } else {
            let first: nat = if self.request_starts() {
                1
            } else {
                0
            };
            first + self.request(waiters.first()).started_by(waiters.drop_first())
        }
    }
}

/// What the store says to one who asks for the authorization.
pub enum Authentication<W> {
    /// The authorization at hand. The waiter is handed back, as nobody has to wait.
    Ready(B2Authorization, W),
    /// There is none: the caller waits until the waiter that it handed in is woken
    /// with the outcome. If `start` is set, the caller is the leader: it starts the
    /// request for a new authorization and reports its end with `finish`, or with
    /// `abort` if it is given up.
    Waiting { start: bool },
}

enum AuthState {
    ActiveAuth(B2Authorization),
    NoActiveAuth,
}

/// The shared store of the authorization of one account.
pub struct AuthSource<W> {
    state: AuthState,
    reauth_lock: bool,
    notify: Vec<W>,
}

impl<W> View for AuthSource<W> {
    type V = Cache<W>;

    closed spec fn view(&self) -> Cache<W> {
        Cache {
            active: match self.state {
                AuthState::ActiveAuth(auth) => Some(auth),
                AuthState::NoActiveAuth => None,
            },
            refreshing: self.reauth_lock,
            waiters: self.notify@,
        }
    }
}

/// The authorization that a request for a new one ended with, if it ended well.
pub open spec fn gained(res: Result<B2Authorization, B2Error>) -> Option<B2Authorization> {
    match res {
        Ok(auth) => Some(auth),
        Err(_) => None,
    }
}

impl<W> AuthSource<W> {
    /// A store with no authorization yet.
    pub fn new() -> (source: AuthSource<W>)
        ensures
            source@ == Cache::<W>::start(),
    {
        AuthSource { state: AuthState::NoActiveAuth, reauth_lock: false, notify: Vec::new() }
    }

    /// The authorization at hand, if there is one.
    pub fn try_get_active_authentication(&self) -> (auth: Option<B2Authorization>)
        ensures
            auth == self@.active,
    {
        match &self.state {
            AuthState::ActiveAuth(auth) => Some(auth.duplicate()),
            AuthState::NoActiveAuth => None,
        }
    }

    /// Whether there is an authorization at hand.
    pub fn has_active_auth(&self) -> (r: bool)
        ensures
            r == self@.active is Some,
    {
        match &self.state {
            AuthState::ActiveAuth(_) => true,
            AuthState::NoActiveAuth => false,
        }
    }

    /// Tries to become the leader. The result says whether the caller has to start
    /// the request for a new authorization.
    fn start_reauth(&mut self) -> (start: bool)
        ensures
            start == !old(self)@.refreshing,
            final(self)@ == old(self)@.start_reauth(),
    {
        if !self.reauth_lock {
            self.reauth_lock = true;
            self.state = AuthState::NoActiveAuth;
            true
        } else {
            false
        }
    }

    /// Asks for the authorization. If there is one, it is handed out together with
    /// the waiter. If there is none, the waiter is put in the queue, behind those
    /// who came before; the first to find it so is told to start the request for a
    /// new one.
    pub fn authentication(&mut self, waiter: W) -> (answer: Authentication<W>)
        ensures
            final(self)@ == old(self)@.request(waiter),
            match answer {
                Authentication::Ready(auth, back) => old(self)@.active == Some(auth) && back
                    == waiter,
                Authentication::Waiting { start } => old(self)@.active is None && start == old(
                    self,
                )@.request_starts(),
            },
    {
        match self.try_get_active_authentication() {
            Some(auth) => Authentication::Ready(auth, waiter),
            None => {
                let start = self.start_reauth();
                self.notify.push(waiter);
                Authentication::Waiting { start }
            },
        }
    }

    /// Reports that `auth` has expired. The report is dropped if another
    /// authorization is at hand by now. Otherwise the caller tries to become the
    /// leader; the result says whether it has to start the request for a new
    /// authorization. The caller does not wait for it.
    pub fn reauthenticate(&mut self, auth: &B2Authorization) -> (start: bool)
        ensures
            final(self)@ == old(self)@.mark_expired(*auth),
            start == old(self)@.report_starts(*auth),
    {
        let heeded = match &self.state {
            AuthState::ActiveAuth(active_auth) => active_auth.eq(auth),
            AuthState::NoActiveAuth => true,
        };
        if !heeded {
            return false;
        }
        self.start_reauth()
    }

    /// Puts `auth` in the store, whatever was there. If a request for a new
    /// authorization is under way, its outcome will take the place of `auth`.
    pub fn provide_auth(&mut self, auth: B2Authorization)
        ensures
            final(self)@ == old(self)@.provide(auth),
    {
        self.state = AuthState::ActiveAuth(auth);
    }

    /// Puts the outcome of a request in the store.
    fn set_state(&mut self, state: &Result<B2Authorization, B2Error>)
        ensures
            final(self)@ == (Cache { active: gained(*state), ..old(self)@ }),
    {
        self.state = match state {
            Ok(auth) => AuthState::ActiveAuth(auth.duplicate()),
            Err(_) => AuthState::NoActiveAuth,
        };
    }

    /// Ends the request for a new authorization with the outcome `res`: the store
    /// takes the authorization, or none after a failure; another leader can be
    /// chosen from now on; and the queue is emptied. Those who were in it are handed
    /// out, in the order in which they came: each is to be told `res`.
    pub fn finish(&mut self, res: &Result<B2Authorization, B2Error>) -> (to_notify: Vec<W>)
        ensures
            final(self)@ == old(self)@.finish(gained(*res)),
            to_notify@ == old(self)@.waiters,
    {
        self.set_state(res);
        self.reauth_lock = false;
        let mut to_notify: Vec<W> = Vec::new();
        std::mem::swap(&mut self.notify, &mut to_notify);
        to_notify
    }

    /// Ends a request for a new authorization that was given up before it came to
    /// an end. The store is left without an authorization, another leader can be
    /// chosen from now on, and the queue is emptied. Those who were in it are handed
    /// out together with the error that each is to be told.
    pub fn abort(&mut self) -> (told: (Vec<W>, B2Error))
        ensures
            final(self)@ == old(self)@.finish(None),
            told.0@ == old(self)@.waiters,
            told.1 is IOError,
    {
        let res: Result<B2Authorization, B2Error> = Err(B2Error::aborted());
        let to_notify = self.finish(&res);
        match res {
            Err(err) => (to_notify, err),
            Ok(_) => (to_notify, B2Error::aborted()),
        }
    }
}

/// However many ask while there is no authorization, one request for a new one is
/// started, by the first who finds none under way; all of them are in the queue, in
/// the order in which they came, and the end of the request hands out every one of
/// them, to be told the one outcome.
pub proof fn lemma_single_flight<W>(c: Cache<W>, waiters: Seq<W>, outcome: Option<B2Authorization>)
    requires
        c.active is None,
    ensures
        c.started_by(waiters) == if c.refreshing || waiters.len() == 0 {
            0nat
        } else {
            1nat
        },
        c.requests(waiters).active is None,
        c.requests(waiters).refreshing == (c.refreshing || waiters.len() > 0),
        c.requests(waiters).waiters == c.waiters + waiters,
        c.requests(waiters).finish(outcome).waiters.len() == 0,
        c.requests(waiters).finish(outcome).active == outcome,
        !c.requests(waiters).finish(outcome).refreshing,
    decreases waiters.len(),
{
    if waiters.len() == 0 {
        assert(c.waiters + waiters =~= c.waiters);
    } else {
        let next = c.request(waiters.first());
        lemma_single_flight(next, waiters.drop_first(), outcome);
        assert(c.waiters.push(waiters.first()) + waiters.drop_first() =~= c.waiters + waiters);
    }
}

/// A report that names another authorization than the one at hand changes nothing
/// and starts nothing.
pub proof fn lemma_stale_report_is_ignored<W>(
    c: Cache<W>,
    active: B2Authorization,
    stale: B2Authorization,
)
    requires
        c.active == Some(active),
        !active.same(&stale),
    ensures
        c.mark_expired(stale) == c,
        !c.report_starts(stale),
{
}

/// A report that names the authorization at hand, made while no request is under
/// way, drops the authorization and starts one request; until that request ends no
/// report and nobody who asks starts another.
pub proof fn lemma_current_report_starts_once<W>(
    c: Cache<W>,
    active: B2Authorization,
    observed: B2Authorization,
    later: B2Authorization,
    waiter: W,
)
    requires
        c.active == Some(active),
        active.same(&observed),
        !c.refreshing,
    ensures
        c.report_starts(observed),
        c.mark_expired(observed).active is None,
        c.mark_expired(observed).refreshing,
        !c.mark_expired(observed).report_starts(later),
        c.mark_expired(observed).mark_expired(later) == c.mark_expired(observed),
        !c.mark_expired(observed).request_starts(),
        c.mark_expired(observed).request(waiter).refreshing,
{
}

/// When the leader gives up, nobody is left waiting: everyone in the queue is
/// handed out to be told, the queue is empty, and the next who asks becomes the
/// leader of a new request.
pub proof fn lemma_abort_releases_all<W>(c: Cache<W>)
    ensures
        c.finish(None).waiters.len() == 0,
        !c.finish(None).refreshing,
        c.finish(None).active is None,
        c.finish(None).request_starts(),
{
}

} // verus!
