//! The session manager: a single optionally-populated slot holding the handle
//! of the current remote browser-automation session.
//!
//! Sessions are expensive to start and may die asynchronously, so the manager
//! reuses the current session as long as a cheap liveness probe succeeds, and
//! replaces it with a freshly created one when the probe fails. The probes and
//! creations are remote calls made by an unverified driver loop; the manager
//! only decides which call to make next ([`SessionManager::plan`]) and how to
//! interpret its outcome ([`SessionManager::probe_result`],
//! [`SessionManager::install_created`]). Handles are never reused: every
//! installed session gets a handle no earlier session had.

use vstd::prelude::*;

verus! {

/// The remote call the manager asks the driver loop to make next.
#[derive(Clone, Copy, Debug, PartialEq, Eq, Structural)]
pub enum AcquireAction {
    /// The slot holds this session: probe it for liveness.
    Probe(u64),
    /// The slot is empty: create a new session.
    Create,
}

/// What a finished liveness probe means for the caller.
#[derive(Clone, Copy, Debug, PartialEq, Eq, Structural)]
pub enum ProbeOutcome {
    /// The probe succeeded: keep using the session with this handle.
    UseCurrent(u64),
    /// The probe failed: the session is dead, create a replacement.
    Recreate,
}

/// The single shared slot for the current session, plus a counter that makes
/// every handle it ever issues distinct.
pub struct SessionManager {
    has_session: bool,
    current: u64,
    issued: u64,
}

impl SessionManager {
    /// The slot's contents: the handle of the current session, if any.
    pub closed spec fn slot(self) -> Option<u64> {
        if self.has_session {
            Some(self.current)
        } else {
            None
        }
    }

    /// How many handles have ever been issued.
    pub closed spec fn issued_count(self) -> nat {
        self.issued as nat
    }

    /// The slot only ever holds a handle that was issued.
    pub open spec fn wf(self) -> bool {
        self.slot() matches Some(id) ==> (id as nat) < self.issued_count()
    }

    /// What `plan` returns, as a function of the state.
    pub open spec fn plan_spec(self) -> AcquireAction {
        match self.slot() {
            Some(id) => AcquireAction::Probe(id),
            None => AcquireAction::Create,
        }
    }

    /// What `probe_result` returns, as a function of the state and the
    /// probe's success.
    pub open spec fn probe_spec(self, ok: bool) -> ProbeOutcome {
        match self.slot() {
            Some(id) => if ok {
                ProbeOutcome::UseCurrent(id)
            } else {
                ProbeOutcome::Recreate
            },
            None => ProbeOutcome::Recreate,
        }
    }

    /// The state after a successful creation is installed, paired with the
    /// handle the new session gets.
    pub closed spec fn install_spec(self) -> (SessionManager, u64) {
        (
            SessionManager { has_session: true, current: self.issued, issued: (self.issued + 1) as u64 },
            self.issued,
        )
    }

    /// A fresh manager: empty slot, no handle issued yet.
    pub fn new() -> (m: SessionManager)
        ensures
            m.slot() is None,
            m.issued_count() == 0,
            m.wf(),
    {
        SessionManager { has_session: false, current: 0, issued: 0 }
    }

    /// The handle currently in the slot, if any.
    pub fn current_session(&self) -> (r: Option<u64>)
        ensures
            r == self.slot(),
    {
        if self.has_session {
            Some(self.current)
        } else {
            None
        }
    }

    /// Whether another session can still be installed, i.e. a fresh handle
    /// remains to be issued.
    pub fn can_install(&self) -> (b: bool)
        ensures
            b == (self.issued_count() < u64::MAX as nat),
    {
        self.issued < u64::MAX
    }

    /// The first step of an acquisition: probe the current session if there is
    /// one, create a session otherwise.
    pub fn plan(&self) -> (a: AcquireAction)
        ensures
            a == self.plan_spec(),
    {
        if self.has_session {
            AcquireAction::Probe(self.current)
        } else {
            AcquireAction::Create
        }
    }

    /// Interpret a finished liveness probe. A successful probe hands back the
    /// current session unchanged; a failed one calls for a replacement. The
    /// slot itself is untouched either way: a dead session is only displaced
    /// once its replacement has actually been created.
    pub fn probe_result(&self, ok: bool) -> (a: ProbeOutcome)
        requires
            self.slot() is Some,
        ensures
            a == self.probe_spec(ok),
    {
        if ok {
            ProbeOutcome::UseCurrent(self.current)
        } else {
            ProbeOutcome::Recreate
        }
    }

    /// Install a session the driver loop just created, overwriting whatever
    /// the slot held, and return its handle. The handle is fresh: it differs
    /// from every handle issued before, in particular from the displaced one.
    pub fn install_created(&mut self) -> (id: u64)
        requires
            old(self).wf(),
            old(self).issued_count() < u64::MAX as nat,
        ensures
            (*final(self), id) == old(self).install_spec(),
            final(self).slot() == Some(id),
            id as nat == old(self).issued_count(),
            final(self).issued_count() == old(self).issued_count() + 1,
            final(self).wf(),
            old(self).slot() matches Some(prev) ==> id != prev,
    {
        let id = self.issued;
        self.has_session = true;
        self.current = id;
        self.issued = id + 1;
        id
    }
}

/// The library's mirror of the state a session carries on the remote side
/// between requests: how many cookies it holds and which page it is on
/// (`None` stands for the neutral blank page).
///
/// The driver loop keeps the mirror in step with the remote calls it makes:
/// a fresh session starts on the blank page with no cookies, a navigation
/// lands on the target page with whatever cookies the page set, and a
/// successful reset clears the cookies and returns to the blank page.
pub struct SessionView {
    cookies: u64,
    page_url: Option<String>,
}

impl SessionView {
    /// How many cookies the session holds.
    pub closed spec fn cookie_count(self) -> nat {
        self.cookies as nat
    }

    /// The page the session is on; `None` is the blank page.
    pub closed spec fn page(self) -> Option<Seq<char>> {
        match self.page_url {
            Some(u) => Some(u@),
            None => None,
        }
    }

    /// No cookies, blank page: the state a reset leaves behind.
    pub open spec fn is_clean(self) -> bool {
        self.cookie_count() == 0 && self.page() is None
    }

    /// What a successful reset leaves, whatever the state was before.
    pub closed spec fn reset_spec(self) -> SessionView {
        SessionView { cookies: 0, page_url: None }
    }

    /// A newly created session: it is navigated to the blank page as an
    /// initialization step and holds no cookies yet.
    pub fn fresh() -> (s: SessionView)
        ensures
            s.is_clean(),
    {
        SessionView { cookies: 0, page_url: None }
    }

    /// Record a finished navigation: the session is now on `url`, holding the
    /// `cookies_now` cookies the caller observed there.
    pub fn note_navigated(&mut self, url: String, cookies_now: u64)
        ensures
            final(self).page() == Some(url@),
            final(self).cookie_count() == cookies_now as nat,
    {
        self.page_url = Some(url);
        self.cookies = cookies_now;
    }

    /// Record a successful reset: all cookies deleted, back on the blank
    /// page. Nothing of the prior state survives.
    pub fn apply_reset(&mut self)
        ensures
            *final(self) == old(self).reset_spec(),
            final(self).is_clean(),
    {
        self.cookies = 0;
        self.page_url = None;
    }

    /// Inspect the cookie count.
    pub fn cookie_total(&self) -> (n: u64)
        ensures
            n as nat == self.cookie_count(),
    {
        self.cookies
    }

    /// Inspect whether the session is on the blank page.
    pub fn at_blank(&self) -> (b: bool)
        ensures
            b == (self.page() is None),
    {
        self.page_url.is_none()
    }
}

/// After a reset succeeds on a session, inspecting that session shows no
/// cookies and a blank current page, whatever state it was in before.
pub proof fn lemma_reset_leaves_clean_session(s: SessionView)
    ensures
        s.reset_spec().cookie_count() == 0,
        s.reset_spec().page() is None,
        s.reset_spec().is_clean(),
{
}

/// From an empty slot, one acquisition creates exactly one session, and a
/// second acquisition with no intervening failure returns the same session:
/// it probes the installed handle, and a successful probe hands that very
/// handle back without issuing another.
pub proof fn lemma_first_acquire_creates_once(m0: SessionManager)
    requires
        m0.wf(),
        m0.slot() is None,
        m0.issued_count() < u64::MAX as nat,
    ensures
        m0.plan_spec() == AcquireAction::Create,
        ({
            let (m1, id0) = m0.install_spec();
            &&& m1.slot() == Some(id0)
            &&& m1.issued_count() == m0.issued_count() + 1
            &&& m1.wf()
            &&& m1.plan_spec() == AcquireAction::Probe(id0)
            &&& m1.probe_spec(true) == ProbeOutcome::UseCurrent(id0)
        }),
{
}

/// When the current session's liveness probe fails, the acquisition that
/// follows installs a session with a *different* handle, and the slot
/// afterwards holds only the new one.
pub proof fn lemma_failed_probe_yields_fresh_session(m: SessionManager, id: u64)
    requires
        m.wf(),
        m.slot() == Some(id),
        m.issued_count() < u64::MAX as nat,
    ensures
        m.probe_spec(false) == ProbeOutcome::Recreate,
        ({
            let (m2, id2) = m.install_spec();
            &&& id2 != id
            &&& m2.slot() == Some(id2)
            &&& m2.wf()
        }),
{
}

} // verus!
