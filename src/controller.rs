//! The rotation controller: shared rotation state and the transitions that
//! start and end a session, advance the display, and supervise liveness.
use vstd::prelude::*;
use crate::overlay::{overlay_markup, render_overlay};
use crate::validate::{all_absolute_urls, is_absolute_url, string_views, urls_well_formed};

verus! {

/// Where the controller stands.
#[derive(Clone, Copy, Debug, PartialEq, Eq, Structural)]
pub enum Phase {
    /// No session.
    Idle,
    /// A session is shown and no advance is under way.
    Displaying,
    /// The rotation lock is held and a navigation is under way.
    Advancing,
}

/// Why a request was refused.
#[derive(Clone, Copy, Debug, PartialEq, Eq, Structural)]
pub enum RotationError {
    /// The URL list is empty or holds an entry that is not an absolute URL.
    InvalidInput,
}

/// What the display must do after `start_session`.
#[derive(Debug)]
pub enum SessionStart {
    /// No display exists yet: open one on `url`, and start the supervision
    /// loop when `start_prober` holds (no loop is running yet).
    Open { url: String, start_prober: bool },
    /// A session is already shown: reload its display and change nothing else.
    Reload,
}

/// The three ways an advance request can be answered.
#[derive(Clone, Copy, Debug, PartialEq, Eq, Structural)]
pub enum AdvanceKind {
    /// The index lies outside the URL list: nothing happens.
    OutOfRange,
    /// Another advance holds the rotation lock: the request is dropped.
    Busy,
    /// The rotation lock was taken for this request.
    Begun,
}

/// The answer to an advance request.
#[derive(Debug)]
pub enum AdvanceStart {
    OutOfRange,
    Busy,
    /// Show the loading overlay, wait the settle delay, navigate to `url`,
    /// then call `finish_advance` with `ticket` (or `abort_advance` with it
    /// if the navigation could not be made).
    Navigate { index: usize, url: String, ticket: u64 },
}

impl AdvanceStart {
    pub open spec fn kind(&self) -> AdvanceKind {
        match self {
            AdvanceStart::OutOfRange => AdvanceKind::OutOfRange,
            AdvanceStart::Busy => AdvanceKind::Busy,
            AdvanceStart::Navigate { .. } => AdvanceKind::Begun,
        }
    }
}

/// What the supervision loop does at the start of a cycle.
#[derive(Clone, Copy, Debug, PartialEq, Eq, Structural)]
pub enum ProbeStart {
    /// The session or its display is gone: leave the loop.
    Stop,
    /// Send a probe to the display and sleep one polling interval.
    Send,
}

/// What the supervision loop does once the polling interval is over.
#[derive(Debug)]
pub enum ProbeVerdict {
    /// The session ended meanwhile: leave the loop.
    Stop,
    /// The page answered: nothing changes.
    Alive,
    /// The page did not answer: skip it with the advance given.
    Skip(AdvanceStart),
}

/// The rotation state as mathematics.
pub struct RotationModel {
    /// The URL list; empty exactly when no session is active.
    pub urls: Seq<Seq<char>>,
    pub current_index: int,
    /// End of the current slide's timer in epoch milliseconds; 0: none armed.
    pub scheduled_end_time: int,
    /// The advance that holds the rotation lock, if any: its index, its
    /// timer end and its ticket.
    pub pending: Option<(int, int, int)>,
    /// The ticket that the next advance to take the lock receives.
    pub next_ticket: int,
    pub probe_in_flight: bool,
    pub alive: bool,
    /// Whether a supervision loop is running.
    pub loop_running: bool,
}

impl RotationModel {
    pub open spec fn wf(self) -> bool {
        &&& 0 <= self.current_index
        &&& (self.urls.len() > 0 ==> self.current_index < self.urls.len())
        &&& (self.urls.len() == 0 ==> {
            &&& self.current_index == 0
            &&& self.pending is None
            &&& !self.probe_in_flight
        })
        &&& (self.pending matches Some(p) ==> 0 <= p.0 < self.urls.len() && self.next_ticket
            == ticket_after(p.2))
        &&& all_absolute_urls(self.urls)
    }

    pub open spec fn active(self) -> bool {
        self.urls.len() > 0
    }

    pub open spec fn phase(self) -> Phase {
        if !self.active() {
            Phase::Idle
        } else if self.pending is Some {
            Phase::Advancing
        } else {
            Phase::Displaying
        }
    }

    pub open spec fn in_range(self, index: int) -> bool {
        0 <= index < self.urls.len()
    }

    /// The state of no session; whether a loop is running is kept, since the
    /// loop leaves by itself on its next wake.
    pub open spec fn ended(self) -> RotationModel {
        RotationModel {
            urls: Seq::empty(),
            current_index: 0,
            scheduled_end_time: 0,
            pending: None,
            probe_in_flight: false,
            alive: false,
            loop_running: self.loop_running,
            next_ticket: self.next_ticket,
        }
    }

    /// A fresh session on `urls`, showing the first entry.
    pub open spec fn started(self, urls: Seq<Seq<char>>) -> RotationModel {
        RotationModel {
            urls,
            current_index: 0,
            scheduled_end_time: 0,
            pending: None,
            probe_in_flight: false,
            alive: false,
            loop_running: true,
            next_ticket: self.next_ticket,
        }
    }

    /// The state after `start_session(urls)`, where `valid` tells whether
    /// every entry of `urls` is an absolute URL. An active session is kept
    /// whatever the list.
    pub open spec fn start_session(self, urls: Seq<Seq<char>>, valid: bool) -> RotationModel {
        if self.active() || urls.len() == 0 || !valid {
            self
        } else {
            self.started(urls)
        }
    }

    pub open spec fn advance_kind(self, index: int) -> AdvanceKind {
        if !self.in_range(index) {
            AdvanceKind::OutOfRange
        } else if self.pending is Some {
            AdvanceKind::Busy
        } else {
            AdvanceKind::Begun
        }
    }

    /// The state after an advance request: the lock is taken and the target
    /// recorded under a fresh ticket, or nothing changes.
    pub open spec fn begin_advance(self, index: int, end_time: int) -> RotationModel {
        if self.advance_kind(index) == AdvanceKind::Begun {
            RotationModel {
                pending: Some((index, end_time, self.next_ticket)),
                next_ticket: ticket_after(self.next_ticket),
                ..self
            }
        } else {
            self
        }
    }

    /// Whether the advance that holds the lock is the one with `ticket`.
    pub open spec fn holds(self, ticket: int) -> bool {
        self.pending matches Some(p) && p.2 == ticket
    }

    /// The state once the navigation of the advance with `ticket` is done:
    /// index and timer change together and the lock is released. An advance
    /// that no longer holds the lock changes nothing.
    pub open spec fn finish_advance(self, ticket: int) -> RotationModel {
        if self.holds(ticket) {
            RotationModel {
                current_index: self.pending.unwrap().0,
                scheduled_end_time: self.pending.unwrap().1,
                pending: None,
                ..self
            }
        } else {
            self
        }
    }

    /// The state once the advance with `ticket` is given up: the lock is
    /// released if that advance holds it.
    pub open spec fn abort_advance(self, ticket: int) -> RotationModel {
        if self.holds(ticket) {
            RotationModel { pending: None, ..self }
        } else {
            self
        }
    }

    pub open spec fn next_index(self) -> int {
        if self.active() {
            (self.current_index + 1) % (self.urls.len() as int)
        } else {
            0
        }
    }

    /// The state after `advance_next`.
    pub open spec fn advance_next(self) -> RotationModel {
        self.begin_advance(self.next_index(), 0)
    }

    pub open spec fn set_timer(self, t: int) -> RotationModel {
        RotationModel { scheduled_end_time: t, ..self }
    }

    /// The state at the start of a supervision cycle.
    pub open spec fn probe_begin(self, display_exists: bool) -> RotationModel {
        if !display_exists || !self.active() {
            RotationModel { loop_running: false, ..self.ended() }
        } else {
            RotationModel { probe_in_flight: true, alive: false, ..self }
        }
    }

    pub open spec fn probe_ack(self) -> RotationModel {
        RotationModel { alive: true, ..self }
    }

    /// The state at the end of a supervision cycle.
    pub open spec fn probe_end(self) -> RotationModel {
        if !self.active() {
            RotationModel { loop_running: false, ..self }
        } else if self.alive {
            RotationModel { probe_in_flight: false, ..self }
        } else {
            RotationModel { probe_in_flight: false, ..self }.advance_next()
        }
    }
}

/// The ticket after `t`, wrapping at the top of `u64`.
pub open spec fn ticket_after(t: int) -> int {
    if t == u64::MAX as int {
        0
    } else {
        t + 1
    }
}

/// `r` answers an advance request for `index` on state `s`.
pub open spec fn answers_advance(r: AdvanceStart, s: RotationModel, index: int) -> bool {
    &&& r.kind() == s.advance_kind(index)
    &&& (r matches AdvanceStart::Navigate { index: i, url, ticket } ==> {
        &&& i == index
        &&& url@ == s.urls[index]
        &&& is_absolute_url(url@)
        &&& ticket == s.next_ticket
    })
}

/// The right arrow: the key that asks for the next entry.
pub open spec fn is_next_key(key: Seq<char>) -> bool {
    key == "ArrowRight"@
}

/// Whether `key` is the key that asks for the next entry.
pub fn next_key(key: &str) -> (r: bool)
    ensures
        r == is_next_key(key@),
{
    let expected = "ArrowRight";
    let n = key.unicode_len();
    if n != expected.unicode_len() {
        return false;
    }
    let mut i: usize = 0;
    while i < n
        invariant
            n == key@.len(),
            n == expected@.len(),
            expected@ == "ArrowRight"@,
            i <= n,
            forall|j: int| 0 <= j < i ==> key@[j] == expected@[j],
        decreases n - i,
    {
        if key.get_char(i) != expected.get_char(i) {
            return false;
        }
        i = i + 1;
    }
    assert(key@ =~= expected@);
    true
}

/// The shared rotation state of one display.
pub struct RotationController {
    urls: Vec<String>,
    current_index: usize,
    scheduled_end_time: i64,
    pending: Option<(usize, i64, u64)>,
    next_ticket: u64,
    probe_in_flight: bool,
    alive: bool,
    loop_running: bool,
}

impl View for RotationController {
    type V = RotationModel;

    closed spec fn view(&self) -> RotationModel {
        RotationModel {
            urls: string_views(self.urls@),
            current_index: self.current_index as int,
            scheduled_end_time: self.scheduled_end_time as int,
            pending: match self.pending {
                Some(p) => Some((p.0 as int, p.1 as int, p.2 as int)),
                None => None,
            },
            next_ticket: self.next_ticket as int,
            probe_in_flight: self.probe_in_flight,
            alive: self.alive,
            loop_running: self.loop_running,
        }
    }
}

impl RotationController {
    /// A controller with no session.
    pub fn new() -> (r: RotationController)
        ensures
            r@.wf(),
            r@.phase() == Phase::Idle,
            r@ == r@.ended(),
            !r@.loop_running,
    {
        let r = RotationController {
            urls: Vec::new(),
            current_index: 0,
            scheduled_end_time: 0,
            pending: None,
            next_ticket: 0,
            probe_in_flight: false,
            alive: false,
            loop_running: false,
        };
        assert(r@.urls =~= Seq::<Seq<char>>::empty());
        r
    }

    /// Starts a session on `urls`, given in `all_valid` whether every entry
    /// is an absolute URL. An active session is reloaded and kept as it is,
    /// whatever the list.
    pub fn start_session_checked(&mut self, urls: Vec<String>, all_valid: bool) -> (r: Result<
        SessionStart,
        RotationError,
    >)
        requires
            old(self)@.wf(),
            all_valid == all_absolute_urls(string_views(urls@)),
        ensures
            final(self)@.wf(),
            final(self)@ == old(self)@.start_session(string_views(urls@), all_valid),
            (r is Err) <==> (!old(self)@.active() && (urls@.len() == 0 || !all_valid)),
            r matches Err(e) ==> e == RotationError::InvalidInput,
            (r matches Ok(SessionStart::Reload)) <==> old(self)@.active(),
            r matches Ok(SessionStart::Open { url, start_prober }) ==> url@ == urls@[0]@
                && start_prober == !old(self)@.loop_running,
    {
        if self.urls.len() > 0 {
            return Ok(SessionStart::Reload);
        }
        if urls.len() == 0 || !all_valid {
            return Err(RotationError::InvalidInput);
        }
        let url = urls[0].clone();
        let start_prober = !self.loop_running;
        self.urls = urls;
        self.current_index = 0;
        self.scheduled_end_time = 0;
        self.pending = None;
        self.probe_in_flight = false;
        self.alive = false;
        self.loop_running = true;
        Ok(SessionStart::Open { url, start_prober })
    }

    /// Starts a session on `urls`. An active session is reloaded and kept as
    /// it is, whatever the list; else it fails with `InvalidInput` if the
    /// list is empty or an entry is not an absolute URL.
    pub fn start_session(&mut self, urls: Vec<String>) -> (r: Result<SessionStart, RotationError>)
        requires
            old(self)@.wf(),
        ensures
            final(self)@.wf(),
            final(self)@ == old(self)@.start_session(
                string_views(urls@),
                all_absolute_urls(string_views(urls@)),
            ),
            (r is Err) <==> (!old(self)@.active() && (urls@.len() == 0 || !all_absolute_urls(
                string_views(urls@),
            ))),
            r matches Err(e) ==> e == RotationError::InvalidInput,
            (r matches Ok(SessionStart::Reload)) <==> old(self)@.active(),
            r matches Ok(SessionStart::Open { url, start_prober }) ==> url@ == urls@[0]@
                && start_prober == !old(self)@.loop_running,
    {
        let valid = urls_well_formed(&urls);
        self.start_session_checked(urls, valid)
    }

    fn clear_session(&mut self)
        ensures
            final(self)@ == old(self)@.ended(),
    {
        self.urls = Vec::new();
        self.current_index = 0;
        self.scheduled_end_time = 0;
        self.pending = None;
        self.probe_in_flight = false;
        self.alive = false;
        assert(self@.urls =~= Seq::<Seq<char>>::empty());
    }

    /// Ends the session: the state is cleared and any held lock released.
    /// A running supervision loop leaves on its next wake.
    pub fn end_session(&mut self)
        requires
            old(self)@.wf(),
        ensures
            final(self)@.wf(),
            final(self)@ == old(self)@.ended(),
            final(self)@.phase() == Phase::Idle,
    {
        self.clear_session();
    }

    /// Asks to show entry `index` with its timer ending at `end_time`. An
    /// index out of range, or a request while another advance holds the
    /// lock, changes nothing.
    pub fn advance_to(&mut self, index: usize, end_time: i64) -> (r: AdvanceStart)
        requires
            old(self)@.wf(),
        ensures
            final(self)@.wf(),
            final(self)@ == old(self)@.begin_advance(index as int, end_time as int),
            answers_advance(r, old(self)@, index as int),
    {
        if index >= self.urls.len() {
            return AdvanceStart::OutOfRange;
        }
        if self.pending.is_some() {
            return AdvanceStart::Busy;
        }
        let ticket = self.next_ticket;
        self.pending = Some((index, end_time, ticket));
        self.next_ticket = if ticket == u64::MAX {
            0
        } else {
            ticket + 1
        };
        let url = self.urls[index].clone();
        assert(is_absolute_url(self@.urls[index as int]));
        AdvanceStart::Navigate { index, url, ticket }
    }

    /// Commits the advance with `ticket` once its navigation is done: index
    /// and timer change together and the lock is released. Returns the new
    /// index, to be announced to observers; `None`, with nothing changed,
    /// where that advance no longer holds the lock (its session ended).
    pub fn finish_advance(&mut self, ticket: u64) -> (r: Option<usize>)
        requires
            old(self)@.wf(),
        ensures
            final(self)@.wf(),
            final(self)@ == old(self)@.finish_advance(ticket as int),
            (r is Some) <==> old(self)@.holds(ticket as int),
            r matches Some(i) ==> i == old(self)@.pending.unwrap().0,
    {
        match self.pending {
            Some(p) => {
                if p.2 != ticket {
                    return None;
                }
                self.current_index = p.0;
                self.scheduled_end_time = p.1;
                self.pending = None;
                Some(p.0)
            },
            None => None,
        }
    }

    /// Gives up the advance with `ticket` (its navigation could not be
    /// made) and releases the lock if that advance holds it.
    pub fn abort_advance(&mut self, ticket: u64)
        requires
            old(self)@.wf(),
        ensures
            final(self)@.wf(),
            final(self)@ == old(self)@.abort_advance(ticket as int),
    {
        if let Some(p) = self.pending {
            if p.2 == ticket {
                self.pending = None;
            }
        }
    }

    /// Asks to show the entry after the current one, wrapping to the first,
    /// with no fixed timer.
    pub fn advance_next(&mut self) -> (r: AdvanceStart)
        requires
            old(self)@.wf(),
        ensures
            final(self)@.wf(),
            final(self)@ == old(self)@.advance_next(),
            answers_advance(r, old(self)@, old(self)@.next_index()),
    {
        let n = self.urls.len();
        if n == 0 {
            return AdvanceStart::OutOfRange;
        }
        let next: usize = if self.current_index + 1 == n {
            0
        } else {
            self.current_index + 1
        };
        proof {
            let c = self.current_index as int;
            let m = n as int;
            if c + 1 == m {
                vstd::arithmetic::div_mod::lemma_mod_self_0(m);
            } else {
                vstd::arithmetic::div_mod::lemma_small_mod((c + 1) as nat, m as nat);
            }
        }
        self.advance_to(next, 0)
    }

    /// The end of the current slide's timer; 0 when none is armed.
    pub fn get_rotation_timer(&self) -> (r: i64)
        ensures
            r as int == self@.scheduled_end_time,
    {
        self.scheduled_end_time
    }

    /// Sets the end of the current slide's timer.
    pub fn set_rotation_timer(&mut self, timestamp: i64)
        requires
            old(self)@.wf(),
        ensures
            final(self)@.wf(),
            final(self)@ == old(self)@.set_timer(timestamp as int),
    {
        self.scheduled_end_time = timestamp;
    }

    /// Starts a supervision cycle. Where the display is gone the session
    /// ends and the loop is told to stop; else a probe goes out and the
    /// alive flag is cleared.
    pub fn probe_begin(&mut self, display_exists: bool) -> (r: ProbeStart)
        requires
            old(self)@.wf(),
        ensures
            final(self)@.wf(),
            final(self)@ == old(self)@.probe_begin(display_exists),
            (r == ProbeStart::Stop) <==> (!display_exists || !old(self)@.active()),
    {
        if !display_exists || self.urls.len() == 0 {
            self.clear_session();
            self.loop_running = false;
            return ProbeStart::Stop;
        }
        self.probe_in_flight = true;
        self.alive = false;
        ProbeStart::Send
    }

    /// The display answered a probe.
    pub fn probe_ack(&mut self)
        requires
            old(self)@.wf(),
        ensures
            final(self)@.wf(),
            final(self)@ == old(self)@.probe_ack(),
    {
        self.alive = true;
    }

    /// Ends a supervision cycle: a page that did not answer is skipped with
    /// one `advance_next`; one that did is left as it is.
    pub fn probe_end(&mut self) -> (r: ProbeVerdict)
        requires
            old(self)@.wf(),
        ensures
            final(self)@.wf(),
            final(self)@ == old(self)@.probe_end(),
            (r is Stop) <==> !old(self)@.active(),
            (r is Alive) <==> (old(self)@.active() && old(self)@.alive),
            (r is Skip) <==> (old(self)@.active() && !old(self)@.alive),
            r matches ProbeVerdict::Skip(a) ==> answers_advance(
                a,
                old(self)@,
                old(self)@.next_index(),
            ),
    {
        if self.urls.len() == 0 {
            self.loop_running = false;
            return ProbeVerdict::Stop;
        }
        self.probe_in_flight = false;
        if self.alive {
            ProbeVerdict::Alive
        } else {
            ProbeVerdict::Skip(self.advance_next())
        }
    }

    /// Where the controller stands.
    pub fn phase(&self) -> (r: Phase)
        ensures
            r == self@.phase(),
    {
        if self.urls.len() == 0 {
            Phase::Idle
        } else if self.pending.is_some() {
            Phase::Advancing
        } else {
            Phase::Displaying
        }
    }

    /// The index of the entry shown.
    pub fn current_index(&self) -> (r: usize)
        ensures
            r as int == self@.current_index,
    {
        self.current_index
    }

    /// The number of entries of the session's URL list (0 with no session).
    pub fn url_count(&self) -> (r: usize)
        ensures
            r as int == self@.urls.len(),
    {
        self.urls.len()
    }

    /// The dot-navigation overlay for the session's URL list, with the dot
    /// of the entry shown marked active.
    pub fn render_navigation_overlay(&self) -> (r: String)
        ensures
            r@ == overlay_markup(self@.urls, self@.current_index),
    {
        render_overlay(&self.urls, self.current_index)
    }

    /// Answers a key released on the display: the right arrow asks for the
    /// next entry; other keys change nothing.
    pub fn on_key(&mut self, key: &str) -> (r: Option<AdvanceStart>)
        requires
            old(self)@.wf(),
        ensures
            final(self)@.wf(),
            is_next_key(key@) ==> final(self)@ == old(self)@.advance_next(),
            is_next_key(key@) ==> (r matches Some(a) && answers_advance(
                a,
                old(self)@,
                old(self)@.next_index(),
            )),
            !is_next_key(key@) ==> final(self)@ == old(self)@ && r is None,
    {
        if next_key(key) {
            Some(self.advance_next())
        } else {
            None
        }
    }

    /// The entry shown, if a session is active.
    pub fn current_url(&self) -> (r: Option<String>)
        requires
            self@.wf(),
        ensures
            (r is Some) <==> self@.active(),
            r matches Some(u) ==> u@ == self@.urls[self@.current_index],
    {
        if self.current_index < self.urls.len() {
            Some(self.urls[self.current_index].clone())
        } else {
            None
        }
    }
}

} // verus!
