use vstd::prelude::*;

use crate::backoff::{backoff_delay, delay_after, pow2, MAX_RECONNECT_ATTEMPTS};
use crate::config::Config;
use crate::handler::{advanced, fires, Handler};

verus! {

/// Where a watch run stands.
#[derive(Debug, Clone, Copy, PartialEq, Eq, Structural)]
pub enum Phase {
    /// The first connect attempt is under way.
    Connecting,
    /// Connected, blocked until the server pushes a change.
    Waiting,
    /// A change was pushed; the highest message identifier was asked for.
    Querying,
    /// New mail: the synchronizer is running.
    Syncing,
    /// Synchronized: the notifications are being sent.
    Notifying,
    /// The connection was dropped; a connect attempt is under way after
    /// `failures` failed ones.
    Reconnecting { failures: u32 },
    /// The run is over.
    Finished,
}

/// What the outside world reports back after carrying out an action.
#[derive(Debug, Clone, Copy, PartialEq, Eq, Structural)]
pub enum Event {
    Connected,
    ConnectFailed,
    /// The server pushed a change.
    PushReceived,
    /// The wait broke off: transport error or timeout.
    WaitFailed,
    /// The highest message identifier on the server (`None`: empty mailbox).
    Latest { uid: Option<u32> },
    /// The server could not be asked for it.
    QueryFailed,
    Synced,
    SyncFailed,
    Notified,
    /// Some notification could not be delivered.
    NotifyFailed,
}

/// Why a run ended for good.
#[derive(Debug, Clone, Copy, PartialEq, Eq, Structural)]
pub enum RunError {
    /// The very first connect attempt failed.
    Connect,
    /// The synchronizer failed: the local store can no longer be trusted.
    Synchronization,
    /// Every reconnect attempt failed.
    ReconnectExhausted,
}

/// What the outside world is asked to do next.
#[derive(Debug, Clone, Copy, PartialEq, Eq, Structural)]
pub enum Action {
    /// Block until the server pushes a change.
    Wait,
    /// Ask the server for the highest message identifier in the mailbox.
    QueryLatest,
    /// Run the synchronizer.
    Synchronize,
    /// Send the notifications; failures there are reported but harmless.
    Notify,
    /// Drop the connection (logging out, errors ignored), sleep `delay_secs`
    /// seconds, then connect again.
    Reconnect { delay_secs: u64 },
    /// End the run with `error`.
    Stop { error: RunError },
}

/// The events that can follow the action taken in `phase`.
pub open spec fn accepts(phase: Phase, event: Event) -> bool {
    match phase {
        Phase::Connecting | Phase::Reconnecting { .. } => event is Connected || event is ConnectFailed,
        Phase::Waiting => event is PushReceived || event is WaitFailed,
        Phase::Querying => event is Latest || event is QueryFailed,
        Phase::Syncing => event is Synced || event is SyncFailed,
        Phase::Notifying => event is Notified || event is NotifyFailed,
        Phase::Finished => false,
    }
}

/// A phase that a run can be in: a reconnect is never past the last attempt.
pub open spec fn phase_ok(phase: Phase) -> bool {
    phase matches Phase::Reconnecting { failures } ==> failures < MAX_RECONNECT_ATTEMPTS
}

/// The next phase, watermark and action, from `phase` and watermark `w`,
/// when `event` is reported.
pub open spec fn next(phase: Phase, w: u32, event: Event) -> (Phase, u32, Action) {
    match (phase, event) {
        (Phase::Connecting, Event::Connected) => (Phase::Waiting, w, Action::Wait),
        (Phase::Reconnecting { .. }, Event::Connected) => (Phase::Waiting, w, Action::Wait),
        (Phase::Connecting, Event::ConnectFailed) => (
            Phase::Finished,
            w,
            Action::Stop { error: RunError::Connect },
        ),
        (Phase::Reconnecting { failures }, Event::ConnectFailed) => if failures + 1
            >= MAX_RECONNECT_ATTEMPTS {
            (Phase::Finished, w, Action::Stop { error: RunError::ReconnectExhausted })
        } else {
            (
                Phase::Reconnecting { failures: (failures + 1) as u32 },
                w,
                Action::Reconnect { delay_secs: delay_after((failures + 1) as nat) as u64 },
            )
        },
        (Phase::Waiting, Event::PushReceived) => (Phase::Querying, w, Action::QueryLatest),
        (Phase::Waiting, Event::WaitFailed) => (
            Phase::Reconnecting { failures: 0 },
            w,
            Action::Reconnect { delay_secs: 0 },
        ),
        (Phase::Querying, Event::QueryFailed) => (
            Phase::Reconnecting { failures: 0 },
            w,
            Action::Reconnect { delay_secs: 0 },
        ),
        (Phase::Querying, Event::Latest { uid }) => if fires(w, uid) {
            (Phase::Syncing, advanced(w, uid), Action::Synchronize)
        } else {
            (Phase::Waiting, w, Action::Wait)
        },
        (Phase::Syncing, Event::Synced) => (Phase::Notifying, w, Action::Notify),
        (Phase::Syncing, Event::SyncFailed) => (
            Phase::Finished,
            w,
            Action::Stop { error: RunError::Synchronization },
        ),
        (Phase::Notifying, _) => (Phase::Waiting, w, Action::Wait),
        _ => (phase, w, Action::Stop { error: RunError::Connect }),
    }
}

/// One pushed change whose query answers `uid`, with every step after it
/// succeeding: synchronization and notification run exactly when
/// `fires(w, Some(uid))`, the watermark ends at `advanced(w, Some(uid))`, and
/// the watch is back to waiting. These are the watermark and answer of
/// `Handler::handle`, so `lemma_fires_once_per_new_id` holds of a run of pushes.
pub proof fn lemma_push_round(w: u32, uid: u32)
    ensures
        next(Phase::Waiting, w, Event::PushReceived) == (Phase::Querying, w, Action::QueryLatest),
        fires(w, Some(uid)) ==> next(Phase::Querying, w, Event::Latest { uid: Some(uid) }) == (
            Phase::Syncing,
            advanced(w, Some(uid)),
            Action::Synchronize,
        ),
        fires(w, Some(uid)) ==> next(Phase::Syncing, advanced(w, Some(uid)), Event::Synced) == (
            Phase::Notifying,
            advanced(w, Some(uid)),
            Action::Notify,
        ),
        fires(w, Some(uid)) ==> next(Phase::Notifying, advanced(w, Some(uid)), Event::Notified) == (
            Phase::Waiting,
            advanced(w, Some(uid)),
            Action::Wait,
        ),
        !fires(w, Some(uid)) ==> next(Phase::Querying, w, Event::Latest { uid: Some(uid) }) == (
            Phase::Waiting,
            advanced(w, Some(uid)),
            Action::Wait,
        ),
{
}

/// A run that is over takes no further event: in particular no further
/// connect attempt is made.
pub proof fn lemma_finished_is_final(event: Event)
    ensures
        !accepts(Phase::Finished, event),
{
}

/// With an empty mailbox a pushed change sets off neither synchronization nor
/// notification: the watch goes back to waiting with the watermark unchanged.
pub proof fn lemma_empty_mailbox_is_quiet(w: u32)
    ensures
        next(Phase::Querying, w, Event::Latest { uid: None }) == (Phase::Waiting, w, Action::Wait),
{
}

/// When new mail with identifier `uid` is found and the synchronizer then
/// fails, the run ends with a synchronization error, and the watermark already
/// holds `uid`, the identifier that was attempted.
pub proof fn lemma_sync_failure_is_fatal(w: u32, uid: u32)
    requires
        uid > w,
    ensures
        next(Phase::Querying, w, Event::Latest { uid: Some(uid) }) == (
            Phase::Syncing,
            uid,
            Action::Synchronize,
        ),
        next(Phase::Syncing, uid, Event::SyncFailed) == (
            Phase::Finished,
            uid,
            Action::Stop { error: RunError::Synchronization },
        ),
{
}

/// After a successful synchronization a failed notification is no fault: the
/// watch goes back to waiting on the same connection, just as after delivered
/// notifications.
pub proof fn lemma_notify_failure_is_harmless(w: u32)
    ensures
        next(Phase::Syncing, w, Event::Synced) == (Phase::Notifying, w, Action::Notify),
        next(Phase::Notifying, w, Event::NotifyFailed) == (Phase::Waiting, w, Action::Wait),
        next(Phase::Notifying, w, Event::NotifyFailed) == next(Phase::Notifying, w, Event::Notified),
{
}

/// Backoff: after a fault the first connect attempt is made at once; after
/// the `n`-th consecutive failed attempt (`n` below the limit) the next one is
/// made after `2^(n-1)` seconds; the failure of the last allowed attempt ends
/// the run with `ReconnectExhausted`, and the watermark is never touched.
pub proof fn lemma_backoff_schedule(w: u32, n: u32)
    requires
        1 <= n <= MAX_RECONNECT_ATTEMPTS,
    ensures
        next(Phase::Waiting, w, Event::WaitFailed) == (
            Phase::Reconnecting { failures: 0 },
            w,
            Action::Reconnect { delay_secs: 0 },
        ),
        n < MAX_RECONNECT_ATTEMPTS ==> next(
            Phase::Reconnecting { failures: (n - 1) as u32 },
            w,
            Event::ConnectFailed,
        ) == (
            Phase::Reconnecting { failures: n },
            w,
            Action::Reconnect { delay_secs: pow2((n - 1) as nat) as u64 },
        ),
        n == MAX_RECONNECT_ATTEMPTS ==> next(
            Phase::Reconnecting { failures: (n - 1) as u32 },
            w,
            Event::ConnectFailed,
        ) == (Phase::Finished, w, Action::Stop { error: RunError::ReconnectExhausted }),
{
}

/// The decisions of one watch over a mailbox: connection lifecycle with
/// bounded exponential backoff, and dispatch of pushed changes. The caller
/// carries out each returned action and reports how it went.
pub struct Session {
    config: Config,
    phase: Phase,
}

impl Session {
    pub closed spec fn spec_phase(&self) -> Phase {
        self.phase
    }

    pub closed spec fn spec_config(&self) -> Config {
        self.config
    }

    pub open spec fn wf(&self) -> bool {
        phase_ok(self.spec_phase())
    }

    /// A session for `config`, before its first connect attempt, which the
    /// caller makes.
    pub fn new(config: Config) -> (s: Session)
        ensures
            s.wf(),
            s.spec_phase() == Phase::Connecting,
            s.spec_config() == config,
    {
        Session { config, phase: Phase::Connecting }
    }

    /// The configuration that every connect attempt uses.
    pub fn config(&self) -> (c: &Config)
        ensures
            *c == self.spec_config(),
    {
        &self.config
    }

    pub fn phase(&self) -> (p: Phase)
        ensures
            p == self.spec_phase(),
    {
        self.phase
    }

    /// Whether `event` can follow the action last returned.
    pub fn accepts(&self, event: Event) -> (r: bool)
        ensures
            r == accepts(self.spec_phase(), event),
    {
        match (self.phase, event) {
            (Phase::Connecting, Event::Connected) => true,
            (Phase::Connecting, Event::ConnectFailed) => true,
            (Phase::Reconnecting { .. }, Event::Connected) => true,
            (Phase::Reconnecting { .. }, Event::ConnectFailed) => true,
            (Phase::Waiting, Event::PushReceived) => true,
            (Phase::Waiting, Event::WaitFailed) => true,
            (Phase::Querying, Event::Latest { .. }) => true,
            (Phase::Querying, Event::QueryFailed) => true,
            (Phase::Syncing, Event::Synced) => true,
            (Phase::Syncing, Event::SyncFailed) => true,
            (Phase::Notifying, Event::Notified) => true,
            (Phase::Notifying, Event::NotifyFailed) => true,
            _ => false,
        }
    }

    /// Takes in what happened to the last action and decides the next one.
    /// The dispatcher's watermark moves only when new mail is found, before
    /// the synchronizer is asked to run.
    pub fn step(&mut self, handler: &mut Handler, event: Event) -> (action: Action)
        requires
            old(self).wf(),
            accepts(old(self).spec_phase(), event),
        ensures
            final(self).wf(),
            final(self).spec_config() == old(self).spec_config(),
            (final(self).spec_phase(), final(handler).watermark(), action) == next(
                old(self).spec_phase(),
                old(handler).watermark(),
                event,
            ),
            final(handler).synchronizer() == old(handler).synchronizer(),
    {
        let (phase, action) = match (self.phase, event) {
            (Phase::Connecting, Event::Connected) => (Phase::Waiting, Action::Wait),
            (Phase::Reconnecting { .. }, Event::Connected) => (Phase::Waiting, Action::Wait),
            (Phase::Connecting, _) => (Phase::Finished, Action::Stop { error: RunError::Connect }),
            (Phase::Reconnecting { failures }, _) => {
                if failures + 1 >= MAX_RECONNECT_ATTEMPTS {
                    (Phase::Finished, Action::Stop { error: RunError::ReconnectExhausted })
                } else {
                    let delay_secs = backoff_delay(failures + 1);
                    (Phase::Reconnecting { failures: failures + 1 }, Action::Reconnect { delay_secs })
                }
            },
            (Phase::Waiting, Event::PushReceived) => (Phase::Querying, Action::QueryLatest),
            (Phase::Waiting, _) => (
                Phase::Reconnecting { failures: 0 },
                Action::Reconnect { delay_secs: 0 },
            ),
            (Phase::Querying, Event::Latest { uid }) => {
                if handler.handle(uid) {
                    (Phase::Syncing, Action::Synchronize)
                } else {
                    (Phase::Waiting, Action::Wait)
                }
            },
            (Phase::Querying, _) => (
                Phase::Reconnecting { failures: 0 },
                Action::Reconnect { delay_secs: 0 },
            ),
            (Phase::Syncing, Event::Synced) => (Phase::Notifying, Action::Notify),
            (Phase::Syncing, _) => (
                Phase::Finished,
                Action::Stop { error: RunError::Synchronization },
            ),
            (Phase::Notifying, _) => (Phase::Waiting, Action::Wait),
            (Phase::Finished, _) => (Phase::Finished, Action::Stop { error: RunError::Connect }),
        };
        self.phase = phase;
        action
    }
}

} // verus!
