//! The synchronisation loop, as a machine.
//!
//! The loop alternates between waiting and deciding. The waiting (a timer, a
//! read of the stored record, a call to the account service) is done by the
//! caller; what to do next is decided here. The caller hands each outcome to
//! `AccountManager::update_account_status` as an event, carries out what
//! comes back, and returns with the next event. While a call is outstanding
//! no other is started.

use vstd::prelude::*;
use crate::account::{Account, AccountError, AccountView, ErrorView};
use crate::backend::{
    device_login_result, device_login_verdict, refresh_result, refresh_verdict, status_result,
    status_verdict, Reply,
};
use crate::manager::{commits, AccountManager, Commit};
use crate::store::LoadOutcome;

verus! {

/// Where the loop stands.
#[derive(Debug, Clone, Copy, PartialEq, Eq, Structural)]
pub enum SyncState {
    /// The session has not been confirmed by the service yet.
    Bootstrap,
    /// The record in memory is the one the service last reported.
    Synced,
    /// The access token has expired and a new one is being obtained.
    RefreshingToken,
    /// There is no usable session and the device is being registered anew.
    ReRegistering,
}

/// What the loop is waiting on.
#[derive(Debug, Clone, Copy, PartialEq, Eq, Structural)]
pub enum Pending {
    /// Nothing is outstanding; the next tick starts a round.
    Timer,
    /// The stored record is being read.
    Load,
    /// A status request is outstanding.
    Status,
    /// The status request that follows a token refresh is outstanding.
    StatusRetry,
    /// A token refresh is outstanding.
    Token,
    /// A device login is outstanding.
    DeviceLogin,
}

/// Something that happened while the loop was waiting.
#[derive(Debug)]
pub enum Event {
    /// The timer fired.
    Tick,
    /// The stored record was read.
    Loaded(LoadOutcome),
    /// A status request was answered.
    Status(Reply<Account>),
    /// A token refresh was answered; its data is the new access token.
    Token(Reply<String>),
    /// A device login was answered.
    DeviceLogin(Reply<Account>),
}

/// The call to make next, as mathematics sees it.
pub enum CallView {
    Nothing,
    Load,
    DeviceLogin,
    RefreshStatus { access_token: Seq<char> },
    RefreshToken { refresh_token: Seq<char> },
}

/// The call to make next. `Nothing` means to wait for the timer.
#[derive(Debug)]
pub enum Call {
    Nothing,
    Load,
    DeviceLogin,
    RefreshStatus { access_token: String },
    RefreshToken { refresh_token: String },
}

impl View for Call {
    type V = CallView;

    open spec fn view(&self) -> CallView {
        match self {
            Call::Nothing => CallView::Nothing,
            Call::Load => CallView::Load,
            Call::DeviceLogin => CallView::DeviceLogin,
            Call::RefreshStatus { access_token } => CallView::RefreshStatus {
                access_token: access_token@,
            },
            Call::RefreshToken { refresh_token } => CallView::RefreshToken {
                refresh_token: refresh_token@,
            },
        }
    }
}

/// What the caller has to do after a step: store and announce the commit if
/// there is one, delete the stored record if told to, then make the call.
#[derive(Debug)]
pub struct Step {
    pub commit: Option<Commit>,
    pub delete_record: bool,
    pub call: Call,
}

/// The loop: its state, what it waits on, and whether the stored record has
/// been read in this process.
#[derive(Debug, Clone, Copy, PartialEq, Eq, Structural)]
pub struct SyncLoop {
    pub state: SyncState,
    pub pending: Pending,
    pub loaded: bool,
}

/// What a step leads to: the loop and the record after it, the record that
/// was committed if one was, and what the caller is told.
pub struct Next {
    pub sync: SyncLoop,
    pub record: AccountView,
    pub committed: Option<AccountView>,
    pub delete_record: bool,
    pub call: CallView,
}

/// A step that changes nothing and asks for nothing.
pub open spec fn ignored(sync: SyncLoop, record: AccountView) -> Next {
    Next { sync, record, committed: None, delete_record: false, call: CallView::Nothing }
}

/// A step that commits a record and goes on with a call.
pub open spec fn committing(
    sync: SyncLoop,
    record: AccountView,
    incoming: AccountView,
    call: CallView,
) -> Next {
    Next {
        sync,
        record: incoming.inheriting(record),
        committed: Some(incoming),
        delete_record: false,
        call,
    }
}

/// The round that a tick starts.
pub open spec fn next_on_tick(sync: SyncLoop, record: AccountView) -> Next {
    if sync.pending != Pending::Timer {
        ignored(sync, record)
    } else {
        match sync.state {
            SyncState::Bootstrap => if !sync.loaded {
                Next {
                    sync: SyncLoop { pending: Pending::Load, ..sync },
                    call: CallView::Load,
                    ..ignored(sync, record)
                }
            } else {
                Next {
                    sync: SyncLoop { pending: Pending::Status, ..sync },
                    call: CallView::RefreshStatus { access_token: record.access_token },
                    ..ignored(sync, record)
                }
            },
            SyncState::Synced => Next {
                sync: SyncLoop { pending: Pending::Status, ..sync },
                call: CallView::RefreshStatus { access_token: record.access_token },
                ..ignored(sync, record)
            },
            SyncState::RefreshingToken => Next {
                sync: SyncLoop { pending: Pending::Token, ..sync },
                call: CallView::RefreshToken { refresh_token: record.refresh_token },
                ..ignored(sync, record)
            },
            SyncState::ReRegistering => Next {
                sync: SyncLoop { pending: Pending::DeviceLogin, ..sync },
                call: CallView::DeviceLogin,
                ..ignored(sync, record)
            },
        }
    }
}

/// The loop at the start of the process.
pub open spec fn initial_loop() -> SyncLoop {
    SyncLoop { state: SyncState::Bootstrap, pending: Pending::Timer, loaded: false }
}

/// The loop as it registers the device anew.
pub open spec fn registering() -> SyncLoop {
    SyncLoop { state: SyncState::ReRegistering, pending: Pending::DeviceLogin, loaded: true }
}

/// What follows the reading of the stored record. A record that was found
/// is committed and checked with the service; without one the device is
/// registered, after a corrupt document has been deleted.
pub open spec fn next_on_loaded(sync: SyncLoop, record: AccountView, outcome: LoadOutcome) -> Next {
    if sync.pending != Pending::Load {
        ignored(sync, record)
    } else {
        match outcome {
            LoadOutcome::Loaded(found) => committing(
                SyncLoop { state: SyncState::Bootstrap, pending: Pending::Status, loaded: true },
                record,
                found@,
                CallView::RefreshStatus { access_token: found@.inheriting(record).access_token },
            ),
            LoadOutcome::NotFound => Next {
                sync: registering(),
                call: CallView::DeviceLogin,
                ..ignored(sync, record)
            },
            LoadOutcome::Corrupt => Next {
                sync: registering(),
                delete_record: true,
                call: CallView::DeviceLogin,
                ..ignored(sync, record)
            },
        }
    }
}

/// The loop as it waits for the next tick without a confirmed session.
pub open spec fn offline() -> SyncLoop {
    SyncLoop { state: SyncState::Bootstrap, pending: Pending::Timer, loaded: true }
}

/// The loop as it waits for the next tick with a confirmed session.
pub open spec fn synced() -> SyncLoop {
    SyncLoop { state: SyncState::Synced, pending: Pending::Timer, loaded: true }
}

/// What follows the answer to a status request. A record is committed. An
/// expired access token starts a token refresh, unless the request was
/// itself the retry after one: a retry that fails is not retried in the same
/// round. Any other failure is left for the next tick.
pub open spec fn next_on_status(
    sync: SyncLoop,
    record: AccountView,
    reply: Reply<Account>,
) -> Next {
    if sync.pending != Pending::Status && sync.pending != Pending::StatusRetry {
        ignored(sync, record)
    } else {
        match status_verdict(reply) {
            Ok(incoming) => committing(synced(), record, incoming@, CallView::Nothing),
            Err(error) => if sync.pending == Pending::StatusRetry {
                ignored(offline(), record)
            } else if error == ErrorView::TokenExpired {
                Next {
                    sync: SyncLoop {
                        state: SyncState::RefreshingToken,
                        pending: Pending::Token,
                        ..sync
                    },
                    call: CallView::RefreshToken { refresh_token: record.refresh_token },
                    ..ignored(sync, record)
                }
            } else {
                ignored(SyncLoop { pending: Pending::Timer, ..sync }, record)
            },
        }
    }
}

/// The record with a new access token.
pub open spec fn with_access_token(record: AccountView, access_token: Seq<char>) -> AccountView {
    AccountView { access_token, ..record }
}

/// What follows the answer to a token refresh. A new access token is
/// committed and the status request is made once more. A refresh token that
/// is no longer good ends the session: the record goes back to the initial
/// one, the stored record is deleted and the device is registered anew. Any
/// other failure is left for the next tick.
pub open spec fn next_on_token(sync: SyncLoop, record: AccountView, reply: Reply<String>) -> Next {
    if sync.pending != Pending::Token {
        ignored(sync, record)
    } else {
        match refresh_verdict(reply) {
            Ok(token) => committing(
                SyncLoop { pending: Pending::StatusRetry, ..sync },
                record,
                with_access_token(record, token@),
                CallView::RefreshStatus {
                    access_token: with_access_token(record, token@).inheriting(record).access_token,
                },
            ),
            Err(error) => if error == ErrorView::RefreshExpired {
                Next {
                    sync: registering(),
                    record: AccountView::initial(),
                    committed: None,
                    delete_record: true,
                    call: CallView::DeviceLogin,
                }
            } else {
                ignored(SyncLoop { pending: Pending::Timer, ..sync }, record)
            },
        }
    }
}

/// What follows the answer to a device login: the record is committed, or
/// the failure is left for the next tick.
pub open spec fn next_on_device_login(
    sync: SyncLoop,
    record: AccountView,
    reply: Reply<Account>,
) -> Next {
    if sync.pending != Pending::DeviceLogin {
        ignored(sync, record)
    } else {
        match device_login_verdict(reply) {
            Ok(incoming) => committing(synced(), record, incoming@, CallView::Nothing),
            Err(error) => ignored(SyncLoop { pending: Pending::Timer, ..sync }, record),
        }
    }
}

/// What a step leads to. An event that the loop is not waiting on changes
/// nothing.
pub open spec fn next(sync: SyncLoop, record: AccountView, event: Event) -> Next {
    match event {
        Event::Tick => next_on_tick(sync, record),
        Event::Loaded(outcome) => next_on_loaded(sync, record, outcome),
        Event::Status(reply) => next_on_status(sync, record, reply),
        Event::Token(reply) => next_on_token(sync, record, reply),
        Event::DeviceLogin(reply) => next_on_device_login(sync, record, reply),
    }
}

/// Whether what a step returned and left behind is what `next` says.
pub open spec fn follows(
    before: AccountView,
    expected: Next,
    sync: SyncLoop,
    record: AccountView,
    step: Step,
) -> bool {
    &&& sync == expected.sync
    &&& record == expected.record
    &&& step.delete_record == expected.delete_record
    &&& step.call@ == expected.call
    &&& match expected.committed {
        Some(incoming) => step.commit matches Some(commit) && commits(before, incoming, commit),
        None => step.commit.is_none(),
    }
}

impl SyncLoop {
    /// The loop at the start of the process: nothing has been read and
    /// nothing is outstanding.
    pub fn new() -> (sync: SyncLoop)
        ensures
            sync == initial_loop(),
    {
        SyncLoop { state: SyncState::Bootstrap, pending: Pending::Timer, loaded: false }
    }

    fn stay() -> (step: Step)
        ensures
            step.commit.is_none(),
            !step.delete_record,
            step.call@ == CallView::Nothing,
    {
        Step { commit: None, delete_record: false, call: Call::Nothing }
    }

    fn on_tick(&mut self, manager: &AccountManager) -> (step: Step)
        ensures
            follows(
                manager.record(),
                next_on_tick(*old(self), manager.record()),
                *final(self),
                manager.record(),
                step,
            ),
    {
        match self.pending {
            Pending::Timer => {},
            _ => {
                return SyncLoop::stay();
            },
        }
        let call = match self.state {
            SyncState::Bootstrap => {
                if !self.loaded {
                    self.pending = Pending::Load;
                    Call::Load
                } else {
                    self.pending = Pending::Status;
                    Call::RefreshStatus { access_token: manager.access_token() }
                }
            },
            SyncState::Synced => {
                self.pending = Pending::Status;
                Call::RefreshStatus { access_token: manager.access_token() }
            },
            SyncState::RefreshingToken => {
                self.pending = Pending::Token;
                Call::RefreshToken { refresh_token: manager.refresh_token() }
            },
            SyncState::ReRegistering => {
                self.pending = Pending::DeviceLogin;
                Call::DeviceLogin
            },
        };
        Step { commit: None, delete_record: false, call }
    }

    fn on_loaded(&mut self, manager: &mut AccountManager, outcome: LoadOutcome) -> (step: Step)
        ensures
            old(manager).same_but_record(*final(manager)),
            follows(
                old(manager).record(),
                next_on_loaded(*old(self), old(manager).record(), outcome),
                *final(self),
                final(manager).record(),
                step,
            ),
    {
        match self.pending {
            Pending::Load => {},
            _ => {
                return SyncLoop::stay();
            },
        }
        self.loaded = true;
        match outcome {
            LoadOutcome::Loaded(found) => {
                let commit = manager.update_account(found);
                self.state = SyncState::Bootstrap;
                self.pending = Pending::Status;
                Step {
                    commit: Some(commit),
                    delete_record: false,
                    call: Call::RefreshStatus { access_token: manager.access_token() },
                }
            },
            LoadOutcome::NotFound => {
                self.state = SyncState::ReRegistering;
                self.pending = Pending::DeviceLogin;
                Step { commit: None, delete_record: false, call: Call::DeviceLogin }
            },
            LoadOutcome::Corrupt => {
                self.state = SyncState::ReRegistering;
                self.pending = Pending::DeviceLogin;
                Step { commit: None, delete_record: true, call: Call::DeviceLogin }
            },
        }
    }

    fn on_status(&mut self, manager: &mut AccountManager, reply: Reply<Account>) -> (step: Step)
        ensures
            old(manager).same_but_record(*final(manager)),
            follows(
                old(manager).record(),
                next_on_status(*old(self), old(manager).record(), reply),
                *final(self),
                final(manager).record(),
                step,
            ),
    {
        let retry = match self.pending {
            Pending::Status => false,
            Pending::StatusRetry => true,
            _ => {
                return SyncLoop::stay();
            },
        };
        match status_result(reply) {
            Ok(incoming) => {
                let commit = manager.update_account(incoming);
                self.state = SyncState::Synced;
                self.pending = Pending::Timer;
                self.loaded = true;
                Step { commit: Some(commit), delete_record: false, call: Call::Nothing }
            },
            Err(error) => {
                if retry {
                    self.state = SyncState::Bootstrap;
                    self.pending = Pending::Timer;
                    self.loaded = true;
                    SyncLoop::stay()
                } else {
                    match error {
                        AccountError::TokenExpired => {
                            self.state = SyncState::RefreshingToken;
                            self.pending = Pending::Token;
                            Step {
                                commit: None,
                                delete_record: false,
                                call: Call::RefreshToken { refresh_token: manager.refresh_token() },
                            }
                        },
                        _ => {
                            self.pending = Pending::Timer;
                            SyncLoop::stay()
                        },
                    }
                }
            },
        }
    }

    fn on_token(&mut self, manager: &mut AccountManager, reply: Reply<String>) -> (step: Step)
        ensures
            old(manager).same_but_record(*final(manager)),
            follows(
                old(manager).record(),
                next_on_token(*old(self), old(manager).record(), reply),
                *final(self),
                final(manager).record(),
                step,
            ),
    {
        match self.pending {
            Pending::Token => {},
            _ => {
                return SyncLoop::stay();
            },
        }
        match refresh_result(reply) {
            Ok(token) => {
                let commit = manager.update_access_token(token);
                self.pending = Pending::StatusRetry;
                Step {
                    commit: Some(commit),
                    delete_record: false,
                    call: Call::RefreshStatus { access_token: manager.access_token() },
                }
            },
            Err(error) => match error {
                AccountError::RefreshExpired => {
                    manager.reset();
                    self.state = SyncState::ReRegistering;
                    self.pending = Pending::DeviceLogin;
                    self.loaded = true;
                    Step { commit: None, delete_record: true, call: Call::DeviceLogin }
                },
                _ => {
                    self.pending = Pending::Timer;
                    SyncLoop::stay()
                },
            },
        }
    }

    fn on_device_login(&mut self, manager: &mut AccountManager, reply: Reply<Account>) -> (step:
        Step)
        ensures
            old(manager).same_but_record(*final(manager)),
            follows(
                old(manager).record(),
                next_on_device_login(*old(self), old(manager).record(), reply),
                *final(self),
                final(manager).record(),
                step,
            ),
    {
        match self.pending {
            Pending::DeviceLogin => {},
            _ => {
                return SyncLoop::stay();
            },
        }
        match device_login_result(reply) {
            Ok(incoming) => {
                let commit = manager.update_account(incoming);
                self.state = SyncState::Synced;
                self.pending = Pending::Timer;
                self.loaded = true;
                Step { commit: Some(commit), delete_record: false, call: Call::Nothing }
            },
            Err(error) => {
                self.pending = Pending::Timer;
                SyncLoop::stay()
            },
        }
    }

    fn step(&mut self, manager: &mut AccountManager, event: Event) -> (step: Step)
        ensures
            old(manager).same_but_record(*final(manager)),
            follows(
                old(manager).record(),
                next(*old(self), old(manager).record(), event),
                *final(self),
                final(manager).record(),
                step,
            ),
    {
        match event {
            Event::Tick => self.on_tick(manager),
            Event::Loaded(outcome) => self.on_loaded(manager, outcome),
            Event::Status(reply) => self.on_status(manager, reply),
            Event::Token(reply) => self.on_token(manager, reply),
            Event::DeviceLogin(reply) => self.on_device_login(manager, reply),
        }
    }
}

impl AccountManager {
    /// Takes one event of the synchronisation loop and decides what to do
    /// next. A tick asks the service for the status of the session; an
    /// expired access token is refreshed, and a refresh token that is no
    /// longer good ends the session and has the device registered anew. The
    /// loop and the record move as `next` says; the result tells the caller
    /// what to store, what to delete and which call to make. The identity is
    /// never touched.
    pub fn update_account_status(&mut self, event: Event) -> (step: Step)
        ensures
            final(self).machine_id() == old(self).machine_id(),
            follows(
                old(self).record(),
                next(old(self).sync_loop(), old(self).record(), event),
                final(self).sync_loop(),
                final(self).record(),
                step,
            ),
    {
        let mut sync = self.loop_state();
        let step = sync.step(self, event);
        self.set_loop_state(sync);
        step
    }
}

impl SyncLoop {
    /// What holds of every loop that started with `new` and moved by steps:
    /// what is outstanding fits the state, and only a loop that has not read
    /// the stored record yet asks for it.
    pub open spec fn well_formed(self) -> bool {
        match self.pending {
            Pending::Timer => self.state != SyncState::Bootstrap ==> self.loaded,
            Pending::Load => self.state == SyncState::Bootstrap && !self.loaded,
            Pending::Status => (self.state == SyncState::Bootstrap || self.state
                == SyncState::Synced) && self.loaded,
            Pending::StatusRetry => self.state == SyncState::RefreshingToken && self.loaded,
            Pending::Token => self.state == SyncState::RefreshingToken && self.loaded,
            Pending::DeviceLogin => self.state == SyncState::ReRegistering && self.loaded,
        }
    }
}

/// Whether a judged answer is the given failure.
pub open spec fn failed_with<T>(verdict: Result<T, ErrorView>, error: ErrorView) -> bool {
    match verdict {
        Ok(_) => false,
        Err(reported) => reported == error,
    }
}

/// Whether a judged answer is a failure other than the given one.
pub open spec fn failed_otherwise<T>(verdict: Result<T, ErrorView>, error: ErrorView) -> bool {
    match verdict {
        Ok(_) => false,
        Err(reported) => reported != error,
    }
}

/// Whether an event is the answer that ends the session: a token refresh
/// that the loop waits on and that says the refresh token is no longer good.
pub open spec fn ends_session(sync: SyncLoop, event: Event) -> bool {
    &&& sync.pending == Pending::Token
    &&& event matches Event::Token(reply)
    &&& failed_with(refresh_verdict(reply), ErrorView::RefreshExpired)
}

/// The loop starts well formed and every step keeps it so.
pub proof fn lemma_step_keeps_well_formed(sync: SyncLoop, record: AccountView, event: Event)
    requires
        sync.well_formed(),
    ensures
        initial_loop().well_formed(),
        next(sync, record, event).sync.well_formed(),
{
}

/// A tick that arrives while a call is outstanding starts nothing: the loop
/// is not reentrant.
pub proof fn lemma_tick_waits_for_outstanding_call(sync: SyncLoop, record: AccountView)
    requires
        sync.pending != Pending::Timer,
    ensures
        next(sync, record, Event::Tick) == ignored(sync, record),
{
}

/// A tick with nothing outstanding always starts a call, and the loop then
/// waits on it.
pub proof fn lemma_tick_starts_one_call(sync: SyncLoop, record: AccountView)
    requires
        sync.pending == Pending::Timer,
    ensures
        next(sync, record, Event::Tick).call != CallView::Nothing,
        next(sync, record, Event::Tick).sync.pending != Pending::Timer,
        next(sync, record, Event::Tick).record == record,
        next(sync, record, Event::Tick).committed.is_none(),
        !next(sync, record, Event::Tick).delete_record,
{
}

/// The record changes only by a commit, or when the session ends.
pub proof fn lemma_record_moves_by_commit(sync: SyncLoop, record: AccountView, event: Event)
    ensures
        match next(sync, record, event).committed {
            Some(incoming) => next(sync, record, event).record == incoming.inheriting(record),
            None => if ends_session(sync, event) {
                next(sync, record, event).record == AccountView::initial()
            } else {
                next(sync, record, event).record == record
            },
        },
{
}

/// No step erases a token, but the one that ends the session.
pub proof fn lemma_steps_keep_tokens(sync: SyncLoop, record: AccountView, event: Event)
    requires
        !ends_session(sync, event),
    ensures
        record.access_token.len() > 0 ==> next(sync, record, event).record.access_token.len() > 0,
        record.refresh_token.len() > 0 ==> next(sync, record, event).record.refresh_token.len() > 0,
{
}

/// The stored record is deleted only when it was found corrupt or when the
/// session ends, and the device is registered anew right after.
pub proof fn lemma_deletion_leads_to_registration(
    sync: SyncLoop,
    record: AccountView,
    event: Event,
)
    requires
        next(sync, record, event).delete_record,
    ensures
        ends_session(sync, event) || (sync.pending == Pending::Load && event matches Event::Loaded(
            LoadOutcome::Corrupt,
        )),
        next(sync, record, event).call == CallView::DeviceLogin,
        next(sync, record, event).sync == registering(),
        next(sync, record, event).committed.is_none(),
{
}

/// A session is confirmed only by a commit: the loop enters `Synced` only
/// on a step that commits a record from the service.
pub proof fn lemma_synced_means_committed(sync: SyncLoop, record: AccountView, event: Event)
    requires
        sync.state != SyncState::Synced,
        next(sync, record, event).sync.state == SyncState::Synced,
    ensures
        next(sync, record, event).committed.is_some(),
        next(sync, record, event).sync == synced(),
{
}

/// An expired access token followed by a refresh token that is no longer
/// good ends with the initial record in memory, the stored record deleted
/// and a device login under way. Nothing is committed on the way.
pub proof fn lemma_expiry_cascade(
    sync: SyncLoop,
    record: AccountView,
    status_reply: Reply<Account>,
    token_reply: Reply<String>,
)
    requires
        sync.pending == Pending::Status,
        failed_with(status_verdict(status_reply), ErrorView::TokenExpired),
        failed_with(refresh_verdict(token_reply), ErrorView::RefreshExpired),
    ensures
        ({
            let first = next(sync, record, Event::Status(status_reply));
            let second = next(first.sync, first.record, Event::Token(token_reply));
            &&& first.call == CallView::RefreshToken { refresh_token: record.refresh_token }
            &&& first.record == record
            &&& first.committed.is_none()
            &&& !first.delete_record
            &&& second.record == AccountView::initial()
            &&& second.delete_record
            &&& second.call == CallView::DeviceLogin
            &&& second.committed.is_none()
            &&& second.sync == registering()
        }),
{
}

/// After the session has ended, a device login that fails leaves the
/// initial record in memory: the old tokens are gone for good.
pub proof fn lemma_expiry_cascade_survives_failed_login(
    sync: SyncLoop,
    record: AccountView,
    status_reply: Reply<Account>,
    token_reply: Reply<String>,
    login_reply: Reply<Account>,
)
    requires
        sync.pending == Pending::Status,
        failed_with(status_verdict(status_reply), ErrorView::TokenExpired),
        failed_with(refresh_verdict(token_reply), ErrorView::RefreshExpired),
        device_login_verdict(login_reply) is Err,
    ensures
        ({
            let first = next(sync, record, Event::Status(status_reply));
            let second = next(first.sync, first.record, Event::Token(token_reply));
            let third = next(second.sync, second.record, Event::DeviceLogin(login_reply));
            &&& third.record == AccountView::initial()
            &&& third.committed.is_none()
            &&& !third.delete_record
            &&& third.call == CallView::Nothing
            &&& third.sync.state == SyncState::ReRegistering
        }),
{
}

/// After the session has ended, the record that the device login brings is
/// committed as it is: nothing is inherited from the session that ended.
pub proof fn lemma_registration_commits_the_new_record(
    sync: SyncLoop,
    record: AccountView,
    status_reply: Reply<Account>,
    token_reply: Reply<String>,
    login_reply: Reply<Account>,
)
    requires
        sync.pending == Pending::Status,
        failed_with(status_verdict(status_reply), ErrorView::TokenExpired),
        failed_with(refresh_verdict(token_reply), ErrorView::RefreshExpired),
        device_login_verdict(login_reply) is Ok,
    ensures
        ({
            let first = next(sync, record, Event::Status(status_reply));
            let second = next(first.sync, first.record, Event::Token(token_reply));
            let third = next(second.sync, second.record, Event::DeviceLogin(login_reply));
            let brought = device_login_verdict(login_reply)->Ok_0;
            &&& first.call != CallView::DeviceLogin
            &&& second.call == CallView::DeviceLogin
            &&& third.call == CallView::Nothing
            &&& third.record == brought@
            &&& third.committed == Some(brought@)
            &&& third.sync == synced()
        }),
{
    let brought = device_login_verdict(login_reply)->Ok_0@;
    let committed = brought.inheriting(AccountView::initial());
    assert(committed.access_token =~= brought.access_token);
    assert(committed.refresh_token =~= brought.refresh_token);
}

/// A device login is asked for only where there is no session to keep: the
/// stored record was absent or corrupt, the refresh token is no longer good,
/// or an earlier registration is still to be made.
pub proof fn lemma_device_login_needs_a_reason(sync: SyncLoop, record: AccountView, event: Event)
    requires
        next(sync, record, event).call == CallView::DeviceLogin,
    ensures
        ends_session(sync, event) || (sync.pending == Pending::Load && (event matches Event::Loaded(
            LoadOutcome::NotFound,
        ) || event matches Event::Loaded(LoadOutcome::Corrupt))) || (sync.pending == Pending::Timer
            && sync.state == SyncState::ReRegistering && event matches Event::Tick),
{
}

/// An expired access token leads to one token refresh, made with the
/// refresh token held. The access token that comes back is committed, the
/// refresh token stays, and the status request is made once more with the
/// new access token.
pub proof fn lemma_refresh_renews_access_token(
    sync: SyncLoop,
    record: AccountView,
    status_reply: Reply<Account>,
    token_reply: Reply<String>,
)
    requires
        sync.pending == Pending::Status,
        failed_with(status_verdict(status_reply), ErrorView::TokenExpired),
        refresh_verdict(token_reply) matches Ok(token) && token@.len() > 0,
    ensures
        ({
            let first = next(sync, record, Event::Status(status_reply));
            let second = next(first.sync, first.record, Event::Token(token_reply));
            let token = refresh_verdict(token_reply)->Ok_0;
            &&& first.call == CallView::RefreshToken { refresh_token: record.refresh_token }
            &&& first.sync.pending == Pending::Token
            &&& second.committed.is_some()
            &&& second.record == with_access_token(record, token@)
            &&& second.call == CallView::RefreshStatus { access_token: token@ }
            &&& second.sync.pending == Pending::StatusRetry
        }),
{
}

/// The status request that follows a token refresh is not followed by
/// another refresh in the same round, whatever it fails with.
pub proof fn lemma_retry_is_made_once(sync: SyncLoop, record: AccountView, reply: Reply<Account>)
    requires
        sync.pending == Pending::StatusRetry,
        status_verdict(reply) is Err,
    ensures
        next(sync, record, Event::Status(reply)) == ignored(offline(), record),
{
}

/// A failed call, other than the two expiries, changes no record, stores and
/// deletes nothing, and leaves the state for the next tick to try again.
pub proof fn lemma_failures_wait_for_next_tick(sync: SyncLoop, record: AccountView, event: Event)
    requires
        match event {
            Event::Status(reply) => sync.pending == Pending::Status && failed_otherwise(
                status_verdict(reply),
                ErrorView::TokenExpired,
            ),
            Event::Token(reply) => sync.pending == Pending::Token && failed_otherwise(
                refresh_verdict(reply),
                ErrorView::RefreshExpired,
            ),
            Event::DeviceLogin(reply) => sync.pending == Pending::DeviceLogin && device_login_verdict(
                reply,
            ) is Err,
            _ => false,
        },
    ensures
        next(sync, record, event) == ignored(SyncLoop { pending: Pending::Timer, ..sync }, record),
{
}

/// A device login that fails leaves the record as it was and commits
/// nothing, so nothing is stored.
pub proof fn lemma_failed_device_login_changes_nothing(
    sync: SyncLoop,
    record: AccountView,
    reply: Reply<Account>,
)
    requires
        device_login_verdict(reply) is Err,
    ensures
        next(sync, record, Event::DeviceLogin(reply)).record == record,
        next(sync, record, Event::DeviceLogin(reply)).committed.is_none(),
        !next(sync, record, Event::DeviceLogin(reply)).delete_record,
        next(sync, record, Event::DeviceLogin(reply)).call == CallView::Nothing,
{
}

} // verus!
