//! The session state: the one record of the session and the identity of
//! this installation, with the rule by which the record changes.

use vstd::prelude::*;
use vstd::string::StringExecFns;
use crate::account::{
    clone_opt_text, devices_of, opt_text, Account, AccountError, AccountView, DeviceInfo,
    DeviceView, ErrorView,
};
use crate::backend::{device_login_result, device_login_verdict, Reply};
use crate::identity::{
    device_id_document_text, device_id_in, document_id, fresh_device_id, random_number,
    resolution, written_document,
};
use crate::store::{save_document, saved_document};
use crate::sync::{initial_loop, SyncLoop};
use crate::text::{decimal, str_eq};

verus! {

/// What a commit did: whether the status changed, the record as committed,
/// and the document that stores it. The caller writes the document, and
/// announces the record exactly when `changed` is set. There is no document
/// where the one written would not read back as the tokens of the record.
#[derive(Debug)]
pub struct Commit {
    pub changed: bool,
    pub account: Account,
    pub document: Option<String>,
}

/// An identity as resolved. `document` is the identity document to write,
/// present exactly when the identity was made on the spot and the document
/// reads back as that identity.
#[derive(Debug)]
pub struct Resolved {
    pub device_id: String,
    pub document: Option<String>,
}

/// Whether a device is the current one for an identity: its account-scoped
/// number, written in base ten, is the identity.
pub open spec fn is_current(device: DeviceView, device_id: Seq<char>) -> bool {
    decimal(device.device_user_id) == device_id
}

/// Whether `at` is the place of the first device that is current for the
/// given identity.
pub open spec fn first_current(devices: Seq<DeviceView>, device_id: Seq<char>, at: int) -> bool {
    &&& 0 <= at < devices.len()
    &&& is_current(devices[at], device_id)
    &&& forall|before: int| 0 <= before < at ==> !is_current(devices[before], device_id)
}

/// Whether no device of a list is current for the given identity.
pub open spec fn none_current(devices: Seq<DeviceView>, device_id: Seq<char>) -> bool {
    forall|at: int| 0 <= at < devices.len() ==> !is_current(devices[at], device_id)
}

/// What is said when an identity can be had from nowhere.
pub open spec fn no_identity() -> ErrorView {
    ErrorView::Other("无法生成设备ID"@)
}

/// Whether a record is committed over a held one to give a result: the
/// tokens are inherited, and the change flag tells whether the status moved.
pub open spec fn commits(held: AccountView, incoming: AccountView, commit: Commit) -> bool {
    &&& commit.account@ == incoming.inheriting(held)
    &&& commit.changed == (incoming.status != held.status)
    &&& opt_text(commit.document) == saved_document(incoming.inheriting(held))
}

/// Owner of the session record, of the identity held in memory and of the
/// state of the synchronisation loop.
pub struct AccountManager {
    account: Account,
    machine_id: Option<String>,
    sync: SyncLoop,
}

impl AccountManager {
    /// The session record.
    pub closed spec fn record(&self) -> AccountView {
        self.account@
    }

    /// The identity held in memory, if it has been resolved.
    pub closed spec fn machine_id(&self) -> Option<Seq<char>> {
        opt_text(self.machine_id)
    }

    /// Where the synchronisation loop stands.
    pub closed spec fn sync_loop(&self) -> SyncLoop {
        self.sync
    }

    /// Whether a later manager differs from this one in the record at most.
    pub open spec fn same_but_record(self, later: AccountManager) -> bool {
        later.machine_id() == self.machine_id() && later.sync_loop() == self.sync_loop()
    }

    /// A manager with the initial record, no identity, and the loop at its
    /// start.
    pub fn new() -> (manager: AccountManager)
        ensures
            manager.record() == AccountView::initial(),
            manager.machine_id().is_none(),
            manager.sync_loop() == initial_loop(),
    {
        AccountManager { account: Account::default(), machine_id: None, sync: SyncLoop::new() }
    }

    /// Where the synchronisation loop stands.
    pub fn loop_state(&self) -> (sync: SyncLoop)
        ensures
            sync == self.sync_loop(),
    {
        self.sync
    }

    /// Moves the synchronisation loop; the record and the identity stay.
    pub(crate) fn set_loop_state(&mut self, sync: SyncLoop)
        ensures
            final(self).sync_loop() == sync,
            final(self).record() == old(self).record(),
            final(self).machine_id() == old(self).machine_id(),
    {
        self.sync = sync;
    }

    /// A copy of the session record. This never fails.
    pub fn get_account(&self) -> (result: Result<Account, AccountError>)
        ensures
            result matches Ok(account) && account@ == self.record(),
    {
        Ok(self.account.clone())
    }

    /// Commits a record. An empty token in the incoming record does not
    /// erase the token held: it is inherited. The result tells whether the
    /// status differs from the one held before.
    pub fn update_account(&mut self, new_account: Account) -> (commit: Commit)
        ensures
            final(self).record() == new_account@.inheriting(old(self).record()),
            old(self).same_but_record(*final(self)),
            commits(old(self).record(), new_account@, commit),
    {
        let changed = !str_eq(new_account.status.as_str(), self.account.status.as_str());
        let merged = new_account.inherit_tokens(&self.account);
        let document = save_document(&merged);
        let account = merged.clone();
        self.account = merged;
        Commit { changed, account, document }
    }

    /// Commits a new access token and leaves the rest of the record as it
    /// is. An empty token changes nothing.
    pub fn update_access_token(&mut self, access_token: String) -> (commit: Commit)
        ensures
            final(self).record() == (AccountView {
                access_token: if access_token@.len() == 0 {
                    old(self).record().access_token
                } else {
                    access_token@
                },
                ..old(self).record()
            }),
            old(self).same_but_record(*final(self)),
            !commit.changed,
            commit.account@ == final(self).record(),
            opt_text(commit.document) == saved_document(final(self).record()),
    {
        let mut incoming = self.account.clone();
        incoming.accessToken = access_token;
        self.update_account(incoming)
    }

    /// A copy of the access token held; empty where there is none.
    pub fn access_token(&self) -> (token: String)
        ensures
            token@ == self.record().access_token,
    {
        self.account.accessToken.clone()
    }

    /// A copy of the refresh token held; empty where there is none.
    pub fn refresh_token(&self) -> (token: String)
        ensures
            token@ == self.record().refresh_token,
    {
        self.account.refreshToken.clone()
    }

    /// Forgets the session: the record goes back to the initial one. The
    /// identity stays.
    pub fn reset(&mut self)
        ensures
            final(self).record() == AccountView::initial(),
            old(self).same_but_record(*final(self)),
    {
        self.account = Account::default();
    }

    /// Judges the answer to a device login and commits the record it
    /// brought. A failed login leaves the session as it was.
    pub fn device_login(&mut self, reply: Reply<Account>) -> (result: Result<Commit, AccountError>)
        ensures
            old(self).same_but_record(*final(self)),
            match device_login_verdict(reply) {
                Ok(incoming) => {
                    &&& result matches Ok(commit)
                    &&& commits(old(self).record(), incoming@, commit)
                    &&& final(self).record() == incoming@.inheriting(old(self).record())
                },
                Err(error) => {
                    &&& result matches Err(reported)
                    &&& reported@ == error
                    &&& final(self).record() == old(self).record()
                },
            },
    {
        match device_login_result(reply) {
            Ok(incoming) => Ok(self.update_account(incoming)),
            Err(error) => Err(error),
        }
    }

    /// The device of the record that is this installation: the first whose
    /// account-scoped number, written in base ten, is the identity. There is
    /// none where the record has no devices or none of them is current. This
    /// never fails.
    pub fn get_current_device(&self, machine_id: &str) -> (result: Result<
        Option<DeviceInfo>,
        AccountError,
    >)
        ensures
            result matches Ok(found) && match found {
                Some(device) => exists|at: int|
                    first_current(devices_of(self.record()), machine_id@, at) && devices_of(
                        self.record(),
                    )[at] == device@,
                None => none_current(devices_of(self.record()), machine_id@),
            },
    {
        match &self.account.devices {
            None => Ok(None),
            Some(devices) => {
                let mut i: usize = 0;
                while i < devices.len()
                    invariant
                        i <= devices.len(),
                        self.account.devices == Some(*devices),
                        forall|before: int|
                            0 <= before < i ==> !is_current(devices@[before]@, machine_id@),
                    decreases devices.len() - i,
                {
                    if devices[i].is_current_device(machine_id) {
                        let device = devices[i].clone();
                        assert(first_current(devices_of(self.record()), machine_id@, i as int));
                        return Ok(Some(device));
                    }
                    i += 1;
                }
                Ok(None)
            },
        }
    }

    /// The identity held in memory, if it has been resolved.
    pub fn cached_machine_id(&self) -> (cached: Option<String>)
        ensures
            opt_text(cached) == self.machine_id(),
    {
        clone_opt_text(&self.machine_id)
    }

    /// Whether a resolution would have to make an identity on the spot:
    /// none is held in memory and the identity document gives none. Only
    /// then is the hardware identifier of any use.
    pub fn needs_fresh_identity(&self, stored: &Option<String>) -> (needed: bool)
        ensures
            needed == (self.machine_id().is_none() && document_id(opt_text(*stored)).is_none()),
    {
        match &self.machine_id {
            Some(_) => false,
            None => match stored {
                Some(text) => device_id_in(text.as_str()).is_none(),
                None => true,
            },
        }
    }

    /// Holds an identity that was made on the spot, and says what to write.
    fn adopt(&mut self, device_id: String) -> (resolved: Resolved)
        ensures
            final(self).record() == old(self).record(),
            final(self).sync_loop() == old(self).sync_loop(),
            final(self).machine_id() == Some(device_id@),
            resolved.device_id@ == device_id@,
            opt_text(resolved.document) == written_document(None, None, device_id@),
    {
        let written = device_id_document_text(device_id.as_str());
        let reads_back = match device_id_in(written.as_str()) {
            Some(read) => str_eq(read.as_str(), device_id.as_str()),
            None => false,
        };
        let document = if reads_back {
            Some(written)
        } else {
            None
        };
        self.machine_id = Some(device_id.clone());
        Resolved { device_id, document }
    }

    /// Resolves the identity of this installation. `stored` is the text of
    /// the identity document, if it could be read, and `hardware` the
    /// hardware identifier, if the platform gave one. The value in memory is
    /// returned where there is one; else the one in the document; else one is
    /// made on the spot from the hardware identifier or, without one, from a
    /// number drawn from the operating system. One made on the spot comes
    /// with the document to write. Whatever is returned is held in memory
    /// from then on.
    ///
    /// The resolution fails only where the memory, the document and the
    /// hardware give nothing and no number can be drawn either.
    pub fn get_machine_id(&mut self, stored: Option<String>, hardware: Option<String>) -> (result:
        Result<Resolved, AccountError>)
        ensures
            final(self).record() == old(self).record(),
            final(self).sync_loop() == old(self).sync_loop(),
            match result {
                Ok(resolved) => {
                    &&& final(self).machine_id() == Some(resolved.device_id@)
                    &&& exists|random: u64|
                        resolved.device_id@ == resolution(
                            old(self).machine_id(),
                            opt_text(stored),
                            opt_text(hardware),
                            random,
                        )
                    &&& opt_text(resolved.document) == written_document(
                        old(self).machine_id(),
                        opt_text(stored),
                        resolved.device_id@,
                    )
                },
                Err(error) => {
                    &&& old(self).machine_id().is_none()
                    &&& document_id(opt_text(stored)).is_none()
                    &&& hardware.is_none()
                    &&& final(self).machine_id().is_none()
                    &&& error@ == no_identity()
                },
            },
    {
        match &self.machine_id {
            Some(id) => {
                let device_id = id.clone();
                assert(device_id@ == resolution(
                    old(self).machine_id(),
                    opt_text(stored),
                    opt_text(hardware),
                    0,
                ));
                return Ok(Resolved { device_id, document: None });
            },
            None => {},
        }
        let from_document = match &stored {
            Some(text) => device_id_in(text.as_str()),
            None => None,
        };
        match from_document {
            Some(device_id) => {
                self.machine_id = Some(device_id.clone());
                assert(device_id@ == resolution(
                    old(self).machine_id(),
                    opt_text(stored),
                    opt_text(hardware),
                    0,
                ));
                Ok(Resolved { device_id, document: None })
            },
            None => {
                let drawn: Option<u64> = match &hardware {
                    Some(_) => Some(0),
                    None => random_number(),
                };
                match drawn {
                    Some(random) => {
                        let ghost given = opt_text(hardware);
                        let device_id = fresh_device_id(hardware, random);
                        assert(device_id@ == resolution(
                            old(self).machine_id(),
                            opt_text(stored),
                            given,
                            random,
                        ));
                        Ok(self.adopt(device_id))
                    },
                    None => Err(AccountError::Other(String::from_str("无法生成设备ID"))),
                }
            },
        }
    }
}

/// Committing a record without tokens over one that has both keeps both.
pub proof fn lemma_tokens_are_inherited(held: AccountView, incoming: AccountView)
    requires
        held.access_token.len() > 0,
        held.refresh_token.len() > 0,
        incoming.access_token.len() == 0,
        incoming.refresh_token.len() == 0,
    ensures
        incoming.inheriting(held).access_token == held.access_token,
        incoming.inheriting(held).refresh_token == held.refresh_token,
{
}

/// A commit never erases a token: one that is held stays or is replaced by
/// another that is not empty.
pub proof fn lemma_commit_keeps_tokens(held: AccountView, incoming: AccountView)
    ensures
        held.access_token.len() > 0 ==> incoming.inheriting(held).access_token.len() > 0,
        held.refresh_token.len() > 0 ==> incoming.inheriting(held).refresh_token.len() > 0,
{
}

/// The change flag of a commit is set exactly when the committed status
/// differs from the status committed before.
pub proof fn lemma_change_flag_is_exact(held: AccountView, incoming: AccountView, commit: Commit)
    requires
        commits(held, incoming, commit),
    ensures
        commit.changed == (commit.account@.status != held.status),
{
}

/// Of two commits in a row that bring the same status, the second reports
/// no change.
pub proof fn lemma_same_status_reports_no_change(
    held: AccountView,
    first: AccountView,
    second: AccountView,
    first_commit: Commit,
    second_commit: Commit,
)
    requires
        commits(held, first, first_commit),
        commits(first_commit.account@, second, second_commit),
        first.status == second.status,
    ensures
        !second_commit.changed,
{
}

} // verus!
