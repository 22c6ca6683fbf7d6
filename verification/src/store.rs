//! The stored form of the session record.
//!
//! A stored document is either the full record or holds nothing but the two
//! tokens. Reading tries the full shape first and falls back on the tokens;
//! a document that is neither is corrupt. Writing stores the tokens, which
//! is what a later start needs to resume the session.

use vstd::prelude::*;
use crate::account::{opt_text, Account, AccountView};
use crate::text::str_eq;
use crate::json::{json_object_text, member_views, print_object, string_field, string_field_of};

verus! {

/// Name of the file that holds the stored record.
pub const ACCOUNT_FILENAME: &'static str = "account.json";

/// What was found where the stored record lives.
#[derive(Debug)]
pub enum Stored {
    /// There is no document.
    Absent,
    /// There is a document, but it could not be read.
    Unreadable,
    /// The text of the document.
    Text(String),
}

/// The stored form of a record, as mathematics sees it.
pub enum PersistedView {
    Full(AccountView),
    TokensOnly { access_token: Seq<char>, refresh_token: Seq<char> },
}

/// The stored form of a record: the full record, or nothing but the tokens.
#[derive(Debug)]
pub enum Persisted {
    Full(Account),
    TokensOnly { access_token: String, refresh_token: String },
}

impl View for Persisted {
    type V = PersistedView;

    open spec fn view(&self) -> PersistedView {
        match self {
            Persisted::Full(account) => PersistedView::Full(account@),
            Persisted::TokensOnly { access_token, refresh_token } => PersistedView::TokensOnly {
                access_token: access_token@,
                refresh_token: refresh_token@,
            },
        }
    }
}

impl PersistedView {
    /// The record that a stored form stands for: the full record as it is,
    /// or the initial record with the tokens.
    pub open spec fn record(self) -> AccountView {
        match self {
            PersistedView::Full(account) => account,
            PersistedView::TokensOnly { access_token, refresh_token } => AccountView::with_tokens(
                access_token,
                refresh_token,
            ),
        }
    }
}

impl Persisted {
    /// The record that this stored form stands for.
    pub fn into_account(self) -> (account: Account)
        ensures
            account@ == self@.record(),
    {
        match self {
            Persisted::Full(account) => account,
            Persisted::TokensOnly { access_token, refresh_token } => Account::from_tokens(
                access_token,
                refresh_token,
            ),
        }
    }
}

/// What reading the stored record found, as mathematics sees it.
pub enum LoadView {
    Loaded(AccountView),
    NotFound,
    Corrupt,
}

/// What reading the stored record found. `Corrupt` tells the caller to
/// delete the document and to go on without a session.
#[derive(Debug)]
pub enum LoadOutcome {
    Loaded(Account),
    NotFound,
    Corrupt,
}

impl View for LoadOutcome {
    type V = LoadView;

    open spec fn view(&self) -> LoadView {
        match self {
            LoadOutcome::Loaded(account) => LoadView::Loaded(account@),
            LoadOutcome::NotFound => LoadView::NotFound,
            LoadOutcome::Corrupt => LoadView::Corrupt,
        }
    }
}

/// The two tokens of a document, if it is JSON that holds both as strings.
pub open spec fn stored_tokens(text: Seq<char>) -> Option<(Seq<char>, Seq<char>)> {
    match (string_field_of(text, "accessToken"@), string_field_of(text, "refreshToken"@)) {
        (Some(access_token), Some(refresh_token)) => Some((access_token, refresh_token)),
        _ => None,
    }
}

/// The document that stores a record: a JSON object of its two tokens.
pub open spec fn token_document(record: AccountView) -> Seq<char> {
    json_object_text(
        seq![("accessToken"@, record.access_token), ("refreshToken"@, record.refresh_token)],
    )
}

/// What an optional record holds.
pub open spec fn opt_account(account: Option<Account>) -> Option<AccountView> {
    match account {
        Some(record) => Some(record@),
        None => None,
    }
}

/// Whether a document has the full shape: it carries a status.
pub open spec fn has_full_shape(text: Seq<char>) -> bool {
    string_field_of(text, "status"@).is_some()
}

/// The stored form that a document has. The full shape is tried first: a
/// document that carries a status stands for `full`, the record decoded from
/// it, if it decodes as one. The tokens alone are the fallback. A text of
/// neither shape has no form.
pub open spec fn decoded(text: Seq<char>, full: Option<AccountView>) -> Option<PersistedView> {
    match full {
        Some(record) if has_full_shape(text) => Some(PersistedView::Full(record)),
        _ => match stored_tokens(text) {
            Some((access_token, refresh_token)) => Some(
                PersistedView::TokensOnly { access_token, refresh_token },
            ),
            None => None,
        },
    }
}

/// What the stored record stands for. Without a document there is nothing
/// to load. A document that cannot be read, or has neither shape, is
/// corrupt.
pub open spec fn loaded(stored: Stored, full: Option<AccountView>) -> LoadView {
    match stored {
        Stored::Absent => LoadView::NotFound,
        Stored::Unreadable => LoadView::Corrupt,
        Stored::Text(text) => match decoded(text@, full) {
            Some(form) => LoadView::Loaded(form.record()),
            None => LoadView::Corrupt,
        },
    }
}

/// Reads the two tokens out of a document that holds nothing else of use.
pub fn read_tokens(text: &str) -> (tokens: Option<(String, String)>)
    ensures
        match tokens {
            Some((access_token, refresh_token)) => stored_tokens(text@) == Some(
                (access_token@, refresh_token@),
            ),
            None => stored_tokens(text@).is_none(),
        },
{
    match string_field(text, "accessToken") {
        Some(access_token) => match string_field(text, "refreshToken") {
            Some(refresh_token) => Some((access_token, refresh_token)),
            None => None,
        },
        None => None,
    }
}

fn tokens_only(text: &str) -> (form: Option<Persisted>)
    ensures
        match form {
            Some(found) => decoded(text@, None) == Some(found@),
            None => decoded(text@, None).is_none(),
        },
{
    match read_tokens(text) {
        Some((access_token, refresh_token)) => Some(
            Persisted::TokensOnly { access_token, refresh_token },
        ),
        None => None,
    }
}

/// Finds the stored form of a document. `full` is the record decoded from
/// the text, if it decodes as one; it counts only where the text carries a
/// status. Else the tokens are taken where the text holds both, and else
/// there is no form.
pub fn decode(text: &str, full: Option<Account>) -> (form: Option<Persisted>)
    ensures
        match form {
            Some(found) => decoded(text@, opt_account(full)) == Some(found@),
            None => decoded(text@, opt_account(full)).is_none(),
        },
{
    match full {
        Some(record) => {
            if string_field(text, "status").is_some() {
                Some(Persisted::Full(record))
            } else {
                tokens_only(text)
            }
        },
        None => tokens_only(text),
    }
}

/// Decides what the stored record stands for.
pub fn load(stored: Stored, full: Option<Account>) -> (outcome: LoadOutcome)
    ensures
        outcome@ == loaded(stored, opt_account(full)),
{
    match stored {
        Stored::Absent => LoadOutcome::NotFound,
        Stored::Unreadable => LoadOutcome::Corrupt,
        Stored::Text(text) => match decode(text.as_str(), full) {
            Some(form) => LoadOutcome::Loaded(form.into_account()),
            None => LoadOutcome::Corrupt,
        },
    }
}

/// The document to write for a record: its token document, where that
/// reads back as the two tokens and as nothing more. A document that would
/// not read back so is not worth writing, and there is none.
pub open spec fn saved_document(record: AccountView) -> Option<Seq<char>> {
    let text = token_document(record);
    if stored_tokens(text) == Some((record.access_token, record.refresh_token))
        && !has_full_shape(text) {
        Some(text)
    } else {
        None
    }
}

/// Writes the document that stores a record, and reads it back to make sure
/// that a later start finds the tokens in it.
pub fn save_document(account: &Account) -> (text: Option<String>)
    ensures
        opt_text(text) == saved_document(account@),
{
    let mut members: Vec<(String, String)> = Vec::new();
    members.push(("accessToken".to_owned(), account.accessToken.clone()));
    members.push(("refreshToken".to_owned(), account.refreshToken.clone()));
    assert(member_views(members@) =~= seq![
        ("accessToken"@, account@.access_token),
        ("refreshToken"@, account@.refresh_token),
    ]);
    let written = print_object(&members);
    let reads_back = match read_tokens(written.as_str()) {
        Some((access_token, refresh_token)) => str_eq(
            access_token.as_str(),
            account.accessToken.as_str(),
        ) && str_eq(refresh_token.as_str(), account.refreshToken.as_str()),
        None => false,
    };
    if reads_back && string_field(written.as_str(), "status").is_none() {
        Some(written)
    } else {
        None
    }
}

/// What a commit writes, a later start loads: the document saved for a
/// record loads as the initial record with the tokens of that record.
pub proof fn lemma_saved_document_loads_back(
    record: AccountView,
    document: String,
    full: Option<AccountView>,
)
    requires
        saved_document(record) == Some(document@),
    ensures
        loaded(Stored::Text(document), full) == LoadView::Loaded(
            AccountView::with_tokens(record.access_token, record.refresh_token),
        ),
{
}

/// A document that holds only tokens loads as a record with exactly those
/// two tokens and every other field as in the initial record, whatever else
/// was decoded from it.
pub proof fn lemma_tokens_only_document_loads(
    document: String,
    full: Option<AccountView>,
    access_token: Seq<char>,
    refresh_token: Seq<char>,
)
    requires
        stored_tokens(document@) == Some((access_token, refresh_token)),
        !has_full_shape(document@),
    ensures
        loaded(Stored::Text(document), full) == LoadView::Loaded(
            AccountView::with_tokens(access_token, refresh_token),
        ),
        AccountView::with_tokens(access_token, refresh_token) == (AccountView {
            access_token,
            refresh_token,
            ..AccountView::initial()
        }),
{
}

/// The full shape wins: where the document carries a status and decodes as
/// a record, that record is what is loaded, whatever tokens the text holds
/// besides.
pub proof fn lemma_full_record_wins(document: String, record: AccountView)
    requires
        has_full_shape(document@),
    ensures
        loaded(Stored::Text(document), Some(record)) == LoadView::Loaded(record),
{
}

} // verus!
