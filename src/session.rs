//! Session records and the commands that keep them in the session store.

use vstd::prelude::*;
use vstd::string::StringExecFns;
use crate::envelope::{decimal, decimal_of};

verus! {

/// Hash that maps a session id to the user's claims.
pub const SESSION_DATA_KEY: &'static str = "session:data";

/// Hash that maps a session id to the user's id.
pub const SESSION_USER_KEY: &'static str = "session:user";

/// Seconds for which a stored session lives.
pub const SESSION_TTL_SECS: u64 = 3600;

/// What the store keeps for one authenticated connection.
#[derive(Debug, Clone)]
pub struct SessionRecord {
    pub session_id: String,
    pub user_id: u64,
    /// The user's claims, serialised.
    pub claims: String,
}

/// One command to the session store.
#[derive(Debug)]
pub enum StoreCommand {
    HashSet { key: String, field: String, value: String },
    HashDelete { key: String, field: String },
    Expire { key: String, seconds: u64 },
}

/// A store command, over plain values.
pub enum StoreCommandV {
    HashSet(Seq<char>, Seq<char>, Seq<char>),
    HashDelete(Seq<char>, Seq<char>),
    Expire(Seq<char>, u64),
}

impl View for StoreCommand {
    type V = StoreCommandV;

    open spec fn view(&self) -> StoreCommandV {
        match self {
            StoreCommand::HashSet { key, field, value } => StoreCommandV::HashSet(
                key@,
                field@,
                value@,
            ),
            StoreCommand::HashDelete { key, field } => StoreCommandV::HashDelete(key@, field@),
            StoreCommand::Expire { key, seconds } => StoreCommandV::Expire(key@, *seconds),
        }
    }
}

/// The views of a list of store commands.
pub open spec fn commands_view(cs: Seq<StoreCommand>) -> Seq<StoreCommandV> {
    cs.map_values(|c: StoreCommand| c@)
}

/// The commands that store a session, to be run as one atomic batch: both fields are
/// written, then both hashes get the same time to live.
pub open spec fn put_commands_spec(session_id: Seq<char>, user_id: u64, claims: Seq<char>) -> Seq<
    StoreCommandV,
> {
    seq![
        StoreCommandV::HashSet(SESSION_DATA_KEY@, session_id, claims),
        StoreCommandV::HashSet(SESSION_USER_KEY@, session_id, decimal_of(user_id as nat)),
        StoreCommandV::Expire(SESSION_DATA_KEY@, SESSION_TTL_SECS),
        StoreCommandV::Expire(SESSION_USER_KEY@, SESSION_TTL_SECS),
    ]
}

/// The commands that delete a session, to be run as one atomic batch.
pub open spec fn delete_commands_spec(session_id: Seq<char>) -> Seq<StoreCommandV> {
    seq![
        StoreCommandV::HashDelete(SESSION_DATA_KEY@, session_id),
        StoreCommandV::HashDelete(SESSION_USER_KEY@, session_id),
    ]
}

/// Builds the batch that stores `record`.
pub fn put_commands(record: &SessionRecord) -> (r: Vec<StoreCommand>)
    ensures
        commands_view(r@) == put_commands_spec(
            record.session_id@,
            record.user_id,
            record.claims@,
        ),
{
    let mut r: Vec<StoreCommand> = Vec::new();
    r.push(
        StoreCommand::HashSet {
            key: String::from_str(SESSION_DATA_KEY),
            field: record.session_id.clone(),
            value: record.claims.clone(),
        },
    );
    r.push(
        StoreCommand::HashSet {
            key: String::from_str(SESSION_USER_KEY),
            field: record.session_id.clone(),
            value: decimal(record.user_id),
        },
    );
    r.push(StoreCommand::Expire { key: String::from_str(SESSION_DATA_KEY), seconds: SESSION_TTL_SECS });
    r.push(StoreCommand::Expire { key: String::from_str(SESSION_USER_KEY), seconds: SESSION_TTL_SECS });
    assert(commands_view(r@) =~= put_commands_spec(
        record.session_id@,
        record.user_id,
        record.claims@,
    ));
    r
}

/// Builds the batch that deletes the session `session_id`.
pub fn delete_commands(session_id: &str) -> (r: Vec<StoreCommand>)
    ensures
        commands_view(r@) == delete_commands_spec(session_id@),
{
    let mut r: Vec<StoreCommand> = Vec::new();
    r.push(
        StoreCommand::HashDelete {
            key: String::from_str(SESSION_DATA_KEY),
            field: String::from_str(session_id),
        },
    );
    r.push(
        StoreCommand::HashDelete {
            key: String::from_str(SESSION_USER_KEY),
            field: String::from_str(session_id),
        },
    );
    assert(commands_view(r@) =~= delete_commands_spec(session_id@));
    r
}

/// Whether `c` is a lower-case hexadecimal digit.
pub open spec fn is_lower_hex(c: char) -> bool {
    ('0' <= c && c <= '9') || ('a' <= c && c <= 'f')
}

/// Whether `s` has the shape of a hyphenated UUID in lower case.
pub open spec fn is_hyphenated_uuid(s: Seq<char>) -> bool {
    &&& s.len() == 36
    &&& forall|i: int|
        0 <= i < 36 ==> if i == 8 || i == 13 || i == 18 || i == 23 {
            #[trigger] s[i] == '-'
        } else {
            is_lower_hex(s[i])
        }
}

/// Relies on `uuid::Uuid::new_v4` for a random id, and on `Uuid`'s `Display`, which
/// writes it hyphenated in lower-case hexadecimal.
#[verifier::external_body]
pub(crate) fn new_session_id() -> (r: String)
    ensures
        is_hyphenated_uuid(r@),
{
    uuid::Uuid::new_v4().to_string()
}

} // verus!
