//! The rows of the session log. The log is append-only: a row is written
//! once and never changed. This module says what each row holds; writing it
//! to the store is the caller's part.

use vstd::prelude::*;

verus! {

/// Length of a row identifier: 32 hexadecimal digits in five groups.
pub const ID_LENGTH: usize = 36;

/// A new random identifier in hyphenated form, by `uuid::Uuid::new_v4` and
/// its `Display`. Which identifier comes back is left open; only its length
/// is claimed. The call does not return on a system that has no source of
/// randomness.
#[verifier::external_body]
fn fresh_id() -> (id: String)
    ensures
        id@.len() == ID_LENGTH,
{
    uuid::Uuid::new_v4().to_string()
}

/// The current time in UTC, written after `pattern`: by `chrono::Utc::now`,
/// `DateTime::format` and the `Display` of what that returns. Nothing is
/// claimed of the text: it is whatever the clock says. The formatter fails
/// on a pattern it cannot read, so only the two patterns that the engine
/// uses are let in: `%+`, an RFC 3339 time, and `%Y%m%dT%H%M%S`, the compact
/// form that names a backup. The call does not return on a system whose
/// clock stands before 1970.
#[verifier::external_body]
pub(crate) fn clock_text(pattern: &str) -> String
    requires
        pattern@ == "%+"@ || pattern@ == "%Y%m%dT%H%M%S"@,
{
    chrono::Utc::now().format(pattern).to_string()
}

/// What makes a row new: an identifier of its own and the time of writing.
#[derive(Debug)]
pub struct Stamp {
    pub id: String,
    pub now: String,
}

impl Stamp {
    /// A stamp that stamps nothing: no identifier, no time.
    pub fn blank() -> (stamp: Stamp)
        ensures
            stamp.id@ == Seq::<char>::empty(),
            stamp.now@ == Seq::<char>::empty(),
    {
        Stamp { id: String::new(), now: String::new() }
    }

    /// A stamp with a new identifier and the current time as an RFC 3339
    /// text.
    pub fn draw() -> (stamp: Stamp)
        ensures
            stamp.id@.len() == ID_LENGTH,
    {
        Stamp { id: fresh_id(), now: clock_text("%+") }
    }
}

/// A row of `workspaces`: one per workspace path.
#[derive(Debug)]
pub struct WorkspaceRow {
    pub id: String,
    pub path: String,
    pub created_at: String,
}

/// A row of `sessions`: one per start of the engine.
#[derive(Debug)]
pub struct SessionRow {
    pub id: String,
    pub workspace_id: String,
    pub created_at: String,
}

/// A row of `prompts`: one per submitted prompt.
#[derive(Debug)]
pub struct PromptRow {
    pub id: String,
    pub session_id: String,
    pub idx: i64,
    pub role: String,
    pub content: String,
    pub created_at: String,
}

/// What a `PromptRow` holds, as plain text and numbers.
pub struct PromptRowSpec {
    pub id: Seq<char>,
    pub session_id: Seq<char>,
    pub idx: int,
    pub role: Seq<char>,
    pub content: Seq<char>,
    pub created_at: Seq<char>,
}

impl DeepView for PromptRow {
    type V = PromptRowSpec;

    open spec fn deep_view(&self) -> PromptRowSpec {
        PromptRowSpec {
            id: self.id@,
            session_id: self.session_id@,
            idx: self.idx as int,
            role: self.role@,
            content: self.content@,
            created_at: self.created_at@,
        }
    }
}

/// A row of `snapshots`: one per snapshot commit that landed.
#[derive(Debug)]
pub struct SnapshotRow {
    pub id: String,
    pub session_id: String,
    pub idx: i64,
    pub commit: String,
    pub created_at: String,
}

/// What a `SnapshotRow` holds, as plain text and numbers.
pub struct SnapshotRowSpec {
    pub id: Seq<char>,
    pub session_id: Seq<char>,
    pub idx: int,
    pub commit: Seq<char>,
    pub created_at: Seq<char>,
}

impl DeepView for SnapshotRow {
    type V = SnapshotRowSpec;

    open spec fn deep_view(&self) -> SnapshotRowSpec {
        SnapshotRowSpec {
            id: self.id@,
            session_id: self.session_id@,
            idx: self.idx as int,
            commit: self.commit@,
            created_at: self.created_at@,
        }
    }
}

/// The row of a prompt submitted by the user.
pub open spec fn user_prompt_row(
    session_id: Seq<char>,
    idx: int,
    content: Seq<char>,
    id: Seq<char>,
    now: Seq<char>,
) -> PromptRowSpec {
    PromptRowSpec { id, session_id, idx, role: "user"@, content, created_at: now }
}

/// What `ensure_workspace_with` decides: the workspace's identifier, and the
/// row to write if the workspace is new.
#[derive(Debug)]
pub struct WorkspaceUse {
    pub id: String,
    pub insert: Option<WorkspaceRow>,
}

/// Settles the identifier of the workspace at `path`, given the identifier
/// already on record for that path, if any. A known workspace keeps its
/// identifier and nothing is written; a new one takes the stamp's identifier
/// and gets a row.
pub fn ensure_workspace_with(existing: Option<String>, path: &str, stamp: Stamp) -> (decided:
    WorkspaceUse)
    ensures
        match existing {
            Some(id) => decided.id@ == id@ && decided.insert is None,
            None => {
                &&& decided.id@ == stamp.id@
                &&& decided.insert matches Some(row)
                &&& row.id@ == stamp.id@
                &&& row.path@ == path@
                &&& row.created_at@ == stamp.now@
            },
        },
{
    match existing {
        Some(id) => WorkspaceUse { id, insert: None },
        None => {
            let id = stamp.id.clone();
            WorkspaceUse {
                id,
                insert: Some(
                    WorkspaceRow { id: stamp.id, path: path.to_owned(), created_at: stamp.now },
                ),
            }
        },
    }
}

/// Settles the identifier of the workspace at `path`, given the identifier
/// already on record for that path, if any. A new workspace gets a new
/// identifier and a row stamped with the current time.
pub fn ensure_workspace(existing: Option<String>, path: &str) -> (decided: WorkspaceUse)
    ensures
        match existing {
            Some(id) => decided.id@ == id@ && decided.insert is None,
            None => {
                &&& decided.id@.len() == ID_LENGTH
                &&& decided.insert matches Some(row)
                &&& row.id@ == decided.id@
                &&& row.path@ == path@
            },
        },
{
    ensure_workspace_with(existing, path, Stamp::draw())
}

/// The row of a session in workspace `workspace_id`, under the stamp's
/// identifier and time.
pub fn session_row(workspace_id: &str, stamp: Stamp) -> (row: SessionRow)
    ensures
        row.id@ == stamp.id@,
        row.workspace_id@ == workspace_id@,
        row.created_at@ == stamp.now@,
{
    SessionRow { id: stamp.id, workspace_id: workspace_id.to_owned(), created_at: stamp.now }
}

/// The row of a new session in workspace `workspace_id`, with a new
/// identifier and the current time.
pub fn create_session(workspace_id: &str) -> (row: SessionRow)
    ensures
        row.id@.len() == ID_LENGTH,
        row.workspace_id@ == workspace_id@,
{
    session_row(workspace_id, Stamp::draw())
}

} // verus!
