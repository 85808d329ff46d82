//! Planning for the snapshot engine: the invocations of the version store
//! that stage, commit, diff and check out a workspace, the reading of its
//! name-status listing, and the steps of a restore.
//!
//! Nothing here runs a command or touches a file. Each function returns the
//! argument list or the plan that the caller carries out, in order.

use crate::text::{
    int_text, joined, lines_of, push_arg, push_int, split_chars, split_on, text_lines, to_chars,
    trim, trim_spec,
};
use crate::log::clock_text;
use vstd::prelude::*;

verus! {

/// Name of the engine's data directory inside the workspace. It holds the
/// session log, the version store and the backups, and is left out of every
/// snapshot.
pub const DATA_DIR: &'static str = ".cc-workbench";

/// Name of the bare version store inside the data directory.
pub const STORE_DIR: &'static str = "snapshots.git";

/// Name of the directory inside the data directory that holds one
/// subdirectory of pre-restore copies per restore.
pub const BACKUP_DIR: &'static str = "backup";

/// Name of the session log's file inside the data directory.
pub const LOG_FILE: &'static str = "ccwb.sqlite";

/// Name of the configuration file inside a data directory.
pub const CONFIG_FILE: &'static str = "config.json";

/// Where a workspace and its private version store live. The paths are held
/// as text, in the form in which they are handed to the version store.
#[derive(Debug)]
pub struct SnapshotManager {
    /// The workspace directory whose files are captured.
    pub workspace: String,
    /// The bare repository that holds the snapshots.
    pub git_dir: String,
}

impl Clone for SnapshotManager {
    fn clone(&self) -> (copy: Self)
        ensures
            copy.workspace@ == self.workspace@,
            copy.git_dir@ == self.git_dir@,
    {
        SnapshotManager { workspace: self.workspace.clone(), git_dir: self.git_dir.clone() }
    }
}

/// One line of a name-status listing: a status code and the path it is about.
#[derive(Debug)]
pub struct NameStatusEntry {
    /// `A` for a path added since the commit, `M` modified, `D` deleted.
    pub status: char,
    /// The path, relative to the workspace.
    pub path: String,
}

impl DeepView for NameStatusEntry {
    type V = (char, Seq<char>);

    open spec fn deep_view(&self) -> (char, Seq<char>) {
        (self.status, self.path@)
    }
}

/// What one line of a name-status listing says: its fields are separated by
/// tabs, the status is the first character of the first field and the path is
/// the second field. A line without a second field, or with an empty first
/// one, says nothing.
pub open spec fn status_entry(line: Seq<char>) -> Option<(char, Seq<char>)> {
    let fields = split_on(line, '\t');
    if fields.len() >= 2 && fields[0].len() > 0 {
        Some((fields[0][0], fields[1]))
    } else {
        None
    }
}

/// The entries of a name-status listing, one per line that holds one.
pub open spec fn name_status_entries(input: Seq<char>) -> Seq<(char, Seq<char>)> {
    text_lines(input).filter_map(|line: Seq<char>| status_entry(line))
}

/// The paths of all entries, in order.
pub open spec fn listed_paths(entries: Seq<(char, Seq<char>)>) -> Seq<Seq<char>> {
    entries.map_values(|e: (char, Seq<char>)| e.1)
}

/// The paths of the entries with status `A`, in order.
pub open spec fn added_paths(entries: Seq<(char, Seq<char>)>) -> Seq<Seq<char>> {
    entries.filter_map(
        |e: (char, Seq<char>)|
            if e.0 == 'A' {
                Some(e.1)
            } else {
                None
            },
    )
}

/// Reads a name-status listing: one entry per line, status and path
/// separated by a tab. Lines that do not have that shape are skipped.
pub fn parse_name_status(input: &str) -> (entries: Vec<NameStatusEntry>)
    ensures
        entries.deep_view() == name_status_entries(input@),
{
    let lines = lines_of(input);
    let mut entries: Vec<NameStatusEntry> = Vec::new();
    let ghost read = |line: Seq<char>| status_entry(line);
    let ghost all = lines.deep_view();
    let mut i: usize = 0;
    while i < lines.len()
        invariant
            i <= lines.len(),
            all == lines.deep_view(),
            all == text_lines(input@),
            read == |line: Seq<char>| status_entry(line),
            entries.deep_view() == all.take(i as int).filter_map(read),
        decreases lines.len() - i,
    {
        proof {
            all.lemma_filter_map_take_succ(read, i as int);
        }
        let chars = to_chars(lines[i].as_str());
        let fields = split_chars(&chars, '\t');
        if fields.len() >= 2 && fields[0].as_str().unicode_len() > 0 {
            let entry = NameStatusEntry {
                status: fields[0].as_str().get_char(0),
                path: fields[1].clone(),
            };
            entries.push(entry);
        }
        i += 1;
    }
    proof {
        assert(all.take(i as int) =~= all);
    }
    entries
}

/// The steps of a restore, for the caller to carry out in this order: copy
/// each path of `backup` that exists in the workspace to the backup
/// subdirectory named `stamp`, keeping its relative path; run `checkout`;
/// delete each path of `remove` from the workspace. A failed copy ends the
/// restore before the workspace has changed.
#[derive(Debug)]
pub struct RestorePlan {
    /// Name of the backup subdirectory for this restore.
    pub stamp: String,
    /// Workspace paths that differ from the commit, relative to the workspace.
    pub backup: Vec<String>,
    /// The invocation that checks the commit's tree out into the workspace.
    pub checkout: Vec<String>,
    /// Paths added since the commit, which a checkout leaves behind.
    pub remove: Vec<String>,
}

impl SnapshotManager {
    /// A manager for the workspace at `workspace`, with its version store at
    /// `git_dir`.
    pub fn new(workspace: String, git_dir: String) -> (manager: Self)
        ensures
            manager.workspace@ == workspace@,
            manager.git_dir@ == git_dir@,
    {
        SnapshotManager { workspace, git_dir }
    }

    /// The arguments that point the version store at this workspace.
    pub open spec fn base_args(&self) -> Seq<Seq<char>> {
        seq!["--work-tree="@ + self.workspace@, "--git-dir="@ + self.git_dir@]
    }

    /// Arguments that create the bare version store.
    pub open spec fn init_args(&self) -> Seq<Seq<char>> {
        seq!["--git-dir="@ + self.git_dir@, "init"@, "--bare"@]
    }

    /// Arguments that stage every workspace path but the engine's own data
    /// directory.
    pub open spec fn stage_args(&self) -> Seq<Seq<char>> {
        self.base_args() + seq!["add"@, "-A"@, "--"@, "."@, ":(exclude)"@ + DATA_DIR@]
    }

    /// Arguments that commit the staged tree for prompt `idx`, under a fixed
    /// synthetic identity, whether or not anything changed.
    pub open spec fn commit_args(&self, idx: int) -> Seq<Seq<char>> {
        self.base_args() + seq![
            "-c"@,
            "user.name=ccwb"@,
            "-c"@,
            "user.email=ccwb@local"@,
            "commit"@,
            "-m"@,
            "snapshot "@ + int_text(idx),
            "--allow-empty"@,
        ]
    }

    /// Arguments that print the digest of the newest commit.
    pub open spec fn digest_args(&self) -> Seq<Seq<char>> {
        self.base_args() + seq!["rev-parse"@, "HEAD"@]
    }

    /// Arguments that print the unified diff between `commit` and the working
    /// tree.
    pub open spec fn diff_args(&self, commit: Seq<char>) -> Seq<Seq<char>> {
        self.base_args() + seq!["diff"@, commit, "--"@]
    }

    /// Arguments that print the name-status listing of `commit` against the
    /// working tree.
    pub open spec fn name_status_args(&self, commit: Seq<char>) -> Seq<Seq<char>> {
        self.base_args() + seq!["diff"@, "--name-status"@, commit, "--"@]
    }

    /// Arguments that check the tree of `commit` out into the workspace.
    pub open spec fn checkout_args(&self, commit: Seq<char>) -> Seq<Seq<char>> {
        self.base_args() + seq!["checkout"@, commit, "--"@, "."@]
    }

    fn base(&self) -> (args: Vec<String>)
        ensures
            args.deep_view() == self.base_args(),
    {
        let mut args: Vec<String> = Vec::new();
        let work_tree = joined("--work-tree=", self.workspace.as_str());
        let git_dir = joined("--git-dir=", self.git_dir.as_str());
        push_arg(&mut args, work_tree.as_str());
        push_arg(&mut args, git_dir.as_str());
        args
    }

    /// The invocation that creates the bare version store, to be run once
    /// when the store does not exist yet.
    pub fn init(&self) -> (args: Vec<String>)
        ensures
            args.deep_view() == self.init_args(),
    {
        let mut args: Vec<String> = Vec::new();
        let git_dir = joined("--git-dir=", self.git_dir.as_str());
        push_arg(&mut args, git_dir.as_str());
        push_arg(&mut args, "init");
        push_arg(&mut args, "--bare");
        args
    }

    /// The three invocations that take the snapshot for prompt `message_idx`,
    /// to be run in order: stage all workspace paths, commit them with the
    /// message `snapshot <idx>`, print the new commit's digest. The snapshot
    /// fails when any of them fails; otherwise `commit_digest` reads its
    /// digest off the output of the last.
    pub fn snapshot(&self, message_idx: i64) -> (steps: Vec<Vec<String>>)
        ensures
            steps.deep_view() == seq![
                self.stage_args(),
                self.commit_args(message_idx as int),
                self.digest_args(),
            ],
    {
        let mut stage = self.base();
        push_arg(&mut stage, "add");
        push_arg(&mut stage, "-A");
        push_arg(&mut stage, "--");
        push_arg(&mut stage, ".");
        let excluded = joined(":(exclude)", DATA_DIR);
        push_arg(&mut stage, excluded.as_str());
        let mut message = "snapshot ".to_owned();
        push_int(&mut message, message_idx);
        let mut commit = self.base();
        push_arg(&mut commit, "-c");
        push_arg(&mut commit, "user.name=ccwb");
        push_arg(&mut commit, "-c");
        push_arg(&mut commit, "user.email=ccwb@local");
        push_arg(&mut commit, "commit");
        push_arg(&mut commit, "-m");
        push_arg(&mut commit, message.as_str());
        push_arg(&mut commit, "--allow-empty");
        let mut digest = self.base();
        push_arg(&mut digest, "rev-parse");
        push_arg(&mut digest, "HEAD");
        proof {
            assert(stage.deep_view() =~= self.stage_args());
            assert(commit.deep_view() =~= self.commit_args(message_idx as int));
            assert(digest.deep_view() =~= self.digest_args());
        }
        let mut steps: Vec<Vec<String>> = Vec::new();
        steps.push(stage);
        steps.push(commit);
        steps.push(digest);
        steps
    }

    /// The invocation that prints the diff between `commit` and the current
    /// working tree.
    pub fn diff_preview(&self, commit: &str) -> (args: Vec<String>)
        ensures
            args.deep_view() == self.diff_args(commit@),
    {
        let mut args = self.base();
        push_arg(&mut args, "diff");
        push_arg(&mut args, commit);
        push_arg(&mut args, "--");
        args
    }

    /// The invocation that lists, by name and status, what differs between
    /// `commit` and the current working tree.
    pub fn diff_name_status(&self, commit: &str) -> (args: Vec<String>)
        ensures
            args.deep_view() == self.name_status_args(commit@),
    {
        let mut args = self.base();
        push_arg(&mut args, "diff");
        push_arg(&mut args, "--name-status");
        push_arg(&mut args, commit);
        push_arg(&mut args, "--");
        args
    }

    /// The restore of `commit`, given the name-status listing `status` of
    /// that commit against the working tree and the name `stamp` of the
    /// backup subdirectory: every listed path is backed up, the commit is
    /// checked out, and every path added since the commit is removed.
    pub fn restore_at(&self, commit: &str, status: &str, stamp: String) -> (plan: RestorePlan)
        ensures
            plan.stamp@ == stamp@,
            plan.backup.deep_view() == listed_paths(name_status_entries(status@)),
            plan.checkout.deep_view() == self.checkout_args(commit@),
            plan.remove.deep_view() == added_paths(name_status_entries(status@)),
    {
        let entries = parse_name_status(status);
        let ghost all = entries.deep_view();
        let ghost added = |e: (char, Seq<char>)|
            if e.0 == 'A' {
                Some(e.1)
            } else {
                None
            };
        let mut backup: Vec<String> = Vec::new();
        let mut remove: Vec<String> = Vec::new();
        let mut i: usize = 0;
        while i < entries.len()
            invariant
                i <= entries.len(),
                all == entries.deep_view(),
                added == |e: (char, Seq<char>)|
                    if e.0 == 'A' {
                        Some(e.1)
                    } else {
                        None
                    },
                backup.deep_view() == listed_paths(all.take(i as int)),
                remove.deep_view() == all.take(i as int).filter_map(added),
            decreases entries.len() - i,
        {
            proof {
                all.lemma_filter_map_take_succ(added, i as int);
            }
            push_arg(&mut backup, entries[i].path.as_str());
            if entries[i].status == 'A' {
                push_arg(&mut remove, entries[i].path.as_str());
            }
            i += 1;
        }
        proof {
            assert(all.take(i as int) =~= all);
        }
        let mut checkout = self.base();
        push_arg(&mut checkout, "checkout");
        push_arg(&mut checkout, commit);
        push_arg(&mut checkout, "--");
        push_arg(&mut checkout, ".");
        RestorePlan { stamp, backup, checkout, remove }
    }

    /// The restore of `commit`, given the name-status listing `status` of
    /// that commit against the working tree. The backup subdirectory is named
    /// after the current time in UTC, as `YYYYMMDDThhmmss`.
    pub fn restore(&self, commit: &str, status: &str) -> (plan: RestorePlan)
        ensures
            plan.backup.deep_view() == listed_paths(name_status_entries(status@)),
            plan.checkout.deep_view() == self.checkout_args(commit@),
            plan.remove.deep_view() == added_paths(name_status_entries(status@)),
    {
        self.restore_at(commit, status, clock_text("%Y%m%dT%H%M%S"))
    }
}

/// The digest that the version store printed: its output without the white
/// space around it.
pub fn commit_digest(output: &str) -> (digest: String)
    ensures
        digest@ == trim_spec(output@),
{
    trim(output)
}

/// A request to snapshot the workspace for one prompt.
#[derive(Debug)]
pub struct SnapshotJob {
    /// Identifier of the prompt.
    pub message_id: String,
    /// Index of the prompt within its session.
    pub message_idx: i64,
}

/// The outcome of a snapshot job: the commit's digest, or nothing if the
/// snapshot failed.
#[derive(Debug)]
pub struct SnapshotResult {
    /// Identifier of the prompt the job was for.
    pub message_id: String,
    /// Digest of the commit, if one was made.
    pub commit: Option<String>,
}

impl Clone for SnapshotJob {
    fn clone(&self) -> (copy: Self)
        ensures
            copy.message_id@ == self.message_id@,
            copy.message_idx == self.message_idx,
    {
        SnapshotJob { message_id: self.message_id.clone(), message_idx: self.message_idx }
    }
}

impl SnapshotJob {
    /// The result to report for this job: it carries the job's prompt
    /// identifier and the digest, if the snapshot produced one.
    pub fn finish(self, digest: Option<String>) -> (result: SnapshotResult)
        ensures
            result.message_id@ == self.message_id@,
            result.commit.deep_view() == digest.deep_view(),
    {
        SnapshotResult { message_id: self.message_id, commit: digest }
    }
}

} // verus!
