//! Event model and error taxonomy for the commit orchestrator.
//!
//! A hook event is a structured notification from a host agent runtime.
//! The two recognized events are the start of a session and the completion
//! of a tool invocation; unknown nested tag values decode to an explicit
//! `Unknown` variant so that an evolving host protocol never breaks parsing.

use vstd::prelude::*;
use vstd::string::StringExecFns;

verus! {

/// Why a session started. `Clear`, `Compact` and `Resume` signal that a
/// previous session has just ended and its work should be committed.
#[derive(Clone, Copy, Debug, PartialEq, Eq, Structural)]
pub enum SessionStartSource {
    Clear,
    Compact,
    Resume,
    Startup,
    /// Fallback for tag values this library does not know.
    Unknown,
}

/// The tool whose invocation a `PostToolUse` event reports.
#[derive(Clone, Copy, Debug, PartialEq, Eq, Structural)]
pub enum ToolName {
    Task,
    Bash,
    Glob,
    Grep,
    Read,
    Edit,
    MultiEdit,
    Write,
    WebFetch,
    WebSearch,
    /// Fallback for tool names this library does not know.
    Unknown,
}

/// The payload of a tool invocation: the file the tool touched.
#[derive(Clone, Debug)]
pub struct ToolInput {
    pub file_path: String,
}

/// The result of a tool invocation as the host reports it.
#[derive(Clone, Copy, Debug, PartialEq, Eq, Structural)]
pub struct ToolResponse {
    pub success: bool,
}

/// A tool response with no explicit outcome counts as successful.
pub fn default_success() -> (r: bool)
    ensures
        r,
{
    true
}

impl Default for ToolResponse {
    /// The default response is a successful one.
    fn default() -> (r: Self)
        ensures
            r.success,
    {
        ToolResponse { success: default_success() }
    }
}

/// A lifecycle notification from the host runtime.
#[derive(Clone, Debug)]
pub enum HookEvent {
    SessionStart {
        session_id: String,
        cwd: String,
        source: Option<SessionStartSource>,
    },
    PostToolUse {
        cwd: String,
        tool_name: ToolName,
        tool_input: ToolInput,
        tool_response: ToolResponse,
    },
}

/// The working directory a hook event refers to, whatever its variant.
pub open spec fn spec_event_cwd(e: &HookEvent) -> Seq<char> {
    match e {
        HookEvent::SessionStart { cwd, .. } => cwd@,
        HookEvent::PostToolUse { cwd, .. } => cwd@,
    }
}

impl HookEvent {
    /// Every downstream operation needs the event's working directory,
    /// so it is exposed uniformly over both variants.
    pub fn cwd(&self) -> (r: &str)
        ensures
            r@ == spec_event_cwd(self),
    {
        match self {
            HookEvent::SessionStart { cwd, .. } => cwd.as_str(),
            HookEvent::PostToolUse { cwd, .. } => cwd.as_str(),
        }
    }
}

/// A fatal failure of a repository operation. Each variant names the
/// operation that failed; the detail is the underlying engine's message.
#[derive(Debug)]
pub enum GitError {
    RepositoryAccess { detail: String },
    Index { detail: String },
    Diff { detail: String },
    Branch { detail: String },
    Commit { detail: String },
}

impl GitError {
    /// The user-facing description: the failing operation, then the
    /// engine's own message.
    pub fn describe(&self) -> (r: String)
        ensures
            r@ == match self {
                GitError::RepositoryAccess { detail } => "repository access error: "@ + detail@,
                GitError::Index { detail } => "index error: "@ + detail@,
                GitError::Diff { detail } => "diff error: "@ + detail@,
                GitError::Branch { detail } => "branch error: "@ + detail@,
                GitError::Commit { detail } => "commit error: "@ + detail@,
            },
    {
        match self {
            GitError::RepositoryAccess { detail } => {
                "repository access error: ".to_owned().concat(detail.as_str())
            },
            GitError::Index { detail } => "index error: ".to_owned().concat(detail.as_str()),
            GitError::Diff { detail } => "diff error: ".to_owned().concat(detail.as_str()),
            GitError::Branch { detail } => "branch error: ".to_owned().concat(detail.as_str()),
            GitError::Commit { detail } => "commit error: ".to_owned().concat(detail.as_str()),
        }
    }
}

/// One operation performed on the repository, with the value it staged,
/// queried or wrote. The orchestrator's contracts are stated over the
/// sequence of these actions.
pub ghost enum RepoAction {
    /// The current branch name was read; the payload is the name found.
    QueryBranch(Seq<char>),
    /// One file, named by this path, was added to the index.
    StageFile(Seq<char>),
    /// All working-tree changes were added to the index.
    StageAll,
    /// The staged diff was computed; the payload is the (truncated)
    /// text handed back.
    QueryDiff(Seq<char>),
    /// A commit with this message was created.
    Commit(Seq<char>),
    /// A branch with this name was created and checked out.
    CreateBranch(Seq<char>),
}

#[verifier::external_type_specification]
#[verifier::external_body]
pub struct ExGitRepository(git2::Repository);

/// A handle to exactly one on-disk repository, together with the record
/// of the operations this process has performed on it. Every query
/// re-reads the repository; nothing of its state is cached here.
pub struct GitRepository {
    pub(crate) inner: git2::Repository,
    pub(crate) history: Ghost<Seq<RepoAction>>,
}

impl GitRepository {
    /// The operations performed on this repository so far, oldest first.
    pub closed spec fn ops(&self) -> Seq<RepoAction> {
        self.history@
    }

    /// Wraps a freshly opened engine handle; no operation has run yet.
    pub(crate) fn new_handle(inner: git2::Repository) -> (r: GitRepository)
        ensures
            r.ops() == Seq::<RepoAction>::empty(),
    {
        GitRepository { inner, history: Ghost(Seq::empty()) }
    }

    /// Records one performed operation in the action history.
    pub(crate) fn record(&mut self, action: Ghost<RepoAction>)
        ensures
            final(self).ops() == old(self).ops().push(action@),
    {
        self.history = Ghost(self.history@.push(action@));
    }
}

} // verus!
