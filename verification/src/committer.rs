//! The orchestration state machine: from one hook event to the
//! repository operations it requires.
//!
//! Handling an event runs every repository operation itself; only the
//! external text-generation process is left to the caller. When a
//! commit is due, `handle_event` hands back the prompt to run the
//! generator with, and `complete_commit` finishes the flow with
//! whatever the generator produced. The end-of-session commit is always
//! recorded before the new session branch is created, so the closing
//! commit lands on the branch being vacated.

use vstd::prelude::*;
use vstd::string::StrSliceExecFns;

use crate::commit_message_generator::CommitMessageGenerator;
use crate::commit_message_generator::GeneratorOutput;
use crate::commit_message_generator::candidate_spec;
use crate::commit_message_generator::prompt_spec;
use crate::commit_message_generator::resolve_spec;
use crate::git_ops::create_commit;
use crate::git_ops::create_session_branch;
use crate::git_ops::get_current_branch;
use crate::git_ops::get_staged_diff;
use crate::git_ops::session_branch_name_spec;
use crate::git_ops::stage_error_detail;
use crate::git_ops::stage_all_files;
use crate::git_ops::stage_file;
use crate::git_ops::timestamp_shape;
use crate::types::GitError;
use crate::types::GitRepository;
use crate::types::HookEvent;
use crate::types::RepoAction;
use crate::types::SessionStartSource;
use crate::types::ToolName;

verus! {

/// Whether a session-start source signals the end of a previous
/// session, whose work is then committed.
pub open spec fn session_end_source(source: Option<SessionStartSource>) -> bool {
    match source {
        Some(s) => s is Clear || s is Compact || s is Resume,
        None => false,
    }
}

/// The protected trunk branches from which session branches are made.
pub open spec fn trunk_branch(name: Seq<char>) -> bool {
    name == "main"@ || name == "master"@ || name == "develop"@
}

/// The tools whose successful use stages and commits the touched file.
pub open spec fn commit_tool(tool: ToolName) -> bool {
    tool is Edit || tool is MultiEdit || tool is Write
}

/// `s` without its trailing `/` separators.
pub open spec fn drop_trailing_slashes_spec(s: Seq<char>) -> Seq<char>
    decreases s.len(),
{
    if s.len() > 0 && s.last() == '/' {
        drop_trailing_slashes_spec(s.drop_last())
    } else {
        s
    }
}

/// How an edited file's path is resolved against the working directory:
/// a relative path is kept; an absolute path under `cwd` loses that
/// prefix and one separator; any other absolute path is kept unchanged
/// rather than failing.
pub open spec fn relative_path_spec(cwd: Seq<char>, file_path: Seq<char>) -> Seq<char> {
    if file_path.len() == 0 || file_path[0] != '/' {
        file_path
    } else {
        let base = drop_trailing_slashes_spec(cwd);
        if file_path == base {
            Seq::empty()
        } else if file_path.len() > base.len() + 1 && file_path.subrange(0, base.len() as int)
            == base && file_path[base.len() as int] == '/' {
            file_path.skip(base.len() as int + 1)
        } else {
            file_path
        }
    }
}

fn drop_trailing_slashes(s: &str) -> (r: &str)
    ensures
        r@ == drop_trailing_slashes_spec(s@),
    decreases s@.len(),
{
    let n = s.unicode_len();
    if n > 0 && s.get_char(n - 1) == '/' {
        let rest = s.substring_char(0, n - 1);
        proof {
            assert(rest@ =~= s@.drop_last());
        }
        drop_trailing_slashes(rest)
    } else {
        s
    }
}

fn has_prefix(s: &str, p: &str) -> (r: bool)
    ensures
        r == (s@.len() >= p@.len() && s@.subrange(0, p@.len() as int) == p@),
{
    let n = s.unicode_len();
    let m = p.unicode_len();
    if n < m {
        return false;
    }
    let mut i: usize = 0;
    while i < m
        invariant
            0 <= i <= m,
            m == p@.len(),
            n == s@.len(),
            n >= m,
            forall|k: int| 0 <= k < i ==> s@[k] == p@[k],
        decreases m - i,
    {
        if s.get_char(i) != p.get_char(i) {
            proof {
                assert(s@.subrange(0, m as int)[i as int] == s@[i as int]);
            }
            return false;
        }
        i += 1;
    }
    proof {
        assert(s@.subrange(0, m as int) =~= p@);
    }
    true
}

fn str_eq(s: &str, p: &str) -> (r: bool)
    ensures
        r == (s@ == p@),
{
    let n = s.unicode_len();
    let m = p.unicode_len();
    if n != m {
        return false;
    }
    if has_prefix(s, p) {
        proof {
            assert(s@.subrange(0, m as int) =~= s@);
        }
        true
    } else {
        proof {
            if s@ == p@ {
                assert(s@.subrange(0, m as int) =~= s@);
            }
        }
        false
    }
}

/// Decides `trunk_branch` on the characters of `name`.
fn is_trunk(name: &str) -> (r: bool)
    ensures
        r == trunk_branch(name@),
{
    str_eq(name, "main") || str_eq(name, "master") || str_eq(name, "develop")
}

/// Resolves an edited file's path against the working directory, per
/// `relative_path_spec`.
pub fn relative_path(cwd: &str, file_path: &str) -> (r: String)
    ensures
        r@ == relative_path_spec(cwd@, file_path@),
{
    let n = file_path.unicode_len();
    if n == 0 || file_path.get_char(0) != '/' {
        return file_path.to_owned();
    }
    let base = drop_trailing_slashes(cwd);
    let b = base.unicode_len();
    if has_prefix(file_path, base) {
        if n == b {
            proof {
                assert(file_path@.subrange(0, b as int) =~= file_path@);
            }
            return String::new();
        }
        if n - b > 1 && file_path.get_char(b) == '/' {
            let rest = file_path.substring_char(b + 1, n);
            proof {
                assert(rest@ =~= file_path@.skip(b as int + 1));
            }
            return rest.to_owned();
        }
        return file_path.to_owned();
    }
    proof {
        if file_path@ == base@ {
            assert(file_path@.subrange(0, b as int) =~= file_path@);
        }
    }
    file_path.to_owned()
}

/// A commit that is due: the prompt to hand the external generator,
/// and, for an end-of-session commit that vacates a trunk branch, the
/// session whose branch must be created after the commit.
pub struct PendingCommit {
    pub prompt: String,
    pub session_branch: Option<String>,
}

/// What remains to be done after an event was handled: nothing, or a
/// commit that needs a generated message.
pub enum EventStep {
    Done,
    NeedsCommit(PendingCommit),
}

/// The branch-creation tail of a session start: on a trunk branch a
/// session branch is created; anywhere else nothing happens.
pub open spec fn branch_phase(
    pre: Seq<RepoAction>,
    branch: Seq<char>,
    session_id: Seq<char>,
    post: Seq<RepoAction>,
) -> bool {
    if trunk_branch(branch) {
        exists|ts: Seq<char>|
            timestamp_shape(ts) && post == pre.push(
                RepoAction::CreateBranch(#[trigger] session_branch_name_spec(session_id, ts)),
            )
    } else {
        post == pre
    }
}

/// What handling a session-start event does: the branch is queried;
/// when the source signals the end of a previous session, everything is
/// staged and the staged diff read, and a non-empty diff leaves a
/// commit pending (with the branch switch deferred behind it); an empty
/// diff, or a fresh start, goes straight to the branch phase.
pub open spec fn session_start_outcome(
    pre: Seq<RepoAction>,
    post: Seq<RepoAction>,
    session_id: Seq<char>,
    source: Option<SessionStartSource>,
    generator: &CommitMessageGenerator,
    step: EventStep,
) -> bool {
    exists|branch: Seq<char>|
        #![trigger trunk_branch(branch)]
        {
            let queried = pre.push(RepoAction::QueryBranch(branch));
            if !session_end_source(source) {
                &&& step is Done
                &&& branch_phase(queried, branch, session_id, post)
            } else {
                exists|diff: Seq<char>|
                    #![trigger diff.len()]
                    {
                        let staged = queried.push(RepoAction::StageAll).push(
                            RepoAction::QueryDiff(diff),
                        );
                        if diff.len() == 0 {
                            &&& step is Done
                            &&& branch_phase(staged, branch, session_id, post)
                        } else {
                            &&& post == staged
                            &&& step matches EventStep::NeedsCommit(p) && p.prompt@
                                == prompt_spec(generator.template(), generator.language(), diff)
                                && (trunk_branch(branch) ==> (p.session_branch matches Some(sid)
                                && sid@ == session_id)) && (!trunk_branch(branch)
                                ==> p.session_branch is None)
                        }
                    }
            }
        }
}

/// What a failed session-start handling leaves behind: the error names
/// the repository operation that failed, and the action history holds
/// exactly the operations attempted up to and including it.
pub open spec fn session_start_failure(
    pre: Seq<RepoAction>,
    post: Seq<RepoAction>,
    session_id: Seq<char>,
    source: Option<SessionStartSource>,
    e: GitError,
) -> bool {
    &&& (e is RepositoryAccess || e is Index || e is Diff || e is Branch)
    &&& (e is RepositoryAccess ==> post == pre)
    &&& ((e is Index || e is Diff) ==> session_end_source(source) && exists|branch: Seq<char>|
        #![trigger pre.push(RepoAction::QueryBranch(branch))]
        post == pre.push(RepoAction::QueryBranch(branch)).push(RepoAction::StageAll))
    &&& (e is Branch ==> exists|branch: Seq<char>|
        #![trigger pre.push(RepoAction::QueryBranch(branch))]
        {
            &&& trunk_branch(branch)
            &&& if session_end_source(source) {
                exists|diff: Seq<char>|
                    #![trigger diff.len()]
                    diff.len() == 0 && branch_phase(
                        pre.push(RepoAction::QueryBranch(branch)).push(RepoAction::StageAll).push(
                            RepoAction::QueryDiff(diff),
                        ),
                        branch,
                        session_id,
                        post,
                    )
            } else {
                branch_phase(pre.push(RepoAction::QueryBranch(branch)), branch, session_id, post)
            }
        })
}

/// What a failed tool-event handling leaves behind: only staging the
/// one file or reading its diff can fail, the file was the only thing
/// staged, and a staging failure names it.
pub open spec fn post_tool_failure(
    pre: Seq<RepoAction>,
    post: Seq<RepoAction>,
    rel: Seq<char>,
    e: GitError,
) -> bool {
    &&& (e is Index || e is Diff)
    &&& post == pre.push(RepoAction::StageFile(rel))
    &&& (e matches GitError::Index { detail } ==> exists|m: Seq<char>|
        detail@ == #[trigger] stage_error_detail(rel, m))
}

/// What handling an acted-on tool event does: exactly the one edited
/// file is staged, the staged diff is read, and a non-empty diff leaves
/// a commit pending with no branch switch.
pub open spec fn post_tool_outcome(
    pre: Seq<RepoAction>,
    post: Seq<RepoAction>,
    rel: Seq<char>,
    generator: &CommitMessageGenerator,
    step: EventStep,
) -> bool {
    exists|diff: Seq<char>|
        #![trigger diff.len()]
        {
            let staged = pre.push(RepoAction::StageFile(rel)).push(RepoAction::QueryDiff(diff));
            &&& post == staged
            &&& (diff.len() == 0 ==> step is Done)
            &&& (diff.len() != 0 ==> (step matches EventStep::NeedsCommit(p) && p.prompt@
                == prompt_spec(generator.template(), generator.language(), diff)
                && p.session_branch is None))
        }
}

/// Drives the repository operations for the auto-commit flows.
pub struct Committer {
    repo: GitRepository,
}

impl Committer {
    /// The operations performed on the repository so far, oldest first.
    pub closed spec fn ops(&self) -> Seq<RepoAction> {
        self.repo.ops()
    }

    /// Creates a committer around an opened repository handle.
    pub fn new(repo: GitRepository) -> (r: Committer)
        ensures
            r.ops() == repo.ops(),
    {
        Committer { repo }
    }

    /// Handles one hook event: decides whether to stage, diff and
    /// commit, and performs every repository operation of the flow.
    /// When a commit is due its message still has to be generated, so
    /// the flow is handed back as a `PendingCommit` for
    /// `complete_commit`; everything else returns `Done`.
    pub fn handle_event(
        &mut self,
        hook_event: &HookEvent,
        generator: &CommitMessageGenerator,
    ) -> (r: Result<EventStep, GitError>)
        ensures
            old(self).ops().is_prefix_of(final(self).ops()),
            // Handling an event never commits by itself: a commit only
            // comes out of `complete_commit`, after its message exists.
            forall|k: int|
                old(self).ops().len() <= k < final(self).ops().len()
                    ==> !((#[trigger] final(self).ops()[k]) is Commit),
            match hook_event {
                HookEvent::SessionStart { session_id, source, .. } => {
                    &&& (r matches Ok(step) ==> session_start_outcome(
                        old(self).ops(),
                        final(self).ops(),
                        session_id@,
                        *source,
                        generator,
                        step,
                    ))
                    &&& (r matches Err(e) ==> session_start_failure(
                        old(self).ops(),
                        final(self).ops(),
                        session_id@,
                        *source,
                        e,
                    ))
                },
                HookEvent::PostToolUse { cwd, tool_name, tool_input, tool_response } => {
                    &&& (!(commit_tool(*tool_name) && tool_response.success) ==> final(self).ops()
                        == old(self).ops() && (r matches Ok(step) && step is Done))
                    &&& ((commit_tool(*tool_name) && tool_response.success) ==> (r matches Ok(step)
                        ==> post_tool_outcome(
                        old(self).ops(),
                        final(self).ops(),
                        relative_path_spec(cwd@, tool_input.file_path@),
                        generator,
                        step,
                    )))
                    &&& ((commit_tool(*tool_name) && tool_response.success) ==> (r matches Err(e)
                        ==> post_tool_failure(
                        old(self).ops(),
                        final(self).ops(),
                        relative_path_spec(cwd@, tool_input.file_path@),
                        e,
                    )))
                },
            },
    {
        match hook_event {
            HookEvent::SessionStart { session_id, source, .. } => {
                let current_branch = match get_current_branch(&mut self.repo) {
                    Ok(b) => b,
                    Err(e) => return Err(e),
                };
                let ends_session = match source {
                    Some(s) => matches!(
                        s,
                        SessionStartSource::Clear | SessionStartSource::Compact
                            | SessionStartSource::Resume
                    ),
                    None => false,
                };
                if ends_session {
                    match stage_all_files(&mut self.repo) {
                        Ok(()) => (),
                        Err(e) => return Err(e),
                    }
                    let diff = match get_staged_diff(&mut self.repo) {
                        Ok(d) => d,
                        Err(e) => return Err(e),
                    };
                    if !diff.as_str().is_empty() {
                        let prompt = generator.build_prompt(diff.as_str());
                        let session_branch = if is_trunk(current_branch.as_str()) {
                            Some(session_id.clone())
                        } else {
                            None
                        };
                        return Ok(
                            EventStep::NeedsCommit(PendingCommit { prompt, session_branch }),
                        );
                    }
                }
                if is_trunk(current_branch.as_str()) {
                    match create_session_branch(&mut self.repo, session_id.as_str()) {
                        Ok(()) => (),
                        Err(e) => return Err(e),
                    }
                }
                Ok(EventStep::Done)
            },
            HookEvent::PostToolUse { cwd, tool_name, tool_input, tool_response } => {
                let acts = matches!(
                    tool_name,
                    ToolName::Edit | ToolName::MultiEdit | ToolName::Write
                ) && tool_response.success;
                if !acts {
                    return Ok(EventStep::Done);
                }
                let rel = relative_path(cwd.as_str(), tool_input.file_path.as_str());
                match stage_file(&mut self.repo, rel.as_str()) {
                    Ok(()) => (),
                    Err(e) => return Err(e),
                }
                let diff = match get_staged_diff(&mut self.repo) {
                    Ok(d) => d,
                    Err(e) => return Err(e),
                };
                if diff.as_str().is_empty() {
                    return Ok(EventStep::Done);
                }
                let prompt = generator.build_prompt(diff.as_str());
                Ok(EventStep::NeedsCommit(PendingCommit { prompt, session_branch: None }))
            },
        }
    }

    /// Finishes a pending commit: resolves what the external generator
    /// produced into the commit message, creates the commit, and only
    /// then, when the flow vacated a trunk branch, creates and checks
    /// out the new session branch.
    pub fn complete_commit(
        &mut self,
        pending: PendingCommit,
        output: Option<GeneratorOutput>,
        generator: &CommitMessageGenerator,
    ) -> (r: Result<(), GitError>)
        ensures
            old(self).ops().is_prefix_of(final(self).ops()),
            ({
                let message = resolve_spec(generator.default_message(), candidate_spec(output));
                let committed = old(self).ops().push(RepoAction::Commit(message));
                match pending.session_branch {
                    None => r is Ok ==> final(self).ops() == committed,
                    Some(sid) => r is Ok ==> exists|ts: Seq<char>|
                        timestamp_shape(ts) && final(self).ops() == committed.push(
                            RepoAction::CreateBranch(
                                #[trigger] session_branch_name_spec(sid@, ts),
                            ),
                        ),
                }
            }),
            r matches Err(e) ==> ({
                let message = resolve_spec(generator.default_message(), candidate_spec(output));
                let committed = old(self).ops().push(RepoAction::Commit(message));
                &&& (e is Commit || e is Branch)
                &&& (e is Commit ==> final(self).ops() == committed)
                &&& (e is Branch ==> (pending.session_branch matches Some(sid)
                    && exists|ts: Seq<char>|
                    final(self).ops() == committed.push(
                        RepoAction::CreateBranch(
                            #[trigger] session_branch_name_spec(sid@, ts),
                        ),
                    )))
            }),
    {
        let message = generator.generate(output);
        match create_commit(&mut self.repo, message.as_str()) {
            Ok(()) => (),
            Err(e) => return Err(e),
        }
        match pending.session_branch {
            Some(sid) => {
                match create_session_branch(&mut self.repo, sid.as_str()) {
                    Ok(()) => (),
                    Err(e) => return Err(e),
                }
            },
            None => (),
        }
        Ok(())
    }
}

/// The end-of-session ordering law: when a commit and a branch switch
/// are both recorded, the commit stands immediately before the branch
/// switch, and everything recorded earlier is untouched.
pub proof fn lemma_commit_precedes_branch_switch(
    pre: Seq<RepoAction>,
    message: Seq<char>,
    branch: Seq<char>,
)
    ensures
        ({
            let post = pre.push(RepoAction::Commit(message)).push(
                RepoAction::CreateBranch(branch),
            );
            &&& post.len() == pre.len() + 2
            &&& post[pre.len() as int] == RepoAction::Commit(message)
            &&& post[pre.len() as int + 1] == RepoAction::CreateBranch(branch)
            &&& forall|k: int| 0 <= k < pre.len() ==> post[k] == pre[k]
        }),
{
}

} // verus!
