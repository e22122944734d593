//! Primitives over a repository: staging, staged-diff extraction,
//! commit creation, branch queries and session-branch creation.
//!
//! Each primitive records what it did in the repository handle's action
//! history, so that the orchestrator's contracts can speak about which
//! operations ran and in what order. The underlying version-control
//! engine is used, not reimplemented: every call into it stands behind
//! a small trusted wrapper.

use vstd::prelude::*;
use vstd::string::StrSliceExecFns;
use vstd::string::StringExecFns;

use crate::text::trim;
use crate::text::trim_spec;
use crate::types::GitError;
use crate::types::GitRepository;
use crate::types::RepoAction;

verus! {

#[verifier::external_type_specification]
#[verifier::external_body]
pub struct ExGitIndex(git2::Index);

#[verifier::external_type_specification]
#[verifier::external_body]
pub struct ExGitOid(git2::Oid);

#[verifier::external_type_specification]
#[verifier::external_body]
pub struct ExGitTree<'a>(git2::Tree<'a>);

#[verifier::external_type_specification]
#[verifier::external_body]
pub struct ExGitCommit<'a>(git2::Commit<'a>);

#[verifier::external_type_specification]
#[verifier::external_body]
pub struct ExGitSignature<'a>(git2::Signature<'a>);

#[verifier::external_type_specification]
#[verifier::external_body]
pub struct ExGitError(git2::Error);

/// Relies on git2's Repository::discover: walks up from `path` to find
/// an existing repository and opens it.
#[verifier::external_body]
fn raw_discover(path: &str) -> (r: Result<git2::Repository, git2::Error>) {
    git2::Repository::discover(path)
}

/// Relies on git2's Error::message: the engine's description of a failure.
#[verifier::external_body]
fn raw_error_text(e: &git2::Error) -> (r: String) {
    e.message().to_string()
}

/// Relies on git2's Repository::index: the repository's index file.
#[verifier::external_body]
fn raw_index(repo: &git2::Repository) -> (r: Result<git2::Index, git2::Error>) {
    repo.index()
}

/// Relies on git2's Index::add_path: adds the file at this
/// repository-relative path to the index.
#[verifier::external_body]
fn raw_index_add_path(index: &mut git2::Index, rel_path: &str) -> (r: Result<(), git2::Error>) {
    index.add_path(std::path::Path::new(rel_path))
}

/// Relies on git2's Index::add_all: adds all working-tree changes under
/// the repository root to the index.
#[verifier::external_body]
fn raw_index_add_all(index: &mut git2::Index) -> (r: Result<(), git2::Error>) {
    index.add_all(["."], git2::IndexAddOption::DEFAULT, None)
}

/// Relies on git2's Index::write: writes the index back to disk.
#[verifier::external_body]
fn raw_index_write(index: &mut git2::Index) -> (r: Result<(), git2::Error>) {
    index.write()
}

/// Relies on git2's Index::write_tree: writes the index out as a tree
/// object and returns its id.
#[verifier::external_body]
fn raw_index_write_tree(index: &mut git2::Index) -> (r: Result<git2::Oid, git2::Error>) {
    index.write_tree()
}

/// Relies on git2's Repository::find_tree: looks the tree object up by id.
#[verifier::external_body]
fn raw_find_tree<'r>(repo: &'r git2::Repository, id: git2::Oid) -> (r: Result<
    git2::Tree<'r>,
    git2::Error,
>) {
    repo.find_tree(id)
}

/// Relies on git2's Repository::head, Reference::target and
/// Repository::find_commit: the commit HEAD points at, or `None` in a
/// repository with no commits yet.
#[verifier::external_body]
fn raw_head_commit<'r>(repo: &'r git2::Repository) -> (r: Option<git2::Commit<'r>>) {
    repo.head().ok().and_then(|head| head.target()).and_then(|oid| repo.find_commit(oid).ok())
}

/// Relies on git2's Repository::commit: creates a commit with this
/// signature, message, tree and parent, and moves HEAD to it.
#[verifier::external_body]
fn raw_commit_with(
    repo: &git2::Repository,
    signature: &git2::Signature<'static>,
    message: &str,
    tree: &git2::Tree<'_>,
    parent: Option<&git2::Commit<'_>>,
) -> (r: Result<(), git2::Error>) {
    let parents: Vec<&git2::Commit<'_>> = match parent {
        Some(p) => vec![p],
        None => vec![],
    };
    repo.commit(Some("HEAD"), signature, signature, message, tree, &parents)?;
    Ok(())
}

/// Relies on git2's Repository::signature: the repository's default
/// author identity from its configuration.
#[verifier::external_body]
fn raw_default_signature(repo: &git2::Repository) -> (r: Result<
    git2::Signature<'static>,
    git2::Error,
>) {
    repo.signature()
}

/// Relies on git2's Signature::new and Time::new: a signature for this
/// name and email at the given Unix time.
#[verifier::external_body]
fn raw_new_signature(name: &str, email: &str, seconds: i64) -> (r: Result<
    git2::Signature<'static>,
    git2::Error,
>) {
    let time = git2::Time::new(seconds, 0);
    git2::Signature::new(name, email, &time)
}

/// Relies on git2's Repository::path: the repository's `.git` directory;
/// its parent, when there is one, is the working directory.
#[verifier::external_body]
fn raw_repo_root(repo: &git2::Repository) -> (r: String) {
    let p = repo.path();
    p.parent().unwrap_or(p).to_string_lossy().to_string()
}

/// Relies on gix: open, Repository::config_snapshot and
/// Snapshot::string, which resolve the configuration with conditional
/// includes; `None` when `user.name` or `user.email` is absent or not
/// readable as text.
#[verifier::external_body]
fn raw_config_identity(root: &str) -> (r: Option<(String, String)>) {
    let repo = gix::open(root).ok()?;
    let config = repo.config_snapshot();
    let name = String::from_utf8(Vec::from(config.string("user.name")?)).ok()?;
    let email = String::from_utf8(Vec::from(config.string("user.email")?)).ok()?;
    Some((name, email))
}

/// Relies on jiff's Zoned::now and Timestamp::as_second: the current
/// time as Unix seconds.
#[verifier::external_body]
fn raw_unix_now() -> (r: i64) {
    jiff::Zoned::now().timestamp().as_second()
}

/// Whether `c` is an ASCII digit.
pub open spec fn digit_char(c: char) -> bool {
    48 <= c as u32 && c as u32 <= 57
}

/// The shape of a session timestamp, `YYYYMMDD_HHMMSS`: six time
/// digits after an underscore, four date digits before it, and a year
/// of at least four characters in front.
pub open spec fn timestamp_shape(ts: Seq<char>) -> bool {
    &&& ts.len() >= 15
    &&& ts[ts.len() - 7] == '_'
    &&& (forall|k: int| ts.len() - 6 <= k < ts.len() ==> digit_char(#[trigger] ts[k]))
    &&& (forall|k: int| ts.len() - 11 <= k < ts.len() - 7 ==> digit_char(#[trigger] ts[k]))
}

/// Relies on jiff's Zoned::now and strftime with `%Y%m%d_%H%M%S`:
/// month, day, hour, minute and second are zero-padded to two digits
/// each and the year to at least four, so every outcome has the
/// `timestamp_shape`.
#[verifier::external_body]
fn raw_timestamp() -> (r: String)
    ensures
        timestamp_shape(r@),
{
    jiff::Zoned::now().strftime("%Y%m%d_%H%M%S").to_string()
}

/// Relies on git2's Repository::head and Reference::shorthand: the
/// short name of the reference HEAD points at, or `None` when it has no
/// readable short name.
#[verifier::external_body]
fn raw_branch_shorthand(repo: &git2::Repository) -> (r: Result<Option<String>, git2::Error>) {
    let head = repo.head()?;
    Ok(head.shorthand().ok().map(|s| s.to_string()))
}

/// Relies on git2's Repository::head and Reference::peel_to_commit: the
/// commit HEAD resolves to; an error in a repository with no commits.
#[verifier::external_body]
fn raw_head_peel_commit<'r>(repo: &'r git2::Repository) -> (r: Result<
    git2::Commit<'r>,
    git2::Error,
>) {
    repo.head()?.peel_to_commit()
}

/// Relies on git2's Repository::branch: creates a branch with this name
/// at the target commit; an error when the name already exists.
#[verifier::external_body]
fn raw_create_branch(
    repo: &git2::Repository,
    name: &str,
    target: &git2::Commit<'_>,
) -> (r: Result<(), git2::Error>) {
    repo.branch(name, target, false)?;
    Ok(())
}

/// Relies on git2's Repository::set_head: points HEAD at this reference.
#[verifier::external_body]
fn raw_set_head(repo: &git2::Repository, refname: &str) -> (r: Result<(), git2::Error>) {
    repo.set_head(refname)
}

/// Relies on git2's Repository::checkout_head: updates the working tree
/// to match HEAD.
#[verifier::external_body]
fn raw_checkout_head(repo: &git2::Repository) -> (r: Result<(), git2::Error>) {
    repo.checkout_head(None)
}

/// Opens the repository that `path` lies in. The handle starts with an
/// empty action history.
pub fn discover_repository(path: &str) -> (r: Result<GitRepository, GitError>)
    ensures
        r matches Ok(repo) ==> repo.ops() == Seq::<RepoAction>::empty(),
        r matches Err(e) ==> e is RepositoryAccess,
{
    match raw_discover(path) {
        Ok(inner) => Ok(GitRepository::new_handle(inner)),
        Err(e) => Err(GitError::RepositoryAccess { detail: raw_error_text(&e) }),
    }
}

/// The index-error detail for a file that could not be staged: it
/// names the path, then carries the engine's message.
pub open spec fn stage_error_detail(path: Seq<char>, engine: Seq<char>) -> Seq<char> {
    "failed to add file to index: "@ + path + ": "@ + engine
}

fn stage_file_error(file_path: &str, e: &git2::Error) -> (r: GitError)
    ensures
        r matches GitError::Index { detail } && exists|m: Seq<char>|
            detail@ == #[trigger] stage_error_detail(file_path@, m),
{
    let message = raw_error_text(e);
    let detail = "failed to add file to index: ".to_owned().concat(file_path).concat(
        ": ",
    ).concat(message.as_str());
    proof {
        assert(detail@ =~= stage_error_detail(file_path@, message@));
    }
    GitError::Index { detail }
}

/// Stages a single file, named relative to the repository root, for the
/// next commit. A failure names the file in its detail.
pub fn stage_file(repo: &mut GitRepository, file_path: &str) -> (r: Result<(), GitError>)
    ensures
        final(repo).ops() == old(repo).ops().push(RepoAction::StageFile(file_path@)),
        r matches Err(e) ==> (e matches GitError::Index { detail } && exists|m: Seq<char>|
            detail@ == #[trigger] stage_error_detail(file_path@, m)),
{
    repo.record(Ghost(RepoAction::StageFile(file_path@)));
    let mut index = match raw_index(&repo.inner) {
        Ok(ix) => ix,
        Err(e) => return Err(stage_file_error(file_path, &e)),
    };
    if let Err(e) = raw_index_add_path(&mut index, file_path) {
        return Err(stage_file_error(file_path, &e));
    }
    match raw_index_write(&mut index) {
        Ok(()) => Ok(()),
        Err(e) => Err(stage_file_error(file_path, &e)),
    }
}

/// Stages all modified files in the working directory.
pub fn stage_all_files(repo: &mut GitRepository) -> (r: Result<(), GitError>)
    ensures
        final(repo).ops() == old(repo).ops().push(RepoAction::StageAll),
        r matches Err(e) ==> e is Index,
{
    repo.record(Ghost(RepoAction::StageAll));
    let mut index = match raw_index(&repo.inner) {
        Ok(ix) => ix,
        Err(e) => return Err(GitError::Index { detail: raw_error_text(&e) }),
    };
    if let Err(e) = raw_index_add_all(&mut index) {
        return Err(GitError::Index { detail: raw_error_text(&e) });
    }
    match raw_index_write(&mut index) {
        Ok(()) => Ok(()),
        Err(e) => Err(GitError::Index { detail: raw_error_text(&e) }),
    }
}

/// The longest a returned diff may be, in characters, before it is cut.
pub const MAX_DIFF_CHARS: usize = 5000;

/// The marker appended to a diff that was cut at `MAX_DIFF_CHARS`.
pub open spec fn truncation_marker() -> Seq<char> {
    "\n\n[... truncated ...]"@
}

/// The diff text handed to callers: trimmed, and hard-cut to the first
/// `MAX_DIFF_CHARS` characters, with a literal marker appended, when it
/// is longer than that.
pub open spec fn truncated_diff_spec(raw: Seq<char>) -> Seq<char> {
    let t = trim_spec(raw);
    if t.len() > MAX_DIFF_CHARS {
        t.subrange(0, MAX_DIFF_CHARS as int) + truncation_marker()
    } else {
        t
    }
}

/// Trims `raw` and applies the truncation bound.
pub fn truncate_diff(raw: &str) -> (r: String)
    ensures
        r@ == truncated_diff_spec(raw@),
{
    let t = trim(raw);
    let n = t.unicode_len();
    if n > MAX_DIFF_CHARS {
        let head = t.substring_char(0, MAX_DIFF_CHARS);
        head.to_owned().concat("\n\n[... truncated ...]")
    } else {
        t.to_owned()
    }
}

/// How a diff content line is rendered: added, removed and context
/// lines carry their origin marker; other lines stand as they are.
pub open spec fn rendered_line_spec(origin: char, content: Seq<char>) -> Seq<char> {
    if origin == '+' || origin == '-' || origin == ' ' {
        seq![origin] + content
    } else {
        content
    }
}

/// Renders one diff line for the textual patch.
pub fn render_diff_line(origin: char, content: &str) -> (r: String)
    ensures
        r@ == rendered_line_spec(origin, content@),
{
    if origin == '+' {
        proof {
            reveal_strlit("+");
            assert("+"@ =~= seq![origin]);
        }
        "+".to_owned().concat(content)
    } else if origin == '-' {
        proof {
            reveal_strlit("-");
            assert("-"@ =~= seq![origin]);
        }
        "-".to_owned().concat(content)
    } else if origin == ' ' {
        proof {
            reveal_strlit(" ");
            assert(" "@ =~= seq![origin]);
        }
        " ".to_owned().concat(content)
    } else {
        content.to_owned()
    }
}

/// Relies on git2: Repository::head, Reference::peel_to_tree,
/// Repository::index, DiffOptions::new and force_text,
/// Repository::diff_tree_to_index and Diff::print, to render the staged
/// changes (HEAD tree against index) as a textual patch. Lines whose
/// bytes are not text are left out; each kept line passes through
/// `render_diff_line`.
#[verifier::external_body]
fn raw_staged_diff_text(repo: &git2::Repository) -> (r: Result<String, git2::Error>) {
    let head = repo.head()?.peel_to_tree()?;
    let index = repo.index()?;
    let mut opts = git2::DiffOptions::new();
    opts.force_text(false);
    let diff = repo.diff_tree_to_index(Some(&head), Some(&index), Some(&mut opts))?;
    let mut text = String::new();
    diff.print(git2::DiffFormat::Patch, |_, _, line| {
        if let Ok(content) = std::str::from_utf8(line.content()) {
            text.push_str(&render_diff_line(line.origin(), content));
        }
        true
    })?;
    Ok(text)
}

/// The truncation law: a trimmed diff longer than `MAX_DIFF_CHARS` is
/// cut to exactly its first `MAX_DIFF_CHARS` characters with the
/// literal marker appended; a shorter one is handed back as trimmed.
pub proof fn lemma_diff_truncation(raw: Seq<char>)
    ensures
        trim_spec(raw).len() > MAX_DIFF_CHARS ==> truncated_diff_spec(raw) == trim_spec(
            raw,
        ).subrange(0, MAX_DIFF_CHARS as int) + truncation_marker(),
        trim_spec(raw).len() <= MAX_DIFF_CHARS ==> truncated_diff_spec(raw) == trim_spec(raw),
{
}

/// Whether a diff value could have been handed out by `get_staged_diff`.
pub open spec fn truncated_form(d: Seq<char>) -> bool {
    exists|raw: Seq<char>| d == truncated_diff_spec(raw)
}

/// Computes the diff of the staged changes: the current HEAD tree
/// against the current index, so only staged work is ever considered.
/// The result is trimmed and truncated per `truncated_diff_spec`.
pub fn get_staged_diff(repo: &mut GitRepository) -> (r: Result<String, GitError>)
    ensures
        r matches Ok(d) ==> final(repo).ops() == old(repo).ops().push(RepoAction::QueryDiff(d@))
            && truncated_form(d@),
        r matches Err(e) ==> final(repo).ops() == old(repo).ops() && e is Diff,
{
    let raw = match raw_staged_diff_text(&repo.inner) {
        Ok(t) => t,
        Err(e) => return Err(GitError::Diff { detail: raw_error_text(&e) }),
    };
    let d = truncate_diff(raw.as_str());
    repo.record(Ghost(RepoAction::QueryDiff(d@)));
    proof {
        assert(d@ == truncated_diff_spec(raw@));
    }
    Ok(d)
}

/// Picks the author and committer identity: the configured user from
/// the include-resolved configuration when it is present, and otherwise
/// the repository's own default signature.
fn create_signature(repo: &GitRepository) -> (r: Result<git2::Signature<'static>, GitError>)
    ensures
        r matches Err(e) ==> e is Commit,
{
    let root = raw_repo_root(&repo.inner);
    match raw_config_identity(root.as_str()) {
        Some((name, email)) => {
            match raw_new_signature(name.as_str(), email.as_str(), raw_unix_now()) {
                Ok(sig) => Ok(sig),
                Err(e) => Err(GitError::Commit { detail: raw_error_text(&e) }),
            }
        },
        None => {
            match raw_default_signature(&repo.inner) {
                Ok(sig) => Ok(sig),
                Err(e) => Err(GitError::Commit { detail: raw_error_text(&e) }),
            }
        },
    }
}

/// Creates a commit with the given message: the tree is built from the
/// current index, and the parent is the current HEAD commit when one
/// exists (a root commit has none).
pub fn create_commit(repo: &mut GitRepository, message: &str) -> (r: Result<(), GitError>)
    ensures
        final(repo).ops() == old(repo).ops().push(RepoAction::Commit(message@)),
        r matches Err(e) ==> e is Commit,
{
    repo.record(Ghost(RepoAction::Commit(message@)));
    let signature = match create_signature(repo) {
        Ok(sig) => sig,
        Err(e) => return Err(e),
    };
    let mut index = match raw_index(&repo.inner) {
        Ok(ix) => ix,
        Err(e) => return Err(GitError::Commit { detail: raw_error_text(&e) }),
    };
    let tree_id = match raw_index_write_tree(&mut index) {
        Ok(id) => id,
        Err(e) => return Err(GitError::Commit { detail: raw_error_text(&e) }),
    };
    let tree = match raw_find_tree(&repo.inner, tree_id) {
        Ok(t) => t,
        Err(e) => return Err(GitError::Commit { detail: raw_error_text(&e) }),
    };
    let parent = raw_head_commit(&repo.inner);
    match raw_commit_with(&repo.inner, &signature, message, &tree, parent.as_ref()) {
        Ok(()) => Ok(()),
        Err(e) => Err(GitError::Commit { detail: raw_error_text(&e) }),
    }
}

/// The sentinel law of the branch query: the engine's short name is
/// handed through when there is one, and the sentinel `"HEAD"` stands
/// in when there is none (a detached state).
pub fn branch_name_or_sentinel(shorthand: Option<String>) -> (r: String)
    ensures
        r@ == match shorthand {
            Some(name) => name@,
            None => "HEAD"@,
        },
{
    match shorthand {
        Some(name) => name,
        None => "HEAD".to_owned(),
    }
}

/// The short name of the current branch, or `"HEAD"` when the
/// repository is in a detached state, per `branch_name_or_sentinel`.
pub fn get_current_branch(repo: &mut GitRepository) -> (r: Result<String, GitError>)
    ensures
        r matches Ok(b) ==> final(repo).ops() == old(repo).ops().push(RepoAction::QueryBranch(b@)),
        r matches Err(e) ==> final(repo).ops() == old(repo).ops() && e is RepositoryAccess,
{
    match raw_branch_shorthand(&repo.inner) {
        Ok(shorthand) => {
            let name = branch_name_or_sentinel(shorthand);
            repo.record(Ghost(RepoAction::QueryBranch(name@)));
            Ok(name)
        },
        Err(e) => Err(GitError::RepositoryAccess { detail: raw_error_text(&e) }),
    }
}

/// The name of a session branch: `session/{session_id}_{timestamp}`.
pub open spec fn session_branch_name_spec(session_id: Seq<char>, timestamp: Seq<char>) -> Seq<
    char,
> {
    "session/"@ + session_id + "_"@ + timestamp
}

/// Creates a branch named `session/{session_id}_{timestamp}` at the
/// current HEAD commit and checks it out. The timestamp is the local
/// time, rendered `YYYYMMDD_HHMMSS`.
pub fn create_session_branch(repo: &mut GitRepository, session_id: &str) -> (r: Result<
    (),
    GitError,
>)
    ensures
        exists|ts: Seq<char>|
            timestamp_shape(ts) && final(repo).ops() == old(repo).ops().push(
                RepoAction::CreateBranch(#[trigger] session_branch_name_spec(session_id@, ts)),
            ),
        r matches Err(e) ==> e is Branch,
{
    let timestamp = raw_timestamp();
    let branch_name = "session/".to_owned().concat(session_id).concat("_").concat(
        timestamp.as_str(),
    );
    proof {
        assert(branch_name@ =~= session_branch_name_spec(session_id@, timestamp@));
    }
    repo.record(Ghost(RepoAction::CreateBranch(branch_name@)));
    let head_commit = match raw_head_peel_commit(&repo.inner) {
        Ok(c) => c,
        Err(e) => return Err(GitError::Branch { detail: raw_error_text(&e) }),
    };
    if let Err(e) = raw_create_branch(&repo.inner, branch_name.as_str(), &head_commit) {
        return Err(GitError::Branch { detail: raw_error_text(&e) });
    }
    let refname = "refs/heads/".to_owned().concat(branch_name.as_str());
    if let Err(e) = raw_set_head(&repo.inner, refname.as_str()) {
        return Err(GitError::Branch { detail: raw_error_text(&e) });
    }
    match raw_checkout_head(&repo.inner) {
        Ok(()) => Ok(()),
        Err(e) => Err(GitError::Branch { detail: raw_error_text(&e) }),
    }
}

} // verus!
