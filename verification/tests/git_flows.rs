//! End-to-end flows against real on-disk repositories.

use std::io::Write as IoWrite;
use std::path::Path;

use auto_commit::commit_message_generator::CommitMessageGenerator;
use auto_commit::commit_message_generator::GeneratorConfig;
use auto_commit::commit_message_generator::GeneratorOutput;
use auto_commit::committer::Committer;
use auto_commit::committer::EventStep;
use auto_commit::git_ops::branch_name_or_sentinel;
use auto_commit::git_ops::create_commit;
use auto_commit::git_ops::create_session_branch;
use auto_commit::git_ops::discover_repository;
use auto_commit::git_ops::get_current_branch;
use auto_commit::git_ops::get_staged_diff;
use auto_commit::git_ops::stage_file;
use auto_commit::types::GitError;
use auto_commit::types::HookEvent;
use auto_commit::types::SessionStartSource;
use auto_commit::types::ToolInput;
use auto_commit::types::ToolName;
use auto_commit::types::ToolResponse;

fn generator() -> CommitMessageGenerator {
    let config = GeneratorConfig {
        prompt_template: "Language: {language}\nDiff:\n{diff_content}\n".to_string(),
        command: "true".to_string(),
        args: vec![],
        default_commit_message: "chore: update".to_string(),
    };
    CommitMessageGenerator::new(config, "English")
}

/// A fresh repository with a user identity configured.
fn init_repo() -> (tempfile::TempDir, String) {
    let dir = tempfile::TempDir::new().unwrap();
    let path = dir.path().to_str().unwrap().to_string();
    let repo = git2::Repository::init(&path).unwrap();
    let mut config = repo.config().unwrap();
    config.set_str("user.name", "Test User").unwrap();
    config.set_str("user.email", "test@example.com").unwrap();
    (dir, path)
}

/// Creates a file with fresh content in `dir`; returns its bare name.
fn write_file(dir: &str, content: &str) -> String {
    let f = tempfile::Builder::new().prefix("file").suffix(".txt").tempfile_in(dir).unwrap();
    let (mut file, pathbuf) = f.keep().unwrap();
    file.write_all(content.as_bytes()).unwrap();
    pathbuf.file_name().unwrap().to_str().unwrap().to_string()
}

/// Stages `name` and creates an initial commit; returns the branch name.
fn initial_commit(path: &str, name: &str) -> String {
    let mut repo = discover_repository(path).unwrap();
    stage_file(&mut repo, name).unwrap();
    create_commit(&mut repo, "chore: init").unwrap();
    get_current_branch(&mut repo).unwrap()
}

fn wait_past_a_second() {
    let start = std::time::Instant::now();
    while start.elapsed() < std::time::Duration::from_millis(1100) {}
}

#[test]
fn session_start_on_trunk_creates_and_checks_out_session_branch() {
    let (_dir, path) = init_repo();
    let name = write_file(&path, "hello\n");
    let trunk = initial_commit(&path, &name);
    assert!(trunk == "master" || trunk == "main");

    let g = generator();
    let event = HookEvent::SessionStart {
        session_id: "abc123".to_string(),
        cwd: path.clone(),
        source: None,
    };
    let repo = discover_repository(&path).unwrap();
    let mut committer = Committer::new(repo);
    let step = committer.handle_event(&event, &g).unwrap();
    assert!(matches!(step, EventStep::Done));

    let raw = git2::Repository::open(&path).unwrap();
    let first = raw.head().unwrap().shorthand().unwrap().to_string();
    assert!(first.starts_with("session/abc123_"));
    // The suffix is a YYYYMMDD_HHMMSS timestamp.
    let stamp = &first["session/abc123_".len()..];
    assert_eq!(stamp.len(), 15);
    assert!(stamp[..8].chars().all(|c| c.is_ascii_digit()));
    assert_eq!(&stamp[8..9], "_");
    assert!(stamp[9..].chars().all(|c| c.is_ascii_digit()));

    // The same event at a different instant makes a differently named branch.
    raw.set_head(&format!("refs/heads/{trunk}")).unwrap();
    raw.checkout_head(None).unwrap();
    wait_past_a_second();

    let repo2 = discover_repository(&path).unwrap();
    let mut committer2 = Committer::new(repo2);
    let step2 = committer2.handle_event(&event, &g).unwrap();
    assert!(matches!(step2, EventStep::Done));

    let second = git2::Repository::open(&path).unwrap().head().unwrap().shorthand().unwrap()
        .to_string();
    assert!(second.starts_with("session/abc123_"));
    assert_ne!(first, second);
}

#[test]
fn session_start_off_trunk_creates_no_branch() {
    let (_dir, path) = init_repo();
    let name = write_file(&path, "hello\n");
    initial_commit(&path, &name);
    let raw = git2::Repository::open(&path).unwrap();
    let head = raw.head().unwrap().peel_to_commit().unwrap();
    raw.branch("feature/x", &head, false).unwrap();
    raw.set_head("refs/heads/feature/x").unwrap();
    raw.checkout_head(None).unwrap();

    let g = generator();
    let event = HookEvent::SessionStart {
        session_id: "abc123".to_string(),
        cwd: path.clone(),
        source: None,
    };
    let repo = discover_repository(&path).unwrap();
    let mut committer = Committer::new(repo);
    let step = committer.handle_event(&event, &g).unwrap();
    assert!(matches!(step, EventStep::Done));
    let now = git2::Repository::open(&path).unwrap().head().unwrap().shorthand().unwrap()
        .to_string();
    assert_eq!(now, "feature/x");
}

#[test]
fn resume_commits_on_vacated_branch_before_switching() {
    let (_dir, path) = init_repo();
    let name = write_file(&path, "hello\n");
    let trunk = initial_commit(&path, &name);
    // A stageable change for the end-of-session commit.
    write_file(&path, "new work\n");

    let g = generator();
    let event = HookEvent::SessionStart {
        session_id: "s1".to_string(),
        cwd: path.clone(),
        source: Some(SessionStartSource::Resume),
    };
    let repo = discover_repository(&path).unwrap();
    let mut committer = Committer::new(repo);
    let pending = match committer.handle_event(&event, &g).unwrap() {
        EventStep::NeedsCommit(p) => p,
        EventStep::Done => panic!("a commit was due"),
    };
    assert_eq!(pending.session_branch.as_deref(), Some("s1"));
    assert!(pending.prompt.contains("Diff:"));
    committer.complete_commit(pending, None, &g).unwrap();

    let raw = git2::Repository::open(&path).unwrap();
    let current = raw.head().unwrap().shorthand().unwrap().to_string();
    assert!(current.starts_with("session/s1_"));

    // Exactly one commit was added, and it sits on the vacated trunk.
    let vacated = raw.find_branch(&trunk, git2::BranchType::Local).unwrap();
    let tip = vacated.get().peel_to_commit().unwrap();
    assert_eq!(tip.message().unwrap(), "chore: update");
    assert_eq!(tip.parent_count(), 1);
    assert_eq!(tip.parent(0).unwrap().message().unwrap(), "chore: init");
    // The author identity comes from the repository's configuration.
    assert_eq!(tip.author().name().unwrap(), "Test User");
    assert_eq!(tip.author().email().unwrap(), "test@example.com");
    // The new session branch starts at the closing commit.
    assert_eq!(raw.head().unwrap().peel_to_commit().unwrap().id(), tip.id());
}

#[test]
fn resume_with_nothing_to_commit_only_switches_branch() {
    let (_dir, path) = init_repo();
    let name = write_file(&path, "hello\n");
    let trunk = initial_commit(&path, &name);

    let g = generator();
    let event = HookEvent::SessionStart {
        session_id: "s2".to_string(),
        cwd: path.clone(),
        source: Some(SessionStartSource::Clear),
    };
    let repo = discover_repository(&path).unwrap();
    let mut committer = Committer::new(repo);
    let step = committer.handle_event(&event, &g).unwrap();
    assert!(matches!(step, EventStep::Done));

    let raw = git2::Repository::open(&path).unwrap();
    assert!(raw.head().unwrap().shorthand().unwrap().starts_with("session/s2_"));
    // No commit beyond the initial one.
    let vacated = raw.find_branch(&trunk, git2::BranchType::Local).unwrap();
    let tip = vacated.get().peel_to_commit().unwrap();
    assert_eq!(tip.message().unwrap(), "chore: init");
}

#[test]
fn read_tool_never_stages_diffs_or_commits() {
    let (_dir, path) = init_repo();
    let name = write_file(&path, "hello\n");
    initial_commit(&path, &name);
    let untracked = write_file(&path, "not staged\n");

    let g = generator();
    for success in [true, false] {
        let event = HookEvent::PostToolUse {
            cwd: path.clone(),
            tool_name: ToolName::Read,
            tool_input: ToolInput { file_path: format!("{path}/{untracked}") },
            tool_response: ToolResponse { success },
        };
        let repo = discover_repository(&path).unwrap();
        let mut committer = Committer::new(repo);
        let step = committer.handle_event(&event, &g).unwrap();
        assert!(matches!(step, EventStep::Done));
    }

    let raw = git2::Repository::open(&path).unwrap();
    assert_eq!(raw.head().unwrap().peel_to_commit().unwrap().message().unwrap(), "chore: init");
    let index = raw.index().unwrap();
    assert!(index.get_path(Path::new(&untracked), 0).is_none());
}

#[test]
fn failed_tool_response_is_a_noop_even_for_write() {
    let (_dir, path) = init_repo();
    let name = write_file(&path, "hello\n");
    initial_commit(&path, &name);
    let untracked = write_file(&path, "not staged\n");

    let g = generator();
    let event = HookEvent::PostToolUse {
        cwd: path.clone(),
        tool_name: ToolName::Write,
        tool_input: ToolInput { file_path: format!("{path}/{untracked}") },
        tool_response: ToolResponse { success: false },
    };
    let repo = discover_repository(&path).unwrap();
    let mut committer = Committer::new(repo);
    let step = committer.handle_event(&event, &g).unwrap();
    assert!(matches!(step, EventStep::Done));
    let raw = git2::Repository::open(&path).unwrap();
    let index = raw.index().unwrap();
    assert!(index.get_path(Path::new(&untracked), 0).is_none());
}

#[test]
fn successful_write_stages_only_that_file_and_commits_it() {
    let (_dir, path) = init_repo();
    let name = write_file(&path, "hello\n");
    initial_commit(&path, &name);
    let edited = write_file(&path, "fresh content\n");
    let bystander = write_file(&path, "never staged\n");

    let g = generator();
    let event = HookEvent::PostToolUse {
        cwd: path.clone(),
        tool_name: ToolName::Write,
        tool_input: ToolInput { file_path: format!("{path}/{edited}") },
        tool_response: ToolResponse { success: true },
    };
    let repo = discover_repository(&path).unwrap();
    let mut committer = Committer::new(repo);
    let pending = match committer.handle_event(&event, &g).unwrap() {
        EventStep::NeedsCommit(p) => p,
        EventStep::Done => panic!("a commit was due"),
    };
    assert!(pending.session_branch.is_none());
    let output = GeneratorOutput { success: true, stdout: "feat: fresh file\n".to_string() };
    committer.complete_commit(pending, Some(output), &g).unwrap();

    let raw = git2::Repository::open(&path).unwrap();
    let tip = raw.head().unwrap().peel_to_commit().unwrap();
    assert_eq!(tip.message().unwrap(), "feat: fresh file");
    let tree = tip.tree().unwrap();
    assert!(tree.get_name(&edited).is_some());
    assert!(tree.get_name(&bystander).is_none());
    let index = raw.index().unwrap();
    assert!(index.get_path(Path::new(&bystander), 0).is_none());
}

#[test]
fn write_with_empty_diff_creates_no_commit() {
    let (_dir, path) = init_repo();
    let name = write_file(&path, "hello\n");
    initial_commit(&path, &name);

    let g = generator();
    // The file is already committed and unchanged: staging it changes nothing.
    let event = HookEvent::PostToolUse {
        cwd: path.clone(),
        tool_name: ToolName::Edit,
        tool_input: ToolInput { file_path: format!("{path}/{name}") },
        tool_response: ToolResponse { success: true },
    };
    let repo = discover_repository(&path).unwrap();
    let mut committer = Committer::new(repo);
    let step = committer.handle_event(&event, &g).unwrap();
    assert!(matches!(step, EventStep::Done));
    let raw = git2::Repository::open(&path).unwrap();
    assert_eq!(raw.head().unwrap().peel_to_commit().unwrap().message().unwrap(), "chore: init");
}

#[test]
fn staged_diff_carries_line_markers() {
    let (_dir, path) = init_repo();
    let name = write_file(&path, "hello\n");
    initial_commit(&path, &name);
    let fresh = write_file(&path, "alpha\nbeta\n");

    let mut repo = discover_repository(&path).unwrap();
    stage_file(&mut repo, &fresh).unwrap();
    let diff = get_staged_diff(&mut repo).unwrap();
    assert!(diff.contains("+alpha"));
    assert!(diff.contains("+beta"));
    assert!(diff.contains(&fresh));
}

#[test]
fn detached_head_reports_the_sentinel_name() {
    assert_eq!(branch_name_or_sentinel(Some("main".to_string())), "main");
    assert_eq!(branch_name_or_sentinel(None), "HEAD");

    // On a real repository: detach HEAD, then query the branch.
    let (_dir, path) = init_repo();
    let name = write_file(&path, "hello\n");
    initial_commit(&path, &name);
    let raw = git2::Repository::open(&path).unwrap();
    let head_id = raw.head().unwrap().peel_to_commit().unwrap().id();
    raw.set_head_detached(head_id).unwrap();
    let mut repo = discover_repository(&path).unwrap();
    assert_eq!(get_current_branch(&mut repo).unwrap(), "HEAD");
}

#[test]
fn errors_name_the_failing_operation() {
    let (_dir, path) = init_repo();
    let mut repo = discover_repository(&path).unwrap();

    // No commits yet: HEAD does not resolve.
    assert!(matches!(get_current_branch(&mut repo), Err(GitError::RepositoryAccess { .. })));
    assert!(matches!(get_staged_diff(&mut repo), Err(GitError::Diff { .. })));
    assert!(matches!(create_session_branch(&mut repo, "sid"), Err(GitError::Branch { .. })));
    // A file that does not exist cannot be staged, and the failure
    // names the file.
    match stage_file(&mut repo, "no-such-file.txt") {
        Err(GitError::Index { detail }) => {
            assert!(detail.starts_with("failed to add file to index: no-such-file.txt: "));
        }
        _ => panic!("staging a missing file must fail with an index error"),
    }

    // Nowhere near a repository, discovery fails.
    let outside = tempfile::TempDir::new().unwrap();
    let result = discover_repository(outside.path().to_str().unwrap());
    assert!(matches!(result, Err(GitError::RepositoryAccess { .. })));

    // Without any configured identity, no commit can be signed.
    let anonymous = tempfile::TempDir::new().unwrap();
    let anon_path = anonymous.path().to_str().unwrap().to_string();
    git2::Repository::init(&anon_path).unwrap();
    let name = write_file(&anon_path, "hello\n");
    let mut anon_repo = discover_repository(&anon_path).unwrap();
    stage_file(&mut anon_repo, &name).unwrap();
    assert!(matches!(create_commit(&mut anon_repo, "chore: x"), Err(GitError::Commit { .. })));
}
