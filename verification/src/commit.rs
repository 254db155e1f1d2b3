//! Committing a chosen set of files: which git command comes next, given how
//! the one before ended. The embedding program runs each command and
//! reports back; the decisions are made here.

use crate::text::{option_text, texts};
use vstd::prelude::*;

verus! {

/// A run of the `git` executable, in the working directory of the caller.
#[derive(Debug, PartialEq, Eq)]
pub enum GitCommand {
    /// `git status --porcelain`
    Status,
    /// `git diff`
    Diff,
    /// `git diff --cached`
    DiffCached,
    /// `git restore --staged .`
    UnstageAll,
    /// `git add <path>`
    Stage(String),
    /// `git commit -m <message>`
    Commit(String),
}

/// A [`GitCommand`] as plain values.
pub enum GitCommandView {
    Status,
    Diff,
    DiffCached,
    UnstageAll,
    Stage(Seq<char>),
    Commit(Seq<char>),
}

impl View for GitCommand {
    type V = GitCommandView;

    open spec fn view(&self) -> GitCommandView {
        match self {
            GitCommand::Status => GitCommandView::Status,
            GitCommand::Diff => GitCommandView::Diff,
            GitCommand::DiffCached => GitCommandView::DiffCached,
            GitCommand::UnstageAll => GitCommandView::UnstageAll,
            GitCommand::Stage(path) => GitCommandView::Stage(path@),
            GitCommand::Commit(message) => GitCommandView::Commit(message@),
        }
    }
}

impl GitCommandView {
    /// The arguments that `git` is run with.
    pub open spec fn args(self) -> Seq<Seq<char>> {
        match self {
            GitCommandView::Status => seq!["status"@, "--porcelain"@],
            GitCommandView::Diff => seq!["diff"@],
            GitCommandView::DiffCached => seq!["diff"@, "--cached"@],
            GitCommandView::UnstageAll => seq!["restore"@, "--staged"@, "."@],
            GitCommandView::Stage(path) => seq!["add"@, path],
            GitCommandView::Commit(message) => seq!["commit"@, "-m"@, message],
        }
    }
}

impl GitCommand {
    /// The arguments that `git` is run with.
    pub fn args(&self) -> (r: Vec<String>)
        ensures
            texts(r@) == self@.args(),
    {
        let mut args: Vec<String> = Vec::new();
        match self {
            GitCommand::Status => {
                args.push(String::from_str("status"));
                args.push(String::from_str("--porcelain"));
            },
            GitCommand::Diff => {
                args.push(String::from_str("diff"));
            },
            GitCommand::DiffCached => {
                args.push(String::from_str("diff"));
                args.push(String::from_str("--cached"));
            },
            GitCommand::UnstageAll => {
                args.push(String::from_str("restore"));
                args.push(String::from_str("--staged"));
                args.push(String::from_str("."));
            },
            GitCommand::Stage(path) => {
                args.push(String::from_str("add"));
                args.push(path.clone());
            },
            GitCommand::Commit(message) => {
                args.push(String::from_str("commit"));
                args.push(String::from_str("-m"));
                args.push(message.clone());
            },
        }
        assert(texts(args@) =~= self@.args());
        args
    }
}

/// How a run of a command ended.
#[derive(Debug, PartialEq, Eq)]
pub enum RunOutcome {
    /// The process could not be started; `reason` says why.
    NotStarted { reason: String },
    /// The process ran and exited.
    Exited { success: bool, stderr: String },
}

/// A [`RunOutcome`] as plain values.
pub enum RunOutcomeView {
    NotStarted { reason: Seq<char> },
    Exited { success: bool, stderr: Seq<char> },
}

impl View for RunOutcome {
    type V = RunOutcomeView;

    open spec fn view(&self) -> RunOutcomeView {
        match self {
            RunOutcome::NotStarted { reason } => RunOutcomeView::NotStarted { reason: reason@ },
            RunOutcome::Exited { success, stderr } => RunOutcomeView::Exited {
                success: *success,
                stderr: stderr@,
            },
        }
    }
}

impl RunOutcomeView {
    /// The error text of a run that failed: the reason where the process did
    /// not start, the standard error where it exited without success.
    pub open spec fn failure(self) -> Option<Seq<char>> {
        match self {
            RunOutcomeView::NotStarted { reason } => Some(reason),
            RunOutcomeView::Exited { success, stderr } => if success {
                None
            } else {
                Some(stderr)
            },
        }
    }
}

impl RunOutcome {
    /// The error text of a run that failed, `None` for one that succeeded.
    pub fn failure(&self) -> (r: Option<String>)
        ensures
            option_text(r) == self@.failure(),
    {
        match self {
            RunOutcome::NotStarted { reason } => Some(reason.clone()),
            RunOutcome::Exited { success, stderr } => if *success {
                None
            } else {
                Some(stderr.clone())
            },
        }
    }
}

/// A commit in progress. It unstages everything, stages the chosen files one
/// by one in their order, and commits. How the unstaging ends is not looked
/// at. The first staging that fails ends the plan with that failure, and what
/// was staged before stays staged. A commit that fails ends it likewise.
#[derive(Debug, PartialEq, Eq)]
pub enum CommitPlan {
    /// Everything is to be unstaged.
    Unstaging { message: String, files: Vec<String> },
    /// `current` is to be staged, then the files of `rest`.
    Staging { message: String, current: String, rest: Vec<String> },
    /// The staged files are to be committed.
    Committing { message: String },
    /// Nothing is left to run.
    Finished(Result<(), String>),
}

/// A [`CommitPlan`] as plain values.
pub enum CommitPlanView {
    Unstaging { message: Seq<char>, files: Seq<Seq<char>> },
    Staging { message: Seq<char>, current: Seq<char>, rest: Seq<Seq<char>> },
    Committing { message: Seq<char> },
    Finished(Result<(), Seq<char>>),
}

impl View for CommitPlan {
    type V = CommitPlanView;

    open spec fn view(&self) -> CommitPlanView {
        match self {
            CommitPlan::Unstaging { message, files } => CommitPlanView::Unstaging {
                message: message@,
                files: texts(files@),
            },
            CommitPlan::Staging { message, current, rest } => CommitPlanView::Staging {
                message: message@,
                current: current@,
                rest: texts(rest@),
            },
            CommitPlan::Committing { message } => CommitPlanView::Committing {
                message: message@,
            },
            CommitPlan::Finished(result) => CommitPlanView::Finished(
                match result {
                    Ok(_) => Ok(()),
                    Err(text) => Err(text@),
                },
            ),
        }
    }
}

/// The state in which `files` are left to stage before the commit.
pub open spec fn staging_of(message: Seq<char>, files: Seq<Seq<char>>) -> CommitPlanView {
    if files.len() > 0 {
        CommitPlanView::Staging { message, current: files[0], rest: files.drop_first() }
    } else {
        CommitPlanView::Committing { message }
    }
}

impl CommitPlanView {
    /// The command to run in this state, `None` once the plan has finished.
    pub open spec fn pending(self) -> Option<GitCommandView> {
        match self {
            CommitPlanView::Unstaging { .. } => Some(GitCommandView::UnstageAll),
            CommitPlanView::Staging { current, .. } => Some(GitCommandView::Stage(current)),
            CommitPlanView::Committing { message } => Some(GitCommandView::Commit(message)),
            CommitPlanView::Finished(_) => None,
        }
    }

    /// The state that follows when the pending command ended with `outcome`.
    pub open spec fn after(self, outcome: RunOutcomeView) -> CommitPlanView {
        match self {
            CommitPlanView::Unstaging { message, files } => staging_of(message, files),
            CommitPlanView::Staging { message, current, rest } => match outcome.failure() {
                Some(text) => CommitPlanView::Finished(Err(text)),
                None => staging_of(message, rest),
            },
            CommitPlanView::Committing { message } => match outcome.failure() {
                Some(text) => CommitPlanView::Finished(Err(text)),
                None => CommitPlanView::Finished(Ok(())),
            },
            CommitPlanView::Finished(result) => CommitPlanView::Finished(result),
        }
    }

    /// How many commands are still to run if each of them succeeds.
    pub open spec fn commands_left(self) -> nat {
        match self {
            CommitPlanView::Unstaging { files, .. } => files.len() + 2,
            CommitPlanView::Staging { rest, .. } => rest.len() + 2,
            CommitPlanView::Committing { .. } => 1,
            CommitPlanView::Finished(_) => 0,
        }
    }
}

fn staging(message: String, files: Vec<String>) -> (r: CommitPlan)
    ensures
        r@ == staging_of(message@, texts(files@)),
{
    if files.len() > 0 {
        let mut rest = files;
        let current = rest.remove(0);
        assert(texts(rest@) =~= texts(files@).drop_first());
        CommitPlan::Staging { message, current, rest }
    } else {
        CommitPlan::Committing { message }
    }
}

impl CommitPlan {
    /// The plan to commit exactly `files` with `message`.
    pub fn new(message: String, files: Vec<String>) -> (r: CommitPlan)
        ensures
            r@ == (CommitPlanView::Unstaging { message: message@, files: texts(files@) }),
    {
        CommitPlan::Unstaging { message, files }
    }

    /// The command to run now, `None` once the plan has finished.
    pub fn pending(&self) -> (r: Option<GitCommand>)
        ensures
            match r {
                Some(command) => self@.pending() == Some(command@),
                None => self@.pending() is None,
            },
    {
        match self {
            CommitPlan::Unstaging { .. } => Some(GitCommand::UnstageAll),
            CommitPlan::Staging { current, .. } => Some(GitCommand::Stage(current.clone())),
            CommitPlan::Committing { message } => Some(GitCommand::Commit(message.clone())),
            CommitPlan::Finished(_) => None,
        }
    }

    /// Takes note of how the pending command ended, and moves on.
    pub fn record(self, outcome: &RunOutcome) -> (r: CommitPlan)
        ensures
            r@ == self@.after(outcome@),
    {
        match self {
            CommitPlan::Unstaging { message, files } => staging(message, files),
            CommitPlan::Staging { message, current, rest } => match outcome.failure() {
                Some(text) => CommitPlan::Finished(Err(text)),
                None => staging(message, rest),
            },
            CommitPlan::Committing { message } => match outcome.failure() {
                Some(text) => CommitPlan::Finished(Err(text)),
                None => CommitPlan::Finished(Ok(())),
            },
            CommitPlan::Finished(result) => CommitPlan::Finished(result),
        }
    }

    /// How the plan ended, `None` while a command is pending.
    pub fn result(&self) -> (r: Option<Result<(), String>>)
        ensures
            match r {
                None => !(self@ is Finished),
                Some(Ok(_)) => self@ == CommitPlanView::Finished(Ok(())),
                Some(Err(text)) => self@ == CommitPlanView::Finished(Err(text@)),
            },
    {
        match self {
            CommitPlan::Finished(Ok(_)) => Some(Ok(())),
            CommitPlan::Finished(Err(text)) => Some(Err(text.clone())),
            _ => None,
        }
    }
}

/// A run that exited with success.
pub open spec fn succeeded() -> RunOutcomeView {
    RunOutcomeView::Exited { success: true, stderr: Seq::empty() }
}

/// The commands that `plan` issues from here on if each of them succeeds.
pub open spec fn commands_on_success(plan: CommitPlanView) -> Seq<GitCommandView>
    decreases plan.commands_left(),
{
    match plan.pending() {
        Some(command) => seq![command] + commands_on_success(plan.after(succeeded())),
        None => Seq::empty(),
    }
}

/// One `git add` for each of `files`, in their order.
pub open spec fn stagings(files: Seq<Seq<char>>) -> Seq<GitCommandView> {
    files.map_values(|path: Seq<char>| GitCommandView::Stage(path))
}

/// The paths staged after `command`, where the index is taken as the set of
/// staged paths: unstaging and committing empty it, staging adds one path.
pub open spec fn index_after(index: Set<Seq<char>>, command: GitCommandView) -> Set<Seq<char>> {
    match command {
        GitCommandView::UnstageAll => Set::empty(),
        GitCommandView::Stage(path) => index.insert(path),
        GitCommandView::Commit(_) => Set::empty(),
        _ => index,
    }
}

/// The paths that the commits among `commands` take up, when the commands
/// run in order and `index` is staged before the first.
pub open spec fn committed(commands: Seq<GitCommandView>, index: Set<Seq<char>>) -> Set<
    Seq<char>,
>
    decreases commands.len(),
{
    if commands.len() == 0 {
        Set::empty()
    } else {
        let later = committed(commands.drop_first(), index_after(index, commands[0]));
        match commands[0] {
            GitCommandView::Commit(_) => index + later,
            _ => later,
        }
    }
}

proof fn lemma_staging_commands(message: Seq<char>, files: Seq<Seq<char>>)
    ensures
        commands_on_success(staging_of(message, files)) == stagings(files) + seq![
            GitCommandView::Commit(message),
        ],
    decreases files.len(),
{
    let commit = seq![GitCommandView::Commit(message)];
    if files.len() > 0 {
        let rest = files.drop_first();
        lemma_staging_commands(message, rest);
        assert(staging_of(message, files).after(succeeded()) == staging_of(message, rest));
        assert(seq![GitCommandView::Stage(files[0])] + (stagings(rest) + commit) =~= stagings(files)
            + commit);
    } else {
        let last = CommitPlanView::Committing { message };
        assert(commands_on_success(last.after(succeeded())) =~= Seq::empty());
        assert(commands_on_success(last) =~= stagings(files) + commit);
    }
}

/// A plan whose commands all succeed unstages everything, then stages each
/// chosen file in order, then commits, and runs nothing else.
pub proof fn plan_runs_unstage_stage_commit(message: Seq<char>, files: Seq<Seq<char>>)
    ensures
        commands_on_success(CommitPlanView::Unstaging { message, files }) == seq![
            GitCommandView::UnstageAll,
        ] + stagings(files) + seq![GitCommandView::Commit(message)],
{
    let start = CommitPlanView::Unstaging { message, files };
    lemma_staging_commands(message, files);
    assert(start.after(succeeded()) == staging_of(message, files));
    assert(seq![GitCommandView::UnstageAll] + (stagings(files) + seq![
        GitCommandView::Commit(message),
    ]) =~= seq![GitCommandView::UnstageAll] + stagings(files) + seq![
        GitCommandView::Commit(message),
    ]);
}

proof fn lemma_commit_takes_staged(
    message: Seq<char>,
    files: Seq<Seq<char>>,
    index: Set<Seq<char>>,
)
    ensures
        committed(stagings(files) + seq![GitCommandView::Commit(message)], index) == index
            + files.to_set(),
    decreases files.len(),
{
    let commands = stagings(files) + seq![GitCommandView::Commit(message)];
    if files.len() > 0 {
        let rest = files.drop_first();
        lemma_commit_takes_staged(message, rest, index.insert(files[0]));
        assert(commands.drop_first() =~= stagings(rest) + seq![GitCommandView::Commit(message)]);
        assert forall|path: Seq<char>| #[trigger]
            files.to_set().contains(path) <==> path == files[0] || rest.to_set().contains(
                path,
            ) by {
            if files.contains(path) {
                let i = choose|i: int| 0 <= i < files.len() && files[i] == path;
                if i > 0 {
                    assert(rest[i - 1] == path);
                }
            }
            if rest.contains(path) {
                let i = choose|i: int| 0 <= i < rest.len() && rest[i] == path;
                assert(files[i + 1] == path);
            }
        }
        assert(index.insert(files[0]) + rest.to_set() =~= index + files.to_set());
    } else {
        assert(commands.drop_first() =~= Seq::empty());
        assert(committed(commands.drop_first(), Set::empty()) =~= Set::empty());
        assert(index + Set::empty() =~= index + files.to_set());
    }
}

/// Whatever was staged before, a plan whose commands all succeed commits
/// the chosen files and nothing else: a path that is staged at the start and
/// not among `files` stays out of the commit.
pub proof fn plan_commits_chosen_files_only(
    message: Seq<char>,
    files: Seq<Seq<char>>,
    staged_before: Set<Seq<char>>,
)
    ensures
        committed(
            commands_on_success(CommitPlanView::Unstaging { message, files }),
            staged_before,
        ) == files.to_set(),
        forall|path: Seq<char>|
            staged_before.contains(path) && !files.contains(path) ==> !(#[trigger] committed(
                commands_on_success(CommitPlanView::Unstaging { message, files }),
                staged_before,
            ).contains(path)),
{
    let tail = stagings(files) + seq![GitCommandView::Commit(message)];
    let commands = commands_on_success(CommitPlanView::Unstaging { message, files });
    plan_runs_unstage_stage_commit(message, files);
    assert(commands =~= seq![GitCommandView::UnstageAll] + tail);
    assert(commands.drop_first() =~= tail);
    lemma_commit_takes_staged(message, files, Set::empty());
    assert(Set::<Seq<char>>::empty() + files.to_set() =~= files.to_set());
}

/// A staging that fails ends the plan with that failure: no further file is
/// staged and nothing is committed.
pub proof fn failed_staging_ends_plan(plan: CommitPlanView, outcome: RunOutcomeView)
    requires
        plan is Staging,
        outcome.failure() is Some,
    ensures
        plan.after(outcome) == CommitPlanView::Finished(Err(outcome.failure()->0)),
        plan.after(outcome).pending() is None,
        commands_on_success(plan.after(outcome)) == Seq::<GitCommandView>::empty(),
{
}

} // verus!
