use gitpop::commit::{CommitPlan, GitCommand, RunOutcome};

fn ok() -> RunOutcome {
    RunOutcome::Exited { success: true, stderr: String::new() }
}

fn failed(stderr: &str) -> RunOutcome {
    RunOutcome::Exited { success: false, stderr: stderr.to_string() }
}

fn not_started(reason: &str) -> RunOutcome {
    RunOutcome::NotStarted { reason: reason.to_string() }
}

fn strings(items: &[&str]) -> Vec<String> {
    items.iter().map(|s| s.to_string()).collect()
}

/// Runs the plan, answering the n-th command with the n-th outcome.
fn drive(plan: CommitPlan, outcomes: Vec<RunOutcome>) -> (Vec<GitCommand>, CommitPlan) {
    let mut plan = plan;
    let mut issued = Vec::new();
    for outcome in outcomes {
        match plan.pending() {
            Some(command) => issued.push(command),
            None => break,
        }
        plan = plan.record(&outcome);
    }
    (issued, plan)
}

#[test]
fn git_arguments() {
    assert_eq!(GitCommand::Status.args(), strings(&["status", "--porcelain"]));
    assert_eq!(GitCommand::Diff.args(), strings(&["diff"]));
    assert_eq!(GitCommand::DiffCached.args(), strings(&["diff", "--cached"]));
    assert_eq!(GitCommand::UnstageAll.args(), strings(&["restore", "--staged", "."]));
    assert_eq!(GitCommand::Stage("a b.txt".to_string()).args(), strings(&["add", "a b.txt"]));
    assert_eq!(
        GitCommand::Commit("feat: x".to_string()).args(),
        strings(&["commit", "-m", "feat: x"])
    );
}

#[test]
fn commit_of_one_file_unstages_stages_commits() {
    let plan = CommitPlan::new("feat: add a".to_string(), strings(&["a.txt"]));
    let (issued, end) = drive(plan, vec![ok(), ok(), ok(), ok()]);
    assert_eq!(
        issued,
        vec![
            GitCommand::UnstageAll,
            GitCommand::Stage("a.txt".to_string()),
            GitCommand::Commit("feat: add a".to_string()),
        ]
    );
    assert_eq!(end.result(), Some(Ok(())));
    assert_eq!(end.pending(), None);
}

#[test]
fn only_the_listed_files_are_staged() {
    let plan = CommitPlan::new("m".to_string(), strings(&["a.txt"]));
    let (issued, _) = drive(plan, vec![ok(), ok(), ok()]);
    assert_eq!(issued[0], GitCommand::UnstageAll);
    let staged: Vec<&GitCommand> =
        issued.iter().filter(|c| matches!(c, GitCommand::Stage(_))).collect();
    assert_eq!(staged, vec![&GitCommand::Stage("a.txt".to_string())]);
    assert_eq!(issued.last(), Some(&GitCommand::Commit("m".to_string())));
}

#[test]
fn files_are_staged_in_order() {
    let plan = CommitPlan::new("m".to_string(), strings(&["c", "a", "b", "a"]));
    let (issued, end) = drive(plan, vec![ok(), ok(), ok(), ok(), ok(), ok()]);
    assert_eq!(
        issued,
        vec![
            GitCommand::UnstageAll,
            GitCommand::Stage("c".to_string()),
            GitCommand::Stage("a".to_string()),
            GitCommand::Stage("b".to_string()),
            GitCommand::Stage("a".to_string()),
            GitCommand::Commit("m".to_string()),
        ]
    );
    assert_eq!(end.result(), Some(Ok(())));
}

#[test]
fn no_files_means_unstage_then_commit() {
    let plan = CommitPlan::new("m".to_string(), vec![]);
    let (issued, end) = drive(plan, vec![ok(), ok(), ok()]);
    assert_eq!(issued, vec![GitCommand::UnstageAll, GitCommand::Commit("m".to_string())]);
    assert_eq!(end.result(), Some(Ok(())));
}

#[test]
fn a_failed_unstage_is_passed_over() {
    let plan = CommitPlan::new("m".to_string(), strings(&["a"]));
    let (issued, end) = drive(plan, vec![failed("nothing staged"), ok(), ok()]);
    assert_eq!(issued.len(), 3);
    assert_eq!(end.result(), Some(Ok(())));

    let plan = CommitPlan::new("m".to_string(), strings(&["a"]));
    let (issued, end) = drive(plan, vec![not_started("no git"), ok(), ok()]);
    assert_eq!(issued.len(), 3);
    assert_eq!(end.result(), Some(Ok(())));
}

#[test]
fn first_failed_staging_ends_the_plan() {
    let plan = CommitPlan::new("m".to_string(), strings(&["a", "b", "c"]));
    let (issued, end) =
        drive(plan, vec![ok(), ok(), failed("fatal: pathspec 'b' did not match"), ok(), ok()]);
    assert_eq!(
        issued,
        vec![
            GitCommand::UnstageAll,
            GitCommand::Stage("a".to_string()),
            GitCommand::Stage("b".to_string()),
        ]
    );
    assert_eq!(end.result(), Some(Err("fatal: pathspec 'b' did not match".to_string())));
    assert_eq!(end.pending(), None);
}

#[test]
fn staging_that_cannot_start_ends_the_plan() {
    let plan = CommitPlan::new("m".to_string(), strings(&["a"]));
    let (issued, end) = drive(plan, vec![ok(), not_started("No such file or directory"), ok()]);
    assert_eq!(issued.len(), 2);
    assert_eq!(end.result(), Some(Err("No such file or directory".to_string())));
}

#[test]
fn a_failed_commit_gives_its_standard_error() {
    let plan = CommitPlan::new("m".to_string(), strings(&["a"]));
    let (_, end) = drive(plan, vec![ok(), ok(), failed("nothing to commit")]);
    assert_eq!(end.result(), Some(Err("nothing to commit".to_string())));

    let plan = CommitPlan::new("m".to_string(), vec![]);
    let (_, end) = drive(plan, vec![ok(), not_started("spawn failed")]);
    assert_eq!(end.result(), Some(Err("spawn failed".to_string())));
}

#[test]
fn a_plan_in_progress_has_no_result() {
    let plan = CommitPlan::new("m".to_string(), strings(&["a"]));
    assert_eq!(plan.result(), None);
    let plan = plan.record(&ok());
    assert_eq!(plan.result(), None);
    assert_eq!(plan.pending(), Some(GitCommand::Stage("a".to_string())));
    let plan = plan.record(&ok());
    assert_eq!(plan.result(), None);
    assert_eq!(plan.pending(), Some(GitCommand::Commit("m".to_string())));
}

#[test]
fn a_finished_plan_stays_finished() {
    let plan = CommitPlan::new("m".to_string(), vec![]);
    let (_, end) = drive(plan, vec![ok(), failed("e1")]);
    let again = end.record(&ok());
    assert_eq!(again.result(), Some(Err("e1".to_string())));
    let again = again.record(&failed("e2"));
    assert_eq!(again.result(), Some(Err("e1".to_string())));
    assert_eq!(again.pending(), None);
}

#[test]
fn failure_texts() {
    assert_eq!(ok().failure(), None);
    assert_eq!(failed("boom").failure(), Some("boom".to_string()));
    assert_eq!(failed("").failure(), Some(String::new()));
    assert_eq!(not_started("why").failure(), Some("why".to_string()));
}
