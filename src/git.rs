//! The git invocations that list the staged changes.
use vstd::prelude::*;
use vstd::string::StringExecFns;

verus! {

broadcast use vstd::string::group_string_axioms;

/// A git invocation: the arguments that follow `git`.
#[derive(Debug, Clone)]
pub struct GitCommand {
    pub args: Vec<String>,
}

/// The texts of a list of strings.
pub open spec fn texts(v: Seq<String>) -> Seq<Seq<char>> {
    v.map_values(|s: String| s@)
}

/// The pathspecs that leave out lock files and minified scripts.
pub open spec fn excluded_paths() -> Seq<Seq<char>> {
    seq![
        ":(exclude)*-lock.json"@,
        ":(exclude)package-lock.json"@,
        ":(exclude)pnpm-lock.yaml"@,
        ":(exclude)*.min.js"@,
    ]
}

fn push_exclusions(args: &mut Vec<String>)
    ensures
        texts(final(args)@) == texts(old(args)@) + excluded_paths(),
{
    let ghost start = args@;
    args.push(String::from_str(":(exclude)*-lock.json"));
    args.push(String::from_str(":(exclude)package-lock.json"));
    args.push(String::from_str(":(exclude)pnpm-lock.yaml"));
    args.push(String::from_str(":(exclude)*.min.js"));
    assert(texts(args@) =~= texts(start) + excluded_paths());
}

/// The invocation that prints the staged diff of the files matching
/// `extensions`, leaving out lock files and minified scripts.
pub fn get_git_diff(extensions: &Vec<String>) -> (r: GitCommand)
    ensures
        texts(r.args@) == seq!["diff"@, "--cached"@, "--"@] + texts(extensions@) + excluded_paths(),
{
    let mut args: Vec<String> = Vec::new();
    args.push(String::from_str("diff"));
    args.push(String::from_str("--cached"));
    args.push(String::from_str("--"));
    let ghost head = args@;
    assert(texts(head) =~= seq!["diff"@, "--cached"@, "--"@]);
    let mut i: usize = 0;
    while i < extensions.len()
        invariant
            i <= extensions@.len(),
            texts(args@) == texts(head) + texts(extensions@.subrange(0, i as int)),
        decreases extensions@.len() - i,
    {
        let ghost before = args@;
        args.push(extensions[i].clone());
        assert(texts(args@) =~= texts(before).push(extensions@[i as int]@));
        assert(texts(extensions@.subrange(0, i + 1)) =~= texts(extensions@.subrange(0, i as int)).push(
            extensions@[i as int]@,
        ));
        i = i + 1;
    }
    assert(extensions@.subrange(0, extensions@.len() as int) =~= extensions@);
    push_exclusions(&mut args);
    GitCommand { args }
}

/// The arguments that list the staged files with their status.
pub open spec fn staged_files_args() -> Seq<Seq<char>> {
    seq!["diff"@, "--cached"@, "--name-status"@, "--"@] + excluded_paths()
}

/// The invocation that lists the staged files with their status, leaving out
/// lock files and minified scripts.
pub fn get_staged_files() -> (r: GitCommand)
    ensures
        texts(r.args@) == staged_files_args(),
{
    let mut args: Vec<String> = Vec::new();
    args.push(String::from_str("diff"));
    args.push(String::from_str("--cached"));
    args.push(String::from_str("--name-status"));
    args.push(String::from_str("--"));
    assert(texts(args@) =~= seq!["diff"@, "--cached"@, "--name-status"@, "--"@]);
    push_exclusions(&mut args);
    GitCommand { args }
}

/// What a run does with what git printed.
#[derive(Debug, Clone)]
pub enum DiffStep {
    /// Run this invocation and hand its output to `after_file_list`.
    Run(GitCommand),
    /// Summarize this text.
    Send(String),
    /// Nothing is staged: there is nothing to summarize.
    NothingStaged,
}

/// What follows the staged diff of the summarized files: where it is empty,
/// the list of staged files is asked for in its place.
pub fn after_code_diff(code_diff: String) -> (r: DiffStep)
    ensures
        code_diff@.len() == 0 ==> (r matches DiffStep::Run(c) && texts(c.args@)
            == staged_files_args()),
        code_diff@.len() > 0 ==> r == DiffStep::Send(code_diff),
{
    if code_diff.as_str().is_empty() {
        DiffStep::Run(get_staged_files())
    } else {
        DiffStep::Send(code_diff)
    }
}

/// What follows the list of staged files: where it is empty, nothing is staged.
pub fn after_file_list(list: String) -> (r: DiffStep)
    ensures
        list@.len() == 0 ==> r == DiffStep::NothingStaged,
        list@.len() > 0 ==> r == DiffStep::Send(list),
{
    if list.as_str().is_empty() {
        DiffStep::NothingStaged
    } else {
        DiffStep::Send(list)
    }
}

} // verus!
