//! The GitHub CLI calls the dashboard makes, and the pull request numbers
//! that it attaches to pull request runs.

use vstd::prelude::*;
use vstd::string::*;
use crate::config::{opt_text, Filters, Settings};
use crate::model::Run;
use crate::text::{decimal, decimal_text, has_non_white_space, lemma_trimmed_empty, text_eq, trim_text};

verus! {

/// The fields asked of `gh run list`.
pub const JSON_FIELDS: &'static str = "attempt,conclusion,createdAt,databaseId,displayTitle,event,headBranch,headSha,name,number,startedAt,status,updatedAt,workflowDatabaseId,workflowName";

/// The fields asked of `gh pr list` for the pull request table.
pub const PR_JSON_FIELDS: &'static str = "author,baseRefName,createdAt,headRefName,isDraft,number,title,updatedAt";

/// The fields asked of `gh pr list` to find the pull requests of runs.
pub const RUN_PR_JSON_FIELDS: &'static str = "headRefName,number";

/// Runs a program with arguments and hands back its output.
pub trait CommandRunner {
    /// Whether `out` is an outcome that running `program` with `args` can
    /// have: the standard output, or the reason of a failure. A runner that
    /// says nothing of its outcomes allows each of them.
    open spec fn can_give(&self, program: Seq<char>, args: Seq<Seq<char>>, out: Result<Seq<char>, Seq<char>>) -> bool {
        true
    }

    /// Runs `program` with `args`.
    fn run(&self, program: &str, args: &[String]) -> (r: Result<String, String>)
        ensures
            self.can_give(program@, args@.map_values(|a: String| a@), result_text(r)),
    ;
}

/// The outcome of a run with its texts as sequences of characters.
pub open spec fn result_text(r: Result<String, String>) -> Result<Seq<char>, Seq<char>> {
    match r {
        Ok(s) => Ok(s@),
        Err(e) => Err(e@),
    }
}

/// The texts of a list of arguments.
pub open spec fn args_text(args: Seq<String>) -> Seq<Seq<char>> {
    args.map_values(|a: String| a@)
}

fn strings_from(parts: &Vec<&str>) -> (r: Vec<String>)
    ensures
        args_text(r@) == parts@.map_values(|p: &str| p@),
{
    let mut out: Vec<String> = Vec::new();
    let mut i: usize = 0;
    while i < parts.len()
        invariant
            i <= parts@.len(),
            args_text(out@) =~= parts@.take(i as int).map_values(|p: &str| p@),
        decreases parts@.len() - i,
    {
        let ghost before = out@;
        out.push(parts[i].to_owned());
        assert(args_text(out@) =~= args_text(before).push(parts@[i as int]@));
        assert(parts@.take(i + 1) =~= parts@.take(i as int).push(parts@[i as int]));
        i = i + 1;
    }
    assert(parts@.take(i as int) =~= parts@);
    out
}

/// The arguments of `gh run list` for `repo`: at most `limit` runs, the
/// fields the dashboard reads, then each filter that is set.
pub open spec fn spec_run_list_args(repo: Seq<char>, limit: usize, filters: Filters) -> Seq<Seq<char>> {
    seq!["run"@, "list"@, "--repo"@, repo, "--limit"@, decimal(limit as nat), "--json"@, JSON_FIELDS@]
        + filter_args("--branch"@, opt_text(filters.branch)) + filter_args(
        "--workflow"@,
        opt_text(filters.workflow),
    ) + filter_args("--status"@, opt_text(filters.status)) + filter_args(
        "--event"@,
        opt_text(filters.event),
    )
}

/// The flag and the value of a filter that is set, nothing otherwise.
pub open spec fn filter_args(flag: Seq<char>, value: Option<Seq<char>>) -> Seq<Seq<char>> {
    match value {
        Some(v) => seq![flag, v],
        None => seq![],
    }
}

/// Appends the flag and the value of a filter that is set.
pub fn push_filter(args: &mut Vec<String>, flag: &str, value: &Option<String>)
    ensures
        args_text(final(args)@) == args_text(old(args)@) + filter_args(flag@, opt_text(*value)),
{
    match value {
        Some(v) => {
            args.push(flag.to_owned());
            args.push(v.as_str().to_owned());
            assert(args_text(args@) =~= args_text(old(args)@) + seq![flag@, v@]);
        },
        None => {
            assert(args_text(args@) =~= args_text(old(args)@) + seq![]);
        },
    }
}

/// The arguments of `gh run list` for `repo`, with the filters that are set.
pub fn run_list_args(repo: &str, limit: usize, filters: &Filters) -> (r: Vec<String>)
    ensures
        args_text(r@) == spec_run_list_args(repo@, limit, *filters),
{
    let limit_text = decimal_text(limit as u64);
    let mut args = strings_from(
        &vec!["run", "list", "--repo", repo, "--limit", limit_text.as_str(), "--json", JSON_FIELDS],
    );
    assert(args_text(args@) =~= seq![
        "run"@,
        "list"@,
        "--repo"@,
        repo@,
        "--limit"@,
        decimal(limit as nat),
        "--json"@,
        JSON_FIELDS@,
    ]);
    push_filter(&mut args, "--branch", &filters.branch);
    push_filter(&mut args, "--workflow", &filters.workflow);
    push_filter(&mut args, "--status", &filters.status);
    push_filter(&mut args, "--event", &filters.event);
    args
}

/// The arguments of `gh pr list` for the open pull requests of `repo`,
/// most recently updated first, at most `limit` of them.
pub open spec fn spec_pr_list_args(repo: Seq<char>, limit: usize) -> Seq<Seq<char>> {
    seq![
        "pr"@,
        "list"@,
        "--repo"@,
        repo,
        "--state"@,
        "open"@,
        "--search"@,
        "sort:updated-desc"@,
        "--limit"@,
        decimal(limit as nat),
        "--json"@,
        PR_JSON_FIELDS@,
    ]
}

/// The arguments of `gh pr list` for the open pull requests of `repo`.
pub fn pr_list_args(repo: &str, limit: usize) -> (r: Vec<String>)
    ensures
        args_text(r@) == spec_pr_list_args(repo@, limit),
{
    let limit_text = decimal_text(limit as u64);
    let r = strings_from(
        &vec![
            "pr",
            "list",
            "--repo",
            repo,
            "--state",
            "open",
            "--search",
            "sort:updated-desc",
            "--limit",
            limit_text.as_str(),
            "--json",
            PR_JSON_FIELDS,
        ],
    );
    assert(args_text(r@) =~= spec_pr_list_args(repo@, limit));
    r
}

/// The arguments of `gh pr list` for the pull requests of any state of
/// `repo` that runs may belong to: as many as there are runs, and at least
/// a hundred.
pub open spec fn spec_run_pr_list_args(repo: Seq<char>, run_count: usize) -> Seq<Seq<char>> {
    seq![
        "pr"@,
        "list"@,
        "--repo"@,
        repo,
        "--state"@,
        "all"@,
        "--search"@,
        "sort:updated-desc"@,
        "--limit"@,
        decimal(
            if run_count > 100 {
                run_count as nat
            } else {
                100
            },
        ),
        "--json"@,
        RUN_PR_JSON_FIELDS@,
    ]
}

/// The arguments of `gh pr list` that find the pull requests of runs.
pub fn run_pr_list_args(repo: &str, run_count: usize) -> (r: Vec<String>)
    ensures
        args_text(r@) == spec_run_pr_list_args(repo@, run_count),
{
    let count = if run_count > 100 {
        run_count
    } else {
        100
    };
    let count_text = decimal_text(count as u64);
    let r = strings_from(
        &vec![
            "pr",
            "list",
            "--repo",
            repo,
            "--state",
            "all",
            "--search",
            "sort:updated-desc",
            "--limit",
            count_text.as_str(),
            "--json",
            RUN_PR_JSON_FIELDS,
        ],
    );
    assert(args_text(r@) =~= spec_run_pr_list_args(repo@, run_count));
    r
}

/// Why the repository could not be inferred from the working directory.
pub const REPO_INFER_ERROR: &'static str = "failed to infer repository. Run from a GitHub repo or pass --repo owner/name";

/// Why the answer of `gh repo view` could not be read.
pub const REPO_PARSE_ERROR: &'static str = "failed to parse gh repo view JSON";

/// The string held at `field` of the JSON object written in `text`; `None`
/// where `text` is not JSON, not an object, or has no string there.
pub uninterp spec fn json_string_field(text: Seq<char>, field: Seq<char>) -> Option<Seq<char>>;

/// Reads `text` with `serde_json::from_str` as a `serde_json::Value` and
/// takes the string at `field`. Claimed: the result is `json_string_field`
/// of the text and the field's name, a function of the two alone.
#[verifier::external_body]
fn json_field(text: &str, field: &str) -> (r: Option<String>)
    ensures
        match json_string_field(text@, field@) {
            Some(v) => r is Some && r->Some_0@ == v,
            None => r is None,
        },
{
    match serde_json::from_str::<serde_json::Value>(text) {
        Ok(value) => match value.get(field) {
            Some(serde_json::Value::String(s)) => Some(s.clone()),
            _ => None,
        },
        Err(_) => None,
    }
}

/// The arguments of `gh repo view` that ask for the repository's name.
pub open spec fn spec_repo_view_args() -> Seq<Seq<char>> {
    seq!["repo"@, "view"@, "--json"@, "nameWithOwner"@]
}

/// The repository that `gh repo view` names: its failure, an answer that
/// is not read, and a blank name are each refused.
pub open spec fn spec_repo_from_view(out: Result<Seq<char>, Seq<char>>) -> Result<Seq<char>, Seq<char>> {
    match out {
        Err(e) => Err(REPO_INFER_ERROR@ + ": "@ + e),
        Ok(text) => match json_string_field(text, "nameWithOwner"@) {
            None => Err(REPO_PARSE_ERROR@),
            Some(name) => if has_non_white_space(name) {
                Ok(name)
            } else {
                Err(REPO_INFER_ERROR@)
            },
        },
    }
}

/// The repository named by the outcome of `gh repo view`.
pub fn repo_from_view(out: Result<String, String>) -> (r: Result<String, String>)
    ensures
        result_text(r) == spec_repo_from_view(result_text(out)),
{
    match out {
        Err(e) => {
            let mut m = REPO_INFER_ERROR.to_owned();
            m.append(": ");
            m.append(e.as_str());
            Err(m)
        },
        Ok(text) => match json_field(text.as_str(), "nameWithOwner") {
            None => Err(REPO_PARSE_ERROR.to_owned()),
            Some(name) => {
                let t = trim_text(name.as_str());
                proof {
                    lemma_trimmed_empty(name@);
                }
                if t.as_str().is_empty() {
                    Err(REPO_INFER_ERROR.to_owned())
                } else {
                    Ok(name)
                }
            },
        },
    }
}

/// The repository to show: the configured one, else the one `gh repo view`
/// names for the working directory.
pub fn resolve_repo<R: CommandRunner>(settings: &Settings, runner: &R) -> (r: Result<String, String>)
    ensures
        settings.repo is Some ==> r is Ok && r->Ok_0@ == settings.repo->Some_0@,
        settings.repo is None ==> exists|out: Result<Seq<char>, Seq<char>>|
            {
                &&& runner.can_give("gh"@, spec_repo_view_args(), out)
                &&& result_text(r) == #[trigger] spec_repo_from_view(out)
            },
{
    match &settings.repo {
        Some(repo) => Ok(repo.clone()),
        None => {
            let args = strings_from(&vec!["repo", "view", "--json", "nameWithOwner"]);
            assert(args_text(args@) =~= spec_repo_view_args());
            let out = runner.run("gh", args.as_slice());
            let r = repo_from_view(out);
            assert(result_text(r) == spec_repo_from_view(result_text(out)));
            r
        },
    }
}

/// The arguments of `gh run view` that open run `id` of `repo` in the
/// browser.
pub open spec fn spec_open_run_args(repo: Seq<char>, id: u64) -> Seq<Seq<char>> {
    seq!["run"@, "view"@, decimal(id as nat), "--repo"@, repo, "--web"@]
}

/// The arguments of `gh pr view` that open pull request `number` of `repo`
/// in the browser.
pub open spec fn spec_open_pull_request_args(repo: Seq<char>, number: u64) -> Seq<Seq<char>> {
    seq!["pr"@, "view"@, decimal(number as nat), "--repo"@, repo, "--web"@]
}

/// Opens run `id` of `repo` in the browser through `gh`. It succeeds exactly
/// when the run of `gh` does, and hands on its failure.
pub fn open_run<R: CommandRunner>(repo: &str, id: u64, runner: &R) -> (r: Result<(), String>)
    ensures
        exists|out: Result<Seq<char>, Seq<char>>|
            {
                &&& runner.can_give("gh"@, spec_open_run_args(repo@, id), out)
                &&& (r is Ok <==> out is Ok)
                &&& (r is Err ==> r->Err_0@ == out->Err_0)
            },
{
    let id_text = decimal_text(id);
    let args = strings_from(&vec!["run", "view", id_text.as_str(), "--repo", repo, "--web"]);
    assert(args_text(args@) =~= spec_open_run_args(repo@, id));
    let out = runner.run("gh", args.as_slice());
    match out {
        Ok(_) => Ok(()),
        Err(e) => Err(e),
    }
}

/// Opens pull request `number` of `repo` in the browser through `gh`. It
/// succeeds exactly when the run of `gh` does, and hands on its failure.
pub fn open_pull_request<R: CommandRunner>(repo: &str, number: u64, runner: &R) -> (r: Result<
    (),
    String,
>)
    ensures
        exists|out: Result<Seq<char>, Seq<char>>|
            {
                &&& runner.can_give("gh"@, spec_open_pull_request_args(repo@, number), out)
                &&& (r is Ok <==> out is Ok)
                &&& (r is Err ==> r->Err_0@ == out->Err_0)
            },
{
    let number_text = decimal_text(number);
    let args = strings_from(&vec!["pr", "view", number_text.as_str(), "--repo", repo, "--web"]);
    assert(args_text(args@) =~= spec_open_pull_request_args(repo@, number));
    let out = runner.run("gh", args.as_slice());
    match out {
        Ok(_) => Ok(()),
        Err(e) => Err(e),
    }
}

/// A pull request as `gh pr list` lists it to find the pull requests of
/// runs.
#[derive(Debug, Clone)]
pub struct RunPullRequest {
    pub head_ref_name: String,
    pub number: u64,
}

/// Whether any run was started by a pull request event.
pub open spec fn spec_any_pull_request_event(runs: Seq<Run>) -> bool {
    exists|k: int| 0 <= k < runs.len() && #[trigger] runs[k].spec_is_pull_request_event()
}

/// Whether any run was started by a pull request event, so that the pull
/// requests of runs need to be looked up.
pub fn needs_run_pull_requests(runs: &Vec<Run>) -> (r: bool)
    ensures
        r == spec_any_pull_request_event(runs@),
{
    let mut k: usize = 0;
    while k < runs.len()
        invariant
            k <= runs@.len(),
            forall|j: int| 0 <= j < k ==> !(#[trigger] runs@[j].spec_is_pull_request_event()),
        decreases runs@.len() - k,
    {
        if runs[k].is_pull_request_event() {
            return true;
        }
        k = k + 1;
    }
    false
}

/// The number of the first listed pull request whose head branch is
/// `branch`, if any.
pub open spec fn first_pr_for_branch(prs: Seq<RunPullRequest>, branch: Seq<char>) -> Option<u64>
    decreases prs.len(),
{
    if prs.len() == 0 {
        None
    } else if prs[0].head_ref_name@ == branch {
        Some(prs[0].number)
    } else {
        first_pr_for_branch(prs.drop_first(), branch)
    }
}

fn find_pr_for_branch(prs: &Vec<RunPullRequest>, branch: &str) -> (r: Option<u64>)
    ensures
        r == first_pr_for_branch(prs@, branch@),
{
    let mut k: usize = 0;
    assert(prs@.skip(0) =~= prs@);
    while k < prs.len()
        invariant
            k <= prs@.len(),
            first_pr_for_branch(prs@, branch@) == first_pr_for_branch(prs@.skip(k as int), branch@),
        decreases prs@.len() - k,
    {
        assert(prs@.skip(k as int)[0] == prs@[k as int]);
        assert(prs@.skip(k as int).drop_first() =~= prs@.skip(k + 1));
        if text_eq(prs[k].head_ref_name.as_str(), branch) {
            return Some(prs[k].number);
        }
        k = k + 1;
    }
    None
}

/// The run with its pull request number filled in from `prs` when it was
/// started by a pull request event and has none yet.
pub open spec fn with_pr_number(run: Run, prs: Seq<RunPullRequest>) -> Run {
    if run.spec_is_pull_request_event() && run.pr_number is None {
        Run { pr_number: first_pr_for_branch(prs, run.head_branch@), ..run }
    } else {
        run
    }
}

/// Gives each run started by a pull request event, and without a pull
/// request number, the number of the first listed pull request of its head
/// branch; other runs are left as they are.
pub fn populate_run_pr_numbers(runs: &mut Vec<Run>, prs: &Vec<RunPullRequest>)
    ensures
        final(runs)@.len() == old(runs)@.len(),
        forall|k: int|
            0 <= k < old(runs)@.len() ==> #[trigger] final(runs)@[k] == with_pr_number(
                old(runs)@[k],
                prs@,
            ),
{
    let mut k: usize = 0;
    while k < runs.len()
        invariant
            k <= runs@.len(),
            runs@.len() == old(runs)@.len(),
            forall|j: int| 0 <= j < k ==> #[trigger] runs@[j] == with_pr_number(old(runs)@[j], prs@),
            forall|j: int| k <= j < runs@.len() ==> #[trigger] runs@[j] == old(runs)@[j],
        decreases runs@.len() - k,
    {
        if runs[k].is_pull_request_event() && runs[k].pr_number.is_none() {
            let number = find_pr_for_branch(prs, runs[k].head_branch.as_str());
            runs[k].pr_number = number;
        }
        k = k + 1;
    }
}

} // verus!
