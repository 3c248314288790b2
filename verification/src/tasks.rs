//! Work items of a run: the task source and the per-task download command.
//!
//! A run reads a line-oriented list of URLs; every non-empty line becomes one
//! download task. Each task is handed to the external download tool with one
//! fixed, non-configurable argument set, and its worker reports completion
//! with a single result message.

use vstd::prelude::*;

verus! {

/// One unit of work: a single remote media item, retrieved into the shared
/// run folder of this run.
pub struct DownloadTask {
    pub url: String,
    pub run_folder: String,
}

impl DownloadTask {
    /// Builds the task for one URL of the task list.
    pub fn new(url: String, run_folder: String) -> (t: DownloadTask)
        ensures
            t.url == url,
            t.run_folder == run_folder,
    {
        DownloadTask { url, run_folder }
    }
}

/// The completion notice a worker sends once its subprocess has run to
/// completion, whatever the subprocess's own outcome was.
pub struct WorkerResult {
    pub task_reference: String,
    pub status_message: String,
}

/// True of the lines that become tasks: only empty lines are dropped.
pub open spec fn is_task_line(line: Seq<char>) -> bool {
    line.len() > 0
}

/// Keeps every non-empty line of the task list, in order and unchanged.
pub fn collect_task_lines(lines: Vec<String>) -> (tasks: Vec<String>)
    ensures
        tasks@ == lines@.filter(|l: String| is_task_line(l@)),
{
    let ghost pred = |l: String| is_task_line(l@);
    let mut tasks: Vec<String> = Vec::new();
    let mut i: usize = 0;
    proof {
        assert(lines@.take(0int).filter(pred) =~= Seq::<String>::empty()) by {
            reveal(Seq::filter);
        }
    }
    while i < lines.len()
        invariant
            i <= lines.len(),
            tasks@ == lines@.take(i as int).filter(pred),
            pred == (|l: String| is_task_line(l@)),
        decreases lines.len() - i,
    {
        let line_is_task = !lines[i].as_str().is_empty();
        if line_is_task {
            tasks.push(lines[i].clone());
        }
        proof {
            assert(lines@.take(i as int + 1) == lines@.take(i as int).push(lines@[i as int]));
            assert(pred(lines@[i as int]) == line_is_task);
            lines@.take(i as int).lemma_filter_push(lines@[i as int], pred);
            assert(tasks@ == lines@.take(i as int + 1).filter(pred));
        }
        i = i + 1;
    }
    proof {
        assert(lines@.take(lines@.len() as int) == lines@);
    }
    tasks
}

/// The fixed argument set handed to the external download tool for one URL:
/// content filtering on, unbounded retries and fragment retries, a fixed I/O
/// buffer size, and the URL as the final positional argument.
pub open spec fn download_args(url: Seq<char>) -> Seq<Seq<char>> {
    seq![
        "--sponsorblock-remove"@,
        "default"@,
        "--retries"@,
        "infinite"@,
        "--fragment-retries"@,
        "infinite"@,
        "--buffer-size"@,
        "16K"@,
        url,
    ]
}

/// Builds the argument vector for one task's invocation of the external
/// download tool.
pub fn build_download_args(task: &DownloadTask) -> (args: Vec<String>)
    ensures
        args.deep_view() == download_args(task.url@),
{
    let mut args: Vec<String> = Vec::new();
    args.push(String::from_str("--sponsorblock-remove"));
    args.push(String::from_str("default"));
    args.push(String::from_str("--retries"));
    args.push(String::from_str("infinite"));
    args.push(String::from_str("--fragment-retries"));
    args.push(String::from_str("infinite"));
    args.push(String::from_str("--buffer-size"));
    args.push(String::from_str("16K"));
    args.push(task.url.clone());
    proof {
        assert(args.deep_view() =~= download_args(task.url@));
    }
    args
}

/// Builds the completion notice for one finished task.
pub fn worker_result(url: &String) -> (w: WorkerResult)
    ensures
        w.task_reference@ == url@,
        w.status_message@ == "Downloaded "@ + url@,
{
    let mut message = String::from_str("Downloaded ");
    message.append(url.as_str());
    WorkerResult { task_reference: url.clone(), status_message: message }
}

} // verus!
