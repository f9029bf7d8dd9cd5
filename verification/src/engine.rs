//! The search coordinator: builds the matcher and the walker, runs the
//! parallel walk with a per-worker scanner, collects every worker message,
//! and assembles the final result. Construction failures abort before any
//! file is touched.

use vstd::prelude::*;

use core::sync::atomic::AtomicBool;
use core::sync::atomic::Ordering;

use crate::channel::{
    lemma_msg_counts, msg_batch, msg_channel, msg_error, msg_matched, msg_searched, recv_all,
    send_msg, spec_batches, spec_errors, spec_files_matched, spec_files_searched, WorkerMsg,
};
use crate::opts::SearchOptions;
use crate::pattern::{build_matcher, compiles_under, diag_under};
use crate::scan::{build_searcher, search_file, searcher_cfg, ScanFailure, SearcherCfg};
use crate::types::{result_wf, Match, SearchError, SearchResult, SearchStats};
use crate::walk::{
    build_walker, entry_is_dir, entry_path_string, entry_size, globs_fail, ignore_error_string,
    spec_glob_fail_message, to_walk_state, types_diag, types_fail, walker_cfg_ok,
    wb_build_parallel, EntryAction,
};

verus! {

/// A moment on the monotonic clock, carried opaquely.
#[verifier::external_type_specification]
#[verifier::external_body]
pub struct ExInstant(std::time::Instant);

/// Relies on `std::time::Instant::now`: the current moment.
#[verifier::external_body]
fn instant_now() -> std::time::Instant {
    std::time::Instant::now()
}

/// Relies on `std::time::Instant::elapsed`: the whole milliseconds passed
/// since the given moment, truncated to 64 bits.
#[verifier::external_body]
fn elapsed_ms(start: &std::time::Instant) -> u64 {
    start.elapsed().as_millis() as u64
}

/// The read-only state shared by every worker of one search: the compiled
/// matcher, the scan settings, the sending half of the hand-off channel,
/// and the cooperative cancellation flag.
pub struct SearchCtx {
    pub matcher: grep_regex::RegexMatcher,
    pub invert: bool,
    pub max_count: Option<u64>,
    pub max_filesize: Option<u64>,
    pub context_before: usize,
    pub context_after: usize,
    pub tx: crossbeam_channel::Sender<WorkerMsg>,
    pub cancel: AtomicBool,
}

/// Builds one worker's private scanner from the shared settings: a
/// line-oriented scanner with line numbers on, NUL-quit binary
/// detection, and the context and invert settings of this search.
fn worker_searcher(ctx: &SearchCtx) -> (s: grep_searcher::Searcher)
    ensures
        searcher_cfg(s) == (SearcherCfg {
            quit_on_nul: true,
            context_before: ctx.context_before,
            context_after: ctx.context_after,
            invert: ctx.invert,
            line_numbers: true,
            multi_line: false,
        }),
{
    build_searcher(ctx.context_before, ctx.context_after, ctx.invert)
}

/// The size gate of the file classifier: a file whose known size exceeds
/// the configured ceiling is skipped without being counted or searched;
/// an unknown size always passes.
pub open spec fn spec_size_permits(size: Option<u64>, max_filesize: Option<u64>) -> bool {
    !(size matches Some(s) && max_filesize matches Some(m) && s > m)
}

/// Decides the size gate for one candidate file.
pub fn size_permits(size: Option<u64>, max_filesize: Option<u64>) -> (r: bool)
    ensures
        r == spec_size_permits(size, max_filesize),
{
    match (size, max_filesize) {
        (Some(s), Some(m)) => s <= m,
        _ => true,
    }
}

/// A candidate entry is scanned exactly when it is not a directory and
/// passes the size gate; anything else is passed over without a message.
pub open spec fn spec_should_scan(is_dir: bool, size: Option<u64>, max_filesize: Option<u64>) -> bool {
    !is_dir && spec_size_permits(size, max_filesize)
}

/// Decides whether one enumerated entry is scanned.
pub fn should_scan(is_dir: bool, size: Option<u64>, max_filesize: Option<u64>) -> (r: bool)
    ensures
        r == spec_should_scan(is_dir, size, max_filesize),
{
    !is_dir && size_permits(size, max_filesize)
}

/// The message a worker sends for one scanned file: the complete batch on
/// success, an empty batch for the suppressed invalid-data failure, and a
/// failure record naming the path otherwise.
pub fn file_outcome_msg(path: String, outcome: Result<Vec<Match>, ScanFailure>) -> (m: WorkerMsg)
    ensures
        outcome matches Ok(batch) ==> m matches WorkerMsg::FileDone { matches } && matches@
            == batch@,
        outcome matches Err(f) ==> (if f.invalid_data {
            m matches WorkerMsg::FileDone { matches } && matches@.len() == 0
        } else {
            m matches WorkerMsg::FileFailed { message } && message@ == path@ + ": "@ + f.message@
        }),
{
    match outcome {
        Ok(batch) => WorkerMsg::FileDone { matches: batch },
        Err(failure) => {
            if failure.invalid_data {
                WorkerMsg::FileDone { matches: Vec::new() }
            } else {
                let mut message = path;
                message.append(": ");
                message.append(failure.message.as_str());
                WorkerMsg::FileFailed { message }
            }
        },
    }
}

/// One worker's handling of one directory entry: honor the cancellation
/// flag, record enumeration failures, pass over directories and oversized
/// files, scan the file, and hand its outcome message to the collector.
/// Workers never skip a subtree: the result is advance or stop.
fn entry_action(
    ctx: &SearchCtx,
    searcher: &mut grep_searcher::Searcher,
    entry: Result<ignore::DirEntry, ignore::Error>,
) -> (r: EntryAction)
    requires
        searcher_cfg(*old(searcher)).line_numbers,
        !searcher_cfg(*old(searcher)).multi_line,
        searcher_cfg(*old(searcher)).invert == ctx.invert,
    ensures
        searcher_cfg(*final(searcher)) == searcher_cfg(*old(searcher)),
        r is Advance || r is Stop,
{
    if ctx.cancel.load(Ordering::Relaxed) {
        return EntryAction::Stop;
    }
    match entry {
        Err(err) => {
            send_msg(&ctx.tx, WorkerMsg::EntryFailed { message: ignore_error_string(&err) });
            EntryAction::Advance
        },
        Ok(ent) => {
            if should_scan(entry_is_dir(&ent), entry_size(&ent), ctx.max_filesize) {
                let path = entry_path_string(&ent);
                let outcome = search_file(&ctx.matcher, searcher, &path, ctx.invert, ctx.max_count);
                send_msg(&ctx.tx, file_outcome_msg(path, outcome));
            }
            EntryAction::Advance
        },
    }
}

/// One worker's per-entry callback, as the walker sees it. The worker's
/// scanner must match this search's settings; it stays so configured.
pub(crate) fn on_entry(
    ctx: &SearchCtx,
    searcher: &mut grep_searcher::Searcher,
    entry: Result<ignore::DirEntry, ignore::Error>,
) -> (r: ignore::WalkState)
    requires
        searcher_cfg(*old(searcher)).line_numbers,
        !searcher_cfg(*old(searcher)).multi_line,
        searcher_cfg(*old(searcher)).invert == ctx.invert,
    ensures
        searcher_cfg(*final(searcher)) == searcher_cfg(*old(searcher)),
{
    to_walk_state(entry_action(ctx, searcher, entry))
}

/// Relies on `ignore::WalkParallel::run`: invokes the factory once per
/// worker thread and each worker's closure once per directory entry, and
/// returns when the walk has wound down. Each worker's scanner is built
/// by `worker_searcher`, which establishes `on_entry`'s precondition;
/// `on_entry` preserves it between entries. The message a worker sends
/// for a scanned file is built by the contracted `file_outcome_msg` over
/// the scan's verified result.
#[verifier::external_body]
fn run_walk(walk: ignore::WalkParallel, ctx: &SearchCtx) {
    walk.run(|| {
        let mut searcher = worker_searcher(ctx);
        Box::new(move |entry| on_entry(ctx, &mut searcher, entry))
    });
}

/// What the collector has drained so far: the matches in arrival order,
/// the recorded error strings, and the file counters.
struct Collected {
    matches: Vec<Match>,
    errors: Vec<String>,
    files_searched: usize,
    files_matched: usize,
}

/// Merges the drained worker messages: the matches are exactly the
/// concatenation of the arrived batches in arrival order (batches are
/// never interleaved), the errors are exactly the arrived failure strings
/// in order, every searched file is counted once, and a matched file is
/// counted for exactly the non-empty batches.
fn collect_outcomes(msgs: std::collections::VecDeque<WorkerMsg>) -> (c: Collected)
    ensures
        c.matches@ == spec_batches(msgs@),
        c.errors@ == spec_errors(msgs@),
        c.files_searched == spec_files_searched(msgs@),
        c.files_matched == spec_files_matched(msgs@),
        c.files_matched <= c.files_searched,
{
    let ghost orig: Seq<WorkerMsg> = msgs@;
    let n = msgs.len();
    proof {
        lemma_msg_counts(orig);
    }
    let mut collected = Collected {
        matches: Vec::new(),
        errors: Vec::new(),
        files_searched: 0,
        files_matched: 0,
    };
    let mut msgs = msgs;
    loop
        invariant_except_break
            n == orig.len(),
            spec_files_matched(orig) <= spec_files_searched(orig) <= n,
            collected.matches@ + spec_batches(msgs@) == spec_batches(orig),
            collected.errors@ + spec_errors(msgs@) == spec_errors(orig),
            collected.files_searched + spec_files_searched(msgs@) == spec_files_searched(orig),
            collected.files_matched + spec_files_matched(msgs@) == spec_files_matched(orig),
            collected.files_matched <= collected.files_searched,
        ensures
            msgs@.len() == 0,
            collected.matches@ + spec_batches(msgs@) == spec_batches(orig),
            collected.errors@ + spec_errors(msgs@) == spec_errors(orig),
            collected.files_searched + spec_files_searched(msgs@) == spec_files_searched(orig),
            collected.files_matched + spec_files_matched(msgs@) == spec_files_matched(orig),
            collected.files_matched <= collected.files_searched,
        decreases msgs@.len(),
    {
        let ghost before: Seq<WorkerMsg> = msgs@;
        match msgs.pop_front() {
            None => {
                break;
            },
            Some(msg) => {
                proof {
                    assert(msg == before.first());
                    assert(msgs@ =~= before.drop_first());
                    assert(spec_batches(before) == msg_batch(before.first()) + spec_batches(
                        msgs@,
                    ));
                    assert(spec_errors(before) == msg_error(before.first()) + spec_errors(msgs@));
                    assert(spec_files_searched(before) == (if msg_searched(before.first()) {
                        1nat
                    } else {
                        0nat
                    }) + spec_files_searched(msgs@));
                    assert(spec_files_matched(before) == (if msg_matched(before.first()) {
                        1nat
                    } else {
                        0nat
                    }) + spec_files_matched(msgs@));
                    lemma_msg_counts(msgs@);
                }
                match msg {
                    WorkerMsg::FileDone { matches: mut batch } => {
                        collected.files_searched = collected.files_searched + 1;
                        if batch.len() > 0 {
                            collected.files_matched = collected.files_matched + 1;
                        }
                        collected.matches.append(&mut batch);
                    },
                    WorkerMsg::FileFailed { message } => {
                        collected.files_searched = collected.files_searched + 1;
                        collected.errors.push(message);
                        proof {
                            assert(collected.errors@ + spec_errors(msgs@) =~= spec_errors(orig));
                        }
                    },
                    WorkerMsg::EntryFailed { message } => {
                        collected.errors.push(message);
                        proof {
                            assert(collected.errors@ + spec_errors(msgs@) =~= spec_errors(orig));
                        }
                    },
                }
            },
        }
    }
    proof {
        assert(collected.matches@ + spec_batches(msgs@) =~= collected.matches@);
        assert(collected.errors@ + spec_errors(msgs@) =~= collected.errors@);
    }
    collected
}

/// Performs one parallel search: compiles the pattern, configures the
/// walker, runs the walk across worker threads, and aggregates every
/// worker's outcome. Fails, before any file is touched, exactly when the
/// pattern does not compile (`InvalidPattern`, checked first), a file-type
/// name is unknown (`InvalidTypeFilter`, checked second) or the glob set
/// is rejected (`InvalidGlob`); every per-file or per-entry failure is
/// instead recorded in the result's error list.
pub fn search_parallel(pattern: &str, path: &str, opts: &SearchOptions) -> (r: Result<
    SearchResult,
    SearchError,
>)
    ensures
        r is Ok <==> compiles_under(pattern@, *opts) && walker_cfg_ok(*opts),
        r matches Err(e) ==> {
            &&& (e is InvalidPattern <==> !compiles_under(pattern@, *opts))
            &&& (e is InvalidTypeFilter <==> compiles_under(pattern@, *opts) && types_fail(*opts))
            &&& (e is InvalidGlob <==> compiles_under(pattern@, *opts) && !types_fail(*opts)
                && globs_fail(*opts))
            &&& (e matches SearchError::InvalidPattern(m) ==> m@ == "Invalid pattern: "@
                + diag_under(pattern@, *opts))
            &&& (e matches SearchError::InvalidTypeFilter(m) ==> m@
                == "Failed to build type matcher: "@ + types_diag(
                opts.file_types@.map_values(|n: String| n@),
            ))
            &&& (e matches SearchError::InvalidGlob(m) ==> m@ == spec_glob_fail_message(
                opts.glob_include@,
                opts.glob_exclude@,
            ))
        },
        r matches Ok(res) ==> result_wf(res),
        r matches Ok(res) ==> {
            &&& (res.stats.files_matched == 0 ==> res.matches@.len() == 0)
            &&& (res.stats.files_searched == 0 ==> res.stats.files_matched == 0)
        },
{
    let start = instant_now();
    let matcher = match build_matcher(pattern, opts) {
        Ok(m) => m,
        Err(e) => {
            return Err(e);
        },
    };
    let walker = match build_walker(path, opts) {
        Ok(w) => w,
        Err(e) => {
            return Err(e);
        },
    };
    let (tx, rx) = msg_channel();
    let ctx = SearchCtx {
        matcher,
        invert: opts.invert_match,
        max_count: opts.max_count,
        max_filesize: opts.max_filesize,
        context_before: opts.context_before,
        context_after: opts.context_after,
        tx,
        cancel: AtomicBool::new(false),
    };
    let walk = wb_build_parallel(&walker);
    run_walk(walk, &ctx);
    let msgs = recv_all(&rx);
    proof {
        crate::channel::lemma_no_match_without_matched_file(msgs@);
    }
    let collected = collect_outcomes(msgs);
    let elapsed = elapsed_ms(&start);
    Ok(
        SearchResult {
            stats: SearchStats {
                matches: collected.matches.len(),
                files_searched: collected.files_searched,
                files_matched: collected.files_matched,
                elapsed_ms: elapsed,
            },
            matches: collected.matches,
            errors: collected.errors,
        },
    )
}

} // verus!
