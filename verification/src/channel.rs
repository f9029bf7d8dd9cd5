//! The worker-to-collector hand-off: each message describes one file's
//! complete outcome or one enumeration failure. The channel itself is an
//! external capability with no ordering model; the collector is verified
//! for every sequence of messages it may drain.

use vstd::prelude::*;

use crate::types::Match;

verus! {

/// The sending half of the hand-off channel, carried opaquely.
#[verifier::external_type_specification]
#[verifier::external_body]
#[verifier::reject_recursive_types(T)]
pub struct ExSender<T>(crossbeam_channel::Sender<T>);

/// The receiving half of the hand-off channel, carried opaquely.
#[verifier::external_type_specification]
#[verifier::external_body]
#[verifier::reject_recursive_types(T)]
pub struct ExReceiver<T>(crossbeam_channel::Receiver<T>);

/// One message from a worker: a searched file's complete match batch
/// (empty batches count as searched, unmatched files), a failed file read,
/// or a failed directory enumeration.
pub enum WorkerMsg {
    /// A file was searched; its complete, possibly empty match batch.
    FileDone { matches: Vec<Match> },
    /// A file was counted as searched but could not be read; the
    /// diagnostic names the path.
    FileFailed { message: String },
    /// A directory entry could not be enumerated.
    EntryFailed { message: String },
}

/// The matches of one message: a `FileDone` batch, or nothing.
pub open spec fn msg_batch(m: WorkerMsg) -> Seq<Match> {
    match m {
        WorkerMsg::FileDone { matches } => matches@,
        _ => Seq::<Match>::empty(),
    }
}

/// The concatenation of the `FileDone` batches of `msgs`, in order.
pub open spec fn spec_batches(msgs: Seq<WorkerMsg>) -> Seq<Match>
    decreases msgs.len(),
{
    if msgs.len() == 0 {
        Seq::<Match>::empty()
    } else {
        msg_batch(msgs.first()) + spec_batches(msgs.drop_first())
    }
}

/// The error string of one message: a `FileFailed` or `EntryFailed`
/// diagnostic, or nothing.
pub open spec fn msg_error(m: WorkerMsg) -> Seq<String> {
    match m {
        WorkerMsg::FileDone { .. } => Seq::<String>::empty(),
        WorkerMsg::FileFailed { message } => seq![message],
        WorkerMsg::EntryFailed { message } => seq![message],
    }
}

/// The failure diagnostics of `msgs`, in order.
pub open spec fn spec_errors(msgs: Seq<WorkerMsg>) -> Seq<String>
    decreases msgs.len(),
{
    if msgs.len() == 0 {
        Seq::<String>::empty()
    } else {
        msg_error(msgs.first()) + spec_errors(msgs.drop_first())
    }
}

/// Whether one message reports a searched file: a batch (matched or not)
/// or a failed read, never an enumeration failure.
pub open spec fn msg_searched(m: WorkerMsg) -> bool {
    m is FileDone || m is FileFailed
}

/// How many messages of `msgs` report a searched file.
pub open spec fn spec_files_searched(msgs: Seq<WorkerMsg>) -> nat
    decreases msgs.len(),
{
    if msgs.len() == 0 {
        0
    } else {
        (if msg_searched(msgs.first()) {
            1nat
        } else {
            0nat
        }) + spec_files_searched(msgs.drop_first())
    }
}

/// Whether one message reports a matched file: a non-empty batch.
pub open spec fn msg_matched(m: WorkerMsg) -> bool {
    m matches WorkerMsg::FileDone { matches } && matches@.len() > 0
}

/// How many messages of `msgs` report a matched file.
pub open spec fn spec_files_matched(msgs: Seq<WorkerMsg>) -> nat
    decreases msgs.len(),
{
    if msgs.len() == 0 {
        0
    } else {
        (if msg_matched(msgs.first()) {
            1nat
        } else {
            0nat
        }) + spec_files_matched(msgs.drop_first())
    }
}

/// A file matched only if it was searched, and no more files were
/// searched than messages arrived.
pub proof fn lemma_msg_counts(msgs: Seq<WorkerMsg>)
    ensures
        spec_files_matched(msgs) <= spec_files_searched(msgs),
        spec_files_searched(msgs) <= msgs.len(),
    decreases msgs.len(),
{
    if msgs.len() > 0 {
        lemma_msg_counts(msgs.drop_first());
    }
}

/// Without a matched file there is no match at all, and without a
/// searched file no file matched.
pub proof fn lemma_no_match_without_matched_file(msgs: Seq<WorkerMsg>)
    ensures
        spec_files_matched(msgs) == 0 ==> spec_batches(msgs).len() == 0,
        spec_files_searched(msgs) == 0 ==> spec_files_matched(msgs) == 0,
    decreases msgs.len(),
{
    if msgs.len() > 0 {
        lemma_no_match_without_matched_file(msgs.drop_first());
    }
}

/// Relies on `crossbeam_channel::unbounded`: a connected sender/receiver
/// pair over an unbounded queue.
#[verifier::external_body]
pub(crate) fn msg_channel() -> (
    crossbeam_channel::Sender<WorkerMsg>,
    crossbeam_channel::Receiver<WorkerMsg>,
) {
    crossbeam_channel::unbounded()
}

/// Relies on `crossbeam_channel::Sender::send`: hands the message to the
/// channel; a send on a disconnected channel is ignored.
#[verifier::external_body]
pub(crate) fn send_msg(tx: &crossbeam_channel::Sender<WorkerMsg>, msg: WorkerMsg) {
    let _ = tx.send(msg);
}

/// Relies on `crossbeam_channel::Receiver::try_iter`: every message
/// queued at the time of the call, in queue order.
#[verifier::external_body]
pub(crate) fn recv_all(rx: &crossbeam_channel::Receiver<WorkerMsg>) -> std::collections::VecDeque<
    WorkerMsg,
> {
    rx.try_iter().collect()
}

} // verus!
