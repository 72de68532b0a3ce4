//! Bookkeeping of file transfers: the progress of one task, the bounded
//! batch that fans tasks out and returns the first failure, and the lines
//! shown when a task ends.
//!
//! The caller moves the bytes and runs the tasks; it reports each chunk and
//! each completion here and does what the returned decision says.

use vstd::prelude::*;

verus! {

/// Concurrent tasks of a batch unless the caller asks for another bound.
pub const DEFAULT_CONCURRENCY: usize = 8;

#[derive(Debug, Clone, Copy, PartialEq, Eq, Structural)]
pub enum TransferError {
    SourceUnavailable,
    DestinationUnwritable,
    /// The stream broke after this many bytes had been written.
    InterruptedStream(u64),
    /// The server answered with this non-success status.
    ServerRejected(u16),
}

/// What one task has moved so far, as its observer sees it. A total of 0
/// stands for an unknown size.
#[derive(Debug)]
pub struct Progress {
    pub name: String,
    pub total: u64,
    pub done: u64,
}

pub open spec fn saturating_sum(a: u64, b: u64) -> u64 {
    if a + b > u64::MAX {
        u64::MAX
    } else {
        (a + b) as u64
    }
}

/// The progress of an upload that has not moved a byte yet.
pub open spec fn upload_started(p: Progress, name: Seq<char>, file_len: u64) -> bool {
    p.name@ == name && p.total == file_len && p.done == 0
}

impl Progress {
    /// A download whose response advertised `content_length`, if it did.
    pub fn for_download(name: String, content_length: Option<u64>) -> (r: Progress)
        ensures
            r.name@ == name@,
            r.total == match content_length {
                Some(n) => n,
                None => 0,
            },
            r.done == 0,
    {
        let total = match content_length {
            Some(n) => n,
            None => 0,
        };
        Progress { name, total, done: 0 }
    }

    /// An upload of a file whose length on disk is `file_len`.
    pub fn for_upload(name: String, file_len: u64) -> (r: Progress)
        ensures
            upload_started(r, name@, file_len),
    {
        Progress { name, total: file_len, done: 0 }
    }

    pub fn set_total(&mut self, bytes: u64)
        ensures
            final(self).total == bytes,
            final(self).done == old(self).done,
            final(self).name == old(self).name,
    {
        self.total = bytes;
    }

    /// Counts a chunk that was written (download) or read (upload).
    pub fn advance(&mut self, delta: u64)
        ensures
            final(self).done == saturating_sum(old(self).done, delta),
            final(self).total == old(self).total,
            final(self).name == old(self).name,
    {
        self.done = self.done.saturating_add(delta);
    }

    /// The error of a stream that broke now: it names the bytes written.
    pub fn interrupted(&self) -> (r: TransferError)
        ensures
            r == TransferError::InterruptedStream(self.done),
    {
        TransferError::InterruptedStream(self.done)
    }

    /// The line that replaces the bar when the task ends: a check mark and
    /// the name, or a cross, the name and what went wrong.
    pub fn finish_line(&self, failure: Option<&str>) -> (r: String)
        ensures
            match failure {
                None => r@ == "\u{2713} "@ + self.name@,
                Some(d) => r@ == "\u{2717} "@ + self.name@ + " ("@ + d@ + ")"@,
            },
    {
        match failure {
            None => {
                let mut line = "\u{2713} ".to_owned();
                line.append(self.name.as_str());
                line
            },
            Some(d) => {
                let mut line = "\u{2717} ".to_owned();
                line.append(self.name.as_str());
                line.append(" (");
                line.append(d);
                line.append(")");
                line
            },
        }
    }
}

/// A path under a directory, as `Path::join` forms it on Unix: an absolute
/// name stands alone, else one separator goes between the two parts.
pub open spec fn joined(dir: Seq<char>, name: Seq<char>) -> Seq<char> {
    if name.len() > 0 && name[0] == '/' {
        name
    } else if dir.len() == 0 || dir.last() == '/' {
        dir + name
    } else {
        dir + seq!['/'] + name
    }
}

/// The destination of a download: the file `name` in directory `dir`.
pub fn join_path(dir: &str, name: &str) -> (r: String)
    ensures
        r@ == joined(dir@, name@),
{
    let name_len = name.unicode_len();
    if name_len > 0 && name.get_char(0) == '/' {
        return name.to_owned();
    }
    let dir_len = dir.unicode_len();
    let mut path = dir.to_owned();
    if dir_len > 0 && dir.get_char(dir_len - 1) != '/' {
        path.append("/");
        proof {
            reveal_strlit("/");
            assert("/"@ =~= seq!['/']);
        }
    }
    path.append(name);
    path
}

/// The state of a batch as the contracts see it.
pub ghost struct BatchView {
    pub limit: nat,
    pub next: nat,
    pub running: nat,
    pub bytes: Seq<Option<u64>>,
    pub ended: Seq<bool>,
    pub failed: bool,
    pub cancel_siblings: bool,
}

/// Whether a batch starts another task: the bound allows one, one is left,
/// and no failure has stopped a batch that cancels on failure.
pub open spec fn may_launch(v: BatchView) -> bool {
    &&& !(v.failed && v.cancel_siblings)
    &&& v.running < v.limit
    &&& v.next < v.bytes.len()
}

/// Every task has completed with success.
pub open spec fn all_done(bytes: Seq<Option<u64>>) -> bool {
    forall|i: int| 0 <= i < bytes.len() ==> bytes[i] is Some
}

/// The byte counts of a batch in which every task succeeded, in input order.
pub open spec fn counts_match(bytes: Seq<Option<u64>>, counts: Seq<u64>) -> bool {
    counts.len() == bytes.len() && forall|i: int| 0 <= i < counts.len() ==> bytes[i] == Some(counts[i])
}

/// A completion of task `i` with `outcome`: the state after it and the
/// batch's result, if this completion decides it.
pub open spec fn complete_post(
    before: BatchView,
    i: nat,
    outcome: Result<u64, TransferError>,
    after: BatchView,
    r: Option<Result<Vec<u64>, TransferError>>,
) -> bool {
    &&& after.limit == before.limit
    &&& after.next == before.next
    &&& after.running == before.running - 1
    &&& after.ended == before.ended.update(i as int, true)
    &&& after.cancel_siblings == before.cancel_siblings
    &&& if before.failed {
        after.bytes == before.bytes && after.failed && r is None
    } else {
        match outcome {
            Err(e) => after.bytes == before.bytes && after.failed && r == Some(
                Err::<Vec<u64>, TransferError>(e),
            ),
            Ok(b) => {
                &&& after.bytes == before.bytes.update(i as int, Some(b))
                &&& !after.failed
                &&& (r is Some <==> all_done(after.bytes))
                &&& r is Some ==> r->0 is Ok && counts_match(after.bytes, r->0->Ok_0@)
            },
        }
    }
}

/// A batch of transfers run at most `limit` at a time. The first failure
/// decides the batch's result. By default nothing is cancelled: after a
/// failure the remaining tasks are still started, and every completion is
/// accepted. A batch made with `cancelling` starts no task after a failure.
#[derive(Debug)]
pub struct Batch {
    limit: usize,
    next: usize,
    running: usize,
    bytes: Vec<Option<u64>>,
    ended: Vec<bool>,
    failed: bool,
    cancel_siblings: bool,
}

impl View for Batch {
    type V = BatchView;

    closed spec fn view(&self) -> BatchView {
        BatchView {
            limit: self.limit as nat,
            next: self.next as nat,
            running: self.running as nat,
            bytes: self.bytes@,
            ended: self.ended@,
            failed: self.failed,
            cancel_siblings: self.cancel_siblings,
        }
    }
}

impl Batch {
    pub closed spec fn wf(&self) -> bool {
        &&& 0 < self.limit
        &&& self.next <= self.bytes.len()
        &&& self.running <= self.next
        &&& self.ended.len() == self.bytes.len()
        &&& forall|i: int| self.next <= i < self.bytes.len() ==> self.bytes[i] is None
        &&& forall|i: int| self.next <= i < self.ended.len() ==> !self.ended[i]
        &&& forall|i: int| 0 <= i < self.bytes.len() && self.bytes[i] is Some ==> self.ended[i]
    }

    fn with_policy(n: usize, limit: usize, cancel_siblings: bool) -> (r: Batch)
        requires
            0 < limit,
        ensures
            r.wf(),
            r@.limit == limit,
            r@.next == 0,
            r@.running == 0,
            r@.bytes == Seq::new(n as nat, |i: int| None::<u64>),
            r@.ended == Seq::new(n as nat, |i: int| false),
            !r@.failed,
            r@.cancel_siblings == cancel_siblings,
    {
        let mut bytes: Vec<Option<u64>> = Vec::new();
        let mut ended: Vec<bool> = Vec::new();
        let mut k: usize = 0;
        while k < n
            invariant
                k <= n,
                bytes@ == Seq::new(k as nat, |i: int| None::<u64>),
                ended@ == Seq::new(k as nat, |i: int| false),
            decreases n - k,
        {
            bytes.push(None);
            ended.push(false);
            k = k + 1;
        }
        assert(bytes@ =~= Seq::new(n as nat, |i: int| None::<u64>));
        assert(ended@ =~= Seq::new(n as nat, |i: int| false));
        Batch { limit, next: 0, running: 0, bytes, ended, failed: false, cancel_siblings }
    }

    /// A batch of `n` tasks, none started, that cancels nothing: a failure
    /// decides the result, and the other tasks are still started and run to
    /// their end.
    pub fn new(n: usize, limit: usize) -> (r: Batch)
        requires
            0 < limit,
        ensures
            r.wf(),
            r@.limit == limit,
            r@.next == 0,
            r@.running == 0,
            r@.bytes == Seq::new(n as nat, |i: int| None::<u64>),
            r@.ended == Seq::new(n as nat, |i: int| false),
            !r@.failed,
            !r@.cancel_siblings,
    {
        Batch::with_policy(n, limit, false)
    }

    /// A batch of `n` tasks, none started, that starts no task once one has
    /// failed (tasks already running still run to their end).
    pub fn cancelling(n: usize, limit: usize) -> (r: Batch)
        requires
            0 < limit,
        ensures
            r.wf(),
            r@.limit == limit,
            r@.next == 0,
            r@.running == 0,
            r@.bytes == Seq::new(n as nat, |i: int| None::<u64>),
            r@.ended == Seq::new(n as nat, |i: int| false),
            !r@.failed,
            r@.cancel_siblings,
    {
        Batch::with_policy(n, limit, true)
    }

    /// The next task to start, where the batch may start one.
    pub fn launch(&mut self) -> (r: Option<usize>)
        requires
            old(self).wf(),
        ensures
            final(self).wf(),
            final(self)@.limit == old(self)@.limit,
            final(self)@.bytes == old(self)@.bytes,
            final(self)@.ended == old(self)@.ended,
            final(self)@.failed == old(self)@.failed,
            final(self)@.cancel_siblings == old(self)@.cancel_siblings,
            if may_launch(old(self)@) {
                r == Some(old(self)@.next as usize) && final(self)@.next == old(self)@.next + 1
                    && final(self)@.running == old(self)@.running + 1
            } else {
                r is None && final(self)@ == old(self)@
            },
    {
        if !(self.failed && self.cancel_siblings) && self.running < self.limit && self.next
            < self.bytes.len() {
            let i = self.next;
            self.next = self.next + 1;
            self.running = self.running + 1;
            Some(i)
        } else {
            None
        }
    }

    /// Whether task `i` is running: started, and not yet completed.
    pub fn is_running(&self, i: usize) -> (r: bool)
        requires
            self.wf(),
        ensures
            r == (i < self@.next && !self@.ended[i as int] && self@.running > 0),
    {
        i < self.next && !self.ended[i] && self.running > 0
    }

    fn counts(&self) -> (r: Option<Vec<u64>>)
        ensures
            r is Some <==> all_done(self@.bytes),
            r is Some ==> counts_match(self@.bytes, r->0@),
    {
        let mut counts: Vec<u64> = Vec::new();
        let mut k: usize = 0;
        while k < self.bytes.len()
            invariant
                k <= self.bytes@.len(),
                counts@.len() == k,
                forall|j: int| 0 <= j < k ==> self.bytes@[j] == Some(counts@[j]),
            decreases self.bytes@.len() - k,
        {
            match self.bytes[k] {
                Some(b) => counts.push(b),
                None => return None,
            }
            k = k + 1;
        }
        Some(counts)
    }

    /// Task `i` ended with `outcome`. Returns the batch's result when this
    /// completion decides it: the first failure, or the byte counts of all
    /// tasks in input order once every one has succeeded.
    pub fn complete(&mut self, i: usize, outcome: Result<u64, TransferError>) -> (r: Option<
        Result<Vec<u64>, TransferError>,
    >)
        requires
            old(self).wf(),
            i < old(self)@.next,
            !old(self)@.ended[i as int],
            old(self)@.running > 0,
        ensures
            final(self).wf(),
            complete_post(old(self)@, i as nat, outcome, final(self)@, r),
    {
        self.running = self.running - 1;
        self.ended.set(i, true);
        if self.failed {
            return None;
        }
        match outcome {
            Err(e) => {
                self.failed = true;
                Some(Err(e))
            },
            Ok(b) => {
                self.bytes.set(i, Some(b));
                match self.counts() {
                    Some(c) => Some(Ok(c)),
                    None => None,
                }
            },
        }
    }
}

/// A run of completions: the `j`-th takes the batch from `states[j]` to
/// `states[j + 1]`, reporting task `tasks[j]` with `outcomes[j]`.
pub open spec fn run_post(
    states: Seq<BatchView>,
    tasks: Seq<nat>,
    outcomes: Seq<Result<u64, TransferError>>,
    results: Seq<Option<Result<Vec<u64>, TransferError>>>,
) -> bool {
    &&& states.len() == tasks.len() + 1
    &&& outcomes.len() == tasks.len()
    &&& results.len() == tasks.len()
    &&& forall|j: int|
        0 <= j < tasks.len() ==> complete_post(
            states[j],
            #[trigger] tasks[j],
            outcomes[j],
            states[j + 1],
            results[j],
        )
}

proof fn lemma_not_failed_up_to(
    states: Seq<BatchView>,
    tasks: Seq<nat>,
    outcomes: Seq<Result<u64, TransferError>>,
    results: Seq<Option<Result<Vec<u64>, TransferError>>>,
    m: int,
    j: int,
)
    requires
        run_post(states, tasks, outcomes, results),
        !states[0].failed,
        0 <= j <= m < tasks.len(),
        forall|k: int| 0 <= k < m ==> outcomes[k] is Ok,
    ensures
        !states[j].failed,
    decreases j,
{
    if j > 0 {
        lemma_not_failed_up_to(states, tasks, outcomes, results, m, j - 1);
        assert(complete_post(states[j - 1], tasks[j - 1], outcomes[j - 1], states[j], results[j - 1]));
    }
}

proof fn lemma_failed_after(
    states: Seq<BatchView>,
    tasks: Seq<nat>,
    outcomes: Seq<Result<u64, TransferError>>,
    results: Seq<Option<Result<Vec<u64>, TransferError>>>,
    m: int,
    j: int,
)
    requires
        run_post(states, tasks, outcomes, results),
        0 <= m < j <= tasks.len(),
        !states[m].failed,
        outcomes[m] is Err,
    ensures
        states[j].failed,
    decreases j,
{
    if j > m + 1 {
        lemma_failed_after(states, tasks, outcomes, results, m, j - 1);
    }
    assert(complete_post(states[j - 1], tasks[j - 1], outcomes[j - 1], states[j], results[j - 1]));
}

/// In a run of completions where only the `m`-th reports a failure, in
/// whatever order the tasks end: the batch's result at that completion is
/// exactly its error, no other completion returns an error, and every
/// completion after it is still accepted, without a result.
pub proof fn lemma_only_failing_task_decides(
    states: Seq<BatchView>,
    tasks: Seq<nat>,
    outcomes: Seq<Result<u64, TransferError>>,
    results: Seq<Option<Result<Vec<u64>, TransferError>>>,
    m: int,
)
    requires
        run_post(states, tasks, outcomes, results),
        !states[0].failed,
        0 <= m < tasks.len(),
        outcomes[m] is Err,
        forall|j: int| 0 <= j < tasks.len() && j != m ==> outcomes[j] is Ok,
    ensures
        results[m] == Some(Err::<Vec<u64>, TransferError>(outcomes[m]->Err_0)),
        forall|j: int| 0 <= j < m ==> results[j] is None || results[j]->0 is Ok,
        forall|j: int| m < j < tasks.len() ==> results[j] is None,
{
    lemma_not_failed_up_to(states, tasks, outcomes, results, m, m);
    assert(complete_post(states[m], tasks[m], outcomes[m], states[m + 1], results[m]));
    assert forall|j: int| 0 <= j < m implies results[j] is None || results[j]->0 is Ok by {
        lemma_not_failed_up_to(states, tasks, outcomes, results, m, j);
        assert(complete_post(states[j], tasks[j], outcomes[j], states[j + 1], results[j]));
    }
    assert forall|j: int| m < j < tasks.len() implies results[j] is None by {
        lemma_failed_after(states, tasks, outcomes, results, m, j);
        assert(complete_post(states[j], tasks[j], outcomes[j], states[j + 1], results[j]));
    }
}

/// A batch that cancels nothing starts tasks after a failure exactly as it
/// would had nothing failed: every task is eventually started.
pub proof fn lemma_failure_cancels_nothing(v: BatchView)
    requires
        !v.cancel_siblings,
    ensures
        may_launch(v) == may_launch(BatchView { failed: false, ..v }),
{
}

/// The outcome of an upload from the status of the server's answer: a
/// success status (2xx) counts the whole file as moved.
pub fn upload_outcome(status: u16, total: u64) -> (r: Result<u64, TransferError>)
    ensures
        200 <= status <= 299 ==> r == Ok::<u64, TransferError>(total),
        !(200 <= status <= 299) ==> r == Err::<u64, TransferError>(
            TransferError::ServerRejected(status),
        ),
{
    if 200 <= status && status <= 299 {
        Ok(total)
    } else {
        Err(TransferError::ServerRejected(status))
    }
}

} // verus!
