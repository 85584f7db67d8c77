//! The deployment job table: starting, pausing, resuming and cancelling
//! copy jobs, and deciding, one item at a time, what a job's worker does
//! next. The worker performs each copy and reports its outcome back; the
//! table never waits on the filesystem.

use vstd::prelude::*;
use crate::views::string_views;
use crate::model::{
    CommandError, DeploymentComplete, DeploymentHandle, DeploymentItem, DeploymentPlan,
    DeploymentProgress, DeploymentRecord, DeploymentStatus,
};
use crate::plan::{is_accounted, lemma_prefix_bytes_monotone, plan_accounted, prefix_bytes, sum_bytes};

verus! {

/// Why a request to the job table was refused.
#[derive(Clone, Debug, PartialEq, Eq, Structural)]
pub enum DeployError {
    /// Another job is active on the same destination path.
    Conflict,
    /// The plan's totals do not agree with its items.
    InvalidPlan,
    /// No job was ever started under this handle.
    UnknownHandle,
    /// The job has reached a terminal status, or is not in a state that
    /// allows the request.
    NotRunning,
    /// `resume` on a job that is not paused.
    NotPaused,
    /// An outcome was reported for a job with no item in flight.
    NothingInFlight,
    /// Every handle serial has been used.
    HandlesExhausted,
}

/// The reason text of each refusal.
pub open spec fn refusal_text(e: DeployError) -> Seq<char> {
    match e {
        DeployError::Conflict => "a deployment is already active on this destination"@,
        DeployError::InvalidPlan => "plan totals do not match its items"@,
        DeployError::UnknownHandle => "unknown deployment handle"@,
        DeployError::NotRunning => "deployment is not running"@,
        DeployError::NotPaused => "deployment is not paused"@,
        DeployError::NothingInFlight => "no item is being copied"@,
        DeployError::HandlesExhausted => "no deployment handles are left"@,
    }
}

impl DeployError {
    /// The error as reported to the frontend: a malformed plan is invalid
    /// input, every other refusal a failed deployment, with its reason.
    pub fn to_command_error(&self) -> (r: CommandError)
        ensures
            *self == DeployError::InvalidPlan ==> r is InvalidInput && r->InvalidInput_field@
                == "plan"@ && r->InvalidInput_message@ == refusal_text(*self),
            *self != DeployError::InvalidPlan ==> r is DeploymentFailed && r->reason@
                == refusal_text(*self),
    {
        let reason = match self {
            DeployError::Conflict => "a deployment is already active on this destination",
            DeployError::InvalidPlan => "plan totals do not match its items",
            DeployError::UnknownHandle => "unknown deployment handle",
            DeployError::NotRunning => "deployment is not running",
            DeployError::NotPaused => "deployment is not paused",
            DeployError::NothingInFlight => "no item is being copied",
            DeployError::HandlesExhausted => "no deployment handles are left",
        };
        match self {
            DeployError::InvalidPlan => CommandError::InvalidInput {
                field: String::from_str("plan"),
                message: String::from_str(reason),
            },
            _ => CommandError::DeploymentFailed { reason: String::from_str(reason) },
        }
    }
}

/// What the worker reports after trying to copy the item in flight.
#[derive(Clone, Debug)]
pub enum CopyOutcome {
    /// The file was copied.
    Copied,
    /// A file was already at the destination and the job does not
    /// overwrite: the item is left as it is, neither copied nor failed.
    Skipped,
    /// This item could not be copied; the job goes on with the next one.
    ItemFailed { message: String },
    /// The destination itself failed (unmounted, out of space, unresponsive).
    DestinationFailed { message: String },
}

/// What a job's worker is to do next.
#[derive(Clone, Debug)]
pub enum JobAction {
    /// Copy item `index` of the plan from `source` to `dest`, replacing a
    /// file already there only where `overwrite` is set.
    CopyItem { index: usize, source: String, dest: String, overwrite: bool },
    /// The job is paused: poll again later.
    Wait,
    /// The job reached a terminal status and left the table.
    Finished { record: DeploymentRecord },
}

/// Runtime state of one job.
#[derive(Debug)]
pub struct DeploymentJob {
    pub handle_id: String,
    pub serial: u64,
    pub device_id: i64,
    pub plan: DeploymentPlan,
    pub status: DeploymentStatus,
    /// Index of the next item to process.
    pub cursor: usize,
    pub bytes_transferred: u64,
    /// Bytes moved and milliseconds taken by each of the last few items,
    /// newest last: the window over which speed is reported.
    pub recent: Vec<(u64, u64)>,
    /// Indices of the items copied so far, in the order they were copied.
    pub copied: Vec<usize>,
    pub started_at: String,
    /// Files already at a destination path are replaced.
    pub overwrite_existing: bool,
    /// The item under the cursor has been handed out and its outcome is
    /// not yet reported.
    pub in_flight: bool,
    pub errors: Vec<String>,
    pub warnings: Vec<String>,
}

/// The table of active jobs.
#[derive(Debug)]
pub struct DeploymentExecutor {
    pub jobs: Vec<DeploymentJob>,
    /// Handles of jobs that reached a terminal status.
    pub finished: Vec<String>,
    pub next_serial: u64,
}

// ---------------------------------------------------------------------------
// Handle names

pub open spec fn digit_char(d: int) -> char {
    if d == 0 {
        '0'
    } else if d == 1 {
        '1'
    } else if d == 2 {
        '2'
    } else if d == 3 {
        '3'
    } else if d == 4 {
        '4'
    } else if d == 5 {
        '5'
    } else if d == 6 {
        '6'
    } else if d == 7 {
        '7'
    } else if d == 8 {
        '8'
    } else {
        '9'
    }
}

/// Decimal digits of `n`, most significant first.
pub open spec fn decimal(n: nat) -> Seq<char>
    decreases n,
{
    if n < 10 {
        seq![digit_char(n as int)]
    } else {
        decimal(n / 10).push(digit_char((n % 10) as int))
    }
}

pub open spec fn handle_name(serial: nat) -> Seq<char> {
    "deployment-"@ + decimal(serial)
}

proof fn lemma_decimal_len(n: nat)
    ensures
        decimal(n).len() >= 1,
        n >= 10 ==> decimal(n).len() >= 2,
    decreases n,
{
    if n >= 10 {
        lemma_decimal_len(n / 10);
    }
}

proof fn lemma_decimal_injective(a: nat, b: nat)
    requires
        decimal(a) == decimal(b),
    ensures
        a == b,
    decreases a,
{
    lemma_decimal_len(a);
    lemma_decimal_len(b);
    if a >= 10 && b >= 10 {
        let da = decimal(a);
        assert(da.last() == digit_char((a % 10) as int));
        assert(decimal(b).last() == digit_char((b % 10) as int));
        assert(da.drop_last() =~= decimal(a / 10));
        assert(decimal(b).drop_last() =~= decimal(b / 10));
        lemma_decimal_injective(a / 10, b / 10);
    } else if a < 10 && b < 10 {
        assert(decimal(a)[0] == digit_char(a as int));
    }
}

/// Distinct serials give distinct handles.
pub proof fn lemma_handle_name_injective(a: nat, b: nat)
    requires
        a != b,
    ensures
        handle_name(a) != handle_name(b),
{
    if handle_name(a) == handle_name(b) {
        let p = "deployment-"@;
        assert(handle_name(a).subrange(p.len() as int, handle_name(a).len() as int) =~= decimal(a));
        assert(handle_name(b).subrange(p.len() as int, handle_name(b).len() as int) =~= decimal(b));
        lemma_decimal_injective(a, b);
    }
}

fn push_digit(s: &mut String, d: u64)
    requires
        d < 10,
    ensures
        final(s)@ == old(s)@.push(digit_char(d as int)),
{
    proof {
        reveal_strlit("0");
        reveal_strlit("1");
        reveal_strlit("2");
        reveal_strlit("3");
        reveal_strlit("4");
        reveal_strlit("5");
        reveal_strlit("6");
        reveal_strlit("7");
        reveal_strlit("8");
        reveal_strlit("9");
    }
    if d == 0 {
        s.append("0");
    } else if d == 1 {
        s.append("1");
    } else if d == 2 {
        s.append("2");
    } else if d == 3 {
        s.append("3");
    } else if d == 4 {
        s.append("4");
    } else if d == 5 {
        s.append("5");
    } else if d == 6 {
        s.append("6");
    } else if d == 7 {
        s.append("7");
    } else if d == 8 {
        s.append("8");
    } else {
        s.append("9");
    }
}

fn push_decimal(s: &mut String, n: u64)
    ensures
        final(s)@ == old(s)@ + decimal(n as nat),
    decreases n,
{
    if n >= 10 {
        push_decimal(s, n / 10);
    }
    push_digit(s, n % 10);
    assert(decimal(n as nat) =~= if n < 10 {
        seq![digit_char(n as int)]
    } else {
        decimal((n / 10) as nat).push(digit_char((n % 10) as int))
    });
}

/// The handle id of the job with the given serial.
pub fn make_handle_id(serial: u64) -> (r: String)
    ensures
        r@ == handle_name(serial as nat),
{
    let mut s = String::from_str("deployment-");
    push_decimal(&mut s, serial);
    s
}

// ---------------------------------------------------------------------------
// Job state

/// Sum of the byte sizes of the items at the given indices.
pub open spec fn copied_bytes(items: Seq<DeploymentItem>, copied: Seq<usize>) -> int
    decreases copied.len(),
{
    if copied.len() == 0 {
        0
    } else {
        copied_bytes(items, copied.drop_last()) + items[copied.last() as int].bytes
    }
}

pub open spec fn strictly_increasing(s: Seq<usize>) -> bool {
    forall|a: int, b: int| 0 <= a < b < s.len() ==> s[a] < s[b]
}

/// The invariant of one job. Its byte count is the sum over the items it
/// copied, and each item was copied at most once.
pub open spec fn job_wf(j: DeploymentJob) -> bool {
    &&& j.handle_id@ == handle_name(j.serial as nat)
    &&& plan_accounted(j.plan)
    &&& j.cursor <= j.plan.items@.len()
    &&& forall|k: int| 0 <= k < j.copied@.len() ==> j.copied@[k] < j.cursor
    &&& strictly_increasing(j.copied@)
    &&& j.bytes_transferred == copied_bytes(j.plan.items@, j.copied@)
    &&& j.status != DeploymentStatus::Completed
    &&& j.status == DeploymentStatus::Failed ==> j.errors@.len() > 0
    &&& j.recent@.len() <= SPEED_WINDOW
    &&& j.in_flight ==> j.cursor < j.plan.items@.len()
}

proof fn lemma_copied_bytes_bound(items: Seq<DeploymentItem>, copied: Seq<usize>, bound: int)
    requires
        0 <= bound <= items.len(),
        strictly_increasing(copied),
        forall|k: int| 0 <= k < copied.len() ==> copied[k] < bound,
    ensures
        copied_bytes(items, copied) <= prefix_bytes(items, bound),
    decreases copied.len(),
{
    if copied.len() == 0 {
        lemma_prefix_bytes_monotone(items, 0, bound);
    } else {
        let x = copied.last() as int;
        let rest = copied.drop_last();
        assert forall|k: int| 0 <= k < rest.len() implies rest[k] < x by {
            assert(copied[k] < copied[copied.len() - 1]);
        }
        lemma_copied_bytes_bound(items, rest, x);
        lemma_prefix_bytes_monotone(items, x + 1, bound);
    }
}

/// Progress of a job as plain values: status, cursor, copied indices and
/// number of errors.
pub open spec fn progress_of(j: DeploymentJob) -> (DeploymentStatus, int, Seq<usize>, int) {
    (j.status, j.cursor as int, j.copied@, j.errors@.len() as int)
}

/// How an outcome moves a job that has `n` items.
pub open spec fn after_outcome(
    p: (DeploymentStatus, int, Seq<usize>, int),
    outcome: CopyOutcome,
    n: int,
) -> (DeploymentStatus, int, Seq<usize>, int) {
    match outcome {
        CopyOutcome::Copied => (p.0, p.1 + 1, p.2.push(p.1 as usize), p.3),
        CopyOutcome::Skipped => (p.0, p.1 + 1, p.2, p.3),
        CopyOutcome::ItemFailed { .. } => (p.0, p.1 + 1, p.2, p.3 + 1),
        CopyOutcome::DestinationFailed { .. } => (
            if p.0 == DeploymentStatus::Cancelled {
                DeploymentStatus::Cancelled
            } else {
                DeploymentStatus::Failed
            },
            p.1,
            p.2,
            p.3 + 1 + (n - p.1),
        ),
    }
}

/// A cancelled job stays cancelled whatever its in-flight copy reports.
pub proof fn cancelled_stays_cancelled(
    p: (DeploymentStatus, int, Seq<usize>, int),
    outcome: CopyOutcome,
    n: int,
)
    requires
        p.0 == DeploymentStatus::Cancelled,
    ensures
        after_outcome(p, outcome, n).0 == DeploymentStatus::Cancelled,
        finish_status(after_outcome(p, outcome, n).0, after_outcome(p, outcome, n).1, n) == Some(
            DeploymentStatus::Cancelled,
        ),
{
}

/// The terminal status a job in this state is finalized with, if any.
pub open spec fn finish_status(status: DeploymentStatus, cursor: int, n: int) -> Option<
    DeploymentStatus,
> {
    match status {
        DeploymentStatus::Running => if cursor >= n {
            Some(DeploymentStatus::Completed)
        } else {
            None
        },
        DeploymentStatus::Paused => None,
        s => Some(s),
    }
}

/// Outcomes applied one after another.
pub open spec fn run_outcomes(
    p: (DeploymentStatus, int, Seq<usize>, int),
    outcomes: Seq<CopyOutcome>,
    n: int,
) -> (DeploymentStatus, int, Seq<usize>, int)
    decreases outcomes.len(),
{
    if outcomes.len() == 0 {
        p
    } else {
        after_outcome(run_outcomes(p, outcomes.drop_last(), n), outcomes.last(), n)
    }
}

/// Every index below `m` except `u`, in increasing order.
pub open spec fn indices_except(m: int, u: int) -> Seq<usize> {
    Seq::new(
        (if m > u {
            m - 1
        } else {
            m
        }) as nat,
        |k: int| (if k < u {
            k
        } else {
            k + 1
        }) as usize,
    )
}

proof fn lemma_run_one_failure(outcomes: Seq<CopyOutcome>, u: int, n: int, m: int)
    requires
        0 <= u < outcomes.len(),
        0 <= m <= outcomes.len(),
        outcomes.len() <= usize::MAX,
        outcomes[u] is ItemFailed,
        forall|k: int| 0 <= k < outcomes.len() && k != u ==> #[trigger] outcomes[k] is Copied,
    ensures
        run_outcomes((DeploymentStatus::Running, 0, seq![], 0), outcomes.subrange(0, m), n) == (
            DeploymentStatus::Running,
            m,
            indices_except(m, u),
            if m > u {
                1int
            } else {
                0int
            },
        ),
    decreases m,
{
    let start = (DeploymentStatus::Running, 0int, Seq::<usize>::empty(), 0int);
    if m == 0 {
        assert(outcomes.subrange(0, 0).len() == 0);
        assert(indices_except(0, u) =~= Seq::<usize>::empty());
    } else {
        lemma_run_one_failure(outcomes, u, n, m - 1);
        let pre = outcomes.subrange(0, m);
        assert(pre.drop_last() =~= outcomes.subrange(0, m - 1));
        assert(pre.last() == outcomes[m - 1]);
        if m - 1 == u {
            assert(indices_except(m, u) =~= indices_except(m - 1, u));
        } else {
            assert(indices_except(m, u) =~= indices_except(m - 1, u).push((m - 1) as usize));
        }
    }
}

proof fn lemma_bytes_except(items: Seq<DeploymentItem>, u: int, m: int)
    requires
        0 <= u < items.len(),
        0 <= m <= items.len(),
        items.len() <= usize::MAX,
    ensures
        copied_bytes(items, indices_except(m, u)) == prefix_bytes(items, m) - (if m > u {
            items[u].bytes as int
        } else {
            0int
        }),
    decreases m,
{
    if m > 0 {
        lemma_bytes_except(items, u, m - 1);
        if m - 1 == u {
            assert(indices_except(m, u) =~= indices_except(m - 1, u));
        } else {
            assert(indices_except(m, u).drop_last() =~= indices_except(m - 1, u));
            assert(indices_except(m, u).last() == (m - 1) as usize);
        }
    } else {
        assert(indices_except(0, u).len() == 0);
    }
}

/// A job whose items each either copy or fail on their own, with exactly
/// one failure among them (item `u`), runs to the end of its plan: it is
/// finalized as `Completed`, with every other item copied, in order, and
/// exactly one error; the bytes transferred are the plan's total less the
/// failed item's size.
pub proof fn partial_failure_completes(items: Seq<DeploymentItem>, outcomes: Seq<CopyOutcome>, u: int)
    requires
        outcomes.len() == items.len(),
        items.len() <= usize::MAX,
        0 <= u < outcomes.len(),
        outcomes[u] is ItemFailed,
        forall|k: int| 0 <= k < outcomes.len() && k != u ==> #[trigger] outcomes[k] is Copied,
    ensures
        ({
            let n = outcomes.len() as int;
            let end = run_outcomes((DeploymentStatus::Running, 0, seq![], 0), outcomes, n);
            &&& finish_status(end.0, end.1, n) == Some(DeploymentStatus::Completed)
            &&& end.2 == indices_except(n, u)
            &&& end.3 == 1
            &&& copied_bytes(items, end.2) == sum_bytes(items) - items[u].bytes
        }),
{
    let n = outcomes.len() as int;
    lemma_run_one_failure(outcomes, u, n, n);
    assert(outcomes.subrange(0, n) =~= outcomes);
    lemma_bytes_except(items, u, n);
}

pub open spec fn with_status(j: DeploymentJob, s: DeploymentStatus) -> DeploymentJob {
    DeploymentJob { status: s, ..j }
}

/// The record written when job `j` is finalized with status `s` at `now`.
pub open spec fn record_of(
    rec: DeploymentRecord,
    j: DeploymentJob,
    s: DeploymentStatus,
    now: Seq<char>,
) -> bool {
    &&& rec.id@ == j.handle_id@
    &&& rec.device_id == j.device_id
    &&& rec.device_profile_id == j.plan.device_profile_id
    &&& rec.started_at@ == j.started_at@
    &&& rec.finished_at is Some && rec.finished_at->0@ == now
    &&& rec.status == s
    &&& rec.total_files == j.copied@.len()
    &&& rec.total_bytes == j.bytes_transferred
    &&& rec.errors@ == j.errors@
    &&& rec.warnings@ == j.warnings@
}

pub open spec fn error_message(item: DeploymentItem, message: Seq<char>) -> Seq<char> {
    "failed to copy "@ + item.source_path@ + ": "@ + message
}

pub open spec fn skipped_message(item: DeploymentItem) -> Seq<char> {
    "skipped: "@ + item.source_path@
}

pub open spec fn outcome_message(o: CopyOutcome) -> Seq<char> {
    match o {
        CopyOutcome::Copied => Seq::empty(),
        CopyOutcome::Skipped => Seq::empty(),
        CopyOutcome::ItemFailed { message } => message@,
        CopyOutcome::DestinationFailed { message } => message@,
    }
}

/// The errors a job holds after an outcome.
pub open spec fn errors_after(j: DeploymentJob, o: CopyOutcome) -> Seq<Seq<char>> {
    let old_errors = j.errors@.map_values(|e: String| e@);
    let item = j.plan.items@[j.cursor as int];
    match o {
        CopyOutcome::Copied => old_errors,
        CopyOutcome::Skipped => old_errors,
        CopyOutcome::ItemFailed { message } => old_errors.push(error_message(item, message@)),
        CopyOutcome::DestinationFailed { message } => old_errors.push(message@) + Seq::new(
            (j.plan.items@.len() - j.cursor) as nat,
            |k: int| skipped_message(j.plan.items@[j.cursor + k]),
        ),
    }
}

/// Bytes per second of a transfer, capped at `u64::MAX`.
pub open spec fn speed_spec(bytes: int, elapsed_ms: int) -> int {
    let ms = if elapsed_ms < 1 {
        1
    } else {
        elapsed_ms
    };
    let v = bytes * 1000 / ms;
    if v > u64::MAX {
        u64::MAX as int
    } else {
        v
    }
}

/// Number of recent items over which speed is reported.
pub const SPEED_WINDOW: usize = 4;

pub open spec fn window_bytes(w: Seq<(u64, u64)>) -> int
    decreases w.len(),
{
    if w.len() == 0 {
        0
    } else {
        window_bytes(w.drop_last()) + w.last().0
    }
}

pub open spec fn window_ms(w: Seq<(u64, u64)>) -> int
    decreases w.len(),
{
    if w.len() == 0 {
        0
    } else {
        window_ms(w.drop_last()) + w.last().1
    }
}

/// The window after one more sample: the oldest drops out once it is full.
pub open spec fn window_after(w: Seq<(u64, u64)>, s: (u64, u64)) -> Seq<(u64, u64)> {
    let v = w.push(s);
    if v.len() > SPEED_WINDOW {
        v.subrange(1, v.len() as int)
    } else {
        v
    }
}

/// Speed over a window of samples, in bytes per second.
pub fn window_speed(w: &Vec<(u64, u64)>) -> (r: u64)
    requires
        w@.len() <= SPEED_WINDOW,
    ensures
        r == speed_spec(window_bytes(w@), window_ms(w@)),
{
    let mut sb: u128 = 0;
    let mut sm: u128 = 0;
    let mut i: usize = 0;
    while i < w.len()
        invariant
            i <= w@.len() <= SPEED_WINDOW,
            sb == window_bytes(w@.subrange(0, i as int)),
            sm == window_ms(w@.subrange(0, i as int)),
            sb <= i * (u64::MAX as int),
            sm <= i * (u64::MAX as int),
        decreases w@.len() - i,
    {
        proof {
            assert(w@.subrange(0, i + 1).drop_last() =~= w@.subrange(0, i as int));
        }
        sb = sb + w[i].0 as u128;
        sm = sm + w[i].1 as u128;
        i = i + 1;
    }
    assert(w@.subrange(0, w@.len() as int) =~= w@);
    let ms: u128 = if sm < 1 {
        1
    } else {
        sm
    };
    assert(sb * 1000 <= 4 * (u64::MAX as int) * 1000) by (nonlinear_arith)
        requires
            sb <= 4 * (u64::MAX as int),
    ;
    let v: u128 = (sb * 1000) / ms;
    if v > u64::MAX as u128 {
        u64::MAX
    } else {
        v as u64
    }
}

fn copy_strings(v: &Vec<String>) -> (r: Vec<String>)
    ensures
        r@ == v@,
{
    let mut r: Vec<String> = Vec::new();
    let mut i: usize = 0;
    while i < v.len()
        invariant
            i <= v@.len(),
            r@ == v@.subrange(0, i as int),
        decreases v@.len() - i,
    {
        r.push(v[i].clone());
        i = i + 1;
    }
    assert(r@ =~= v@);
    r
}

/// `a` is `b` with at most its progress, status and errors changed.
pub open spec fn same_job(a: DeploymentJob, b: DeploymentJob) -> bool {
    &&& a.handle_id == b.handle_id
    &&& a.serial == b.serial
    &&& a.device_id == b.device_id
    &&& a.plan == b.plan
    &&& a.started_at == b.started_at
    &&& a.overwrite_existing == b.overwrite_existing
    &&& a.warnings == b.warnings
}

/// The progress event reported after `outcome` moved job `j` to `nj`.
pub open spec fn progress_report(
    p: DeploymentProgress,
    j: DeploymentJob,
    nj: DeploymentJob,
    outcome: CopyOutcome,
    elapsed_ms: u64,
) -> bool {
    let item = j.plan.items@[j.cursor as int];
    &&& !nj.in_flight
    &&& p.handle_id@ == j.handle_id@
    &&& p.current == nj.cursor
    &&& p.total == j.plan.items@.len()
    &&& p.current_file@ == item.dest_path@
    &&& p.bytes_transferred == nj.bytes_transferred
    &&& nj.recent@ == (if outcome is DestinationFailed {
        j.recent@
    } else {
        window_after(j.recent@, (if outcome is Copied { item.bytes } else { 0 }, elapsed_ms))
    })
    &&& p.speed_bps == (if outcome is DestinationFailed {
        0
    } else {
        speed_spec(window_bytes(nj.recent@), window_ms(nj.recent@))
    })
    &&& (outcome is Copied || outcome is Skipped <==> p.message is None)
    &&& p.message is Some ==> p.message->0@ == outcome_message(outcome)
}

/// Progress is never double counted: in every well-formed job, pauses and
/// resumes included, the bytes transferred are the sum of the sizes of the
/// items reported copied, and no item was reported copied twice.
pub proof fn progress_counts_each_item_once(j: DeploymentJob)
    requires
        job_wf(j),
    ensures
        j.bytes_transferred == copied_bytes(j.plan.items@, j.copied@),
        forall|a: int, b: int|
            0 <= a < j.copied@.len() && 0 <= b < j.copied@.len() && a != b ==> j.copied@[a]
                != j.copied@[b],
{
    assert forall|a: int, b: int|
        0 <= a < j.copied@.len() && 0 <= b < j.copied@.len() && a != b implies j.copied@[a]
        != j.copied@[b] by {
        if a < b {
            assert(j.copied@[a] < j.copied@[b]);
        } else {
            assert(j.copied@[b] < j.copied@[a]);
        }
    }
}

/// The completion event of a finished job: successful only when the job
/// ran to the end of its plan, with its errors and warnings verbatim.
pub fn completion_of(record: &DeploymentRecord) -> (r: DeploymentComplete)
    ensures
        r.handle_id@ == record.id@,
        r.success == (record.status == DeploymentStatus::Completed),
        r.errors@ == record.errors@,
        r.warnings@ == record.warnings@,
{
    DeploymentComplete {
        handle_id: record.id.clone(),
        success: record.status == DeploymentStatus::Completed,
        errors: copy_strings(&record.errors),
        warnings: copy_strings(&record.warnings),
    }
}

// ---------------------------------------------------------------------------
// The table

/// The table's invariant: each job is well formed, holds a serial below
/// `next_serial`, and no two jobs share a serial or a destination path.
pub open spec fn table_wf(jobs: Seq<DeploymentJob>, next_serial: u64) -> bool {
    &&& forall|i: int| 0 <= i < jobs.len() ==> job_wf(#[trigger] jobs[i])
    &&& forall|i: int| 0 <= i < jobs.len() ==> #[trigger] jobs[i].serial < next_serial
    &&& forall|i: int, k: int|
        0 <= i < jobs.len() && 0 <= k < jobs.len() && i != k ==> #[trigger] jobs[i].serial
            != #[trigger] jobs[k].serial
    &&& forall|i: int, k: int|
        0 <= i < jobs.len() && 0 <= k < jobs.len() && i != k
            ==> #[trigger] jobs[i].plan.destination_path@ != #[trigger] jobs[k].plan.destination_path@
}

/// Replacing a job by a well-formed one with the same serial and
/// destination keeps the table well formed.
proof fn lemma_table_wf_update(jobs: Seq<DeploymentJob>, next: u64, i: int, nj: DeploymentJob)
    requires
        table_wf(jobs, next),
        0 <= i < jobs.len(),
        job_wf(nj),
        nj.serial == jobs[i].serial,
        nj.plan.destination_path@ == jobs[i].plan.destination_path@,
    ensures
        table_wf(jobs.update(i, nj), next),
{
    let js = jobs.update(i, nj);
    assert forall|a: int| 0 <= a < js.len() implies job_wf(#[trigger] js[a]) by {
        if a != i {
            assert(job_wf(jobs[a]));
        }
    }
    assert forall|a: int| 0 <= a < js.len() implies #[trigger] js[a].serial < next by {
        assert(jobs[a].serial < next);
    }
    assert forall|a: int, k: int|
        0 <= a < js.len() && 0 <= k < js.len() && a != k implies #[trigger] js[a].serial
        != #[trigger] js[k].serial by {
        assert(jobs[a].serial != jobs[k].serial);
    }
    assert forall|a: int, k: int|
        0 <= a < js.len() && 0 <= k < js.len() && a != k
            implies #[trigger] js[a].plan.destination_path@ != #[trigger] js[k].plan.destination_path@ by {
        assert(jobs[a].plan.destination_path@ != jobs[k].plan.destination_path@);
    }
}

/// Removing a job keeps the table well formed.
proof fn lemma_table_wf_remove(jobs: Seq<DeploymentJob>, next: u64, i: int)
    requires
        table_wf(jobs, next),
        0 <= i < jobs.len(),
    ensures
        table_wf(jobs.remove(i), next),
{
    let js = jobs.remove(i);
    assert forall|a: int| 0 <= a < js.len() implies js[a] == jobs[if a < i { a } else { a + 1 }] by {}
    assert forall|a: int| 0 <= a < js.len() implies job_wf(#[trigger] js[a]) by {
        assert(js[a] == jobs[if a < i { a } else { a + 1 }]);
    }
    assert forall|a: int| 0 <= a < js.len() implies #[trigger] js[a].serial < next by {
        assert(js[a] == jobs[if a < i { a } else { a + 1 }]);
    }
    assert forall|a: int, k: int|
        0 <= a < js.len() && 0 <= k < js.len() && a != k implies #[trigger] js[a].serial
        != #[trigger] js[k].serial by {
        assert(js[a] == jobs[if a < i { a } else { a + 1 }]);
        assert(js[k] == jobs[if k < i { k } else { k + 1 }]);
    }
    assert forall|a: int, k: int|
        0 <= a < js.len() && 0 <= k < js.len() && a != k
            implies #[trigger] js[a].plan.destination_path@ != #[trigger] js[k].plan.destination_path@ by {
        assert(js[a] == jobs[if a < i { a } else { a + 1 }]);
        assert(js[k] == jobs[if k < i { k } else { k + 1 }]);
    }
}

/// Adding a well-formed job with the next serial, on a destination no job
/// holds, keeps the table well formed.
proof fn lemma_table_wf_push(jobs: Seq<DeploymentJob>, next: u64, nj: DeploymentJob)
    requires
        table_wf(jobs, next),
        next < u64::MAX,
        job_wf(nj),
        nj.serial == next,
        forall|k: int| 0 <= k < jobs.len() ==> jobs[k].plan.destination_path@ != nj.plan.destination_path@,
    ensures
        table_wf(jobs.push(nj), (next + 1) as u64),
{
    let js = jobs.push(nj);
    assert forall|a: int| 0 <= a < js.len() implies job_wf(#[trigger] js[a]) by {
        if a < jobs.len() {
            assert(js[a] == jobs[a]);
        }
    }
    assert forall|a: int| 0 <= a < js.len() implies #[trigger] js[a].serial < next + 1 by {
        if a < jobs.len() {
            assert(js[a] == jobs[a]);
        }
    }
    assert forall|a: int, k: int|
        0 <= a < js.len() && 0 <= k < js.len() && a != k implies #[trigger] js[a].serial
        != #[trigger] js[k].serial by {
        if a < jobs.len() {
            assert(js[a] == jobs[a]);
        }
        if k < jobs.len() {
            assert(js[k] == jobs[k]);
        }
    }
    assert forall|a: int, k: int|
        0 <= a < js.len() && 0 <= k < js.len() && a != k
            implies #[trigger] js[a].plan.destination_path@ != #[trigger] js[k].plan.destination_path@ by {
        if a < jobs.len() {
            assert(js[a] == jobs[a]);
        }
        if k < jobs.len() {
            assert(js[k] == jobs[k]);
        }
    }
}

/// Every finished handle was issued under a serial below `next_serial`.
pub open spec fn finished_wf(finished: Seq<String>, next_serial: u64) -> bool {
    forall|k: int|
        0 <= k < finished.len() ==> exists|s: u64|
            s < next_serial && #[trigger] finished[k]@ == handle_name(s as nat)
}

impl DeploymentExecutor {
    /// The table's invariant: see `table_wf`.
    pub open spec fn wf(&self) -> bool {
        &&& table_wf(self.jobs@, self.next_serial)
        &&& finished_wf(self.finished@, self.next_serial)
    }

    /// Job `i` runs under handle `h`.
    pub open spec fn job_at(&self, i: int, h: Seq<char>) -> bool {
        0 <= i < self.jobs@.len() && self.jobs@[i].handle_id@ == h
    }

    pub open spec fn has_job(&self, h: Seq<char>) -> bool {
        exists|i: int| self.job_at(i, h)
    }

    pub open spec fn destination_busy(&self, dest: Seq<char>) -> bool {
        exists|i: int| 0 <= i < self.jobs@.len() && #[trigger] self.jobs@[i].plan.destination_path@ == dest
    }

    pub open spec fn was_finished(&self, h: Seq<char>) -> bool {
        exists|k: int| 0 <= k < self.finished@.len() && #[trigger] self.finished@[k]@ == h
    }

    /// The error owed for a handle that has no job in a suitable state.
    pub open spec fn refusal(&self, h: Seq<char>) -> DeployError {
        if !self.has_job(h) && !self.was_finished(h) {
            DeployError::UnknownHandle
        } else {
            DeployError::NotRunning
        }
    }

    pub fn new() -> (r: Self)
        ensures
            r.wf(),
            r.jobs@.len() == 0,
            r.finished@.len() == 0,
    {
        DeploymentExecutor { jobs: Vec::new(), finished: Vec::new(), next_serial: 0 }
    }

    proof fn lemma_unique_handle(&self, i: int, k: int)
        requires
            self.wf(),
            0 <= i < self.jobs@.len(),
            0 <= k < self.jobs@.len(),
            self.jobs@[i].handle_id@ == self.jobs@[k].handle_id@,
        ensures
            i == k,
    {
        if i != k {
            assert(job_wf(self.jobs@[i]));
            assert(job_wf(self.jobs@[k]));
            lemma_handle_name_injective(self.jobs@[i].serial as nat, self.jobs@[k].serial as nat);
        }
    }

    fn find_job(&self, handle: &str) -> (r: Option<usize>)
        requires
            self.wf(),
        ensures
            r is Some ==> self.job_at(r->0 as int, handle@) && forall|k: int|
                self.job_at(k, handle@) ==> k == r->0,
            r is None ==> !self.has_job(handle@),
    {
        let h = String::from_str(handle);
        let mut i: usize = 0;
        while i < self.jobs.len()
            invariant
                i <= self.jobs@.len(),
                self.wf(),
                h@ == handle@,
                forall|k: int| 0 <= k < i ==> self.jobs@[k].handle_id@ != handle@,
            decreases self.jobs@.len() - i,
        {
            if self.jobs[i].handle_id == h {
                proof {
                    assert forall|k: int| self.job_at(k, handle@) implies k == i by {
                        self.lemma_unique_handle(k, i as int);
                    }
                }
                return Some(i);
            }
            i = i + 1;
        }
        None
    }

    fn is_finished(&self, handle: &str) -> (r: bool)
        ensures
            r == self.was_finished(handle@),
    {
        let h = String::from_str(handle);
        let mut i: usize = 0;
        while i < self.finished.len()
            invariant
                i <= self.finished@.len(),
                h@ == handle@,
                forall|k: int| 0 <= k < i ==> self.finished@[k]@ != handle@,
            decreases self.finished@.len() - i,
        {
            if self.finished[i] == h {
                return true;
            }
            i = i + 1;
        }
        false
    }

    fn refuse(&self, handle: &str) -> (r: DeployError)
        requires
            self.wf(),
        ensures
            r == self.refusal(handle@),
    {
        if self.find_job(handle).is_none() && !self.is_finished(handle) {
            DeployError::UnknownHandle
        } else {
            DeployError::NotRunning
        }
    }

    /// Whether a job is active on the destination path.
    pub fn is_destination_busy(&self, dest: &String) -> (r: bool)
        ensures
            r == self.destination_busy(dest@),
    {
        let mut i: usize = 0;
        while i < self.jobs.len()
            invariant
                i <= self.jobs@.len(),
                forall|k: int| 0 <= k < i ==> self.jobs@[k].plan.destination_path@ != dest@,
            decreases self.jobs@.len() - i,
        {
            if self.jobs[i].plan.destination_path == *dest {
                return true;
            }
            i = i + 1;
        }
        false
    }

    /// Starts a job on `plan`, in `Running` state at its first item. Refused
    /// with `Conflict` while another job is active on the same destination
    /// path, and with `InvalidPlan` where the plan's totals do not agree with
    /// its items; a refused start leaves the table as it was.
    pub fn start(
        &mut self,
        plan: DeploymentPlan,
        device_id: i64,
        overwrite_existing: bool,
        started_at: String,
    ) -> (r: Result<DeploymentHandle, DeployError>)
        requires
            old(self).wf(),
        ensures
            final(self).wf(),
            old(self).destination_busy(plan.destination_path@) ==> r == Err::<
                DeploymentHandle,
                DeployError,
            >(DeployError::Conflict),
            !old(self).destination_busy(plan.destination_path@) && !plan_accounted(plan) ==> r
                == Err::<DeploymentHandle, DeployError>(DeployError::InvalidPlan),
            !old(self).destination_busy(plan.destination_path@) && plan_accounted(plan)
                && old(self).next_serial < u64::MAX ==> r is Ok,
            !old(self).destination_busy(plan.destination_path@) && plan_accounted(plan)
                && old(self).next_serial == u64::MAX ==> r == Err::<DeploymentHandle, DeployError>(
                DeployError::HandlesExhausted,
            ),
            r is Err ==> *final(self) == *old(self),
            r is Ok ==> {
                let j = final(self).jobs@.last();
                &&& final(self).jobs@.drop_last() == old(self).jobs@
                &&& final(self).finished@ == old(self).finished@
                &&& final(self).next_serial == old(self).next_serial + 1
                &&& r->Ok_0.handle_id@ == j.handle_id@
                &&& j.handle_id@ == handle_name(old(self).next_serial as nat)
                &&& forall|k: int|
                    0 <= k < old(self).jobs@.len() ==> #[trigger] old(self).jobs@[k].handle_id@
                        != j.handle_id@
                &&& forall|k: int|
                    0 <= k < old(self).finished@.len() ==> #[trigger] old(self).finished@[k]@
                        != j.handle_id@
                &&& j.plan == plan
                &&& j.device_id == device_id
                &&& j.started_at == started_at
                &&& j.overwrite_existing == overwrite_existing
                &&& !j.in_flight
                &&& j.status == DeploymentStatus::Running
                &&& j.cursor == 0
                &&& j.bytes_transferred == 0
                &&& j.copied@.len() == 0
                &&& j.errors@.len() == 0
                &&& j.warnings@ == plan.warnings@
            },
    {
        if self.is_destination_busy(&plan.destination_path) {
            return Err(DeployError::Conflict);
        }
        if !is_accounted(&plan) {
            return Err(DeployError::InvalidPlan);
        }
        if self.next_serial == u64::MAX {
            return Err(DeployError::HandlesExhausted);
        }
        let serial = self.next_serial;
        let handle_id = make_handle_id(serial);
        let warnings = copy_strings(&plan.warnings);
        let job = DeploymentJob {
            handle_id: handle_id.clone(),
            serial,
            device_id,
            plan,
            status: DeploymentStatus::Running,
            cursor: 0,
            bytes_transferred: 0,
            recent: Vec::new(),
            copied: Vec::new(),
            started_at,
            overwrite_existing,
            in_flight: false,
            errors: Vec::new(),
            warnings,
        };
        assert(job_wf(job)) by {
            assert(copied_bytes(job.plan.items@, job.copied@) == 0);
        }
        let ghost old_jobs = self.jobs@;
        self.jobs.push(job);
        self.next_serial = serial + 1;
        proof {
            lemma_table_wf_push(old_jobs, serial, job);
            assert forall|k: int| 0 <= k < old_jobs.len() implies #[trigger] old_jobs[k].handle_id@
                != handle_name(serial as nat) by {
                assert(job_wf(old_jobs[k]));
                lemma_handle_name_injective(old_jobs[k].serial as nat, serial as nat);
            }
            assert forall|k: int| 0 <= k < self.finished@.len() implies #[trigger] self.finished@[k]@
                != handle_name(serial as nat) by {
                let s = choose|s: u64| s < serial && self.finished@[k]@ == handle_name(s as nat);
                lemma_handle_name_injective(s as nat, serial as nat);
            }
            assert(self.jobs@.drop_last() =~= old_jobs);
        }
        Ok(DeploymentHandle { handle_id })
    }

    /// Replaces the status of job `i`, keeping everything else.
    fn set_status(&mut self, i: usize, s: DeploymentStatus)
        requires
            old(self).wf(),
            i < old(self).jobs@.len(),
            s != DeploymentStatus::Completed,
            s != DeploymentStatus::Failed,
        ensures
            final(self).wf(),
            final(self).jobs@ == old(self).jobs@.update(i as int, with_status(old(self).jobs@[i as int], s)),
            final(self).finished == old(self).finished,
            final(self).next_serial == old(self).next_serial,
    {
        let ghost old_jobs = self.jobs@;
        let mut job = self.jobs.remove(i);
        job.status = s;
        self.jobs.insert(i, job);
        proof {
            assert(self.jobs@ =~= old_jobs.update(i as int, with_status(old_jobs[i as int], s)));
            lemma_table_wf_update(old_jobs, self.next_serial, i as int, with_status(old_jobs[i as int], s));
        }
    }

    /// Pauses a running job. Only a `Running` job can be paused; its
    /// progress is left as it is.
    pub fn pause(&mut self, handle: &str) -> (r: Result<(), DeployError>)
        requires
            old(self).wf(),
        ensures
            final(self).wf(),
            r is Ok <==> exists|i: int|
                old(self).job_at(i, handle@) && old(self).jobs@[i].status == DeploymentStatus::Running,
            r is Ok ==> exists|i: int|
                old(self).job_at(i, handle@) && final(self).jobs@ == old(self).jobs@.update(
                    i,
                    with_status(old(self).jobs@[i], DeploymentStatus::Paused),
                ),
            r is Ok ==> final(self).finished == old(self).finished,
            final(self).next_serial == old(self).next_serial,
            r is Err ==> *final(self) == *old(self) && r->Err_0 == old(self).refusal(handle@),
    {
        match self.find_job(handle) {
            Some(i) => {
                match self.jobs[i].status {
                    DeploymentStatus::Running => {
                        self.set_status(i, DeploymentStatus::Paused);
                        Ok(())
                    },
                    _ => Err(DeployError::NotRunning),
                }
            },
            None => Err(self.refuse(handle)),
        }
    }

    /// Resumes a paused job from its cursor. `NotPaused` for a job that is
    /// running; `NotRunning` for one that is cancelled, failed or finished.
    pub fn resume(&mut self, handle: &str) -> (r: Result<(), DeployError>)
        requires
            old(self).wf(),
        ensures
            final(self).wf(),
            r is Ok <==> exists|i: int|
                old(self).job_at(i, handle@) && old(self).jobs@[i].status == DeploymentStatus::Paused,
            r is Ok ==> exists|i: int|
                old(self).job_at(i, handle@) && final(self).jobs@ == old(self).jobs@.update(
                    i,
                    with_status(old(self).jobs@[i], DeploymentStatus::Running),
                ),
            r is Ok ==> final(self).finished == old(self).finished,
            final(self).next_serial == old(self).next_serial,
            r is Err ==> *final(self) == *old(self),
            r == Err::<(), DeployError>(DeployError::NotPaused) <==> exists|i: int|
                old(self).job_at(i, handle@) && old(self).jobs@[i].status == DeploymentStatus::Running,
            !old(self).has_job(handle@) ==> r == Err::<(), DeployError>(old(self).refusal(handle@)),
    {
        match self.find_job(handle) {
            Some(i) => {
                match self.jobs[i].status {
                    DeploymentStatus::Paused => {
                        self.set_status(i, DeploymentStatus::Running);
                        Ok(())
                    },
                    DeploymentStatus::Running => Err(DeployError::NotPaused),
                    _ => Err(DeployError::NotRunning),
                }
            },
            None => Err(self.refuse(handle)),
        }
    }

    /// Cancels a running or paused job; it is finalized by the next
    /// `next_action`. Files already copied stay in place.
    pub fn cancel(&mut self, handle: &str) -> (r: Result<(), DeployError>)
        requires
            old(self).wf(),
        ensures
            final(self).wf(),
            r is Ok <==> exists|i: int|
                old(self).job_at(i, handle@) && (old(self).jobs@[i].status
                    == DeploymentStatus::Running || old(self).jobs@[i].status
                    == DeploymentStatus::Paused),
            r is Ok ==> exists|i: int|
                old(self).job_at(i, handle@) && final(self).jobs@ == old(self).jobs@.update(
                    i,
                    with_status(old(self).jobs@[i], DeploymentStatus::Cancelled),
                ),
            r is Ok ==> final(self).finished == old(self).finished,
            final(self).next_serial == old(self).next_serial,
            r is Err ==> *final(self) == *old(self) && r->Err_0 == old(self).refusal(handle@),
    {
        match self.find_job(handle) {
            Some(i) => {
                match self.jobs[i].status {
                    DeploymentStatus::Running | DeploymentStatus::Paused => {
                        self.set_status(i, DeploymentStatus::Cancelled);
                        Ok(())
                    },
                    _ => Err(DeployError::NotRunning),
                }
            },
            None => Err(self.refuse(handle)),
        }
    }

    /// Decides what the worker of job `handle` does next. While an item is
    /// in flight the worker waits for its outcome to be reported. Otherwise
    /// a running job with items left hands out its next item, now in flight;
    /// a paused job waits. A cancelled or failed job, or a running one at the
    /// end of its plan, is finalized: it leaves the table, its handle is
    /// remembered as finished, and its history record is returned, stamped
    /// with `now`.
    pub fn next_action(&mut self, handle: &str, now: &str) -> (r: Result<JobAction, DeployError>)
        requires
            old(self).wf(),
        ensures
            final(self).wf(),
            final(self).next_serial == old(self).next_serial,
            r is Ok <==> old(self).has_job(handle@),
            r is Err ==> *final(self) == *old(self) && r->Err_0 == old(self).refusal(handle@),
            forall|i: int|
                #![trigger old(self).jobs@[i]]
                old(self).job_at(i, handle@) ==> {
                    let j = old(self).jobs@[i];
                    let n = j.plan.items@.len() as int;
                    if j.in_flight {
                        &&& *final(self) == *old(self)
                        &&& r == Ok::<JobAction, DeployError>(JobAction::Wait)
                    } else {
                        match finish_status(j.status, j.cursor as int, n) {
                            None => {
                                &&& final(self).finished == old(self).finished
                                &&& j.status == DeploymentStatus::Paused ==> *final(self) == *old(self)
                                    && r == Ok::<JobAction, DeployError>(JobAction::Wait)
                                &&& j.status == DeploymentStatus::Running ==> {
                                    let item = j.plan.items@[j.cursor as int];
                                    &&& final(self).jobs@ == old(self).jobs@.update(
                                        i,
                                        (DeploymentJob { in_flight: true, ..j }),
                                    )
                                    &&& r is Ok && r->Ok_0 is CopyItem
                                    &&& r->Ok_0->index == j.cursor
                                    &&& r->Ok_0->source@ == item.source_path@
                                    &&& r->Ok_0->dest@ == item.dest_path@
                                    &&& r->Ok_0->overwrite == j.overwrite_existing
                                }
                            },
                            Some(s) => {
                                &&& final(self).jobs@ == old(self).jobs@.remove(i)
                                &&& final(self).finished@.len() == old(self).finished@.len() + 1
                                &&& final(self).finished@.drop_last() == old(self).finished@
                                &&& final(self).finished@.last()@ == handle@
                                &&& r is Ok && r->Ok_0 is Finished
                                &&& record_of(r->Ok_0->record, j, s, now@)
                            },
                        }
                    }
                },
    {
        let i = match self.find_job(handle) {
            Some(i) => i,
            None => {
                return Err(self.refuse(handle));
            },
        };
        if self.jobs[i].in_flight {
            return Ok(JobAction::Wait);
        }
        let n = self.jobs[i].plan.items.len();
        let status = match self.jobs[i].status {
            DeploymentStatus::Paused => {
                return Ok(JobAction::Wait);
            },
            DeploymentStatus::Running => {
                if self.jobs[i].cursor < n {
                    let ghost old_jobs = self.jobs@;
                    let mut job = self.jobs.remove(i);
                    let c = job.cursor;
                    let action = JobAction::CopyItem {
                        index: c,
                        source: job.plan.items[c].source_path.clone(),
                        dest: job.plan.items[c].dest_path.clone(),
                        overwrite: job.overwrite_existing,
                    };
                    job.in_flight = true;
                    let ghost nj = job;
                    self.jobs.insert(i, job);
                    proof {
                        assert(self.jobs@ =~= old_jobs.update(i as int, nj));
                        assert(job_wf(old_jobs[i as int]));
                        lemma_table_wf_update(old_jobs, self.next_serial, i as int, nj);
                    }
                    return Ok(action);
                }
                DeploymentStatus::Completed
            },
            DeploymentStatus::Cancelled => DeploymentStatus::Cancelled,
            DeploymentStatus::Failed => DeploymentStatus::Failed,
            DeploymentStatus::Completed => DeploymentStatus::Completed,
        };
        let ghost old_jobs = self.jobs@;
        let job = self.jobs.remove(i);
        let ghost old_finished = self.finished@;
        self.finished.push(job.handle_id.clone());
        proof {
            lemma_table_wf_remove(old_jobs, self.next_serial, i as int);
            assert(job_wf(old_jobs[i as int]));
            assert forall|k: int| 0 <= k < self.finished@.len() implies exists|s: u64|
                s < self.next_serial && #[trigger] self.finished@[k]@ == handle_name(s as nat) by {
                if k < old_finished.len() {
                    assert(self.finished@[k] == old_finished[k]);
                } else {
                    assert(old_jobs[i as int].serial < self.next_serial);
                }
            }
        }
        let total_files = job.copied.len() as u64;
        let record = DeploymentRecord {
            id: job.handle_id,
            device_id: job.device_id,
            device_profile_id: job.plan.device_profile_id,
            started_at: job.started_at,
            finished_at: Some(String::from_str(now)),
            status,
            total_files,
            total_bytes: job.bytes_transferred,
            errors: job.errors,
            warnings: job.warnings,
        };
        Ok(JobAction::Finished { record })
    }

    /// Records what became of the item in flight of job `handle`. A copied
    /// item adds its size to the bytes transferred; a failed item adds one
    /// error; a skipped one neither. In all three the cursor moves on and
    /// the status is kept. A
    /// destination failure adds its message and one "skipped" entry per
    /// item not yet processed, and fails the job, unless it is cancelled: a
    /// cancelled job stays cancelled. Every other outcome adds a
    /// sample to the speed window, and the reported speed is taken over that
    /// window. Accepted while the job is running, paused or cancelled, for
    /// the item in flight.
    pub fn record_outcome(&mut self, handle: &str, outcome: CopyOutcome, elapsed_ms: u64) -> (r:
        Result<DeploymentProgress, DeployError>)
        requires
            old(self).wf(),
        ensures
            final(self).wf(),
            final(self).next_serial == old(self).next_serial,
            final(self).finished == old(self).finished,
            r is Err ==> *final(self) == *old(self),
            !old(self).has_job(handle@) ==> r == Err::<DeploymentProgress, DeployError>(
                old(self).refusal(handle@),
            ),
            forall|i: int|
                #![trigger old(self).jobs@[i]]
                old(self).job_at(i, handle@) ==> {
                    let j = old(self).jobs@[i];
                    let n = j.plan.items@.len() as int;
                    &&& j.status == DeploymentStatus::Failed ==> r == Err::<
                        DeploymentProgress,
                        DeployError,
                    >(DeployError::NotRunning)
                    &&& j.status != DeploymentStatus::Failed && !j.in_flight ==> r == Err::<
                        DeploymentProgress,
                        DeployError,
                    >(DeployError::NothingInFlight)
                    &&& j.status != DeploymentStatus::Failed && j.in_flight ==> {
                        let nj = final(self).jobs@[i];
                        &&& r is Ok
                        &&& final(self).jobs@.len() == old(self).jobs@.len()
                        &&& forall|k: int|
                            0 <= k < old(self).jobs@.len() && k != i ==> final(self).jobs@[k]
                                == old(self).jobs@[k]
                        &&& same_job(nj, j)
                        &&& progress_of(nj) == after_outcome(progress_of(j), outcome, n)
                        &&& string_views(nj.errors@) == errors_after(j, outcome)
                        &&& progress_report(r->Ok_0, j, nj, outcome, elapsed_ms)
                    }
                },
    {
        let i = match self.find_job(handle) {
            Some(i) => i,
            None => {
                return Err(self.refuse(handle));
            },
        };
        if self.jobs[i].status == DeploymentStatus::Failed {
            return Err(DeployError::NotRunning);
        }
        if !self.jobs[i].in_flight {
            return Err(DeployError::NothingInFlight);
        }
        let ghost old_jobs = self.jobs@;
        let ghost j = old_jobs[i as int];
        let mut job = self.jobs.remove(i);
        let c = job.cursor;
        let n = job.plan.items.len();
        let item_bytes = job.plan.items[c].bytes;
        let dest = job.plan.items[c].dest_path.clone();
        proof {
            assert(job == j);
        }
        let moved: u64 = match outcome {
            CopyOutcome::Copied => item_bytes,
            _ => 0,
        };
        let fatal = match outcome {
            CopyOutcome::DestinationFailed { .. } => true,
            _ => false,
        };
        let message = match outcome {
            CopyOutcome::Copied => {
                proof {
                    lemma_copied_bytes_bound(j.plan.items@, j.copied@.push(c), c as int + 1);
                    lemma_prefix_bytes_monotone(j.plan.items@, c as int + 1, n as int);
                    assert(j.copied@.push(c).drop_last() =~= j.copied@);
                }
                job.bytes_transferred = job.bytes_transferred + item_bytes;
                job.copied.push(c);
                job.cursor = c + 1;
                None
            },
            CopyOutcome::Skipped => {
                job.cursor = c + 1;
                None
            },
            CopyOutcome::ItemFailed { message } => {
                let mut e = String::from_str("failed to copy ");
                e.append(job.plan.items[c].source_path.as_str());
                e.append(": ");
                e.append(message.as_str());
                job.errors.push(e);
                proof {
                    assert(string_views(job.errors@) =~= string_views(j.errors@).push(
                        error_message(j.plan.items@[c as int], message@),
                    ));
                }
                job.cursor = c + 1;
                Some(message)
            },
            CopyOutcome::DestinationFailed { message } => {
                job.errors.push(message.clone());
                let ghost base = string_views(j.errors@).push(message@);
                proof {
                    assert(string_views(job.errors@) =~= base);
                }
                let mut k: usize = c;
                while k < n
                    invariant
                        c <= k <= n,
                        n == j.plan.items@.len(),
                        job.plan == j.plan,
                        same_job(job, j),
                        job.copied == j.copied,
                        job.cursor == c,
                        c == j.cursor,
                        job.bytes_transferred == j.bytes_transferred,
                        job.status == j.status,
                        job.recent == j.recent,
                        string_views(job.errors@) =~= base + Seq::new(
                            (k - c) as nat,
                            |x: int| skipped_message(j.plan.items@[c + x]),
                        ),
                    decreases n - k,
                {
                    let mut e = String::from_str("skipped: ");
                    e.append(job.plan.items[k].source_path.as_str());
                    let ghost before = job.errors@;
                    job.errors.push(e);
                    proof {
                        assert(string_views(job.errors@) =~= string_views(before).push(e@));
                        assert(base + Seq::new(
                            (k + 1 - c) as nat,
                            |x: int| skipped_message(j.plan.items@[c + x]),
                        ) =~= (base + Seq::new(
                            (k - c) as nat,
                            |x: int| skipped_message(j.plan.items@[c + x]),
                        )).push(skipped_message(j.plan.items@[k as int])));
                    }
                    k = k + 1;
                }
                if job.status != DeploymentStatus::Cancelled {
                    job.status = DeploymentStatus::Failed;
                }
                Some(message)
            },
        };
        let speed = if fatal {
            0
        } else {
            job.recent.push((moved, elapsed_ms));
            if job.recent.len() > SPEED_WINDOW {
                job.recent.remove(0);
            }
            proof {
                assert(job.recent@ =~= window_after(j.recent@, (moved, elapsed_ms)));
            }
            window_speed(&job.recent)
        };
        let progress = DeploymentProgress {
            handle_id: job.handle_id.clone(),
            current: job.cursor as u64,
            total: n as u64,
            current_file: dest,
            bytes_transferred: job.bytes_transferred,
            speed_bps: speed,
            message,
        };
        job.in_flight = false;
        let ghost nj = job;
        proof {
            assert(nj.copied@ == j.copied@ || nj.copied@ == j.copied@.push(c));
            assert(nj.serial == j.serial && nj.plan == j.plan);
        }
        self.jobs.insert(i, job);
        proof {
            assert(self.jobs@ =~= old_jobs.update(i as int, nj));
            assert(job_wf(j));
            assert forall|a: int| 0 <= a < nj.copied@.len() implies nj.copied@[a] < nj.cursor by {
                if a < j.copied@.len() {
                    assert(nj.copied@[a] == j.copied@[a]);
                }
            }
            lemma_table_wf_update(old_jobs, self.next_serial, i as int, nj);
        }
        Ok(progress)
    }
}

} // verus!
