//! The capture engine as a state machine.
//!
//! A session alternates between two questions. At the head of every iteration the
//! driver asks what to do next ([`CaptureSession::poll`]) and is told to fetch a
//! packet, to roll the output file over and then fetch, or to finish. After a fetch it
//! reports what happened ([`CaptureSession::observe`]) and is told how to go on. The
//! engine keeps the counters of the session and of the current file; the driver owns
//! the packet source and the files.

use crate::rollover::{RolloverPolicy, lemma_unset_policy_never_due};
use vstd::prelude::*;

verus! {

/// What the driver has to do at the head of an iteration.
#[derive(Debug, Clone, Copy, PartialEq, Eq, Structural)]
pub enum Directive {
    /// Pull the next packet from the source and append it to the current file.
    Fetch,
    /// Flush and close the current file, open the next one, then fetch into it.
    Rollover,
    /// Flush and close the current file; the session has ended.
    Finish,
}

/// What the driver observed when it carried out a fetch.
#[derive(Debug, Clone, Copy, PartialEq, Eq, Structural)]
pub enum Outcome {
    /// A packet with `len` payload bytes was appended to the current file.
    Written { len: usize },
    /// The container writer failed to append the packet.
    WriteFailed,
    /// The source had no packet within its read timeout.
    Timeout,
    /// The source has ended: every producer is gone.
    Disconnected,
    /// The source failed for another reason than a timeout.
    SourceError,
}

/// How the session goes on after an outcome.
#[derive(Debug, Clone, Copy, PartialEq, Eq, Structural)]
pub enum Verdict {
    /// Start the next iteration.
    Continue,
    /// Sleep briefly, then start the next iteration.
    Backoff,
    /// Flush and close the current file; the session ended successfully.
    Finish,
    /// Give up with a file-level error; the current file is left as it is.
    Abort,
}

/// Where a session stands between two calls.
#[derive(Debug, Clone, Copy, PartialEq, Eq, Structural)]
pub enum Phase {
    /// At the head of an iteration, before the next directive.
    Deciding,
    /// A fetch was ordered and its outcome is awaited.
    Fetching,
    /// The session is over.
    Terminated,
}

/// Accounting of one output file.
pub struct FileTally {
    /// Packets appended to the file.
    pub packets: nat,
    /// Payload bytes appended to the file.
    pub bytes: nat,
    /// Payload length of the packet appended last, 0 for an empty file.
    pub last_len: nat,
    /// Age of the file, in whole seconds, measured at the head of the iteration that
    /// appended the last packet; `None` when the file was opened in that iteration, when
    /// the clock could not tell, or for an empty file.
    pub last_age: Option<u64>,
}

impl FileTally {
    /// The tally of a file that was just opened.
    pub open spec fn empty() -> FileTally {
        FileTally { packets: 0, bytes: 0, last_len: 0, last_age: None }
    }

    /// The tally after one more packet of `len` payload bytes, fetched when the file's age
    /// was measured as `age`.
    pub open spec fn with_packet(self, len: nat, age: Option<u64>) -> FileTally {
        FileTally {
            packets: self.packets + 1,
            bytes: self.bytes + len,
            last_len: len,
            last_age: age,
        }
    }

    /// Packets the file held before the last one was appended.
    pub open spec fn packets_before_last(self) -> nat {
        if self.packets == 0 {
            0
        } else {
            (self.packets - 1) as nat
        }
    }

    /// Payload bytes the file held before the last packet was appended.
    pub open spec fn bytes_before_last(self) -> nat {
        if self.bytes >= self.last_len {
            (self.bytes - self.last_len) as nat
        } else {
            0
        }
    }

    /// The counters agree with each other.
    pub open spec fn consistent(self) -> bool {
        &&& self.last_len <= self.bytes
        &&& self.packets == 0 ==> self.bytes == 0 && self.last_age is None
    }

    /// The file was empty or below every configured threshold when its last packet was
    /// fetched: it exceeds a threshold by at most that one packet.
    pub open spec fn within(self, policy: RolloverPolicy) -> bool {
        &&& self.packets_before_last() == 0 || !policy.count_reached(self.packets_before_last())
        &&& self.bytes_before_last() == 0 || !policy.size_reached(self.bytes_before_last())
        &&& !policy.age_reached(self.last_age)
    }

    /// The file is empty, or no packet or size threshold is met yet.
    pub open spec fn open_for_more(self, policy: RolloverPolicy) -> bool {
        self.packets == 0 || (!policy.count_reached(self.packets) && !policy.size_reached(
            self.bytes,
        ))
    }
}

/// Packets held by a sequence of files.
pub open spec fn packets_in(files: Seq<FileTally>) -> nat
    decreases files.len(),
{
    if files.len() == 0 {
        0
    } else {
        packets_in(files.drop_last()) + files.last().packets
    }
}

/// One call made by the driver.
pub enum Input {
    /// The head of an iteration, with the age of the current file.
    Poll { elapsed: Option<u64> },
    /// The report that follows a fetch.
    Observe { outcome: Outcome },
}

/// The state of a session as the contracts see it.
pub struct SessionView {
    /// Whether the session may span several files.
    pub continuous: bool,
    /// Ceiling on the packets of the whole session.
    pub limit: Option<usize>,
    /// Thresholds of the rollover policy.
    pub policy: RolloverPolicy,
    /// Packets written over the whole session.
    pub total: nat,
    /// The file being written.
    pub current: FileTally,
    /// The files closed so far, oldest first.
    pub closed: Seq<FileTally>,
    /// Age of the current file seen by the poll that ordered the pending fetch; `None`
    /// when that poll opened the file.
    pub observed_age: Option<u64>,
    pub phase: Phase,
}

impl SessionView {
    /// A session that has just opened its first file.
    pub open spec fn start(
        continuous: bool,
        limit: Option<usize>,
        policy: RolloverPolicy,
    ) -> SessionView {
        SessionView {
            continuous,
            limit,
            policy,
            total: 0,
            current: FileTally::empty(),
            closed: Seq::empty(),
            observed_age: None,
            phase: Phase::Deciding,
        }
    }

    /// Every file of the session, oldest first, the current one last.
    pub open spec fn files(self) -> Seq<FileTally> {
        self.closed.push(self.current)
    }

    /// The ceiling is configured and the session total has reached it.
    pub open spec fn limit_reached(self) -> bool {
        self.limit matches Some(ceiling) && self.total >= ceiling
    }

    /// In continuous mode, the current file is due for rollover at this age. A session
    /// that is not continuous ignores its thresholds.
    pub open spec fn rollover_due(self, elapsed: Option<u64>) -> bool {
        self.continuous && self.policy.due(self.current.packets, self.current.bytes, elapsed)
    }

    /// The answer to a poll. The ceiling is looked at first, then the rollover policy.
    /// While an outcome is awaited the answer is to fetch; once over, to finish.
    pub open spec fn directive(self, elapsed: Option<u64>) -> Directive {
        match self.phase {
            Phase::Terminated => Directive::Finish,
            Phase::Fetching => Directive::Fetch,
            Phase::Deciding => if self.limit_reached() {
                Directive::Finish
            } else if self.rollover_due(elapsed) {
                Directive::Rollover
            } else {
                Directive::Fetch
            },
        }
    }

    /// The state after a poll. A rollover closes the current file and starts an empty one.
    pub open spec fn after_poll(self, elapsed: Option<u64>) -> SessionView {
        match self.phase {
            Phase::Deciding => if self.limit_reached() {
                SessionView { phase: Phase::Terminated, ..self }
            } else if self.rollover_due(elapsed) {
                SessionView {
                    closed: self.closed.push(self.current),
                    current: FileTally::empty(),
                    observed_age: None,
                    phase: Phase::Fetching,
                    ..self
                }
            } else {
                SessionView { observed_age: elapsed, phase: Phase::Fetching, ..self }
            },
            _ => self,
        }
    }

    /// The answer to an outcome. A written packet and a timeout lead to the next
    /// iteration; the end of the source finishes the session; a failed write aborts it;
    /// a source failure is retried after a pause in continuous mode and ends a
    /// single-file session. Outside a fetch an outcome is not acted on.
    pub open spec fn verdict(self, outcome: Outcome) -> Verdict {
        match self.phase {
            Phase::Terminated => Verdict::Finish,
            Phase::Deciding => Verdict::Continue,
            Phase::Fetching => match outcome {
                Outcome::Written { .. } => Verdict::Continue,
                Outcome::Timeout => Verdict::Continue,
                Outcome::Disconnected => Verdict::Finish,
                Outcome::WriteFailed => Verdict::Abort,
                Outcome::SourceError => if self.continuous {
                    Verdict::Backoff
                } else {
                    Verdict::Finish
                },
            },
        }
    }

    /// The state after an outcome. Only a written packet changes the counters: the
    /// session total and the current file's packets grow by one, its bytes by the
    /// payload length.
    pub open spec fn after_outcome(self, outcome: Outcome) -> SessionView {
        match self.phase {
            Phase::Fetching => match outcome {
                Outcome::Written { len } => SessionView {
                    total: self.total + 1,
                    current: self.current.with_packet(len as nat, self.observed_age),
                    phase: Phase::Deciding,
                    ..self
                },
                Outcome::Timeout => SessionView { phase: Phase::Deciding, ..self },
                Outcome::Disconnected => SessionView { phase: Phase::Terminated, ..self },
                Outcome::WriteFailed => SessionView { phase: Phase::Terminated, ..self },
                Outcome::SourceError => if self.continuous {
                    SessionView { phase: Phase::Deciding, ..self }
                } else {
                    SessionView { phase: Phase::Terminated, ..self }
                },
            },
            _ => self,
        }
    }

    /// The state after one call of the driver.
    pub open spec fn apply(self, input: Input) -> SessionView {
        match input {
            Input::Poll { elapsed } => self.after_poll(elapsed),
            Input::Observe { outcome } => self.after_outcome(outcome),
        }
    }

    /// The state after a sequence of calls.
    pub open spec fn run(self, inputs: Seq<Input>) -> SessionView
        decreases inputs.len(),
    {
        if inputs.len() == 0 {
            self
        } else {
            self.run(inputs.drop_last()).apply(inputs.last())
        }
    }

    /// The call reports a packet written in answer to a fetch.
    pub open spec fn records_write(self, input: Input) -> bool {
        self.phase is Fetching && input matches Input::Observe { outcome: Outcome::Written { .. } }
    }

    /// Number of successful writes reported in answer to a fetch along a sequence of calls.
    pub open spec fn writes(self, inputs: Seq<Input>) -> nat
        decreases inputs.len(),
    {
        if inputs.len() == 0 {
            0
        } else {
            let before = self.run(inputs.drop_last());
            let earlier = self.writes(inputs.drop_last());
            if before.records_write(inputs.last()) {
                earlier + 1
            } else {
                earlier
            }
        }
    }

    /// What holds of every state a session can reach.
    pub open spec fn inv(self) -> bool {
        &&& self.total == packets_in(self.closed) + self.current.packets
        &&& self.limit matches Some(ceiling) ==> self.total <= ceiling
        &&& self.phase is Fetching ==> !self.limit_reached()
        &&& !self.continuous ==> self.closed.len() == 0
        &&& self.policy.is_unset() ==> self.closed.len() == 0
        &&& self.current.consistent()
        &&& forall|i: int| 0 <= i < self.closed.len() ==> (#[trigger] self.closed[i]).consistent()
        &&& self.continuous ==> self.current.within(self.policy)
        &&& self.continuous ==> forall|i: int|
            0 <= i < self.closed.len() ==> (#[trigger] self.closed[i]).within(self.policy)
        &&& self.continuous && self.phase is Fetching ==> self.current.open_for_more(self.policy)
            && !self.policy.age_reached(self.observed_age)
    }
}

/// Closing one more file adds its packets to those of the closed files.
pub proof fn lemma_packets_in_push(files: Seq<FileTally>, file: FileTally)
    ensures
        packets_in(files.push(file)) == packets_in(files) + file.packets,
{
    assert(files.push(file).drop_last() =~= files);
}

/// A session starts in a state that satisfies the invariant.
pub proof fn lemma_start_inv(continuous: bool, limit: Option<usize>, policy: RolloverPolicy)
    ensures
        SessionView::start(continuous, limit, policy).inv(),
{
}

/// A poll keeps the invariant.
pub proof fn lemma_poll_keeps_inv(s: SessionView, elapsed: Option<u64>)
    requires
        s.inv(),
    ensures
        s.after_poll(elapsed).inv(),
{
    if s.phase is Deciding && !s.limit_reached() && s.rollover_due(elapsed) {
        lemma_packets_in_push(s.closed, s.current);
        if s.policy.is_unset() {
            lemma_unset_policy_never_due(s.policy, s.current.packets, s.current.bytes, elapsed);
        }
    }
}

/// An outcome keeps the invariant.
pub proof fn lemma_outcome_keeps_inv(s: SessionView, outcome: Outcome)
    requires
        s.inv(),
    ensures
        s.after_outcome(outcome).inv(),
{
}

/// Every state reached from a state that satisfies the invariant satisfies it, and the
/// configuration never changes.
pub proof fn lemma_run_keeps_inv(s: SessionView, inputs: Seq<Input>)
    requires
        s.inv(),
    ensures
        s.run(inputs).inv(),
        s.run(inputs).continuous == s.continuous,
        s.run(inputs).limit == s.limit,
        s.run(inputs).policy == s.policy,
    decreases inputs.len(),
{
    if inputs.len() > 0 {
        lemma_run_keeps_inv(s, inputs.drop_last());
        let before = s.run(inputs.drop_last());
        match inputs.last() {
            Input::Poll { elapsed } => lemma_poll_keeps_inv(before, elapsed),
            Input::Observe { outcome } => lemma_outcome_keeps_inv(before, outcome),
        }
    }
}

/// Along any sequence of calls the session total equals the number of successful
/// writes reported in answer to a fetch.
pub proof fn lemma_total_is_writes(s: SessionView, inputs: Seq<Input>)
    ensures
        s.run(inputs).total == s.total + s.writes(inputs),
    decreases inputs.len(),
{
    if inputs.len() > 0 {
        lemma_total_is_writes(s, inputs.drop_last());
    }
}

/// In continuous mode no file outgrows a configured threshold by more than one packet,
/// whatever the driver reports: before its last packet was appended a file was empty or
/// held fewer packets and fewer bytes than the thresholds, and its age, measured at the
/// head of that iteration, was below the age threshold.
pub proof fn law_overshoot_is_one_packet(
    limit: Option<usize>,
    policy: RolloverPolicy,
    inputs: Seq<Input>,
    i: int,
)
    requires
        0 <= i < SessionView::start(true, limit, policy).run(inputs).files().len(),
    ensures
        ({
            let file = SessionView::start(true, limit, policy).run(inputs).files()[i];
            &&& file.within(policy)
            &&& policy.max_packets matches Some(most) ==> file.packets <= most || file.packets
                <= 1
            &&& policy.max_size_mb matches Some(most) ==> file.bytes <= file.last_len || file.bytes
                - file.last_len < most * crate::rollover::BYTES_PER_MB
            &&& policy.max_age_seconds matches Some(most) ==> (file.last_age matches Some(age)
                ==> age < most)
        }),
{
    let first = SessionView::start(true, limit, policy);
    lemma_start_inv(true, limit, policy);
    lemma_run_keeps_inv(first, inputs);
    let last = first.run(inputs);
    if i < last.closed.len() {
        assert(last.files()[i] == last.closed[i]);
    } else {
        assert(last.files()[i] == last.current);
    }
}

/// With no threshold configured a session never rolls over: it has one file, however
/// long it runs.
pub proof fn law_unset_policy_keeps_one_file(
    continuous: bool,
    limit: Option<usize>,
    policy: RolloverPolicy,
    inputs: Seq<Input>,
)
    requires
        policy.is_unset(),
    ensures
        SessionView::start(continuous, limit, policy).run(inputs).files().len() == 1,
{
    lemma_start_inv(continuous, limit, policy);
    lemma_run_keeps_inv(SessionView::start(continuous, limit, policy), inputs);
}

/// The session total equals the number of successful writes and the packets of all its
/// files together, and never exceeds a configured ceiling.
pub proof fn law_total_counts_writes(
    continuous: bool,
    limit: Option<usize>,
    policy: RolloverPolicy,
    inputs: Seq<Input>,
)
    ensures
        ({
            let first = SessionView::start(continuous, limit, policy);
            let last = first.run(inputs);
            &&& last.total == first.writes(inputs)
            &&& last.total == packets_in(last.files())
            &&& limit matches Some(ceiling) ==> last.total <= ceiling
        }),
{
    let first = SessionView::start(continuous, limit, policy);
    lemma_start_inv(continuous, limit, policy);
    lemma_run_keeps_inv(first, inputs);
    lemma_total_is_writes(first, inputs);
    let last = first.run(inputs);
    lemma_packets_in_push(last.closed, last.current);
}

/// A session that is not continuous has exactly one file, whatever its thresholds.
pub proof fn law_single_shot_keeps_one_file(
    limit: Option<usize>,
    policy: RolloverPolicy,
    inputs: Seq<Input>,
)
    ensures
        SessionView::start(false, limit, policy).run(inputs).files().len() == 1,
{
    lemma_start_inv(false, limit, policy);
    lemma_run_keeps_inv(SessionView::start(false, limit, policy), inputs);
}

/// A terminated session stays as it is: no call brings it back to life.
pub proof fn law_terminated_is_final(s: SessionView, inputs: Seq<Input>)
    requires
        s.phase is Terminated,
    ensures
        s.run(inputs) == s,
    decreases inputs.len(),
{
    if inputs.len() > 0 {
        law_terminated_is_final(s, inputs.drop_last());
    }
}

/// The engine of one capture session: the counters of the session and of its current
/// file, and where the session stands.
pub struct CaptureSession {
    continuous: bool,
    limit: Option<usize>,
    policy: RolloverPolicy,
    total: usize,
    file_packets: usize,
    file_bytes: u64,
    phase: Phase,
    last_len: Ghost<nat>,
    last_age: Ghost<Option<u64>>,
    observed_age: Ghost<Option<u64>>,
    closed: Ghost<Seq<FileTally>>,
}

impl View for CaptureSession {
    type V = SessionView;

    closed spec fn view(&self) -> SessionView {
        SessionView {
            continuous: self.continuous,
            limit: self.limit,
            policy: self.policy,
            total: self.total as nat,
            current: FileTally {
                packets: self.file_packets as nat,
                bytes: self.file_bytes as nat,
                last_len: self.last_len@,
                last_age: self.last_age@,
            },
            closed: self.closed@,
            observed_age: self.observed_age@,
            phase: self.phase,
        }
    }
}

impl CaptureSession {
    /// Starts a session whose first file has just been opened.
    pub fn start(continuous: bool, limit: Option<usize>, policy: RolloverPolicy) -> (session:
        CaptureSession)
        ensures
            session@ == SessionView::start(continuous, limit, policy),
            session@.inv(),
    {
        CaptureSession {
            continuous,
            limit,
            policy,
            total: 0,
            file_packets: 0,
            file_bytes: 0,
            phase: Phase::Deciding,
            last_len: Ghost(0),
            last_age: Ghost(None),
            observed_age: Ghost(None),
            closed: Ghost(Seq::empty()),
        }
    }

    /// Packets written over the whole session.
    pub fn total(&self) -> (total: usize)
        ensures
            total == self@.total,
    {
        self.total
    }

    /// Packets appended to the current file.
    pub fn file_packets(&self) -> (packets: usize)
        ensures
            packets == self@.current.packets,
    {
        self.file_packets
    }

    /// Payload bytes appended to the current file.
    pub fn file_bytes(&self) -> (bytes: u64)
        ensures
            bytes == self@.current.bytes,
    {
        self.file_bytes
    }

    /// Where the session stands.
    pub fn phase(&self) -> (phase: Phase)
        ensures
            phase == self@.phase,
    {
        self.phase
    }

    /// Head of an iteration. `elapsed` is the age of the current file in whole seconds,
    /// `None` when the clock cannot tell. The ceiling is checked first, then the
    /// rollover policy; on `Rollover` the counters of the current file start again
    /// from zero.
    pub fn poll(&mut self, elapsed: Option<u64>) -> (directive: Directive)
        requires
            old(self)@.inv(),
        ensures
            final(self)@ == old(self)@.after_poll(elapsed),
            directive == old(self)@.directive(elapsed),
            final(self)@.inv(),
    {
        proof {
            lemma_poll_keeps_inv(self@, elapsed);
        }
        match self.phase {
            Phase::Terminated => Directive::Finish,
            Phase::Fetching => Directive::Fetch,
            Phase::Deciding => {
                let at_ceiling = match self.limit {
                    Some(ceiling) => self.total >= ceiling,
                    None => false,
                };
                if at_ceiling {
                    self.phase = Phase::Terminated;
                    Directive::Finish
                } else if self.continuous && self.policy.needs_rollover(
                    self.file_packets,
                    self.file_bytes,
                    elapsed,
                ) {
                    self.closed = Ghost(self@.closed.push(self@.current));
                    self.file_packets = 0;
                    self.file_bytes = 0;
                    self.last_len = Ghost(0);
                    self.last_age = Ghost(None);
                    self.observed_age = Ghost(None);
                    self.phase = Phase::Fetching;
                    Directive::Rollover
                } else {
                    self.observed_age = Ghost(elapsed);
                    self.phase = Phase::Fetching;
                    Directive::Fetch
                }
            },
        }
    }

    /// Report after a fetch. A written packet is counted in the session and in the
    /// current file. The counters must have room for it.
    pub fn observe(&mut self, outcome: Outcome) -> (verdict: Verdict)
        requires
            old(self)@.inv(),
            old(self)@.phase is Fetching && outcome is Written ==> old(self)@.total < usize::MAX
                && old(self)@.current.bytes + outcome->len <= u64::MAX,
        ensures
            final(self)@ == old(self)@.after_outcome(outcome),
            verdict == old(self)@.verdict(outcome),
            final(self)@.inv(),
    {
        proof {
            lemma_outcome_keeps_inv(self@, outcome);
        }
        match self.phase {
            Phase::Terminated => Verdict::Finish,
            Phase::Deciding => Verdict::Continue,
            Phase::Fetching => match outcome {
                Outcome::Written { len } => {
                    self.total = self.total + 1;
                    self.file_packets = self.file_packets + 1;
                    self.file_bytes = self.file_bytes + len as u64;
                    self.last_len = Ghost(len as nat);
                    self.last_age = Ghost(self@.observed_age);
                    self.phase = Phase::Deciding;
                    Verdict::Continue
                },
                Outcome::Timeout => {
                    self.phase = Phase::Deciding;
                    Verdict::Continue
                },
                Outcome::Disconnected => {
                    self.phase = Phase::Terminated;
                    Verdict::Finish
                },
                Outcome::WriteFailed => {
                    self.phase = Phase::Terminated;
                    Verdict::Abort
                },
                Outcome::SourceError => {
                    if self.continuous {
                        self.phase = Phase::Deciding;
                        Verdict::Backoff
                    } else {
                        self.phase = Phase::Terminated;
                        Verdict::Finish
                    }
                },
            },
        }
    }
}

} // verus!
