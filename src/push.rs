use vstd::prelude::*;

verus! {

/// The next request that a push issues.
#[derive(PartialEq, Eq, Structural, Clone, Copy, Debug)]
pub enum PushStep {
    /// Upload the config blob.
    Config,
    /// Upload the layer blob at this position.
    Layer(usize),
    /// Upload the manifest that refers to the blobs.
    Manifest,
    /// Every upload succeeded.
    Finished,
    /// An upload failed; nothing more is sent.
    Aborted,
}

/// The progress of one push of an image: the config blob first, then each
/// layer blob in the caller's order, and the manifest only once every blob is
/// stored. The caller performs each step and reports whether it succeeded.
#[derive(Debug)]
pub struct PushSession {
    /// The number of layer blobs the push carries.
    pub layer_count: usize,
    /// The number of steps that have succeeded so far.
    pub succeeded: usize,
    /// Whether a step has failed.
    pub failed: bool,
}

impl PushSession {
    pub open spec fn wf(&self) -> bool {
        &&& self.layer_count + 2 <= usize::MAX
        &&& self.succeeded <= self.layer_count + 2
    }

    /// A push of `n` layers that has not begun.
    pub open spec fn start(n: nat) -> PushSession {
        PushSession { layer_count: n as usize, succeeded: 0, failed: false }
    }

    /// The step that is due.
    pub open spec fn step(&self) -> PushStep {
        if self.failed {
            PushStep::Aborted
        } else if self.succeeded == 0 {
            PushStep::Config
        } else if self.succeeded <= self.layer_count {
            PushStep::Layer((self.succeeded - 1) as usize)
        } else if self.succeeded == self.layer_count + 1 {
            PushStep::Manifest
        } else {
            PushStep::Finished
        }
    }

    /// The session after the due step is reported as succeeded or not. Once
    /// finished or aborted, nothing changes.
    pub open spec fn after(&self, ok: bool) -> PushSession {
        if self.failed || self.succeeded == self.layer_count + 2 {
            *self
        } else if ok {
            PushSession { succeeded: (self.succeeded + 1) as usize, ..*self }
        } else {
            PushSession { failed: true, ..*self }
        }
    }

    /// The session after a sequence of reports.
    pub open spec fn run(&self, reports: Seq<bool>) -> PushSession
        decreases reports.len(),
    {
        if reports.len() == 0 {
            *self
        } else {
            self.after(reports[0]).run(reports.skip(1))
        }
    }

    pub fn new(layer_count: usize) -> (r: PushSession)
        requires
            layer_count + 2 <= usize::MAX,
        ensures
            r == Self::start(layer_count as nat),
            r.wf(),
    {
        PushSession { layer_count, succeeded: 0, failed: false }
    }

    pub fn next_step(&self) -> (r: PushStep)
        requires
            self.wf(),
        ensures
            r == self.step(),
    {
        if self.failed {
            PushStep::Aborted
        } else if self.succeeded == 0 {
            PushStep::Config
        } else if self.succeeded <= self.layer_count {
            PushStep::Layer(self.succeeded - 1)
        } else if self.succeeded == self.layer_count + 1 {
            PushStep::Manifest
        } else {
            PushStep::Finished
        }
    }

    /// Records whether the due step succeeded.
    pub fn record(&mut self, ok: bool)
        requires
            old(self).wf(),
        ensures
            *final(self) == old(self).after(ok),
            final(self).wf(),
    {
        if self.failed || self.succeeded == self.layer_count + 2 {
        } else if ok {
            self.succeeded = self.succeeded + 1;
        } else {
            self.failed = true;
        }
    }
}

proof fn lemma_run_stays(s: PushSession, reports: Seq<bool>)
    requires
        s.failed || s.succeeded == s.layer_count + 2,
    ensures
        s.run(reports) == s,
    decreases reports.len(),
{
    if reports.len() > 0 {
        lemma_run_stays(s.after(reports[0]), reports.skip(1));
    }
}

proof fn lemma_progress_needs_successes(s: PushSession, reports: Seq<bool>, m: nat)
    requires
        s.wf(),
        !s.failed,
        s.succeeded < m <= s.run(reports).succeeded,
    ensures
        m - s.succeeded <= reports.len(),
        forall|i: int| 0 <= i < m - s.succeeded ==> #[trigger] reports[i],
    decreases reports.len(),
{
    if reports.len() == 0 {
    } else if s.succeeded == s.layer_count + 2 {
        lemma_run_stays(s, reports);
    } else if !reports[0] {
        lemma_run_stays(s.after(reports[0]), reports.skip(1));
    } else {
        let t = s.after(reports[0]);
        if t.succeeded < m {
            lemma_progress_needs_successes(t, reports.skip(1), m);
            assert forall|i: int| 0 <= i < m - s.succeeded implies #[trigger] reports[i] by {
                if i > 0 {
                    assert(reports.skip(1)[i - 1] == reports[i]);
                }
            }
        }
    }
}

/// A manifest is never sent before every blob of the image is stored: in any
/// run of a push of `n` layers in which the manifest comes due, the config and
/// all `n` layer uploads were reported as succeeded, in that order before it.
/// So a failed blob upload keeps the manifest from ever being sent.
pub proof fn lemma_manifest_after_all_blobs(n: nat, reports: Seq<bool>)
    requires
        n + 2 <= usize::MAX,
    ensures
        PushSession::start(n).run(reports).step() == PushStep::Manifest ==> (reports.len() >= n + 1
            && forall|i: int| 0 <= i <= n ==> #[trigger] reports[i]),
        (exists|k: int| 0 <= k <= n && k < reports.len() && !#[trigger] reports[k])
            ==> PushSession::start(n).run(reports).step() == PushStep::Aborted,
{
    let s = PushSession::start(n);
    let e = s.run(reports);
    lemma_run_ends(s, reports);
    if e.step() == PushStep::Manifest {
        lemma_progress_needs_successes(s, reports, n + 1);
    }
    if exists|k: int| 0 <= k <= n && k < reports.len() && !#[trigger] reports[k] {
        if !e.failed {
            let k = choose|k: int| 0 <= k <= n && k < reports.len() && !#[trigger] reports[k];
            lemma_progress_needs_successes(s, reports, (k + 1) as nat);
        }
    }
}

proof fn lemma_run_ends(s: PushSession, reports: Seq<bool>)
    requires
        s.wf(),
    ensures
        s.run(reports).wf(),
        s.run(reports).layer_count == s.layer_count,
        s.run(reports).succeeded >= s.succeeded,
        !s.run(reports).failed ==> s.run(reports).succeeded >= s.succeeded + reports.len()
            || s.run(reports).succeeded == s.layer_count + 2,
    decreases reports.len(),
{
    if reports.len() > 0 {
        lemma_run_ends(s.after(reports[0]), reports.skip(1));
        if s.failed || s.succeeded == s.layer_count + 2 {
            lemma_run_stays(s, reports);
        } else if !reports[0] {
            lemma_run_stays(s.after(reports[0]), reports.skip(1));
        }
    }
}

} // verus!
