//! The run of one environment map as a state machine: the session decides
//! the next action from each outcome the host reports, so that each failure
//! stops only the work it concerns and finished files are never touched
//! again.
use vstd::prelude::*;
use crate::artifact::{Artifact, artifact_plan, artifacts};
use crate::error::PipelineError;

verus! {

/// Where a run stands.
#[derive(Clone, Copy, Debug, PartialEq, Eq, Structural)]
pub enum Phase {
    /// Waiting for the source panorama to be decoded.
    Decoding,
    /// Waiting for the resources and pipelines to be built.
    Building,
    /// Waiting for the projection, mipmap and convolution passes to be
    /// submitted.
    Encoding,
    /// Reading the artifacts back one at a time.
    ReadingBack,
    /// Every artifact was attempted.
    Finished,
    /// The run stopped; no further work is issued.
    Aborted,
}

/// What the host reports after performing an action.
#[derive(Clone, Copy, Debug, PartialEq, Eq, Structural)]
pub enum Event {
    SourceDecoded,
    SourceRejected,
    /// Resources were built; the specular stage has this many levels.
    ResourcesBuilt(u32),
    ResourcesRejected,
    PassesSubmitted,
    /// The artifact in flight was mapped, encoded and written.
    ArtifactWritten,
    /// The artifact in flight failed with this error.
    ArtifactFailed(PipelineError),
}

/// What the session asks the host to do next.
#[derive(Clone, Copy, Debug, PartialEq, Eq, Structural)]
pub enum Action {
    DecodeSource,
    BuildResources,
    SubmitPasses,
    /// Map the staging buffer of this artifact, encode it and write its file.
    ReadBack(Artifact),
    Finish,
    Abort,
}

/// The state of a session.
pub struct SessionModel {
    pub phase: Phase,
    pub plan: Seq<Artifact>,
    pub next: nat,
    pub written: Seq<Artifact>,
    pub failed: Seq<(Artifact, PipelineError)>,
}

/// After an artifact is settled: read back the next one, or finish.
pub open spec fn advance(m: SessionModel) -> (SessionModel, Action) {
    if m.next < m.plan.len() {
        (m, Action::ReadBack(m.plan[m.next as int]))
    } else {
        (SessionModel { phase: Phase::Finished, ..m }, Action::Finish)
    }
}

/// The session stopped with nothing more issued.
pub open spec fn aborted(m: SessionModel) -> (SessionModel, Action) {
    (SessionModel { phase: Phase::Aborted, ..m }, Action::Abort)
}

/// The transition of the session on `e`. An event that the phase does not
/// expect aborts the run, except once the run has ended.
pub open spec fn session_step(m: SessionModel, e: Event) -> (SessionModel, Action) {
    match m.phase {
        Phase::Decoding => match e {
            Event::SourceDecoded => (SessionModel { phase: Phase::Building, ..m }, Action::BuildResources),
            _ => aborted(m),
        },
        Phase::Building => match e {
            Event::ResourcesBuilt(total_mips) => (
                SessionModel { phase: Phase::Encoding, plan: artifact_plan(total_mips), ..m },
                Action::SubmitPasses,
            ),
            _ => aborted(m),
        },
        Phase::Encoding => match e {
            Event::PassesSubmitted => advance(SessionModel { phase: Phase::ReadingBack, next: 0, ..m }),
            _ => aborted(m),
        },
        Phase::ReadingBack => match e {
            Event::ArtifactWritten => advance(
                SessionModel {
                    next: m.next + 1,
                    written: m.written.push(m.plan[m.next as int]),
                    ..m
                },
            ),
            Event::ArtifactFailed(err) => {
                let settled = SessionModel {
                    next: m.next + 1,
                    failed: m.failed.push((m.plan[m.next as int], err)),
                    ..m
                };
                if err == PipelineError::DeviceLost {
                    aborted(settled)
                } else {
                    advance(settled)
                }
            },
            _ => aborted(m),
        },
        Phase::Finished => (m, Action::Finish),
        Phase::Aborted => (m, Action::Abort),
    }
}

/// The invariant of a session: while reading back, an artifact of the plan
/// is in flight; every settled artifact is either written or failed.
pub open spec fn session_wf(m: SessionModel) -> bool {
    &&& m.next <= m.plan.len()
    &&& m.written.len() + m.failed.len() == m.next
    &&& m.phase == Phase::ReadingBack ==> m.next < m.plan.len()
    &&& (m.phase == Phase::Decoding || m.phase == Phase::Building) ==> m.plan.len() == 0
    &&& m.phase == Phase::Encoding ==> m.plan.len() >= 2 && m.next == 0
}

/// A source that does not decode ends the run before anything is built:
/// the session aborts with no file written, and from then on every event
/// is answered with `Abort`. Resources are only ever built right after the
/// source decoded.
pub proof fn lemma_rejected_source_builds_nothing(m: SessionModel, e: Event, later: Event)
    requires
        session_wf(m),
    ensures
        m.phase == Phase::Decoding ==> {
            let (after, action) = session_step(m, Event::SourceRejected);
            &&& action == Action::Abort
            &&& after.phase == Phase::Aborted
            &&& after.written.len() == 0
            &&& session_step(after, later) == (after, Action::Abort)
        },
        session_step(m, e).1 == Action::BuildResources ==> m.phase == Phase::Decoding && e == Event::SourceDecoded,
{
}

/// Files already written are never taken back: every step keeps the
/// written artifacts as a prefix; a failed artifact leaves them exactly as
/// they were; a lost device stops the run, after which nothing changes.
pub proof fn lemma_written_files_kept(m: SessionModel, e: Event, later: Event)
    requires
        session_wf(m),
    ensures
        ({
            let (after, action) = session_step(m, e);
            &&& after.written.len() >= m.written.len()
            &&& after.written.subrange(0, m.written.len() as int) == m.written
            &&& (e matches Event::ArtifactFailed(_)) ==> after.written == m.written
            &&& (m.phase == Phase::ReadingBack && e == Event::ArtifactFailed(PipelineError::DeviceLost)) ==> {
                &&& action == Action::Abort
                &&& session_step(after, later) == (after, Action::Abort)
            }
        }),
{
    let (after, action) = session_step(m, e);
    if m.phase == Phase::ReadingBack && e == Event::ArtifactWritten {
        assert(after.written == m.written.push(m.plan[m.next as int]));
        assert(after.written.subrange(0, m.written.len() as int) =~= m.written);
    } else {
        assert(after.written == m.written);
        assert(after.written.subrange(0, m.written.len() as int) =~= m.written);
    }
}

/// One run of the pipeline over one environment map.
pub struct BakeSession {
    phase: Phase,
    plan: Vec<Artifact>,
    next: usize,
    written: Vec<Artifact>,
    failed: Vec<(Artifact, PipelineError)>,
}

impl View for BakeSession {
    type V = SessionModel;

    closed spec fn view(&self) -> SessionModel {
        SessionModel {
            phase: self.phase,
            plan: self.plan@,
            next: self.next as nat,
            written: self.written@,
            failed: self.failed@,
        }
    }
}

impl BakeSession {
    /// A run that has done nothing yet; its first action is `DecodeSource`.
    pub fn new() -> (r: BakeSession)
        ensures
            r@.phase == Phase::Decoding,
            r@.plan.len() == 0,
            r@.next == 0,
            r@.written.len() == 0,
            r@.failed.len() == 0,
            session_wf(r@),
    {
        BakeSession { phase: Phase::Decoding, plan: Vec::new(), next: 0, written: Vec::new(), failed: Vec::new() }
    }

    pub fn phase(&self) -> (r: Phase)
        ensures
            r == self@.phase,
    {
        self.phase
    }

    /// The artifacts written so far, in order.
    pub fn written(&self) -> (r: &Vec<Artifact>)
        ensures
            r@ == self@.written,
    {
        &self.written
    }

    /// The artifacts that failed so far, with their errors.
    pub fn failed(&self) -> (r: &Vec<(Artifact, PipelineError)>)
        ensures
            r@ == self@.failed,
    {
        &self.failed
    }

    /// Settles the artifact in flight and asks for the next one.
    fn settle(&mut self) -> (r: Action)
        requires
            old(self).next <= old(self).plan@.len(),
        ensures
            (final(self)@, r) == advance(old(self)@),
    {
        if self.next < self.plan.len() {
            Action::ReadBack(self.plan[self.next])
        } else {
            self.phase = Phase::Finished;
            Action::Finish
        }
    }

    /// Applies the outcome `event` of the last action and returns the next
    /// action.
    pub fn step(&mut self, event: Event) -> (r: Action)
        requires
            session_wf(old(self)@),
        ensures
            (final(self)@, r) == session_step(old(self)@, event),
            session_wf(final(self)@),
    {
        match self.phase {
            Phase::Decoding => match event {
                Event::SourceDecoded => {
                    self.phase = Phase::Building;
                    Action::BuildResources
                },
                _ => {
                    self.phase = Phase::Aborted;
                    Action::Abort
                },
            },
            Phase::Building => match event {
                Event::ResourcesBuilt(total_mips) => {
                    self.phase = Phase::Encoding;
                    self.plan = artifacts(total_mips);
                    Action::SubmitPasses
                },
                _ => {
                    self.phase = Phase::Aborted;
                    Action::Abort
                },
            },
            Phase::Encoding => match event {
                Event::PassesSubmitted => {
                    self.phase = Phase::ReadingBack;
                    self.next = 0;
                    self.settle()
                },
                _ => {
                    self.phase = Phase::Aborted;
                    Action::Abort
                },
            },
            Phase::ReadingBack => match event {
                Event::ArtifactWritten => {
                    let len = self.plan.len();
                    let a = self.plan[self.next];
                    self.written.push(a);
                    proof {
                        assert(self.next < len);
                    }
                    self.next = self.next + 1;
                    self.settle()
                },
                Event::ArtifactFailed(err) => {
                    let len = self.plan.len();
                    let a = self.plan[self.next];
                    self.failed.push((a, err));
                    proof {
                        assert(self.next < len);
                    }
                    self.next = self.next + 1;
                    if err == PipelineError::DeviceLost {
                        self.phase = Phase::Aborted;
                        Action::Abort
                    } else {
                        self.settle()
                    }
                },
                _ => {
                    self.phase = Phase::Aborted;
                    Action::Abort
                },
            },
            Phase::Finished => Action::Finish,
            Phase::Aborted => Action::Abort,
        }
    }
}

} // verus!
