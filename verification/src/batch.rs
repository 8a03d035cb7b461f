//! Batch processing: the stages every image passes through, the progress
//! of a run over many images, and the names of the files it writes.
//!
//! Loading and saving are the caller's work. After each stage the caller
//! reports whether it completed; the progress then says what comes next.
//! An image that fails is counted and the run goes on with the next one.

use vstd::prelude::*;
use crate::configuration::JobError;

verus! {

/// Where an image stands on its way through the pipeline.
#[derive(Clone, Copy, Debug, PartialEq, Eq, Structural)]
pub enum Stage {
    /// The file is read and decoded.
    Load,
    /// Faces are detected.
    Detect,
    /// The crop rectangle is computed.
    ComputeGeometry,
    /// The rectangle is cut out of the pixels.
    Crop,
    /// The result is written.
    Save,
    /// The image was cropped and written.
    Success,
    /// A stage failed; nothing was written.
    Failed,
}

impl Stage {
    /// `Success` and `Failed` end the processing of an image.
    pub open spec fn terminal(self) -> bool {
        self == Stage::Success || self == Stage::Failed
    }

    /// The stage that follows once this one completed or failed. A failure
    /// leads straight to `Failed`; a terminal stage is never left.
    pub open spec fn after(self, completed: bool) -> Stage {
        match self {
            Stage::Success => Stage::Success,
            Stage::Failed => Stage::Failed,
            Stage::Load => if completed {
                Stage::Detect
            } else {
                Stage::Failed
            },
            Stage::Detect => if completed {
                Stage::ComputeGeometry
            } else {
                Stage::Failed
            },
            Stage::ComputeGeometry => if completed {
                Stage::Crop
            } else {
                Stage::Failed
            },
            Stage::Crop => if completed {
                Stage::Save
            } else {
                Stage::Failed
            },
            Stage::Save => if completed {
                Stage::Success
            } else {
                Stage::Failed
            },
        }
    }

    /// Whether the stage ends the processing of an image.
    pub fn is_terminal(&self) -> (terminal: bool)
        ensures
            terminal == self.terminal(),
    {
        match self {
            Stage::Success | Stage::Failed => true,
            _ => false,
        }
    }

    /// Moves on after the stage completed or failed.
    pub fn advance(self, completed: bool) -> (next: Stage)
        ensures
            next == self.after(completed),
    {
        match self {
            Stage::Success => Stage::Success,
            Stage::Failed => Stage::Failed,
            _ if !completed => Stage::Failed,
            Stage::Load => Stage::Detect,
            Stage::Detect => Stage::ComputeGeometry,
            Stage::ComputeGeometry => Stage::Crop,
            Stage::Crop => Stage::Save,
            Stage::Save => Stage::Success,
        }
    }
}

/// The progress of a run as contracts speak of it.
pub struct Progress {
    /// Number of images in the run.
    pub total: nat,
    /// Images cropped and written so far.
    pub succeeded: nat,
    /// Images given up so far.
    pub failed: nat,
    /// Stage of the image that is being processed.
    pub stage: Stage,
}

impl Progress {
    /// Number of images that reached a terminal stage; also the index of
    /// the image that is being processed.
    pub open spec fn position(self) -> nat {
        self.succeeded + self.failed
    }

    /// Every image reached a terminal stage.
    pub open spec fn finished(self) -> bool {
        self.position() >= self.total
    }

    /// No more images are counted than the run has, and the image being
    /// processed has not ended.
    pub open spec fn well_formed(self) -> bool {
        self.position() <= self.total && !self.stage.terminal()
    }

    /// The progress after the current stage completed or failed. An image
    /// that ends is counted, as a success or as a failure, and the next
    /// image starts with `Load`. A finished run stays as it is.
    pub open spec fn step(self, completed: bool) -> Progress {
        if self.finished() {
            self
        } else {
            match self.stage.after(completed) {
                Stage::Success => Progress {
                    succeeded: self.succeeded + 1,
                    stage: Stage::Load,
                    ..self
                },
                Stage::Failed => Progress { failed: self.failed + 1, stage: Stage::Load, ..self },
                next => Progress { stage: next, ..self },
            }
        }
    }

    /// The progress after a sequence of stages completed or failed.
    pub open spec fn run(self, events: Seq<bool>) -> Progress
        decreases events.len(),
    {
        if events.len() == 0 {
            self
        } else {
            self.run(events.drop_last()).step(events.last())
        }
    }
}

/// The counts a finished run reports.
#[derive(Clone, Copy, Debug, PartialEq, Eq, Structural)]
pub struct BatchReport {
    /// Images cropped and written.
    pub succeeded: usize,
    /// Images that failed at some stage.
    pub failed: usize,
}

/// The progress of a run over a fixed number of images.
pub struct BatchProgress {
    total: usize,
    succeeded: usize,
    failed: usize,
    stage: Stage,
}

impl View for BatchProgress {
    type V = Progress;

    closed spec fn view(&self) -> Progress {
        Progress {
            total: self.total as nat,
            succeeded: self.succeeded as nat,
            failed: self.failed as nat,
            stage: self.stage,
        }
    }
}

impl BatchProgress {
    /// The counts never exceed the number of images, and the current stage
    /// is not terminal.
    #[verifier::type_invariant]
    pub closed spec fn wf(self) -> bool {
        self.succeeded + self.failed <= self.total && !self.stage.terminal()
    }

    /// The view of a run in progress is well formed.
    pub proof fn lemma_view_well_formed(self)
        requires
            self.wf(),
        ensures
            self@.well_formed(),
            self@.total <= usize::MAX,
    {
    }

    /// Starts a run over `total` images: nothing is counted, and the first
    /// image is to be loaded.
    pub fn start(total: usize) -> (progress: BatchProgress)
        ensures
            progress.wf(),
            progress@ == (Progress { total: total as nat, succeeded: 0, failed: 0, stage: Stage::Load }),
    {
        BatchProgress { total, succeeded: 0, failed: 0, stage: Stage::Load }
    }

    /// Index of the image that is being processed; `None` once every image
    /// reached a terminal stage.
    pub fn current(&self) -> (index: Option<usize>)
        ensures
            index == if self@.finished() {
                None
            } else {
                Some(self@.position() as usize)
            },
    {
        proof {
            use_type_invariant(self);
        }
        let position = self.succeeded + self.failed;
        if position < self.total {
            Some(position)
        } else {
            None
        }
    }

    /// Stage of the image that is being processed.
    pub fn stage(&self) -> (stage: Stage)
        ensures
            stage == self@.stage,
            !stage.terminal(),
    {
        proof {
            use_type_invariant(self);
        }
        self.stage
    }

    /// Records that the current stage completed or failed.
    pub fn advance(&mut self, completed: bool)
        ensures
            final(self)@ == old(self)@.step(completed),
    {
        proof {
            use_type_invariant(&*self);
        }
        if self.succeeded + self.failed < self.total {
            match self.stage.advance(completed) {
                Stage::Success => {
                    self.stage = Stage::Load;
                    self.succeeded = self.succeeded + 1;
                },
                Stage::Failed => {
                    self.stage = Stage::Load;
                    self.failed = self.failed + 1;
                },
                next => {
                    self.stage = next;
                },
            }
        }
    }

    /// The counts so far; once the run is finished they add up to the
    /// number of images.
    pub fn report(&self) -> (report: BatchReport)
        ensures
            report.succeeded == self@.succeeded,
            report.failed == self@.failed,
            report.succeeded + report.failed <= self@.total,
            self@.finished() ==> report.succeeded + report.failed == self@.total,
    {
        proof {
            use_type_invariant(self);
        }
        BatchReport { succeeded: self.succeeded, failed: self.failed }
    }
}

/// Exit status of the process: zero when the configuration was accepted
/// and the detector set up, whatever the run then counted; one when a
/// fatal error kept the run from starting.
pub fn exit_status(outcome: &Result<BatchReport, JobError>) -> (status: i32)
    ensures
        status == if outcome.is_ok() {
            0i32
        } else {
            1i32
        },
{
    match outcome {
        Ok(_) => 0,
        Err(_) => 1,
    }
}

/// A step keeps the progress well formed and the number of images fixed,
/// and counts at most one image.
pub proof fn lemma_step_counts_one_image(progress: Progress, completed: bool)
    requires
        progress.well_formed(),
    ensures
        progress.step(completed).well_formed(),
        progress.step(completed).total == progress.total,
        progress.step(completed).succeeded >= progress.succeeded,
        progress.step(completed).failed >= progress.failed,
        progress.step(completed).position() <= progress.position() + 1,
{
}

/// Whatever the stages of a run do, no image is counted twice and none is
/// invented: the counts stay within the number of images.
pub proof fn lemma_run_stays_well_formed(progress: Progress, events: Seq<bool>)
    requires
        progress.well_formed(),
    ensures
        progress.run(events).well_formed(),
        progress.run(events).total == progress.total,
        progress.run(events).succeeded >= progress.succeeded,
        progress.run(events).failed >= progress.failed,
    decreases events.len(),
{
    if events.len() > 0 {
        lemma_run_stays_well_formed(progress, events.drop_last());
        lemma_step_counts_one_image(progress.run(events.drop_last()), events.last());
    }
}

/// An image whose five stages all complete is counted as a success, and
/// the next image is to be loaded.
pub proof fn lemma_completed_image_succeeds(progress: Progress)
    requires
        progress.well_formed(),
        !progress.finished(),
        progress.stage == Stage::Load,
    ensures
        progress.run(seq![true, true, true, true, true]) == (Progress {
            succeeded: progress.succeeded + 1,
            ..progress
        }),
{
    let events = seq![true, true, true, true, true];
    let one = events.drop_last();
    let two = one.drop_last();
    let three = two.drop_last();
    let four = three.drop_last();
    assert(four.drop_last().len() == 0);
    assert(progress.run(four.drop_last()) == progress);
    assert(progress.run(four).stage == Stage::Detect);
    assert(progress.run(three).stage == Stage::ComputeGeometry);
    assert(progress.run(two).stage == Stage::Crop);
    assert(progress.run(one).stage == Stage::Save);
}

/// A stage that fails ends its image as a failure, whichever stage it is,
/// and the run goes on: the next image is to be loaded.
pub proof fn lemma_failed_stage_fails_image(progress: Progress)
    requires
        progress.well_formed(),
        !progress.finished(),
    ensures
        progress.step(false) == (Progress {
            failed: progress.failed + 1,
            stage: Stage::Load,
            ..progress
        }),
{
}

} // verus!
