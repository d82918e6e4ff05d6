use vstd::prelude::*;
use crate::errors::{EngineError, Tool};

verus! {

/// Where one materialization stands. The stages run in a fixed order; a
/// failure jumps straight to `CleaningUp`, never past it, so that the
/// transient raster files are removed after success and failure alike.
#[derive(Clone, Copy, Debug, PartialEq, Eq, Structural)]
pub enum Stage {
    /// The raster converter is turning the source image into `cursor*.png`.
    ConvertingRaster,
    /// The cursor compiler is reading the config and writing the canonical
    /// binary.
    CompilingCursor,
    /// The install-once artifacts (aliases, descriptor) are being ensured.
    InstallingArtifacts,
    /// The session is being told to reload the theme.
    NotifyingDesktop,
    /// The `.png` intermediates are being removed from the theme root.
    CleaningUp,
    /// The materialization is over; `outcome` holds its verdict.
    Finished,
}

/// What the caller reports back after performing the outside work of the
/// current stage.
#[derive(Clone, Copy, Debug)]
pub enum StepEvent {
    /// The raster converter exited with this status.
    ConverterExited(Option<i32>),
    /// The cursor compiler exited with this status.
    CompilerExited(Option<i32>),
    /// Whether the canonical binary and descriptor writes succeeded.
    InstallOutcome(bool),
    /// Whether the desktop environment was recognized and notified.
    NotifyOutcome(bool),
    /// The cleanup pass over the theme root is done.
    CleanupDone,
}

/// The event kind each stage waits for.
pub open spec fn spec_expected_event(stage: Stage, ev: StepEvent) -> bool {
    match stage {
        Stage::ConvertingRaster => ev matches StepEvent::ConverterExited(_),
        Stage::CompilingCursor => ev matches StepEvent::CompilerExited(_),
        Stage::InstallingArtifacts => ev matches StepEvent::InstallOutcome(_),
        Stage::NotifyingDesktop => ev matches StepEvent::NotifyOutcome(_),
        Stage::CleaningUp => ev matches StepEvent::CleanupDone,
        Stage::Finished => false,
    }
}

/// One cursor materialization: the decisions of the pipeline, kept apart
/// from the outside work. The caller performs each stage's external step
/// and feeds the outcome back through `step`.
pub struct Materialization {
    pub stage: Stage,
    pub outcome: Option<EngineError>,
}

impl Materialization {
    /// A materialization is well formed while an error can only have been
    /// recorded once the pipeline is on its way out through cleanup.
    pub open spec fn wf(self) -> bool {
        self.outcome is Some ==> (self.stage == Stage::CleaningUp || self.stage
            == Stage::Finished)
    }

    /// Starts a materialization at the first external stage.
    pub fn new() -> (r: Self)
        ensures
            r.stage == Stage::ConvertingRaster,
            r.outcome is None,
            r.wf(),
    {
        Materialization { stage: Stage::ConvertingRaster, outcome: None }
    }

    /// Advances the pipeline by one reported outcome. A failing converter
    /// or compiler names the failing tool; a failing filesystem step is a
    /// `FilesystemError`; an unrecognized desktop is the terminal
    /// `UnsupportedEnvironment` notice. Every failure diverts to
    /// `CleaningUp`, and `Finished` is reachable from `CleaningUp` alone:
    /// no run ends without its cleanup pass.
    pub fn step(&mut self, ev: StepEvent)
        requires
            old(self).stage != Stage::Finished,
            spec_expected_event(old(self).stage, ev),
            old(self).wf(),
        ensures
            final(self).wf(),
            old(self).stage == Stage::ConvertingRaster ==> {
                if ev matches StepEvent::ConverterExited(c) && c == Some(0i32) {
                    final(self).stage == Stage::CompilingCursor && final(self).outcome == old(
                        self,
                    ).outcome
                } else {
                    final(self).stage == Stage::CleaningUp && final(self).outcome == Some(
                        EngineError::ExternalToolError(Tool::RasterConverter),
                    )
                }
            },
            old(self).stage == Stage::CompilingCursor ==> {
                if ev matches StepEvent::CompilerExited(c) && c == Some(0i32) {
                    final(self).stage == Stage::InstallingArtifacts && final(self).outcome == old(
                        self,
                    ).outcome
                } else {
                    final(self).stage == Stage::CleaningUp && final(self).outcome == Some(
                        EngineError::ExternalToolError(Tool::CursorCompiler),
                    )
                }
            },
            old(self).stage == Stage::InstallingArtifacts ==> {
                if ev matches StepEvent::InstallOutcome(ok) && ok {
                    final(self).stage == Stage::NotifyingDesktop && final(self).outcome == old(
                        self,
                    ).outcome
                } else {
                    final(self).stage == Stage::CleaningUp && final(self).outcome == Some(
                        EngineError::FilesystemError,
                    )
                }
            },
            old(self).stage == Stage::NotifyingDesktop ==> {
                if ev matches StepEvent::NotifyOutcome(ok) && ok {
                    final(self).stage == Stage::CleaningUp && final(self).outcome == old(
                        self,
                    ).outcome
                } else {
                    final(self).stage == Stage::CleaningUp && final(self).outcome == Some(
                        EngineError::UnsupportedEnvironment,
                    )
                }
            },
            old(self).stage == Stage::CleaningUp ==> final(self).stage == Stage::Finished
                && final(self).outcome == old(self).outcome,
            final(self).stage == Stage::Finished ==> old(self).stage == Stage::CleaningUp,
    {
        match ev {
            StepEvent::ConverterExited(code) => {
                match code {
                    Some(c) => {
                        if c == 0 {
                            self.stage = Stage::CompilingCursor;
                        } else {
                            self.stage = Stage::CleaningUp;
                            self.outcome = Some(
                                EngineError::ExternalToolError(Tool::RasterConverter),
                            );
                        }
                    },
                    None => {
                        self.stage = Stage::CleaningUp;
                        self.outcome = Some(EngineError::ExternalToolError(Tool::RasterConverter));
                    },
                }
            },
            StepEvent::CompilerExited(code) => {
                match code {
                    Some(c) => {
                        if c == 0 {
                            self.stage = Stage::InstallingArtifacts;
                        } else {
                            self.stage = Stage::CleaningUp;
                            self.outcome = Some(
                                EngineError::ExternalToolError(Tool::CursorCompiler),
                            );
                        }
                    },
                    None => {
                        self.stage = Stage::CleaningUp;
                        self.outcome = Some(EngineError::ExternalToolError(Tool::CursorCompiler));
                    },
                }
            },
            StepEvent::InstallOutcome(ok) => {
                if ok {
                    self.stage = Stage::NotifyingDesktop;
                } else {
                    self.stage = Stage::CleaningUp;
                    self.outcome = Some(EngineError::FilesystemError);
                }
            },
            StepEvent::NotifyOutcome(ok) => {
                if ok {
                    self.stage = Stage::CleaningUp;
                } else {
                    self.stage = Stage::CleaningUp;
                    self.outcome = Some(EngineError::UnsupportedEnvironment);
                }
            },
            StepEvent::CleanupDone => {
                self.stage = Stage::Finished;
            },
        }
    }
}

} // verus!
