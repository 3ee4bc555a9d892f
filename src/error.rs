use vstd::prelude::*;

verus! {

/// The failures that the rendering core reports.
#[derive(Clone, Copy, Debug, PartialEq, Eq, Structural)]
pub enum PipelineError {
    /// A projection parameter lies outside its admissible range.
    InvalidCameraParameter,
    /// The camera's forward vector is zero or parallel to its up vector.
    DegenerateCameraBasis,
    /// A resource could not be prepared before the frame loop started.
    ResourceCreationFailed,
    /// A frame could not be submitted; it is dropped.
    FrameSubmissionFailed,
}

impl PipelineError {
    /// The words that name the condition.
    pub open spec fn description(self) -> Seq<char> {
        match self {
            PipelineError::InvalidCameraParameter => "invalid camera parameter"@,
            PipelineError::DegenerateCameraBasis => "degenerate camera basis"@,
            PipelineError::ResourceCreationFailed => "resource creation failed"@,
            PipelineError::FrameSubmissionFailed => "frame submission failed"@,
        }
    }

    /// A short description naming the condition that failed.
    pub fn describe(&self) -> (r: &'static str)
        ensures
            r@ == self.description(),
    {
        match self {
            PipelineError::InvalidCameraParameter => "invalid camera parameter",
            PipelineError::DegenerateCameraBasis => "degenerate camera basis",
            PipelineError::ResourceCreationFailed => "resource creation failed",
            PipelineError::FrameSubmissionFailed => "frame submission failed",
        }
    }
}

} // verus!
