//! What the processors of a job expose to the job: their settings, and the
//! scene-detection and parallel-encoding settings that can be read and
//! changed through them.

use vstd::prelude::*;
use crate::condor::{BaseProcessorConfig, ParallelEncoderConfig};
use crate::input::Input;
use crate::scene_detection::{SceneDetectionMethod, SceneDetector};

verus! {

/// The processing steps of a job.
pub trait BaseProcessingTrait: Default {}

/// The data that processing records for each scene.
pub trait BaseProcessDataTrait: Default + Clone {}

/// The saved settings of the processors.
pub trait BaseProcessorConfigTrait: Default + Clone {}

impl BaseProcessorConfigTrait for BaseProcessorConfig {}

/// Processing that detects scenes: its method and its own input.
pub trait SceneDetectionProcessing {
    fn get_scene_detection_method(&self) -> SceneDetectionMethod;

    fn set_scene_detection_method(&mut self, method: SceneDetectionMethod);

    fn set_scene_detection_input(&mut self, input: Input);
}

impl SceneDetectionProcessing for SceneDetector {
    fn get_scene_detection_method(&self) -> (r: SceneDetectionMethod)
        ensures
            r == self.method,
    {
        self.method
    }

    fn set_scene_detection_method(&mut self, method: SceneDetectionMethod)
        ensures
            final(self).method == method,
            final(self).input == old(self).input,
    {
        self.method = method;
    }

    fn set_scene_detection_input(&mut self, input: Input)
        ensures
            final(self).input == Some(input),
            final(self).method == old(self).method,
    {
        self.input = Some(input);
    }
}

/// Processing that encodes scenes in parallel: how many encoders at once.
pub trait ParallelEncoderProcessing {
    fn get_workers(&self) -> u8;

    fn set_workers(&mut self, workers: u8);
}

impl ParallelEncoderProcessing for ParallelEncoderConfig {
    fn get_workers(&self) -> (r: u8)
        ensures
            r == self.workers,
    {
        self.workers
    }

    fn set_workers(&mut self, workers: u8)
        ensures
            final(self).workers == workers,
            final(self).scenes_directory == old(self).scenes_directory,
            final(self).input == old(self).input,
            final(self).encoder == old(self).encoder,
    {
        self.workers = workers;
    }
}

} // verus!
