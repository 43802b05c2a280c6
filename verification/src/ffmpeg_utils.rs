//! The engine: it reads what the tools report and decides what they are
//! asked to do next.

use vstd::prelude::*;
use crate::config::AppConfig;
use crate::ffmpeg_bin::{is_ffmpeg_available, usable, ToolSurvey};

verus! {

/// Why the engine could not be set up.
#[derive(Debug, Clone, Copy, PartialEq, Eq, Structural)]
pub enum EngineError {
    /// One of the two tools, or both, were not found.
    ToolsUnavailable,
}

/// The transcode engine.
#[derive(Debug, Clone)]
pub struct FFmpegUtils {
    pub config: AppConfig,
}

impl FFmpegUtils {
    /// Sets the engine up with the reference catalog. This takes both tools
    /// to be there.
    pub fn new(survey: &ToolSurvey) -> (engine: Result<Self, EngineError>)
        ensures
            match engine {
                Ok(made) => usable(*survey) && made.config.is_reference(),
                Err(error) => !usable(*survey) && error == EngineError::ToolsUnavailable,
            },
    {
        if !is_ffmpeg_available(survey) {
            return Err(EngineError::ToolsUnavailable);
        }
        Ok(FFmpegUtils { config: AppConfig::default() })
    }
}

} // verus!
