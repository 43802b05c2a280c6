//! Orchestration engine of a video compressor that drives `ffmpeg` and
//! `ffprobe` as subprocesses. The library decides; the program around it
//! launches the tools and hands their outcomes back.

pub mod command;
pub mod config;
pub mod encoders;
pub mod ffmpeg_bin;
pub mod ffmpeg_utils;
pub mod json;
pub mod modals;
pub mod paths;
pub mod pipeline;
pub mod probe;
pub mod queue;
pub mod text;
