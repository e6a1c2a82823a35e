//! Configuration, command-line composition and scene planning for chunked
//! video encoding.

pub mod platform;
pub mod text;
pub mod cli_parameter;
pub mod encoding;
pub mod command;
pub mod scenes;
pub mod input;
pub mod scene_detection;
pub mod settings;
pub mod ffmpeg;
pub mod flowencode;
pub mod parameter_parser;
pub mod cli;
pub mod condor;
pub mod text_map;
pub mod vapoursynth;
pub mod vs_plugins;
pub mod resize;
pub mod rescale;
pub mod parallel_encoder;
pub mod configuration;
pub mod encoder_info;
pub mod processing;
pub mod photon_noise;
pub mod validation;
pub mod scene_detect;
pub mod chunk_order;
