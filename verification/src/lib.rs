//! Verified protocol and decision logic of the realtime CLAP play server.
use vstd::prelude::*;

pub mod ipc;
pub mod text;
pub mod wire;
pub mod ring;
pub mod client;
pub mod server;
pub mod vvp;
pub mod voicing;
pub mod http;
pub mod config;
pub mod bank;
pub mod live;
pub mod live_queue;
pub mod spare_pool;
pub mod workspace_update;
pub mod fast_ipc;
pub mod player_queue;
pub mod audio_output;
pub mod player;
pub mod worker_loop;
pub mod effect_presets;
pub mod capture;
pub mod timing_window;
