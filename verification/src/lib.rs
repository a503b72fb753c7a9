//! Host-side frame pipeline of a progressive GPU renderer.
//!
//! The crate keeps the logical state of the renderer (camera, scene, frame
//! counters, input tables and the registry of GPU bindings) and decides, for
//! every event, what the host has to do next. Talking to the window system and
//! to the GPU is left to the embedding program, which carries out on the
//! device what the state has already gone through here.
//!
//! GPU allocations are known here by their [`resource::ResourceId`]. Real
//! numbers are either fixed-point integers, where they are computed with
//! (angles, zoom, field of view, speed), or the 32-bit words that the GPU
//! programs read, where they are only handed on (positions, colours).

pub mod bind_groups;
pub mod bytes;
pub mod camera;
pub mod config;
pub mod frame;
pub mod input;
pub mod mesh;
pub mod pipelines;
pub mod resource;
pub mod scene;
pub mod scheduler;
pub mod state;
pub mod texture;
