//! A voxel cellular automaton over chunks of 32x32x32 voxels: a 16-bit voxel codec, Morton
//! keys for chunk coordinates, double-buffered chunk storage, a snapshot table for reads across
//! chunk boundaries, the birth/survival rule, and the snapshot, evaluation and commit phases of
//! a step.

pub mod chunk;
pub mod coord;
pub mod morton;
pub mod rule;
pub mod snapshot;
pub mod state;
pub mod step;
pub mod table;
