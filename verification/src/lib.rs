//! A closed-loop navigation controller for a small wheeled vehicle on a
//! flat arena.  Overhead-camera snapshots are the only position feedback;
//! the controller turns detected markers into arena coordinates, decides
//! between turning toward the target, approaching it, and idling on it,
//! and issues discrete drive and steering commands.

pub mod control;
pub mod geometry;
pub mod vision;
