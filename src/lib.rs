//! Scheduling, state and delivery engine of an unattended timelapse daemon.
//!
//! The library decides, once per tick, which capture and compile actions are
//! due, keeps the record of timers and delivery queues, drives the per-item
//! delivery state machine, and picks the local videos that retention may remove.
//! The daemon around it performs the actions and reports their outcomes.
pub mod calendar;
pub mod naming;
pub mod state;
pub mod schedule;
pub mod delivery;
pub mod retention;
