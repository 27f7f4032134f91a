//! Two cooperative tasks that meet through a shared step counter: a dancer
//! that publishes its steps one by one, and a singer that learns a lyric word
//! only once the dancer has reached that word's position. The tasks are pure
//! state machines here; a driver performs the pauses and yields they ask for,
//! and `schedule` runs both on a model of a single-threaded scheduler.
pub mod consumer;
pub mod producer;
pub mod schedule;
