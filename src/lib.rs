//! A single signed counter kept in a platform's key-value storage, with the
//! entry points that increment, decrement, reset and read it.
pub mod counter;
pub mod entry;
pub mod install;
pub mod platform;
