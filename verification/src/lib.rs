//! Core of a gesture counter for a VR avatar driven over OSC, the local
//! real-time control protocol.
//!
//! The remote avatar reports "mask" gesture transitions (pose or grab, up or
//! down) as OSC messages carrying a boolean argument. The engine classifies
//! each message against configured rules, asks the surrounding application to
//! persist a record of every match, counts successfully persisted grab events
//! in 200-step cycles, and answers with OSC float messages that mirror the
//! count back to the avatar's animation parameters.
//!
//! The surrounding application owns every outside resource: the UDP socket,
//! the event store, and the notification channel. It feeds datagrams and
//! persistence outcomes to the [`engine::Engine`], which decides everything
//! else and never touches the outside world itself.
pub mod codec;
pub mod engine;
pub mod mapper;
pub mod rules;
pub mod screen;
