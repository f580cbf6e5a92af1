//! Rooms that users join as participants or observers.
//!
//! A room admits two participants and eight observers, in order of arrival,
//! and no user twice. Rooms live in a registry that many threads share; each
//! room has a lock of its own. The rules of admission, the wording of the
//! answers and the status report are proved against their statements; what
//! concurrent callers do to the registry between two calls is left open.

pub mod admission;
pub mod dtos;
pub mod handlers;
pub mod room;
pub mod room_controller;
pub mod room_input_ports;
pub mod room_interactor;
pub mod room_repository;
pub mod snapshot;
pub mod text;
pub mod user;
