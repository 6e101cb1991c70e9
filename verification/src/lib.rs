//! Verified core of a small manager for a dedicated Rust game server.

pub mod texto;
pub mod rcon;
pub mod aleatorio;
pub mod iniciador;
pub mod proceso;
pub mod instalacion;
pub mod webrcon;
pub mod servidor;
pub mod leyes;
pub mod enlace;
