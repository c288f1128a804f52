//! A point-to-point file transfer over a QUIC session: trust policy,
//! session lifecycle, stream copying, telemetry and the two role drivers.
pub mod trust;
pub mod der;
pub mod server_trust;
pub mod session;
pub mod copier;
pub mod telemetry;
pub mod driver;
