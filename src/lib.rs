/// Rendering of response body chunks as text and hex.
pub mod body;
/// The configurations that the probe runs.
pub mod config;
/// Decimal rendering of lengths.
pub mod decimal;
/// Hex listing of bytes.
pub mod hexdump;
/// The request that each run sends, and the fixed endpoint.
pub mod request;
/// Runs against a scripted peer.
pub mod script;
/// The lifecycle of one run, as a state machine.
pub mod session;
