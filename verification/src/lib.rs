/// The session driver: state, transitions, and the request/response cycle.
pub mod driver;
/// What the transport's out-of-band metadata encoding accepts.
pub mod encoding;
/// Session-wide laws proved over the driver's transitions.
pub mod laws;
/// The protocol's message types, their models, and the work-item handlers.
pub mod protocol;
