//! Float-free kernel of a lumped-parameter gas network simulator.
//!
//! A network is a set of gas-filled control volumes joined by orifices. The
//! numerical evaluation of the gas relations runs in floating point and lives
//! with the caller; this crate holds everything about a time step that is
//! decided rather than computed: how scalars are ordered and classified, which
//! end of an orifice is upstream, when the flow is choked, how the state vector
//! is laid out, and which inputs are physically admissible.
pub mod scalar;
pub mod fault;
pub mod orifice;
pub mod layout;
pub mod network;
pub mod validity;
