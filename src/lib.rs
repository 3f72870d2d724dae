//! Budget-constrained repegging and funding-excess arithmetic for a virtual
//! constant-product market maker.
pub mod amm;
pub mod bn;
pub mod constants;
pub mod error;
pub mod laws;
pub mod position;
pub mod repeg;
pub mod state;
