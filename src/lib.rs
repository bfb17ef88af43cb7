//! Height-weighted reward shaping with an adaptive target height.
//!
//! Heights are whole game units and multipliers are thousandths, so that the
//! adaptation rule and the per-tick bookkeeping can be stated and proved over
//! integers.
pub mod adaptation;
pub mod wrapper;
