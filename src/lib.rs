//! Elementary public-key cryptography over a caller-chosen short Weierstrass
//! curve: modular arithmetic, the curve group law and ECDSA.

pub mod natural;
pub mod field;

pub use natural::Natural;
pub use field::FiniteField;
pub mod curve;

pub use curve::{EllipticCurve, Point};
pub mod ecdsa;
