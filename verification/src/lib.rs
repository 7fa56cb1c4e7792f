//! Integers kept canonically reduced modulo a modulus fixed in the type.
//!
//! An [`Unsigned<V, M>`] stores one primitive unsigned integer of type `V` and
//! carries its modulus as the type-level number `M`. Every value that exists
//! lies in `[0, modulus)`; every operation returns a new value in that range.
//!
//! - [`modulus`]: the type-level numbers and the number each denotes.
//! - [`primitive`]: the storage types and their arithmetic.
//! - [`modular`]: the operations as mathematics on natural numbers.
//! - [`unsigned`]: the type, its construction and its identities.
//! - [`ops`]: `+`, `-`, `*`, `/` and `%`.
//! - [`ordering`]: `==` and `<`.
//! - [`parse`]: reading a value from digits.
//! - [`laws`]: what holds of the operations taken together.

pub mod laws;
pub mod modular;
pub mod modulus;
pub mod ops;
pub mod ordering;
pub mod parse;
pub mod primitive;
pub mod unsigned;

pub use modulus::{CompileTimeUnsigned, FromCompileTimeUnsinged};
pub use parse::FromStrRadixErr;
pub use primitive::Primitive;
pub use unsigned::Unsigned;
