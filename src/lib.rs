//! A rank-1 constraint gadget for one multiplication, `a * b = c`, over the
//! scalar field of BLS12-381, with `a` and `b` private and `c` public.

mod field;
mod system;
mod circuit;

pub use field::modulus;
pub use field::Scalar;
pub use system::system_view;
pub use system::CircuitError;
pub use system::Step;
pub use system::SystemHandle;
pub use system::SystemView;
pub use system::Var;
pub use circuit::lemma_product_row_sound;
pub use circuit::lemma_shape_only_synthesis;
pub use circuit::lemma_synthesis_deterministic;
pub use circuit::lemma_valued_synthesis_satisfied;
pub use circuit::lemma_zero_row_holds;
pub use circuit::MultiplierCircuit;
