//! A minimal arithmetic-circuit gate layer in the PLONK style.
//!
//! The library models a table of three advice (witness) columns, four
//! selector (fixed) columns and one instance (public-input) column, and
//! offers composer operations that allocate rows under the custom-gate
//! identity `sl*l + sr*r + sm*(l*r) + so*o = 0`, bind cells by copy
//! constraints, and expose cell values as public inputs.

pub mod composer;
pub mod field;
pub mod layout;
pub mod table;

pub use composer::ComposerError;
pub use composer::TutorialChip;
pub use composer::TutorialComposer;

pub use field::Fe;
pub use field::MODULUS;
pub use layout::Cell;
pub use layout::TutorialConfig;
pub use layout::Wire;
pub use table::Row;
pub use table::Table;
