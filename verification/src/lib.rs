//! A configurable die: a builder sets the number of faces and the
//! randomness source, and the built die rolls values in `[1, sides)`,
//! recording every produced value in its history.

pub mod die;
pub mod source;

pub use die::Die;
pub use die::DieBuilder;
pub use die::lemma_history_records_rolls;
pub use die::lemma_history_reads_agree;
pub use die::lemma_low_source_rolls_one;
pub use die::roll_step;
pub use source::DieRng;
pub use source::DieStdRng;
pub use source::LowRng;
