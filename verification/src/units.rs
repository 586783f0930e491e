//! Fixed-point quantities.
//!
//! Lengths, speeds, colour components and rates are whole numbers of
//! thousandths: `2500` stands for 2.5 and `-2` for -0.002. A host that works
//! in binary floating point turns such a number into its own by dividing by
//! [`ONE`].

use vstd::prelude::*;

verus! {

/// The number one, in thousandths.
pub const ONE: i32 = 1000;

} // verus!
