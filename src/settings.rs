//! The parts of the configuration that the library itself holds.

use vstd::prelude::*;

verus! {

/// The Discord side of the configuration: the bot's token.
#[derive(Clone, Debug)]
pub struct Discord {
    pub token: String,
}

} // verus!
