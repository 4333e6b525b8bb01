pub mod current_song;
pub mod spotify_key;

use vstd::prelude::*;

verus! {

/// A store could not be written.
#[derive(Clone, Copy, Debug, PartialEq, Eq, Structural)]
pub enum DaoError {
    /// The backing storage refused the write.
    Unavailable,
}

} // verus!
