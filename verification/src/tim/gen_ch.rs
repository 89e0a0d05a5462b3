//! Capture/compare channel tokens of a general-purpose timer.
//!
//! Each of the four channels carries its own mode as a type parameter,
//! configured through the per-channel hooks in [`crate::tim::gen`]. The
//! concrete capture and compare modes belong to the channel driver layer;
//! here the channel is a typestate token that the timer configuration
//! carries along.

use vstd::prelude::*;
use core::marker::PhantomData;

verus! {

/// Channel 1 token.
pub struct TimCh1;

/// Channel 2 token.
pub struct TimCh2;

/// Channel 3 token.
pub struct TimCh3;

/// Channel 4 token.
pub struct TimCh4;

/// A determined channel-mode token.
pub trait ChModeToken {

}

/// Configuration of one capture/compare channel, tagged by its channel and
/// its mode.
pub struct TimChCfg<Ch, Mode> {
    ch: PhantomData<Ch>,
    mode: PhantomData<Mode>,
}

impl<Ch, Mode> TimChCfg<Ch, Mode> {
    /// A channel configuration token.
    pub fn new() -> TimChCfg<Ch, Mode> {
        TimChCfg { ch: PhantomData, mode: PhantomData }
    }
}

} // verus!
