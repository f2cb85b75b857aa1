use vstd::prelude::*;

verus! {

/// The tone port of the machine. Implementations own the audio device; the
/// machine only switches the tone on and off. `playing` is the switch's
/// position, which an implementation defines and its `play` and `pause` keep.
pub trait Chip8Beeper {
    /// Whether the tone is switched on.
    spec fn playing(&self) -> bool;

    /// Starts the tone, or keeps it going.
    fn play(&mut self)
        ensures
            final(self).playing(),
    ;

    /// Stops the tone, or keeps it silent.
    fn pause(&mut self)
        ensures
            !final(self).playing(),
    ;
}

} // verus!
