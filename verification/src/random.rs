use rand::Rng;
use vstd::prelude::*;

verus! {

/// A supply of bytes for the instruction that asks for a random one.
pub trait RandomSource: Sized {
    /// Whether the next draw may hand out `byte` and leave the source as `rest`.
    spec fn may_draw(&self, byte: u8, rest: Self) -> bool;

    /// Draws one byte.
    fn next_byte(&mut self) -> (byte: u8)
        ensures
            old(self).may_draw(byte, *final(self)),
    ;
}

/// Draws from `rand`'s generator of the calling thread:
/// `rand::thread_rng().gen::<u8>()`. Nothing is claimed of the byte that
/// comes back, so callers are verified for every value of it. The generator
/// is seeded from the operating system on a thread's first draw.
#[verifier::external_body]
fn thread_random_byte() -> (byte: u8) {
    rand::thread_rng().gen::<u8>()
}

/// The production source: uniformly distributed bytes from the generator of
/// the calling thread.
#[derive(Debug, Clone, Copy)]
pub struct ThreadRandom;

impl RandomSource for ThreadRandom {
    /// Any byte may come out.
    open spec fn may_draw(&self, byte: u8, rest: Self) -> bool {
        true
    }

    fn next_byte(&mut self) -> (byte: u8) {
        thread_random_byte()
    }
}

/// A source that hands out a fixed script of bytes over and over, for runs
/// that must be repeatable. With an empty script every draw is zero.
#[derive(Debug)]
pub struct ScriptedSource {
    bytes: Vec<u8>,
    cursor: usize,
}

impl ScriptedSource {
    /// The script that the source repeats.
    pub closed spec fn script(&self) -> Seq<u8> {
        self.bytes@
    }

    /// The place in the script of the byte that the next draw hands out.
    pub closed spec fn position(&self) -> nat {
        if self.bytes@.len() == 0 {
            0
        } else {
            (self.cursor as nat) % self.bytes@.len()
        }
    }

    /// The byte that the next draw hands out.
    pub open spec fn upcoming(&self) -> u8 {
        if self.script().len() == 0 {
            0u8
        } else {
            self.script()[self.position() as int]
        }
    }

    /// The place in the script that follows the current one, wrapping at the end.
    pub open spec fn following(&self) -> nat {
        if self.script().len() == 0 {
            0
        } else {
            (self.position() + 1) % self.script().len()
        }
    }

    /// A source at the start of `bytes`.
    pub fn new(bytes: Vec<u8>) -> (source: ScriptedSource)
        ensures
            source.script() == bytes@,
            source.position() == 0,
    {
        ScriptedSource { bytes, cursor: 0 }
    }

    /// The position stays inside a script that is not empty.
    pub proof fn lemma_position_in_script(&self)
        ensures
            self.script().len() > 0 ==> self.position() < self.script().len(),
            self.script().len() == 0 ==> self.position() == 0,
    {
    }
}

impl RandomSource for ScriptedSource {
    /// Only the upcoming byte may come out, and the source moves on by one place.
    open spec fn may_draw(&self, byte: u8, rest: Self) -> bool {
        &&& byte == self.upcoming()
        &&& rest.script() == self.script()
        &&& rest.position() == self.following()
    }

    fn next_byte(&mut self) -> (byte: u8) {
        let len: usize = self.bytes.len();
        if len == 0 {
            0
        } else {
            let place: usize = self.cursor % len;
            let byte: u8 = self.bytes[place];
            self.cursor = (place + 1) % len;
            proof {
                vstd::arithmetic::div_mod::lemma_mod_twice(place as int + 1, len as int);
            }
            byte
        }
    }
}

} // verus!
