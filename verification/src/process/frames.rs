//! A stack of frames that remembers what the allocator answered it.

use std::vec::Vec;
use vstd::prelude::*;

verus! {

/// Frames, the newest last. The stack can ask the allocator for memory for one
/// more frame; the answers that it got are part of its history.
pub struct FrameStack<T> {
    frames: Vec<T>,
    answers: Ghost<Seq<bool>>,
}

/// The allocator's answer to [`FrameStack::try_slot`] that there is memory for
/// one more frame.
///
/// It is good for the very stack that asked, as long as that stack was not
/// exchanged for another. What is tied here is the contents and the history of
/// the stack: two stacks that agree in both are not told apart.
pub struct SpareSlot<T> {
    frames: Ghost<Seq<T>>,
    answers: Ghost<Seq<bool>>,
}

impl<T> SpareSlot<T> {
    /// The slot was had for a stack of these frames, by the last of these
    /// answers.
    pub closed spec fn fits(&self, frames: Seq<T>, answers: Seq<bool>) -> bool {
        self.frames@ == frames && self.answers@ == answers
    }
}

impl<T> View for FrameStack<T> {
    type V = Seq<T>;

    closed spec fn view(&self) -> Seq<T> {
        self.frames@
    }
}

impl<T> FrameStack<T> {
    /// What the allocator answered so far, the latest answer last.
    pub closed spec fn answers(&self) -> Seq<bool> {
        self.answers@
    }

    pub fn new() -> (stack: Self)
        ensures
            stack@ == Seq::<T>::empty(),
            stack.answers() == Seq::<bool>::empty(),
    {
        FrameStack { frames: Vec::new(), answers: Ghost(Seq::empty()) }
    }

    pub fn len(&self) -> (len: usize)
        ensures
            len == self@.len(),
    {
        self.frames.len()
    }

    /// The newest frame.
    pub fn last(&self) -> (frame: Option<&T>)
        ensures
            self@.len() == 0 ==> frame is None,
            self@.len() > 0 ==> frame == Some(&self@.last()),
    {
        if self.frames.len() == 0 {
            None
        } else {
            Some(&self.frames[self.frames.len() - 1])
        }
    }

    /// Ask the allocator for memory for one more frame. The answer is the
    /// allocator's.
    pub fn try_slot(&mut self) -> (slot: Option<SpareSlot<T>>)
        ensures
            final(self)@ == old(self)@,
            final(self).answers() == old(self).answers().push(slot is Some),
            slot matches Some(slot) ==> slot.fits(final(self)@, final(self).answers()),
    {
        let granted = self.frames.try_reserve(1).is_ok();
        self.answers = Ghost(self.answers@.push(granted));
        if granted {
            Some(SpareSlot { frames: Ghost(self.frames@), answers: Ghost(self.answers@) })
        } else {
            None
        }
    }

    pub fn push(&mut self, frame: T)
        ensures
            final(self)@ == old(self)@.push(frame),
            final(self).answers() == old(self).answers(),
    {
        self.frames.push(frame);
    }

    /// Drop the newest frame.
    pub fn drop_last(&mut self)
        requires
            old(self)@.len() > 0,
        ensures
            final(self)@ == old(self)@.drop_last(),
            final(self).answers() == old(self).answers(),
    {
        let _ = self.frames.pop();
    }

    /// Take all frames out, with the memory that holds them.
    pub fn take(&mut self) -> (frames: Vec<T>)
        ensures
            frames@ == old(self)@,
            final(self)@ == Seq::<T>::empty(),
            final(self).answers() == old(self).answers(),
    {
        let mut frames: Vec<T> = Vec::new();
        std::mem::swap(&mut self.frames, &mut frames);
        frames
    }

    /// Hold these frames from now on.
    pub fn replace(&mut self, frames: Vec<T>)
        ensures
            final(self)@ == frames@,
            final(self).answers() == old(self).answers(),
    {
        self.frames = frames;
    }
}

} // verus!
