use vstd::prelude::*;

verus! {

/// Compiles only when `T` may be sent to and shared between threads.
pub fn require_send_sync<T: Send + Sync>() {
}

} // verus!

verus! {

/// An indentation level that grows and shrinks by a fixed width, stopping
/// at the bounds of `usize`.
#[derive(Clone, Copy, Debug, PartialEq, Eq, Structural)]
pub struct Indent {
    pub width: usize,
    pub level: usize,
}

impl Indent {
    /// One step deeper.
    pub fn push(&mut self)
        ensures
            final(self).width == old(self).width,
            final(self).level == if old(self).level + old(self).width <= usize::MAX {
                (old(self).level + old(self).width) as usize
            } else {
                usize::MAX
            },
    {
        if self.level > usize::MAX - self.width {
            self.level = usize::MAX;
        } else {
            self.level = self.level + self.width;
        }
    }

    /// One step back.
    pub fn pop(&mut self)
        ensures
            final(self).width == old(self).width,
            final(self).level == if old(self).level >= old(self).width {
                (old(self).level - old(self).width) as usize
            } else {
                0
            },
    {
        if self.level >= self.width {
            self.level = self.level - self.width;
        } else {
            self.level = 0;
        }
    }
}

} // verus!
