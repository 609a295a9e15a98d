//! Where the frames of a transfer go: the sink interface and a bounded FIFO queue.

use vstd::prelude::*;

use crate::frame::{Frame, FrameView, OutOfMemoryError};

verus! {

/// A bounded sink of outgoing frames
///
/// After `try_reserve(n)` succeeds, the next `n` calls of `push_frame` succeed.
pub trait FrameSink<I> {
    /// The frames held, in the order in which they were pushed
    spec fn queued(&self) -> Seq<FrameView<I>>;

    /// How many more frames `push_frame` is bound to accept
    spec fn room(&self) -> nat;

    /// Whether `try_reserve(n)` succeeds in this state
    spec fn admits(&self, n: nat) -> bool;

    /// Makes room for `additional` more frames, or reports that there is none
    fn try_reserve(&mut self, additional: usize) -> (r: Result<(), OutOfMemoryError>)
        ensures
            final(self).queued() == old(self).queued(),
            r is Ok <==> old(self).admits(additional as nat),
            r is Ok ==> final(self).room() >= additional,
    ;

    /// Adds a frame
    fn push_frame(&mut self, frame: Frame<I>) -> (r: Result<(), OutOfMemoryError>)
        ensures
            old(self).room() > 0 ==> r is Ok,
            r is Ok ==> final(self).queued() == old(self).queued().push(frame@),
            r is Ok ==> final(self).room() + 1 >= old(self).room(),
            r is Err ==> final(self).queued() == old(self).queued(),
    ;
}

/// A first-in, first-out queue of frames with a fixed capacity
pub struct FrameQueue<I> {
    frames: Vec<Frame<I>>,
    capacity: usize,
}

impl<I> FrameQueue<I> {
    /// The number of frames that the queue can hold
    pub closed spec fn spec_capacity(&self) -> nat {
        self.capacity as nat
    }

    /// Creates an empty queue that holds at most `capacity` frames
    pub fn new(capacity: usize) -> (r: FrameQueue<I>)
        ensures
            r.queued() == Seq::<FrameView<I>>::empty(),
            r.spec_capacity() == capacity,
    {
        let r = FrameQueue { frames: Vec::new(), capacity };
        proof {
            assert(r.queued() =~= Seq::<FrameView<I>>::empty());
        }
        r
    }

    /// Returns the number of frames that the queue can hold
    pub fn capacity(&self) -> (r: usize)
        ensures
            r == self.spec_capacity(),
    {
        self.capacity
    }

    /// Returns the number of frames in the queue
    pub fn len(&self) -> (r: usize)
        ensures
            r == self.queued().len(),
    {
        self.frames.len()
    }

    /// Returns true if the queue holds no frames
    pub fn is_empty(&self) -> (r: bool)
        ensures
            r <==> self.queued().len() == 0,
    {
        self.frames.len() == 0
    }

    /// Returns the oldest frame, if any
    pub fn peek_frame(&self) -> (r: Option<&Frame<I>>)
        ensures
            r is None <==> self.queued().len() == 0,
            r matches Some(f) ==> f@ == self.queued()[0],
    {
        if self.frames.len() == 0 {
            None
        } else {
            Some(&self.frames[0])
        }
    }

    /// Removes and returns the oldest frame, if any
    pub fn pop_frame(&mut self) -> (r: Option<Frame<I>>)
        ensures
            r is None <==> old(self).queued().len() == 0,
            r matches Some(f) ==> f@ == old(self).queued()[0] && final(self).queued()
                == old(self).queued().drop_first(),
            r is None ==> final(self).queued() == old(self).queued(),
            final(self).spec_capacity() == old(self).spec_capacity(),
    {
        if self.frames.len() == 0 {
            None
        } else {
            let f = self.frames.remove(0);
            proof {
                assert(self.queued() =~= old(self).queued().drop_first());
            }
            Some(f)
        }
    }
}

impl<I> FrameSink<I> for FrameQueue<I> {
    closed spec fn queued(&self) -> Seq<FrameView<I>> {
        self.frames@.map_values(|f: Frame<I>| f@)
    }

    closed spec fn room(&self) -> nat {
        if self.frames.len() <= self.capacity {
            (self.capacity - self.frames.len()) as nat
        } else {
            0
        }
    }

    /// The queue admits `n` more frames when they fit beside those it holds.
    open spec fn admits(&self, n: nat) -> bool {
        self.queued().len() + n <= self.spec_capacity()
    }

    fn try_reserve(&mut self, additional: usize) -> (r: Result<(), OutOfMemoryError>) {
        if self.frames.len() <= self.capacity && additional <= self.capacity - self.frames.len() {
            Ok(())
        } else {
            Err(OutOfMemoryError)
        }
    }

    fn push_frame(&mut self, frame: Frame<I>) -> (r: Result<(), OutOfMemoryError>) {
        if self.frames.len() < self.capacity {
            let ghost v = frame@;
            self.frames.push(frame);
            proof {
                assert(self.queued() =~= old(self).queued().push(v));
            }
            Ok(())
        } else {
            Err(OutOfMemoryError)
        }
    }
}

} // verus!
