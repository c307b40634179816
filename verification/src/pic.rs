//! The driver for the pair of chained legacy interrupt controllers.
//!
//! Each controller owns 8 vector slots. Remapping moves them to a chosen
//! base so hardware interrupts never collide with CPU exceptions; it must
//! run once, before interrupts are enabled. After servicing a hardware
//! interrupt, the handler's last step tells the driver which vector to
//! acknowledge; the model records every acknowledgment in order, the one
//! observable effect of the end-of-interrupt protocol.

use vstd::prelude::*;

verus! {

/// Mathematical model of the controller pair.
#[verifier::ext_equal]
pub struct PicsModel {
    /// Base vector of the primary controller's 8 slots.
    pub offset1: u8,
    /// Base vector of the secondary controller's 8 slots.
    pub offset2: u8,
    /// Whether the one-time remap has run.
    pub initialized: bool,
    /// Every end-of-interrupt acknowledgment sent, in order, by vector.
    pub acks: Seq<u8>,
}

impl PicsModel {
    /// The offset invariant: the secondary controller's slots start right
    /// after the primary's, and both ranges fit in the vector space.
    pub open spec fn inv(self) -> bool {
        self.offset2 == self.offset1 + 8 && self.offset1 + 16 <= 256
    }

    /// Whether a remapped controller surfaces this vector.
    pub open spec fn handles_vector(self, vector: u8) -> bool {
        self.initialized && (self.offset1 <= vector < self.offset1 + 8 || self.offset2 <= vector
            < self.offset2 + 8)
    }
}

/// The controller pair, remapped to `offset1` and `offset2`.
pub struct ChainedPics {
    offset1: u8,
    offset2: u8,
    initialized: bool,
    acks: Vec<u8>,
}

impl View for ChainedPics {
    type V = PicsModel;

    closed spec fn view(&self) -> PicsModel {
        PicsModel {
            offset1: self.offset1,
            offset2: self.offset2,
            initialized: self.initialized,
            acks: self.acks@,
        }
    }
}

impl ChainedPics {
    /// Well-formedness of the running driver.
    pub open spec fn wf(&self) -> bool {
        self@.inv()
    }

    /// Creates the driver for a controller pair to be remapped to the two
    /// offsets, which must sit 8 apart and leave room for both slot ranges.
    pub fn new(offset1: u8, offset2: u8) -> (pics: ChainedPics)
        requires
            offset2 == offset1 + 8,
            offset1 + 16 <= 256,
        ensures
            pics.wf(),
            pics@ == (PicsModel {
                offset1: offset1,
                offset2: offset2,
                initialized: false,
                acks: Seq::<u8>::empty(),
            }),
    {
        let pics = ChainedPics { offset1: offset1, offset2: offset2, initialized: false, acks: Vec::new() };
        proof {
            assert(pics@ =~= (PicsModel {
                offset1: offset1,
                offset2: offset2,
                initialized: false,
                acks: Seq::<u8>::empty(),
            }));
        }
        pics
    }

    /// The one-time remap: programs both controllers so their interrupt
    /// lines surface at the configured offsets. Must run exactly once,
    /// before interrupts are globally enabled; running it again is a boot
    /// configuration error and is ruled out here.
    pub fn initialize(&mut self)
        requires
            old(self).wf(),
            !old(self)@.initialized,
        ensures
            final(self).wf(),
            final(self)@ == (PicsModel { initialized: true, ..old(self)@ }),
    {
        self.initialized = true;
        proof {
            assert(self@ =~= (PicsModel { initialized: true, ..old(self)@ }));
        }
    }

    /// Whether a remapped controller surfaces this vector.
    pub fn handles_interrupt(&self, vector: u8) -> (r: bool)
        requires
            self.wf(),
        ensures
            r == self@.handles_vector(vector),
    {
        self.initialized && ((self.offset1 <= vector && (vector as u16) < self.offset1 as u16 + 8)
            || (self.offset2 <= vector && (vector as u16) < self.offset2 as u16 + 8))
    }

    /// The end-of-interrupt acknowledgment, sent as the last step of a
    /// hardware-interrupt handler. A vector neither controller surfaces is
    /// ignored; a handled one is recorded, exactly once per call.
    pub fn notify_end_of_interrupt(&mut self, vector: u8)
        requires
            old(self).wf(),
        ensures
            final(self).wf(),
            final(self)@.offset1 == old(self)@.offset1,
            final(self)@.offset2 == old(self)@.offset2,
            final(self)@.initialized == old(self)@.initialized,
            old(self)@.handles_vector(vector) ==> final(self)@.acks == old(self)@.acks.push(
                vector,
            ),
            !old(self)@.handles_vector(vector) ==> final(self)@.acks == old(self)@.acks,
    {
        if self.handles_interrupt(vector) {
            self.acks.push(vector);
        }
    }

    /// The two configured offsets.
    pub fn offsets(&self) -> (r: (u8, u8))
        ensures
            r.0 == self@.offset1,
            r.1 == self@.offset2,
    {
        (self.offset1, self.offset2)
    }

    /// Whether the one-time remap has run.
    pub fn is_initialized(&self) -> (r: bool)
        ensures
            r == self@.initialized,
    {
        self.initialized
    }

    /// Every acknowledgment sent so far, in order, by vector.
    pub fn acks(&self) -> (r: &Vec<u8>)
        ensures
            r@ == self@.acks,
    {
        &self.acks
    }
}

} // verus!
