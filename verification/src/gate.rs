//! Admission control: one top-level operation per class at a time.
//!
//! Every listing operation (ranked list or search) shares one exclusive gate,
//! and every download shares another. Acquisition never blocks: while a gate
//! is held, a second attempt on the same class fails immediately, so a caller
//! is told "already in progress" rather than being queued.

use vstd::prelude::*;

verus! {

/// The two classes of top-level operation that are serialized process-wide.
#[derive(Clone, Copy, PartialEq, Eq, Structural)]
pub enum OperationClass {
    /// Fetching a ranked list or searching: both read the remote catalogue.
    Listing,
    /// Downloading and packaging one work.
    Download,
}

/// A pair of non-blocking exclusive gates, one per operation class.
pub struct AdmissionGate {
    pub listing_held: bool,
    pub download_held: bool,
}

impl AdmissionGate {
    /// True while an operation of `class` is in flight.
    pub open spec fn held(self, class: OperationClass) -> bool {
        match class {
            OperationClass::Listing => self.listing_held,
            OperationClass::Download => self.download_held,
        }
    }

    /// A fresh gate; nothing is in flight.
    pub fn new() -> (g: Self)
        ensures
            !g.held(OperationClass::Listing),
            !g.held(OperationClass::Download),
    {
        AdmissionGate { listing_held: false, download_held: false }
    }

    /// Try to admit an operation of `class` without waiting.
    ///
    /// Admission succeeds exactly when no operation of the same class is in
    /// flight. A refused attempt changes nothing, and the other class is
    /// never touched.
    pub fn try_acquire(&mut self, class: OperationClass) -> (admitted: bool)
        ensures
            admitted == !old(self).held(class),
            final(self).held(class),
            forall|c: OperationClass| c != class ==> final(self).held(c) == old(self).held(c),
    {
        match class {
            OperationClass::Listing => {
                let was_held = self.listing_held;
                self.listing_held = true;
                !was_held
            },
            OperationClass::Download => {
                let was_held = self.download_held;
                self.download_held = true;
                !was_held
            },
        }
    }

    /// Mark the operation of `class` as finished, admitting the next one.
    pub fn release(&mut self, class: OperationClass)
        ensures
            !final(self).held(class),
            forall|c: OperationClass| c != class ==> final(self).held(c) == old(self).held(c),
    {
        match class {
            OperationClass::Listing => {
                self.listing_held = false;
            },
            OperationClass::Download => {
                self.download_held = false;
            },
        }
    }
}

} // verus!
