//! The uniform capability surface every concrete backend implements: open,
//! feed, flush, close. The core never assumes a one-to-one input:output
//! ratio; a feed may yield zero, one or many units, and flush drains the
//! rest. Concrete bindings to vendor SDKs live outside the core and only
//! meet it through this trait.

use vstd::prelude::*;
use crate::common::{AdapterError, MediaUnit, OpenRequest, PixelFormat};

verus! {

/// One concrete encode/decode backend.
///
/// The ghost state splits in two: immutable descriptors (`spec_name`,
/// `spec_hardware`, `spec_formats`) that every operation preserves, and the
/// resource state (`spec_open`, `spec_closed`, `spec_close_calls`) that the
/// probing protocol and the session rely on to release every handle exactly
/// once.
pub trait BackendAdapter: Sized {
    /// The backend's stable name.
    spec fn spec_name(&self) -> Seq<char>;

    /// Whether the backend is hardware-accelerated.
    spec fn spec_hardware(&self) -> bool;

    /// The pixel formats the backend reports as supported.
    spec fn spec_formats(&self) -> Seq<PixelFormat>;

    /// Whether the backend currently holds an opened handle.
    spec fn spec_open(&self) -> bool;

    /// Whether the backend's resources have been released.
    spec fn spec_closed(&self) -> bool;

    /// How many times `close` has run on this backend.
    spec fn spec_close_calls(&self) -> nat;

    fn name(&self) -> (r: String)
        ensures
            r@ == self.spec_name(),
    ;

    fn is_hardware(&self) -> (r: bool)
        ensures
            r == self.spec_hardware(),
    ;

    fn supported_formats(&self) -> (r: Vec<PixelFormat>)
        ensures
            r@ == self.spec_formats(),
    ;

    /// Attempts to initialize backend state for the given request; must not
    /// have side effects beyond this backend's own resources.
    fn try_open(&mut self, req: &OpenRequest) -> (r: Result<(), AdapterError>)
        requires
            !old(self).spec_closed(),
        ensures
            final(self).spec_name() == old(self).spec_name(),
            final(self).spec_hardware() == old(self).spec_hardware(),
            final(self).spec_formats() == old(self).spec_formats(),
            final(self).spec_close_calls() == old(self).spec_close_calls(),
            !final(self).spec_closed(),
            r is Ok ==> final(self).spec_open(),
    ;

    /// Consumes one input unit and returns zero or more output units.
    fn feed(&mut self, input: &MediaUnit) -> (r: Result<Vec<MediaUnit>, AdapterError>)
        requires
            old(self).spec_open(),
            !old(self).spec_closed(),
        ensures
            final(self).spec_name() == old(self).spec_name(),
            final(self).spec_hardware() == old(self).spec_hardware(),
            final(self).spec_formats() == old(self).spec_formats(),
            final(self).spec_close_calls() == old(self).spec_close_calls(),
            final(self).spec_open(),
            !final(self).spec_closed(),
    ;

    /// Drains any internally buffered output units at end of stream.
    fn flush(&mut self) -> (r: Result<Vec<MediaUnit>, AdapterError>)
        requires
            old(self).spec_open(),
            !old(self).spec_closed(),
        ensures
            final(self).spec_name() == old(self).spec_name(),
            final(self).spec_hardware() == old(self).spec_hardware(),
            final(self).spec_formats() == old(self).spec_formats(),
            final(self).spec_close_calls() == old(self).spec_close_calls(),
            final(self).spec_open(),
            !final(self).spec_closed(),
    ;

    /// Releases all backend resources; never fails.
    fn close(&mut self)
        ensures
            final(self).spec_name() == old(self).spec_name(),
            final(self).spec_hardware() == old(self).spec_hardware(),
            final(self).spec_formats() == old(self).spec_formats(),
            final(self).spec_closed(),
            final(self).spec_close_calls() == old(self).spec_close_calls() + 1,
    ;
}

/// The descriptors of `b` are those of `a`: probing and sessions never
/// change what a backend says about itself.
pub open spec fn same_descr<B: BackendAdapter>(a: B, b: B) -> bool {
    &&& b.spec_name() == a.spec_name()
    &&& b.spec_hardware() == a.spec_hardware()
    &&& b.spec_formats() == a.spec_formats()
}

} // verus!
