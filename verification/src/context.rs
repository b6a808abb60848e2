//! Context identities, attributes and descriptors.

use crate::egl::EGLint;
use vstd::prelude::*;

verus! {

/// The identity of a context: no two contexts that are alive together share one.
#[derive(Clone, Copy, PartialEq, Eq, Debug, Hash, Structural)]
pub struct ContextID(pub u64);

/// An OpenGL version.
#[derive(Clone, Copy, PartialEq, Eq, Debug, Structural)]
pub struct GLVersion {
    pub major: u8,
    pub minor: u8,
}

/// A set of context capabilities, one bit each.
#[derive(Clone, Copy, PartialEq, Eq, Debug, Structural)]
pub struct ContextAttributeFlags {
    pub bits: u8,
}

/// The capabilities and version requested of a context.
#[derive(Clone, Copy, PartialEq, Eq, Debug, Structural)]
pub struct ContextAttributes {
    pub version: GLVersion,
    pub flags: ContextAttributeFlags,
}

/// A resolved pixel format, from which contexts and surfaces are created.
#[derive(Clone, Copy, PartialEq, Eq, Debug, Structural)]
pub struct ContextDescriptor {
    pub egl_config_id: EGLint,
    pub gl_version: GLVersion,
    pub compatibility_profile: bool,
}

pub const ALPHA_BIT: u8 = 0x01;

pub const DEPTH_BIT: u8 = 0x02;

pub const STENCIL_BIT: u8 = 0x04;

pub const COMPATIBILITY_PROFILE_BIT: u8 = 0x08;

/// The bit of a capability that is switched on, and no bit of one that is off.
pub open spec fn spec_switch(on: bool, bit: u8) -> u8 {
    if on {
        bit
    } else {
        0
    }
}

impl ContextAttributeFlags {
    /// Whether every capability of `other` is in this set.
    pub open spec fn spec_contains(&self, other: ContextAttributeFlags) -> bool {
        self.bits & other.bits == other.bits
    }

    /// Whether the set asks for an alpha channel.
    pub open spec fn has_alpha(&self) -> bool {
        self.bits & ALPHA_BIT != 0
    }

    /// Whether the set asks for a depth buffer.
    pub open spec fn has_depth(&self) -> bool {
        self.bits & DEPTH_BIT != 0
    }

    /// Whether the set asks for a stencil buffer.
    pub open spec fn has_stencil(&self) -> bool {
        self.bits & STENCIL_BIT != 0
    }

    /// Whether the set asks for a compatibility profile.
    pub open spec fn has_compatibility_profile(&self) -> bool {
        self.bits & COMPATIBILITY_PROFILE_BIT != 0
    }

    /// The set that holds exactly the capabilities that are switched on.
    pub open spec fn spec_of(
        alpha: bool,
        depth: bool,
        stencil: bool,
        compatibility_profile: bool,
    ) -> ContextAttributeFlags {
        ContextAttributeFlags {
            bits: spec_switch(alpha, ALPHA_BIT) | spec_switch(depth, DEPTH_BIT) | spec_switch(
                stencil,
                STENCIL_BIT,
            ) | spec_switch(compatibility_profile, COMPATIBILITY_PROFILE_BIT),
        }
    }

    pub fn empty() -> (flags: ContextAttributeFlags)
        ensures
            flags.bits == 0,
    {
        ContextAttributeFlags { bits: 0 }
    }

    pub fn alpha() -> (flags: ContextAttributeFlags)
        ensures
            flags.bits == ALPHA_BIT,
    {
        ContextAttributeFlags { bits: ALPHA_BIT }
    }

    pub fn depth() -> (flags: ContextAttributeFlags)
        ensures
            flags.bits == DEPTH_BIT,
    {
        ContextAttributeFlags { bits: DEPTH_BIT }
    }

    pub fn stencil() -> (flags: ContextAttributeFlags)
        ensures
            flags.bits == STENCIL_BIT,
    {
        ContextAttributeFlags { bits: STENCIL_BIT }
    }

    pub fn compatibility_profile() -> (flags: ContextAttributeFlags)
        ensures
            flags.bits == COMPATIBILITY_PROFILE_BIT,
    {
        ContextAttributeFlags { bits: COMPATIBILITY_PROFILE_BIT }
    }

    /// The capabilities of either set.
    pub fn union(self, other: ContextAttributeFlags) -> (flags: ContextAttributeFlags)
        ensures
            flags.bits == self.bits | other.bits,
    {
        ContextAttributeFlags { bits: self.bits | other.bits }
    }

    /// The set that holds exactly the capabilities that are switched on.
    pub fn of(alpha: bool, depth: bool, stencil: bool, compatibility_profile: bool) -> (flags:
        ContextAttributeFlags)
        ensures
            flags == ContextAttributeFlags::spec_of(alpha, depth, stencil, compatibility_profile),
            flags.has_alpha() == alpha,
            flags.has_depth() == depth,
            flags.has_stencil() == stencil,
            flags.has_compatibility_profile() == compatibility_profile,
    {
        let a: u8 = if alpha { ALPHA_BIT } else { 0 };
        let d: u8 = if depth { DEPTH_BIT } else { 0 };
        let s: u8 = if stencil { STENCIL_BIT } else { 0 };
        let c: u8 = if compatibility_profile { COMPATIBILITY_PROFILE_BIT } else { 0 };
        assert((a == 0 || a == 1) && (d == 0 || d == 2) && (s == 0 || s == 4) && (c == 0 || c == 8)
            ==> ((a | d | s | c) & 0x01 != 0) == (a == 1)
            && ((a | d | s | c) & 0x02 != 0) == (d == 2)
            && ((a | d | s | c) & 0x04 != 0) == (s == 4)
            && ((a | d | s | c) & 0x08 != 0) == (c == 8)) by (bit_vector);
        ContextAttributeFlags { bits: a | d | s | c }
    }

    #[verifier::when_used_as_spec(spec_contains)]
    pub fn contains(&self, other: ContextAttributeFlags) -> (contained: bool)
        ensures
            contained == self.spec_contains(other),
    {
        self.bits & other.bits == other.bits
    }
}

/// A set contains a single capability exactly when it has that capability, and
/// depth and stencil together exactly when it has both.
pub proof fn lemma_contains(flags: ContextAttributeFlags)
    ensures
        flags.spec_contains(ContextAttributeFlags { bits: ALPHA_BIT }) == flags.has_alpha(),
        flags.spec_contains(ContextAttributeFlags { bits: DEPTH_BIT }) == flags.has_depth(),
        flags.spec_contains(ContextAttributeFlags { bits: STENCIL_BIT }) == flags.has_stencil(),
        flags.spec_contains(ContextAttributeFlags { bits: COMPATIBILITY_PROFILE_BIT })
            == flags.has_compatibility_profile(),
        flags.spec_contains(ContextAttributeFlags { bits: DEPTH_BIT | STENCIL_BIT }) == (
        flags.has_depth() && flags.has_stencil()),
{
    let bits = flags.bits;
    assert((bits & 0x01 == 0x01) == (bits & 0x01 != 0)) by (bit_vector);
    assert((bits & 0x02 == 0x02) == (bits & 0x02 != 0)) by (bit_vector);
    assert((bits & 0x04 == 0x04) == (bits & 0x04 != 0)) by (bit_vector);
    assert((bits & 0x08 == 0x08) == (bits & 0x08 != 0)) by (bit_vector);
    assert((bits & 0x06 == 0x06) == (bits & 0x02 != 0 && bits & 0x04 != 0)) by (bit_vector);
    assert(DEPTH_BIT | STENCIL_BIT == 0x06) by (bit_vector);
}

/// The source of context identities: a counter that hands out each value once.
///
/// One allocator serves every device of the process, behind a lock that is held
/// while a context is created.
#[derive(Debug)]
pub struct ContextIdAllocator {
    next: ContextID,
}

impl ContextIdAllocator {
    /// The identity that the next context will get.
    pub closed spec fn next_id(&self) -> ContextID {
        self.next
    }

    /// Whether `id` was handed out by this allocator.
    pub open spec fn has_issued(&self, id: ContextID) -> bool {
        id.0 < self.next_id().0
    }

    /// Whether the counter has reached the last value of its range.
    pub open spec fn spec_is_exhausted(&self) -> bool {
        self.next_id().0 == u64::MAX
    }

    /// An allocator that has issued nothing.
    pub fn new() -> (allocator: ContextIdAllocator)
        ensures
            allocator.next_id() == ContextID(0),
    {
        ContextIdAllocator { next: ContextID(0) }
    }

    #[verifier::when_used_as_spec(spec_is_exhausted)]
    pub fn is_exhausted(&self) -> (exhausted: bool)
        ensures
            exhausted == self.spec_is_exhausted(),
    {
        self.next.0 == u64::MAX
    }

    /// Hands out the next identity.
    pub fn allocate(&mut self) -> (id: ContextID)
        requires
            !old(self).spec_is_exhausted(),
        ensures
            id == old(self).next_id(),
            final(self).next_id() == ContextID((old(self).next_id().0 + 1) as u64),
            !old(self).has_issued(id),
            final(self).has_issued(id),
    {
        let id = self.next;
        self.next = ContextID(id.0 + 1);
        id
    }
}

} // verus!
