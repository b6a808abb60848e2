//! Depth and stencil renderbuffers for surfaces that are wrapped in a framebuffer object.

use crate::context::{lemma_contains, ContextAttributeFlags, ContextAttributes};
use crate::gl;
use crate::gl::{GLenum, GLuint};
use crate::native::{NativeCall, NativeReply, Step};
use crate::surface::Size2D;
use vstd::prelude::*;

verus! {

/// The renderbuffers behind a framebuffer object. A zero name stands for no
/// renderbuffer. A set must be destroyed before it is dropped.
#[derive(PartialEq, Eq, Debug, Structural)]
pub enum Renderbuffers {
    IndividualDepthStencil { depth: GLuint, stencil: GLuint },
    CombinedDepthStencil(GLuint),
}

/// What a renderbuffer is allocated for.
#[derive(Clone, Copy, PartialEq, Eq, Debug, Structural)]
pub enum Attachment {
    DepthStencil,
    Depth,
    Stencil,
}

/// An allocation of renderbuffers that is under way.
#[derive(PartialEq, Eq, Debug, Structural)]
pub enum AllocatingRenderbuffers {
    /// A name for the renderbuffer is being generated.
    Generating { size: Size2D, attachment: Attachment },
    /// The renderbuffer is being bound.
    Binding { size: Size2D, attachment: Attachment, renderbuffer: GLuint },
    /// Storage for the renderbuffer is being allocated.
    Storing { attachment: Attachment, renderbuffer: GLuint },
    /// The binding point is being cleared; the set is handed over after that.
    Unbinding { renderbuffers: Renderbuffers },
}

/// Where an allocation stands, or the set it ended with.
pub type AllocationStep = Step<AllocatingRenderbuffers, Renderbuffers>;

impl Attachment {
    /// The storage format of the attachment.
    pub open spec fn spec_internal_format(self) -> GLenum {
        match self {
            Attachment::DepthStencil => gl::DEPTH24_STENCIL8,
            Attachment::Depth => gl::DEPTH_COMPONENT24,
            Attachment::Stencil => gl::STENCIL_INDEX8,
        }
    }

    /// The set that holds `renderbuffer` for this attachment and nothing else.
    pub open spec fn spec_holding(self, renderbuffer: GLuint) -> Renderbuffers {
        match self {
            Attachment::DepthStencil => Renderbuffers::CombinedDepthStencil(renderbuffer),
            Attachment::Depth => Renderbuffers::IndividualDepthStencil {
                depth: renderbuffer,
                stencil: 0,
            },
            Attachment::Stencil => Renderbuffers::IndividualDepthStencil {
                depth: 0,
                stencil: renderbuffer,
            },
        }
    }

    #[verifier::when_used_as_spec(spec_internal_format)]
    pub fn internal_format(self) -> (format: GLenum)
        ensures
            format == self.spec_internal_format(),
    {
        match self {
            Attachment::DepthStencil => gl::DEPTH24_STENCIL8,
            Attachment::Depth => gl::DEPTH_COMPONENT24,
            Attachment::Stencil => gl::STENCIL_INDEX8,
        }
    }

    #[verifier::when_used_as_spec(spec_holding)]
    pub fn holding(self, renderbuffer: GLuint) -> (renderbuffers: Renderbuffers)
        ensures
            renderbuffers == self.spec_holding(renderbuffer),
    {
        match self {
            Attachment::DepthStencil => Renderbuffers::CombinedDepthStencil(renderbuffer),
            Attachment::Depth => Renderbuffers::IndividualDepthStencil {
                depth: renderbuffer,
                stencil: 0,
            },
            Attachment::Stencil => Renderbuffers::IndividualDepthStencil {
                depth: 0,
                stencil: renderbuffer,
            },
        }
    }
}

impl AllocatingRenderbuffers {
    /// The allocation after the pending call was answered with `reply`.
    pub open spec fn spec_resume(self, reply: NativeReply) -> AllocationStep {
        match self {
            AllocatingRenderbuffers::Generating { size, attachment } => Step::Call(
                NativeCall::BindRenderbuffer {
                    target: gl::RENDERBUFFER,
                    renderbuffer: reply.spec_name(),
                },
                AllocatingRenderbuffers::Binding {
                    size,
                    attachment,
                    renderbuffer: reply.spec_name(),
                },
            ),
            AllocatingRenderbuffers::Binding { size, attachment, renderbuffer } => Step::Call(
                NativeCall::RenderbufferStorage {
                    target: gl::RENDERBUFFER,
                    internal_format: attachment.spec_internal_format(),
                    width: size.width,
                    height: size.height,
                },
                AllocatingRenderbuffers::Storing { attachment, renderbuffer },
            ),
            AllocatingRenderbuffers::Storing { attachment, renderbuffer } => Step::Call(
                NativeCall::BindRenderbuffer { target: gl::RENDERBUFFER, renderbuffer: 0 },
                AllocatingRenderbuffers::Unbinding {
                    renderbuffers: attachment.spec_holding(renderbuffer),
                },
            ),
            AllocatingRenderbuffers::Unbinding { renderbuffers } => Step::Done(renderbuffers),
        }
    }

    /// The calls that an allocation makes from `step` on while they are answered
    /// with `replies`, one after the other, and where the allocation stands then.
    pub open spec fn spec_run(step: AllocationStep, replies: Seq<NativeReply>) -> (
        Seq<NativeCall>,
        AllocationStep,
    )
        decreases replies.len(),
    {
        match step {
            Step::Call(call, state) => if replies.len() == 0 {
                (seq![call], step)
            } else {
                let (calls, last) = AllocatingRenderbuffers::spec_run(
                    state.spec_resume(replies[0]),
                    replies.drop_first(),
                );
                (seq![call] + calls, last)
            },
            Step::Done(_) => (Seq::empty(), step),
        }
    }

    /// Takes the reply to the pending call and names the next call: the
    /// renderbuffer whose name was generated is bound, then given storage of the
    /// surface's size, then the binding point is cleared. After that the set is
    /// handed over.
    pub fn resume(self, reply: NativeReply) -> (step: AllocationStep)
        ensures
            step == self.spec_resume(reply),
    {
        match self {
            AllocatingRenderbuffers::Generating { size, attachment } => {
                let renderbuffer = reply.name();
                Step::Call(
                    NativeCall::BindRenderbuffer { target: gl::RENDERBUFFER, renderbuffer },
                    AllocatingRenderbuffers::Binding { size, attachment, renderbuffer },
                )
            },
            AllocatingRenderbuffers::Binding { size, attachment, renderbuffer } => Step::Call(
                NativeCall::RenderbufferStorage {
                    target: gl::RENDERBUFFER,
                    internal_format: attachment.internal_format(),
                    width: size.width,
                    height: size.height,
                },
                AllocatingRenderbuffers::Storing { attachment, renderbuffer },
            ),
            AllocatingRenderbuffers::Storing { attachment, renderbuffer } => Step::Call(
                NativeCall::BindRenderbuffer { target: gl::RENDERBUFFER, renderbuffer: 0 },
                AllocatingRenderbuffers::Unbinding {
                    renderbuffers: attachment.holding(renderbuffer),
                },
            ),
            AllocatingRenderbuffers::Unbinding { renderbuffers } => Step::Done(renderbuffers),
        }
    }
}

impl Renderbuffers {
    /// What gets a renderbuffer, if anything does: depth and stencil together
    /// where both are requested, else the one that is.
    pub open spec fn spec_attachment(flags: ContextAttributeFlags) -> Option<Attachment> {
        if flags.has_depth() && flags.has_stencil() {
            Some(Attachment::DepthStencil)
        } else if flags.has_depth() {
            Some(Attachment::Depth)
        } else if flags.has_stencil() {
            Some(Attachment::Stencil)
        } else {
            None
        }
    }

    /// The first step of an allocation for a surface of `size`.
    pub open spec fn spec_new(size: Size2D, flags: ContextAttributeFlags) -> AllocationStep {
        match Renderbuffers::spec_attachment(flags) {
            Some(attachment) => Step::Call(
                NativeCall::GenRenderbuffer,
                AllocatingRenderbuffers::Generating { size, attachment },
            ),
            None => Step::Call(
                NativeCall::BindRenderbuffer { target: gl::RENDERBUFFER, renderbuffer: 0 },
                AllocatingRenderbuffers::Unbinding {
                    renderbuffers: Renderbuffers::IndividualDepthStencil { depth: 0, stencil: 0 },
                },
            ),
        }
    }

    /// The calls of a whole allocation, where `name` is the name that the native
    /// side generates: the renderbuffer is generated, bound and given storage of
    /// the surface's size, and the binding point is cleared last. With nothing
    /// requested only the binding point is cleared.
    pub open spec fn spec_allocation_calls(
        size: Size2D,
        flags: ContextAttributeFlags,
        name: GLuint,
    ) -> Seq<NativeCall> {
        let unbind = NativeCall::BindRenderbuffer { target: gl::RENDERBUFFER, renderbuffer: 0 };
        match Renderbuffers::spec_attachment(flags) {
            Some(attachment) => seq![
                NativeCall::GenRenderbuffer,
                NativeCall::BindRenderbuffer { target: gl::RENDERBUFFER, renderbuffer: name },
                NativeCall::RenderbufferStorage {
                    target: gl::RENDERBUFFER,
                    internal_format: attachment.spec_internal_format(),
                    width: size.width,
                    height: size.height,
                },
                unbind,
            ],
            None => seq![unbind],
        }
    }

    /// The set that a whole allocation yields, where `name` is the name that the
    /// native side generates: it holds the name in the place of what was
    /// requested and the null name elsewhere.
    pub open spec fn spec_allocated(flags: ContextAttributeFlags, name: GLuint) -> Renderbuffers {
        match Renderbuffers::spec_attachment(flags) {
            Some(attachment) => attachment.spec_holding(name),
            None => Renderbuffers::IndividualDepthStencil { depth: 0, stencil: 0 },
        }
    }

    /// The set with every name cleared.
    pub open spec fn spec_cleared(&self) -> Renderbuffers {
        match *self {
            Renderbuffers::CombinedDepthStencil(_) => Renderbuffers::CombinedDepthStencil(0),
            Renderbuffers::IndividualDepthStencil { .. } => Renderbuffers::IndividualDepthStencil {
                depth: 0,
                stencil: 0,
            },
        }
    }

    /// Whether the set holds no renderbuffer, so that dropping it leaks nothing.
    pub open spec fn spec_is_destroyed(&self) -> bool {
        match *self {
            Renderbuffers::CombinedDepthStencil(renderbuffer) => renderbuffer == 0,
            Renderbuffers::IndividualDepthStencil { depth, stencil } => depth == 0 && stencil == 0,
        }
    }

    /// The call that attaches `renderbuffer` at `attachment`, or none for the
    /// null name.
    pub open spec fn spec_attach_call(attachment: GLenum, renderbuffer: GLuint) -> Seq<NativeCall> {
        if renderbuffer != 0 {
            seq![
                NativeCall::FramebufferRenderbuffer {
                    target: gl::FRAMEBUFFER,
                    attachment,
                    renderbuffer_target: gl::RENDERBUFFER,
                    renderbuffer,
                },
            ]
        } else {
            Seq::empty()
        }
    }

    /// The calls that attach the set to the bound framebuffer object: depth
    /// before stencil, nothing for a null name.
    pub open spec fn spec_attach_calls(&self) -> Seq<NativeCall> {
        match *self {
            Renderbuffers::CombinedDepthStencil(renderbuffer) => Renderbuffers::spec_attach_call(
                gl::DEPTH_STENCIL_ATTACHMENT,
                renderbuffer,
            ),
            Renderbuffers::IndividualDepthStencil { depth, stencil } => {
                Renderbuffers::spec_attach_call(gl::DEPTH_ATTACHMENT, depth)
                    + Renderbuffers::spec_attach_call(gl::STENCIL_ATTACHMENT, stencil)
            },
        }
    }

    /// The call that deletes `renderbuffer`, or none for the null name.
    pub open spec fn spec_delete_call(renderbuffer: GLuint) -> Seq<NativeCall> {
        if renderbuffer != 0 {
            seq![NativeCall::DeleteRenderbuffer { renderbuffer }]
        } else {
            Seq::empty()
        }
    }

    /// The calls that destroy the set: the binding point is cleared, then each
    /// renderbuffer that exists is deleted, stencil before depth.
    pub open spec fn spec_destroy_calls(&self) -> Seq<NativeCall> {
        seq![NativeCall::BindRenderbuffer { target: gl::RENDERBUFFER, renderbuffer: 0 }] + (
        match *self {
            Renderbuffers::CombinedDepthStencil(renderbuffer) => Renderbuffers::spec_delete_call(
                renderbuffer,
            ),
            Renderbuffers::IndividualDepthStencil { depth, stencil } => {
                Renderbuffers::spec_delete_call(stencil) + Renderbuffers::spec_delete_call(depth)
            },
        })
    }

    /// Starts the allocation of the renderbuffers that `attributes` asks for, sized
    /// to `size`: one combined renderbuffer where both depth and stencil are
    /// requested, else one for the one of the two that is. The native calls go to
    /// whichever context is current on the calling thread.
    pub fn new(size: &Size2D, attributes: &ContextAttributes) -> (step: AllocationStep)
        ensures
            step == Renderbuffers::spec_new(*size, attributes.flags),
    {
        let flags = attributes.flags;
        proof {
            lemma_contains(flags);
        }
        let depth = ContextAttributeFlags::depth();
        let stencil = ContextAttributeFlags::stencil();
        let attachment = if flags.contains(depth.union(stencil)) {
            Attachment::DepthStencil
        } else if flags.contains(depth) {
            Attachment::Depth
        } else if flags.contains(stencil) {
            Attachment::Stencil
        } else {
            return Step::Call(
                NativeCall::BindRenderbuffer { target: gl::RENDERBUFFER, renderbuffer: 0 },
                AllocatingRenderbuffers::Unbinding {
                    renderbuffers: Renderbuffers::IndividualDepthStencil { depth: 0, stencil: 0 },
                },
            );
        };
        Step::Call(
            NativeCall::GenRenderbuffer,
            AllocatingRenderbuffers::Generating { size: *size, attachment },
        )
    }

    /// Names the calls that attach the renderbuffers to the framebuffer object
    /// that is bound on the calling thread. The caller performs them in order.
    pub fn bind_to_current_framebuffer(&self) -> (calls: Vec<NativeCall>)
        ensures
            calls@ == self.spec_attach_calls(),
    {
        let mut calls: Vec<NativeCall> = Vec::new();
        match *self {
            Renderbuffers::CombinedDepthStencil(renderbuffer) => {
                if renderbuffer != 0 {
                    calls.push(
                        NativeCall::FramebufferRenderbuffer {
                            target: gl::FRAMEBUFFER,
                            attachment: gl::DEPTH_STENCIL_ATTACHMENT,
                            renderbuffer_target: gl::RENDERBUFFER,
                            renderbuffer,
                        },
                    );
                }
            },
            Renderbuffers::IndividualDepthStencil { depth, stencil } => {
                if depth != 0 {
                    calls.push(
                        NativeCall::FramebufferRenderbuffer {
                            target: gl::FRAMEBUFFER,
                            attachment: gl::DEPTH_ATTACHMENT,
                            renderbuffer_target: gl::RENDERBUFFER,
                            renderbuffer: depth,
                        },
                    );
                }
                if stencil != 0 {
                    calls.push(
                        NativeCall::FramebufferRenderbuffer {
                            target: gl::FRAMEBUFFER,
                            attachment: gl::STENCIL_ATTACHMENT,
                            renderbuffer_target: gl::RENDERBUFFER,
                            renderbuffer: stencil,
                        },
                    );
                }
            },
        }
        assert(calls@ =~= self.spec_attach_calls());
        calls
    }

    /// Clears every name and names the calls that release the renderbuffers the
    /// set held. The caller performs them in order. On a set that holds nothing
    /// only the binding point is cleared.
    pub fn destroy(&mut self) -> (calls: Vec<NativeCall>)
        ensures
            calls@ == old(self).spec_destroy_calls(),
            *final(self) == old(self).spec_cleared(),
            final(self).spec_is_destroyed(),
    {
        let mut calls: Vec<NativeCall> = Vec::new();
        calls.push(NativeCall::BindRenderbuffer { target: gl::RENDERBUFFER, renderbuffer: 0 });
        match *self {
            Renderbuffers::CombinedDepthStencil(renderbuffer) => {
                if renderbuffer != 0 {
                    calls.push(NativeCall::DeleteRenderbuffer { renderbuffer });
                }
                *self = Renderbuffers::CombinedDepthStencil(0);
            },
            Renderbuffers::IndividualDepthStencil { depth, stencil } => {
                if stencil != 0 {
                    calls.push(NativeCall::DeleteRenderbuffer { renderbuffer: stencil });
                }
                if depth != 0 {
                    calls.push(NativeCall::DeleteRenderbuffer { renderbuffer: depth });
                }
                *self = Renderbuffers::IndividualDepthStencil { depth: 0, stencil: 0 };
            },
        }
        assert(calls@ =~= old(self).spec_destroy_calls());
        calls
    }

    /// Clears every name without releasing anything: whoever took over the
    /// renderbuffers is responsible for them from now on.
    pub fn leak(&mut self)
        ensures
            *final(self) == old(self).spec_cleared(),
            final(self).spec_is_destroyed(),
    {
        match *self {
            Renderbuffers::CombinedDepthStencil(_) => {
                *self = Renderbuffers::CombinedDepthStencil(0);
            },
            Renderbuffers::IndividualDepthStencil { .. } => {
                *self = Renderbuffers::IndividualDepthStencil { depth: 0, stencil: 0 };
            },
        }
    }

    /// Whether the set may be dropped. Dropping a set that still holds a
    /// renderbuffer is a programming error that the owner must treat as fatal.
    #[verifier::when_used_as_spec(spec_is_destroyed)]
    pub fn is_destroyed(&self) -> (destroyed: bool)
        ensures
            destroyed == self.spec_is_destroyed(),
    {
        match *self {
            Renderbuffers::IndividualDepthStencil { depth: 0, stencil: 0 }
            | Renderbuffers::CombinedDepthStencil(0) => true,
            _ => false,
        }
    }
}

} // verus!
