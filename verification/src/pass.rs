//! What every pass owes the renderer.

use crate::mesh::Mesh;
use crate::pipe::{Effect, EffectBuilder, Encoder, GpuError};
use vstd::prelude::*;

verus! {

/// A draw strategy: compiled once, then applied once per frame.
///
/// `D` is what the pass reads from the scene for one frame, and `E` is how a
/// frame can fail.
pub trait Pass<D, E> {
    /// True once the pass holds the static resources it draws with.
    spec fn is_ready(&self) -> bool;

    /// Takes the static geometry of the pass, uploaded by the host, and
    /// describes the pipeline to build.
    ///
    /// A failed upload is handed on and enables nothing: the pass is as
    /// ready as it was. A successful one makes the pass ready.
    fn compile(&mut self, mesh: Result<Mesh, GpuError>) -> (r: Result<EffectBuilder, GpuError>)
        ensures
            mesh matches Err(e) ==> r == Err::<EffectBuilder, GpuError>(e) && final(self).is_ready()
                == old(self).is_ready(),
            mesh is Ok ==> r is Ok && final(self).is_ready(),
    ;

    /// Records the draws of one frame.
    ///
    /// Whatever the frame comes to, the commands recorded before are still
    /// there, the program and the slots of the pipeline are untouched, and a
    /// pipeline that came in with nothing bound goes out with nothing bound.
    fn apply(&self, encoder: &mut Encoder, effect: &mut Effect, data: D) -> (r: Result<(), E>)
        ensures
            old(encoder)@.is_prefix_of(final(encoder)@),
            final(effect).program == old(effect).program,
            final(effect).layout == old(effect).layout,
            old(effect).data.is_clear() ==> final(effect).data.is_clear(),
    ;
}

} // verus!
