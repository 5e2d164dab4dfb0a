//! The boundary towards the excluded rendering engine: build one tree
//! node from a read-only snapshot of a component's state.
//!
//! A renderer is pure: the node it builds is a function of the state
//! snapshot alone. When no snapshot is available — the state is held by an
//! in-flight mutation — the build substitutes the renderer's placeholder
//! node instead of blocking.

use vstd::prelude::*;

use crate::component::Entity;

verus! {

/// Builds a tree node for the external rendering engine from a read-only
/// state snapshot.
pub trait Renderer {
    /// The state type this renderer reads.
    type Target;

    /// The state type whose messages the built nodes would dispatch.
    type Data;

    /// The tree-node value handed to the rendering engine.
    type Node;

    /// The node built from one state snapshot.
    spec fn node_of(&self, target: Self::Target) -> Self::Node;

    /// The empty node substituted when no snapshot is available.
    spec fn placeholder_of(&self) -> Self::Node;

    /// Build the node for one state snapshot.
    fn view(&self, target: &Self::Target) -> (n: Self::Node)
        ensures
            n == self.node_of(*target),
    ;

    /// Build the placeholder node.
    fn placeholder(&self) -> (n: Self::Node)
        ensures
            n == self.placeholder_of(),
    ;
}

/// A renderer whose nodes dispatch to the very state they were built
/// from.
pub trait ContextRenderer<A> {

}

impl<A, T> ContextRenderer<A> for T where T: Renderer<Target = A, Data = A> {

}

/// The build contract: given a snapshot of the current state, build its
/// node; given none — the state is held by an in-flight mutation — return
/// the placeholder at once rather than block.
pub fn build_node<R: Renderer>(renderer: &R, target: Option<&R::Target>) -> (n: R::Node)
    ensures
        match target {
            Some(t) => n == renderer.node_of(*t),
            None => n == renderer.placeholder_of(),
        },
{
    match target {
        Some(t) => renderer.view(t),
        None => renderer.placeholder(),
    }
}

impl<T, M, C> Entity<T, M, C> {
    /// Build this entity's node from its current state. Stepping the
    /// loops and building nodes alternate on one cooperative scheduler,
    /// so the state is never mid-mutation here.
    pub fn render<R: Renderer<Target = T>>(&self, renderer: &R) -> (n: R::Node)
        ensures
            n == renderer.node_of(self@.data),
    {
        renderer.view(&self.data)
    }
}

} // verus!
