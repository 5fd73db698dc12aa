//! What a code generator owes: the text of a translated compilation unit.
use vstd::prelude::*;

use crate::backend::{ItemView, AST};

pub mod lua;

verus! {

/// Why a generator produced no text.
#[derive(Debug, Clone, Copy, PartialEq, Eq, Structural)]
pub enum CodegenError {
    /// A node that the generator has no rendering rule for. It stands for a
    /// broken promise of the generator, not for a bad input.
    RenderingGap,
}

/// A generator of target text.
pub trait CodeGenerator: Sized {
    /// The text that the generator renders the nodes as, or the error it
    /// gives up with.
    spec fn rendering(&self, items: Seq<ItemView>) -> Result<Seq<char>, CodegenError>;

    /// Renders a translated compilation unit as one text.
    fn generate<A: AST>(&self, ast: &A) -> (r: Result<String, CodegenError>)
        ensures
            match r {
                Ok(code) => self.rendering(ast.nodes()) == Ok::<Seq<char>, CodegenError>(code@),
                Err(e) => self.rendering(ast.nodes()) == Err::<Seq<char>, CodegenError>(e),
            },
    ;
}

} // verus!
