//! A translator from a Rust-like source language to Lua.
//!
//! A front end hands over a syntax tree ([`syntax`]). The translator
//! ([`backend::syn`]) turns it into a small intermediate representation
//! ([`backend`]), as the rules in [`backend::rules`] say, and the generator
//! ([`gen::lua`]) renders that as Lua text, as the rules in
//! [`gen::lua::rules`] say. [`transpile`] does both. A failure ends the whole
//! compilation unit: there is no partial text.
use vstd::prelude::*;

use crate::backend::rules::translate_file;
use crate::backend::syn::SynBackend;
use crate::backend::{BackendError, AST};
use crate::gen::lua::rules::render_all;
use crate::gen::lua::LuaCodegen;
use crate::gen::{CodeGenerator, CodegenError};
use crate::syntax::{SourceFile, SourceFileView};

pub mod backend;
pub mod gen;
pub mod syntax;
pub mod text;

verus! {

/// Why a compilation unit gave no text.
#[derive(Debug, Clone, Copy, PartialEq, Eq, Structural)]
pub enum TranspileError {
    /// The translation failed.
    Backend(BackendError),
    /// The generation failed.
    Codegen(CodegenError),
}

/// The Lua text of a compilation unit: the text of its translation, or the
/// error that ended the translation. There is no partial text.
pub open spec fn transpiled(source: SourceFileView) -> Result<Seq<char>, TranspileError> {
    match translate_file(source) {
        Ok(items) => Ok(render_all(items)),
        Err(e) => Err(TranspileError::Backend(e)),
    }
}

/// The model of an outcome of `transpile`.
pub open spec fn code_result(r: Result<String, TranspileError>) -> Result<
    Seq<char>,
    TranspileError,
> {
    match r {
        Ok(code) => Ok(code@),
        Err(e) => Err(e),
    }
}

/// Translates a compilation unit and renders it as Lua text.
pub fn transpile(source: &SourceFile) -> (r: Result<String, TranspileError>)
    ensures
        code_result(r) == transpiled(source@),
{
    match SynBackend::generate(source) {
        Err(e) => Err(TranspileError::Backend(e)),
        Ok(ast) => match LuaCodegen::new().generate(&ast) {
            Ok(code) => Ok(code),
            Err(e) => Err(TranspileError::Codegen(e)),
        },
    }
}

/// The outcome is a function of what the source holds: two runs on
/// compilation units that hold the same end in the same error, or in texts
/// that agree character by character.
pub proof fn lemma_transpile_is_deterministic(
    first_source: SourceFile,
    second_source: SourceFile,
    first: Result<String, TranspileError>,
    second: Result<String, TranspileError>,
)
    requires
        first_source@ == second_source@,
        code_result(first) == transpiled(first_source@),
        code_result(second) == transpiled(second_source@),
    ensures
        code_result(first) == code_result(second),
        first is Ok ==> second is Ok && first->Ok_0@ == second->Ok_0@,
        first is Err ==> second is Err && first->Err_0 == second->Err_0,
{
}

} // verus!
