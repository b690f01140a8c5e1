//! A compiler for the Alexandria Common Shader Language: one source text
//! with a vertex and a fragment entry point is compiled to an HLSL unit
//! and to a pair of GLSL units.

use vstd::prelude::*;
use vstd::std_specs::convert::FromSpecImpl;
use vstd::string::*;

pub mod annotated;
pub mod ast;
pub mod decimal;
pub mod lexer;
pub mod model;
pub mod parser;
pub mod stream;
pub mod text;
pub mod tokens;
pub mod types;

verus! {

/// Why a source text was not compiled.
#[derive(Debug)]
pub enum CompilationError {
    ParserError(parser::ParserError),
    SemanticAnalysisError(ast::SemanticAnalysisError),
}

/// The model of a [`CompilationError`].
pub enum CompilationErrorView {
    ParserError(parser::ParserErrorView),
    SemanticAnalysisError(ast::SemanticAnalysisErrorView),
}

impl DeepView for CompilationError {
    type V = CompilationErrorView;

    open spec fn deep_view(&self) -> CompilationErrorView {
        match self {
            CompilationError::ParserError(error) => CompilationErrorView::ParserError(error@),
            CompilationError::SemanticAnalysisError(error) => CompilationErrorView::SemanticAnalysisError(
                error@,
            ),
        }
    }
}

impl View for CompilationError {
    type V = CompilationErrorView;

    open spec fn view(&self) -> CompilationErrorView {
        self.deep_view()
    }
}

impl CompilationErrorView {
    /// The diagnostic for this error.
    pub open spec fn display(self) -> Seq<char> {
        match self {
            CompilationErrorView::ParserError(error) => error.display(),
            CompilationErrorView::SemanticAnalysisError(error) => error.display(),
        }
    }
}

impl CompilationError {
    /// The diagnostic for this error.
    pub fn to_string(&self) -> (text: String)
        ensures
            text@ == self@.display(),
    {
        match self {
            CompilationError::ParserError(error) => error.to_string(),
            CompilationError::SemanticAnalysisError(error) => error.to_string(),
        }
    }
}

impl From<parser::ParserError> for CompilationError {
    fn from(error: parser::ParserError) -> (wrapped: Self) {
        CompilationError::ParserError(error)
    }
}

impl FromSpecImpl<parser::ParserError> for CompilationError {
    open spec fn obeys_from_spec() -> bool {
        true
    }

    open spec fn from_spec(error: parser::ParserError) -> Self {
        CompilationError::ParserError(error)
    }
}

impl From<ast::SemanticAnalysisError> for CompilationError {
    fn from(error: ast::SemanticAnalysisError) -> (wrapped: Self) {
        CompilationError::SemanticAnalysisError(error)
    }
}

impl FromSpecImpl<ast::SemanticAnalysisError> for CompilationError {
    open spec fn obeys_from_spec() -> bool {
        true
    }

    open spec fn from_spec(error: ast::SemanticAnalysisError) -> Self {
        CompilationError::SemanticAnalysisError(error)
    }
}

/// The annotated tree of a source text: the text is parsed and the syntax
/// tree analysed; the first error of either stage is the result.
pub open spec fn compile_source(source: Seq<char>) -> Result<annotated::TreeView, CompilationErrorView> {
    match parser::parse_source(source) {
        Err(error) => Err(CompilationErrorView::ParserError(error)),
        Ok(tree) => match tree.analyse() {
            Err(error) => Err(CompilationErrorView::SemanticAnalysisError(error)),
            Ok(annotated) => Ok(annotated),
        },
    }
}

/// The HLSL unit of a source text.
pub open spec fn hlsl_of(source: Seq<char>) -> Result<Seq<char>, CompilationErrorView> {
    match compile_source(source) {
        Err(error) => Err(error),
        Ok(tree) => Ok(tree.hlsl()),
    }
}

/// The GLSL units of a source text: the vertex unit and the fragment unit.
pub open spec fn glsl_of(source: Seq<char>) -> Result<(Seq<char>, Seq<char>), CompilationErrorView> {
    match compile_source(source) {
        Err(error) => Err(error),
        Ok(tree) => Ok((tree.glsl_vertex(), tree.glsl_fragment())),
    }
}

/// Parses and analyses a source text. A tree that comes out keeps the
/// invariant of annotated trees and has both entry points.
pub fn compile(code: &str) -> (r: Result<annotated::AnnotatedSyntaxTree, CompilationError>)
    ensures
        model::result_model(r) == compile_source(code@),
        r matches Ok(tree) ==> tree@.well_formed() && tree@.complete(),
{
    let ast = match parser::parse(code) {
        Ok(ast) => ast,
        Err(error) => {
            return Err(CompilationError::ParserError(error));
        },
    };
    match ast.semantic_analysis() {
        Ok(annotated_ast) => Ok(annotated_ast),
        Err(error) => Err(CompilationError::SemanticAnalysisError(error)),
    }
}

/// Compiles a source text to HLSL.
pub fn compile_hlsl(code: &str) -> (r: Result<String, CompilationError>)
    ensures
        model::result_model(r) == hlsl_of(code@),
{
    match compile(code) {
        Ok(ast) => Ok(ast.generate_hlsl()),
        Err(error) => Err(error),
    }
}

/// Compiles a source text to GLSL: the vertex unit and the fragment unit.
pub fn compile_glsl(code: &str) -> (r: Result<(String, String), CompilationError>)
    ensures
        model::result_model(r) == glsl_of(code@),
{
    match compile(code) {
        Ok(ast) => Ok(ast.generate_glsl()),
        Err(error) => Err(error),
    }
}

/// Compilation is a function of the source text: the results of two runs
/// on one text hold the same units, byte for byte, or the same error.
pub proof fn emission_is_deterministic(
    source: Seq<char>,
    first_hlsl: Result<String, CompilationError>,
    second_hlsl: Result<String, CompilationError>,
    first_glsl: Result<(String, String), CompilationError>,
    second_glsl: Result<(String, String), CompilationError>,
)
    requires
        model::result_model(first_hlsl) == hlsl_of(source),
        model::result_model(second_hlsl) == hlsl_of(source),
        model::result_model(first_glsl) == glsl_of(source),
        model::result_model(second_glsl) == glsl_of(source),
    ensures
        model::result_model(first_hlsl) == model::result_model(second_hlsl),
        model::result_model(first_glsl) == model::result_model(second_glsl),
{
}

/// The tree of a source text that compiles keeps the invariant of annotated
/// trees, holds the structs of its signatures under their handles, has its
/// structs and textures in order and no name with a reserved prefix, and has
/// both entry points, which meet their contract: `vertex_main` takes a
/// struct with semantics and returns the struct that `fragment_main` takes,
/// which has a member with the semantic `SV_POSITION`, and `fragment_main`
/// returns `float4`. Its declarations are written out in source order,
/// without the aliases.
pub proof fn compiled_program_is_well_formed(source: Seq<char>)
    requires
        compile_source(source) is Ok,
    ensures
        compile_source(source)->Ok_0.well_formed(),
        compile_source(source)->Ok_0.signatures_are_interned(),
        compile_source(source)->Ok_0.resources_are_in_order(),
        compile_source(source)->Ok_0.locals_are_allowed(),
        compile_source(source)->Ok_0.complete(),
        compile_source(source)->Ok_0.written() == ast::labels(
            parser::parse_source(source)->Ok_0.declarations,
            0,
        ),
{
    ast::declaration_order_is_preserved(parser::parse_source(source)->Ok_0);
}

} // verus!
