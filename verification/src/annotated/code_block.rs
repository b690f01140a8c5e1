//! Typed code blocks.

use crate::model::{concat, concat_push, indentation, push_indentation};
use super::statement::{Statement, StatementView};
use vstd::prelude::*;
use vstd::string::*;

verus! {

/// The statements of a function body and the depth at which they are
/// indented.
pub struct CodeBlock {
    indent: usize,
    statements: Vec<Statement>,
}

/// The model of a [`CodeBlock`].
pub struct CodeBlockView {
    pub indent: usize,
    pub statements: Seq<StatementView>,
}

/// Whether the statement defines no variable with a reserved prefix.
pub open spec fn defines_allowed_name(statement: StatementView) -> bool {
    statement matches StatementView::VariableDefinition(name, _, _) ==> !crate::text::is_reserved_name(
        name,
    )
}

impl CodeBlockView {
    /// Whether no variable that the block defines has a name with a reserved
    /// prefix.
    pub open spec fn locals_are_allowed(self) -> bool {
        forall|i: int|
            0 <= i < self.statements.len() ==> defines_allowed_name(#[trigger] self.statements[i])
    }

    /// The indented statements in HLSL, one for each statement.
    pub open spec fn hlsl_lines(self) -> Seq<Seq<char>> {
        Seq::new(
            self.statements.len(),
            |i: int| indentation(self.indent as nat) + self.statements[i].hlsl(),
        )
    }

    /// The indented statements in GLSL, one for each statement.
    pub open spec fn glsl_lines(
        self,
        in_vertex_main: bool,
        in_fragment_main: bool,
        position_output_name: Seq<char>,
    ) -> Seq<Seq<char>> {
        Seq::new(
            self.statements.len(),
            |i: int|
                indentation(self.indent as nat) + self.statements[i].glsl(
                    self.indent as nat,
                    in_vertex_main,
                    in_fragment_main,
                    position_output_name,
                ),
        )
    }

    /// The block in HLSL: the statements between braces.
    pub open spec fn hlsl(self) -> Seq<char> {
        "{\n"@ + concat(self.hlsl_lines()) + "}\n"@
    }

    /// The statements of the block in GLSL, without braces.
    pub open spec fn glsl(
        self,
        in_vertex_main: bool,
        in_fragment_main: bool,
        position_output_name: Seq<char>,
    ) -> Seq<char> {
        concat(self.glsl_lines(in_vertex_main, in_fragment_main, position_output_name))
    }
}

impl CodeBlock {
    /// The model of this block.
    pub closed spec fn model(&self) -> CodeBlockView {
        CodeBlockView { indent: self.indent, statements: self.statements.deep_view() }
    }

    pub fn new(indent: usize, statements: Vec<Statement>) -> (block: Self)
        ensures
            block@ == (CodeBlockView { indent, statements: statements.deep_view() }),
    {
        CodeBlock { indent, statements }
    }

    /// The block in HLSL.
    pub fn hlsl(&self) -> (text: String)
        ensures
            text@ == self@.hlsl(),
    {
        let mut hlsl = "{\n".to_owned();
        let ghost lines = self@.hlsl_lines();
        let mut i: usize = 0;
        assert(lines.take(0) =~= Seq::<Seq<char>>::empty());
        assert(hlsl@ =~= "{\n"@ + concat(lines.take(0)));
        while i < self.statements.len()
            invariant
                i <= self.statements.len(),
                lines == self@.hlsl_lines(),
                hlsl@ == "{\n"@ + concat(lines.take(i as int)),
            decreases self.statements.len() - i,
        {
            let ghost before = hlsl@;
            push_indentation(&mut hlsl, self.indent);
            hlsl.append(self.statements[i].hlsl().as_str());
            proof {
                concat_push(lines.take(i as int), lines[i as int]);
                assert(lines.take(i as int).push(lines[i as int]) =~= lines.take(i + 1));
                assert(hlsl@ =~= before + lines[i as int]);
                assert(hlsl@ =~= "{\n"@ + concat(lines.take(i + 1)));
            }
            i += 1;
        }
        assert(lines.take(self.statements.len() as int) =~= lines);
        hlsl.append("}\n");
        hlsl
    }

    /// The statements of the block in GLSL.
    pub fn glsl(&self, in_vertex_main: bool, in_fragment_main: bool, position_output_name: &str) -> (text:
        String)
        ensures
            text@ == self@.glsl(in_vertex_main, in_fragment_main, position_output_name@),
    {
        let mut glsl = String::new();
        let ghost lines = self@.glsl_lines(in_vertex_main, in_fragment_main, position_output_name@);
        let mut i: usize = 0;
        assert(lines.take(0) =~= Seq::<Seq<char>>::empty());
        assert(glsl@ =~= concat(lines.take(0)));
        while i < self.statements.len()
            invariant
                i <= self.statements.len(),
                lines == self@.glsl_lines(in_vertex_main, in_fragment_main, position_output_name@),
                glsl@ == concat(lines.take(i as int)),
            decreases self.statements.len() - i,
        {
            let ghost before = glsl@;
            push_indentation(&mut glsl, self.indent);
            glsl.append(
                self.statements[i].glsl(
                    self.indent,
                    in_vertex_main,
                    in_fragment_main,
                    position_output_name,
                ).as_str(),
            );
            proof {
                concat_push(lines.take(i as int), lines[i as int]);
                assert(lines.take(i as int).push(lines[i as int]) =~= lines.take(i + 1));
                assert(glsl@ =~= before + lines[i as int]);
            }
            i += 1;
        }
        assert(lines.take(self.statements.len() as int) =~= lines);
        glsl
    }
}

impl DeepView for CodeBlock {
    type V = CodeBlockView;

    open spec fn deep_view(&self) -> CodeBlockView {
        self.model()
    }
}

impl View for CodeBlock {
    type V = CodeBlockView;

    open spec fn view(&self) -> CodeBlockView {
        self.model()
    }
}

} // verus!
