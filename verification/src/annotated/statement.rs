//! Typed statements and how the two backends write them.

use crate::model::{concat, concat_push, indentation, push_indentation};
use crate::types::{Type, TypeView};
use super::expression::{Expression, ExpressionView};
use vstd::prelude::*;
use vstd::string::*;

verus! {

/// A statement with the types that semantic analysis found for it.
pub enum Statement {
    /// The value returned and its type.
    Return(Expression, Type),
    Assignment(String, Expression),
    /// The variable, its first value and its type.
    VariableDefinition(String, Expression, Type),
}

/// The model of a [`Statement`].
pub enum StatementView {
    Return(ExpressionView, TypeView),
    Assignment(Seq<char>, ExpressionView),
    VariableDefinition(Seq<char>, ExpressionView, TypeView),
}

/// The lines that hand the members of the value returned by the vertex
/// entry point to the outputs of the vertex stage, one line for each member.
pub open spec fn output_assignments(members: Seq<(Seq<char>, TypeView)>, indent: nat) -> Seq<Seq<char>> {
    Seq::new(
        members.len(),
        |i: int|
            indentation(indent) + "acsl_pixel_input_"@ + members[i].0 + " = acsl_vertex_output."@
                + members[i].0 + ";\n"@,
    )
}

impl StatementView {
    /// The statement in HLSL, on a line of its own.
    pub open spec fn hlsl(self) -> Seq<char> {
        match self {
            StatementView::Return(expression, _) => "return "@ + expression.hlsl() + ";\n"@,
            StatementView::Assignment(name, expression) => name + " = "@ + expression.hlsl() + ";\n"@,
            StatementView::VariableDefinition(name, expression, variable_type) => variable_type.hlsl()
                + " "@ + name + " = "@ + expression.hlsl() + ";\n"@,
        }
    }

    /// The statement in GLSL. In the vertex entry point a `return` stores
    /// the value, hands each of its members to the output of that name,
    /// sets `gl_Position` from the output named `position_output_name` and
    /// returns; in the fragment entry point it sets the fragment colour and
    /// returns. The lines after the first are indented by `indent` levels.
    pub open spec fn glsl(
        self,
        indent: nat,
        in_vertex_main: bool,
        in_fragment_main: bool,
        position_output_name: Seq<char>,
    ) -> Seq<char> {
        match self {
            StatementView::Return(expression, expression_type) => if in_vertex_main {
                expression_type.glsl() + " acsl_vertex_output = "@ + expression.glsl() + ";\n"@
                    + concat(output_assignments(expression_type.members(), indent)) + indentation(
                    indent,
                ) + "gl_Position = acsl_pixel_input_"@ + position_output_name + ";\n"@
                    + indentation(indent) + "return;\n"@
            } else if in_fragment_main {
                "acsl_fragment_color = "@ + expression.glsl() + ";\n"@ + indentation(indent)
                    + "return;\n"@
            } else {
                "return "@ + expression.glsl() + ";\n"@
            },
            StatementView::VariableDefinition(name, expression, variable_type) => variable_type.glsl()
                + " "@ + name + " = "@ + expression.glsl() + ";\n"@,
            StatementView::Assignment(name, expression) => name + " = "@ + expression.glsl() + ";\n"@,
        }
    }
}

impl DeepView for Statement {
    type V = StatementView;

    open spec fn deep_view(&self) -> StatementView {
        match self {
            Statement::Return(expression, expression_type) => StatementView::Return(
                expression@,
                expression_type@,
            ),
            Statement::Assignment(name, expression) => StatementView::Assignment(name@, expression@),
            Statement::VariableDefinition(name, expression, variable_type) => StatementView::VariableDefinition(
                name@,
                expression@,
                variable_type@,
            ),
        }
    }
}

impl View for Statement {
    type V = StatementView;

    open spec fn view(&self) -> StatementView {
        self.deep_view()
    }
}

impl Statement {
    /// The statement in HLSL.
    pub fn hlsl(&self) -> (text: String)
        ensures
            text@ == self@.hlsl(),
    {
        match self {
            Statement::Return(expression, _) => {
                let mut text = "return ".to_owned();
                text.append(expression.hlsl().as_str());
                text.append(";\n");
                text
            },
            Statement::Assignment(name, expression) => {
                let mut text = name.clone();
                text.append(" = ");
                text.append(expression.hlsl().as_str());
                text.append(";\n");
                text
            },
            Statement::VariableDefinition(name, expression, variable_type) => {
                let mut text = variable_type.hlsl();
                text.append(" ");
                text.append(name.as_str());
                text.append(" = ");
                text.append(expression.hlsl().as_str());
                text.append(";\n");
                text
            },
        }
    }

    /// The statement in GLSL.
    pub fn glsl(
        &self,
        indent: usize,
        in_vertex_main: bool,
        in_fragment_main: bool,
        position_output_name: &str,
    ) -> (text: String)
        ensures
            text@ == self@.glsl(indent as nat, in_vertex_main, in_fragment_main, position_output_name@),
    {
        match self {
            Statement::Return(expression, expression_type) => {
                if in_vertex_main {
                    let mut glsl = expression_type.glsl();
                    glsl.append(" acsl_vertex_output = ");
                    glsl.append(expression.glsl().as_str());
                    glsl.append(";\n");
                    let members = expression_type.members();
                    let ghost start = glsl@;
                    let ghost lines = output_assignments(expression_type@.members(), indent as nat);
                    let mut i: usize = 0;
                    assert(lines.take(0) =~= Seq::<Seq<char>>::empty());
                    assert(glsl@ =~= start + concat(lines.take(0)));
                    while i < members.len()
                        invariant
                            i <= members.len(),
                            members.deep_view() == expression_type@.members(),
                            lines == output_assignments(expression_type@.members(), indent as nat),
                            glsl@ == start + concat(lines.take(i as int)),
                        decreases members.len() - i,
                    {
                        let ghost before = glsl@;
                        push_indentation(&mut glsl, indent);
                        glsl.append("acsl_pixel_input_");
                        glsl.append(members[i].0.as_str());
                        glsl.append(" = acsl_vertex_output.");
                        glsl.append(members[i].0.as_str());
                        glsl.append(";\n");
                        proof {
                            assert(members.deep_view()[i as int] == members[i as int].deep_view());
                            concat_push(lines.take(i as int), lines[i as int]);
                            assert(lines.take(i as int).push(lines[i as int]) =~= lines.take(i + 1));
                            assert(glsl@ =~= before + lines[i as int]);
                            assert(glsl@ =~= start + concat(lines.take(i + 1)));
                        }
                        i += 1;
                    }
                    assert(lines.take(members.len() as int) =~= lines);
                    push_indentation(&mut glsl, indent);
                    glsl.append("gl_Position = acsl_pixel_input_");
                    glsl.append(position_output_name);
                    glsl.append(";\n");
                    push_indentation(&mut glsl, indent);
                    glsl.append("return;\n");
                    assert(glsl@ =~= self@.glsl(
                        indent as nat,
                        in_vertex_main,
                        in_fragment_main,
                        position_output_name@,
                    ));
                    glsl
                } else if in_fragment_main {
                    let mut glsl = "acsl_fragment_color = ".to_owned();
                    glsl.append(expression.glsl().as_str());
                    glsl.append(";\n");
                    push_indentation(&mut glsl, indent);
                    glsl.append("return;\n");
                    glsl
                } else {
                    let mut glsl = "return ".to_owned();
                    glsl.append(expression.glsl().as_str());
                    glsl.append(";\n");
                    glsl
                }
            },
            Statement::VariableDefinition(name, expression, variable_type) => {
                let mut text = variable_type.glsl();
                text.append(" ");
                text.append(name.as_str());
                text.append(" = ");
                text.append(expression.glsl().as_str());
                text.append(";\n");
                text
            },
            Statement::Assignment(name, expression) => {
                let mut text = name.clone();
                text.append(" = ");
                text.append(expression.glsl().as_str());
                text.append(";\n");
                text
            },
        }
    }
}

} // verus!
