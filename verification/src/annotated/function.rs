//! Functions of the annotated tree: those of the program and the built-in
//! ones.

use crate::model::{join, join_push};
use crate::text::{is_reserved_name, str_eq};
use crate::types::{Primitive, Type, TypeView};
use super::code_block::{CodeBlock, CodeBlockView};
use vstd::prelude::*;
use vstd::string::*;

verus! {

/// A function: its name, its parameters, its return type and, unless it is
/// built in, its body.
pub struct Function {
    name: String,
    return_type: Type,
    parameters: Vec<FunctionParameter>,
    code_block: Option<CodeBlock>,
}

/// A parameter of a function.
pub struct FunctionParameter {
    name: String,
    parameter_type: Type,
}

/// The model of a [`FunctionParameter`].
pub struct FunctionParameterView {
    pub name: Seq<char>,
    pub parameter_type: TypeView,
}

/// The model of a [`Function`].
pub struct FunctionView {
    pub name: Seq<char>,
    pub return_type: TypeView,
    pub parameters: Seq<FunctionParameterView>,
    pub code_block: Option<CodeBlockView>,
}

/// A built-in function with the given name, parameters and return type.
pub open spec fn builtin(
    name: Seq<char>,
    parameters: Seq<(Seq<char>, Primitive)>,
    return_type: Primitive,
) -> FunctionView {
    FunctionView {
        name,
        return_type: TypeView::Primitive(return_type),
        parameters: Seq::new(
            parameters.len(),
            |i: int|
                FunctionParameterView {
                    name: parameters[i].0,
                    parameter_type: TypeView::Primitive(parameters[i].1),
                },
        ),
        code_block: None,
    }
}

/// The built-in functions: the constructors `float` and `float1` to
/// `float4`, `sample_texture`, `frac` and `frac2` to `frac4`, `floor`,
/// `load` and `uint_to_float`.
pub open spec fn builtin_function_views() -> Seq<FunctionView> {
    seq![
        builtin("float"@, seq![("x"@, Primitive::Float)], Primitive::Float),
        builtin("float1"@, seq![("x"@, Primitive::Float)], Primitive::FloatVec(1)),
        builtin(
            "float2"@,
            seq![("x"@, Primitive::Float), ("y"@, Primitive::Float)],
            Primitive::FloatVec(2),
        ),
        builtin(
            "float3"@,
            seq![("x"@, Primitive::Float), ("y"@, Primitive::Float), ("z"@, Primitive::Float)],
            Primitive::FloatVec(3),
        ),
        builtin(
            "float4"@,
            seq![
                ("x"@, Primitive::Float),
                ("y"@, Primitive::Float),
                ("z"@, Primitive::Float),
                ("w"@, Primitive::Float),
            ],
            Primitive::FloatVec(4),
        ),
        builtin(
            "sample_texture"@,
            seq![("texture"@, Primitive::Texture), ("coordinates"@, Primitive::FloatVec(2))],
            Primitive::FloatVec(4),
        ),
        builtin("frac"@, seq![("value"@, Primitive::Float)], Primitive::Float),
        builtin("frac2"@, seq![("value"@, Primitive::FloatVec(2))], Primitive::FloatVec(2)),
        builtin("frac3"@, seq![("value"@, Primitive::FloatVec(3))], Primitive::FloatVec(3)),
        builtin("frac4"@, seq![("value"@, Primitive::FloatVec(4))], Primitive::FloatVec(4)),
        builtin("floor"@, seq![("value"@, Primitive::Float)], Primitive::Float),
        builtin(
            "load"@,
            seq![("texture"@, Primitive::Texture), ("uv"@, Primitive::FloatVec(3))],
            Primitive::Uint,
        ),
        builtin("uint_to_float"@, seq![("value"@, Primitive::Uint)], Primitive::Float),
    ]
}

/// The test for a function called `name`.
pub open spec fn function_named(name: Seq<char>) -> spec_fn(FunctionView) -> bool {
    |f: FunctionView| f.name == name
}

/// The two entry points have different names.
pub proof fn entry_point_names_differ()
    ensures
        "vertex_main"@ != "fragment_main"@,
{
    reveal_strlit("vertex_main");
    reveal_strlit("fragment_main");
    assert("vertex_main"@.len() == 11);
    assert("fragment_main"@.len() == 13);
}

impl FunctionView {
    /// Whether no parameter of the function and no variable that its body
    /// defines has a name with a reserved prefix.
    pub open spec fn locals_are_allowed(self) -> bool {
        &&& forall|i: int|
            0 <= i < self.parameters.len() ==> !is_reserved_name((#[trigger] self.parameters[i]).name)
        &&& self.code_block matches Some(code_block) ==> code_block.locals_are_allowed()
    }

    /// Whether this is one of the two entry points.
    pub open spec fn is_entry_point(self) -> bool {
        self.name == "vertex_main"@ || self.name == "fragment_main"@
    }

    /// The parameters as HLSL declares them, one for each parameter.
    pub open spec fn hlsl_parameters(self) -> Seq<Seq<char>> {
        Seq::new(
            self.parameters.len(),
            |i: int| self.parameters[i].parameter_type.hlsl() + " "@ + self.parameters[i].name,
        )
    }

    /// The parameters as GLSL declares them, one for each parameter.
    pub open spec fn glsl_parameters(self) -> Seq<Seq<char>> {
        Seq::new(
            self.parameters.len(),
            |i: int| self.parameters[i].parameter_type.glsl() + " "@ + self.parameters[i].name,
        )
    }

    /// The stage inputs from which an entry point rebuilds its parameter,
    /// one for each member of the parameter's type.
    pub open spec fn stage_inputs(self) -> Seq<Seq<char>> {
        let members = self.parameters[0].parameter_type.members();
        Seq::new(
            members.len(),
            |i: int|
                (if self.name == "vertex_main"@ {
                    "acsl_vertex_input_"@
                } else {
                    "acsl_pixel_input_"@
                }) + members[i].0,
        )
    }

    /// The function in HLSL. `fragment_main` carries the semantic
    /// `SV_TARGET`.
    pub open spec fn hlsl(self) -> Seq<char> {
        self.return_type.hlsl() + " "@ + self.name + "("@ + join(self.hlsl_parameters(), ", "@)
            + ") "@ + (if self.name == "fragment_main"@ {
            ": SV_TARGET "@
        } else {
            Seq::empty()
        }) + self.code_block->0.hlsl()
    }

    /// The function in GLSL, as it stands in the vertex unit and in the
    /// fragment unit. An entry point becomes the `main` of its own unit and
    /// is left out of the other: it rebuilds its parameter from the inputs of
    /// its stage, and its `return` statements write the outputs. Any other
    /// function stands in both units as it is.
    pub open spec fn glsl(self, position_output_name: Seq<char>) -> (Seq<char>, Seq<char>) {
        if self.is_entry_point() {
            let vertex = self.name == "vertex_main"@;
            let parameter = self.parameters[0];
            let text = "void main() {\n"@ + "    "@ + parameter.parameter_type.glsl() + " "@
                + parameter.name + " = "@ + parameter.parameter_type.glsl() + "("@ + join(
                self.stage_inputs(),
                ", "@,
            ) + ");\n\n"@ + self.code_block->0.glsl(vertex, !vertex, position_output_name) + "}\n"@;
            if vertex {
                (text, Seq::empty())
            } else {
                (Seq::empty(), text)
            }
        } else {
            let text = self.return_type.glsl() + " "@ + self.name + "("@ + join(
                self.glsl_parameters(),
                ", "@,
            ) + ") {\n"@ + self.code_block->0.glsl(false, false, position_output_name) + "}\n"@;
            (text, text)
        }
    }
}

impl DeepView for FunctionParameter {
    type V = FunctionParameterView;

    open spec fn deep_view(&self) -> FunctionParameterView {
        self.model()
    }
}

impl View for FunctionParameter {
    type V = FunctionParameterView;

    open spec fn view(&self) -> FunctionParameterView {
        self.model()
    }
}

impl DeepView for Function {
    type V = FunctionView;

    open spec fn deep_view(&self) -> FunctionView {
        self.model()
    }
}

impl View for Function {
    type V = FunctionView;

    open spec fn view(&self) -> FunctionView {
        self.model()
    }
}

impl FunctionParameter {
    /// The model of this parameter.
    pub closed spec fn model(&self) -> FunctionParameterView {
        FunctionParameterView { name: self.name@, parameter_type: self.parameter_type@ }
    }

    pub fn new(name: String, parameter_type: Type) -> (parameter: Self)
        ensures
            parameter@ == (FunctionParameterView { name: name@, parameter_type: parameter_type@ }),
    {
        FunctionParameter { name, parameter_type }
    }

    pub fn name(&self) -> (name: &str)
        ensures
            name@ == self@.name,
    {
        self.name.as_str()
    }

    pub fn parameter_type(&self) -> (parameter_type: &Type)
        ensures
            parameter_type@ == self@.parameter_type,
    {
        &self.parameter_type
    }
}

impl Function {
    /// The model of this function.
    pub closed spec fn model(&self) -> FunctionView {
        FunctionView {
            name: self.name@,
            return_type: self.return_type@,
            parameters: self.parameters.deep_view(),
            code_block: self.code_block.deep_view(),
        }
    }

    pub fn new(
        name: String,
        parameters: Vec<FunctionParameter>,
        return_type: Type,
        code_block: CodeBlock,
    ) -> (function: Self)
        ensures
            function@ == (FunctionView {
                name: name@,
                return_type: return_type@,
                parameters: parameters.deep_view(),
                code_block: Some(code_block@),
            }),
    {
        Function { name, parameters, return_type, code_block: Some(code_block) }
    }

    /// The built-in functions.
    pub fn builtin_functions() -> (functions: Vec<Function>)
        ensures
            functions.deep_view() == builtin_function_views(),
    {
        let mut functions: Vec<Function> = Vec::new();
        functions.push(
            Function::new_builtin(
                "float".to_owned(),
                vec![FunctionParameter::new("x".to_owned(), Type::float())],
                Type::float(),
            ),
        );
        functions.push(
            Function::new_builtin(
                "float1".to_owned(),
                vec![FunctionParameter::new("x".to_owned(), Type::float())],
                Type::float1(),
            ),
        );
        functions.push(
            Function::new_builtin(
                "float2".to_owned(),
                vec![
                    FunctionParameter::new("x".to_owned(), Type::float()),
                    FunctionParameter::new("y".to_owned(), Type::float()),
                ],
                Type::float2(),
            ),
        );
        functions.push(
            Function::new_builtin(
                "float3".to_owned(),
                vec![
                    FunctionParameter::new("x".to_owned(), Type::float()),
                    FunctionParameter::new("y".to_owned(), Type::float()),
                    FunctionParameter::new("z".to_owned(), Type::float()),
                ],
                Type::float3(),
            ),
        );
        functions.push(
            Function::new_builtin(
                "float4".to_owned(),
                vec![
                    FunctionParameter::new("x".to_owned(), Type::float()),
                    FunctionParameter::new("y".to_owned(), Type::float()),
                    FunctionParameter::new("z".to_owned(), Type::float()),
                    FunctionParameter::new("w".to_owned(), Type::float()),
                ],
                Type::float4(),
            ),
        );
        functions.push(
            Function::new_builtin(
                "sample_texture".to_owned(),
                vec![
                    FunctionParameter::new("texture".to_owned(), Type::texture()),
                    FunctionParameter::new("coordinates".to_owned(), Type::float2()),
                ],
                Type::float4(),
            ),
        );
        functions.push(
            Function::new_builtin(
                "frac".to_owned(),
                vec![FunctionParameter::new("value".to_owned(), Type::float())],
                Type::float(),
            ),
        );
        functions.push(
            Function::new_builtin(
                "frac2".to_owned(),
                vec![FunctionParameter::new("value".to_owned(), Type::float2())],
                Type::float2(),
            ),
        );
        functions.push(
            Function::new_builtin(
                "frac3".to_owned(),
                vec![FunctionParameter::new("value".to_owned(), Type::float3())],
                Type::float3(),
            ),
        );
        functions.push(
            Function::new_builtin(
                "frac4".to_owned(),
                vec![FunctionParameter::new("value".to_owned(), Type::float4())],
                Type::float4(),
            ),
        );
        functions.push(
            Function::new_builtin(
                "floor".to_owned(),
                vec![FunctionParameter::new("value".to_owned(), Type::float())],
                Type::float(),
            ),
        );
        functions.push(
            Function::new_builtin(
                "load".to_owned(),
                vec![
                    FunctionParameter::new("texture".to_owned(), Type::texture()),
                    FunctionParameter::new("uv".to_owned(), Type::float3()),
                ],
                Type::uint(),
            ),
        );
        functions.push(
            Function::new_builtin(
                "uint_to_float".to_owned(),
                vec![FunctionParameter::new("value".to_owned(), Type::uint())],
                Type::float(),
            ),
        );
        proof {
            let views = builtin_function_views();
            assert(functions.deep_view().len() == views.len());
            assert forall|i: int| 0 <= i < views.len() implies functions.deep_view()[i] == views[i] by {
                assert(functions.deep_view()[i] == functions[i].model());
                assert(functions[i].model().parameters =~= views[i].parameters);
            }
            assert(functions.deep_view() =~= views);
        }
        functions
    }

    pub fn name(&self) -> (name: &str)
        ensures
            name@ == self@.name,
    {
        self.name.as_str()
    }

    pub fn parameters(&self) -> (parameters: &[FunctionParameter])
        ensures
            parameters.deep_view() == self@.parameters,
    {
        let parameters = self.parameters.as_slice();
        assert(parameters.deep_view() =~= self.parameters.deep_view());
        parameters
    }

    pub fn return_type(&self) -> (return_type: &Type)
        ensures
            return_type@ == self@.return_type,
    {
        &self.return_type
    }

    /// Whether the function has a body; the built-in functions have none.
    pub fn has_body(&self) -> (r: bool)
        ensures
            r == (self@.code_block is Some),
    {
        self.code_block.is_some()
    }

    /// The function in HLSL.
    pub fn generate_hlsl(&self) -> (text: String)
        requires
            self@.code_block is Some,
        ensures
            text@ == self@.hlsl(),
    {
        let mut string = self.return_type.hlsl();
        string.append(" ");
        string.append(self.name.as_str());
        string.append("(");
        let ghost start = string@;
        let ghost declared = self@.hlsl_parameters();
        let mut i: usize = 0;
        assert(declared.take(0) =~= Seq::<Seq<char>>::empty());
        assert(string@ =~= start + join(declared.take(0), ", "@));
        while i < self.parameters.len()
            invariant
                i <= self.parameters.len(),
                declared == self@.hlsl_parameters(),
                string@ == start + join(declared.take(i as int), ", "@),
            decreases self.parameters.len() - i,
        {
            let ghost before = string@;
            if i != 0 {
                string.append(", ");
            }
            string.append(self.parameters[i].parameter_type.hlsl().as_str());
            string.append(" ");
            string.append(self.parameters[i].name.as_str());
            proof {
                assert(self.parameters.deep_view()[i as int] == self.parameters[i as int].model());
                join_push(declared.take(i as int), ", "@, declared[i as int]);
                assert(declared.take(i as int).push(declared[i as int]) =~= declared.take(i + 1));
                assert(string@ =~= start + join(declared.take(i + 1), ", "@));
            }
            i += 1;
        }
        assert(declared.take(self.parameters.len() as int) =~= declared);
        string.append(") ");
        if str_eq(self.name.as_str(), "fragment_main") {
            string.append(": SV_TARGET ");
        }
        match &self.code_block {
            Some(code_block) => {
                string.append(code_block.hlsl().as_str());
            },
            None => {},
        }
        assert(string@ =~= self@.hlsl());
        string
    }

    /// The function in GLSL: its text in the vertex unit and its text in the
    /// fragment unit. `position_output_name` is the member of the vertex
    /// output that holds the position.
    pub fn generate_glsl(&self, position_output_name: &str) -> (text: (String, String))
        requires
            self@.code_block is Some,
            self@.is_entry_point() ==> self@.parameters.len() >= 1,
        ensures
            (text.0@, text.1@) == self@.glsl(position_output_name@),
    {
        let vertex_main = str_eq(self.name.as_str(), "vertex_main");
        let fragment_main = str_eq(self.name.as_str(), "fragment_main");
        let mut glsl;
        if vertex_main || fragment_main {
            assert(self.parameters.deep_view()[0] == self.parameters[0].model());
            glsl = "void main() {\n".to_owned();
            let parameter = &self.parameters[0];
            let parameter_type = parameter.parameter_type();
            glsl.append("    ");
            glsl.append(parameter_type.glsl().as_str());
            glsl.append(" ");
            glsl.append(parameter.name.as_str());
            glsl.append(" = ");
            glsl.append(parameter_type.glsl().as_str());
            glsl.append("(");
            let members = parameter_type.members();
            let ghost start = glsl@;
            let ghost inputs = self@.stage_inputs();
            let mut i: usize = 0;
            assert(inputs.take(0) =~= Seq::<Seq<char>>::empty());
            assert(glsl@ =~= start + join(inputs.take(0), ", "@));
            while i < members.len()
                invariant
                    i <= members.len(),
                    members.deep_view() == self@.parameters[0].parameter_type.members(),
                    inputs == self@.stage_inputs(),
                    vertex_main == (self@.name == "vertex_main"@),
                    self@.parameters.len() >= 1,
                    glsl@ == start + join(inputs.take(i as int), ", "@),
                decreases members.len() - i,
            {
                if i != 0 {
                    glsl.append(", ");
                }
                if vertex_main {
                    glsl.append("acsl_vertex_input_");
                } else {
                    glsl.append("acsl_pixel_input_");
                }
                glsl.append(members[i].0.as_str());
                proof {
                    assert(members.deep_view()[i as int] == members[i as int].deep_view());
                    join_push(inputs.take(i as int), ", "@, inputs[i as int]);
                    assert(inputs.take(i as int).push(inputs[i as int]) =~= inputs.take(i + 1));
                    assert(glsl@ =~= start + join(inputs.take(i + 1), ", "@));
                }
                i += 1;
            }
            assert(inputs.take(members.len() as int) =~= inputs);
            glsl.append(");\n\n");
            assert(glsl@ =~= "void main() {\n"@ + "    "@ + self@.parameters[0].parameter_type.glsl()
                + " "@ + self@.parameters[0].name + " = "@
                + self@.parameters[0].parameter_type.glsl() + "("@ + join(
                self@.stage_inputs(),
                ", "@,
            ) + ");\n\n"@);
        } else {
            glsl = self.return_type.glsl();
            glsl.append(" ");
            glsl.append(self.name.as_str());
            glsl.append("(");
            let ghost start = glsl@;
            let ghost declared = self@.glsl_parameters();
            let mut i: usize = 0;
            assert(declared.take(0) =~= Seq::<Seq<char>>::empty());
            assert(glsl@ =~= start + join(declared.take(0), ", "@));
            while i < self.parameters.len()
                invariant
                    i <= self.parameters.len(),
                    declared == self@.glsl_parameters(),
                    glsl@ == start + join(declared.take(i as int), ", "@),
                decreases self.parameters.len() - i,
            {
                if i != 0 {
                    glsl.append(", ");
                }
                glsl.append(self.parameters[i].parameter_type.glsl().as_str());
                glsl.append(" ");
                glsl.append(self.parameters[i].name.as_str());
                proof {
                    assert(self.parameters.deep_view()[i as int] == self.parameters[i as int].model());
                    join_push(declared.take(i as int), ", "@, declared[i as int]);
                    assert(declared.take(i as int).push(declared[i as int]) =~= declared.take(i + 1));
                    assert(glsl@ =~= start + join(declared.take(i + 1), ", "@));
                }
                i += 1;
            }
            assert(declared.take(self.parameters.len() as int) =~= declared);
            glsl.append(") {\n");
            assert(glsl@ =~= self@.return_type.glsl() + " "@ + self@.name + "("@ + join(
                self@.glsl_parameters(),
                ", "@,
            ) + ") {\n"@);
        }
        match &self.code_block {
            Some(code_block) => {
                glsl.append(
                    code_block.glsl(vertex_main, fragment_main, position_output_name).as_str(),
                );
            },
            None => {},
        }
        glsl.append("}\n");
        proof {
            entry_point_names_differ();
        }
        if vertex_main {
            assert(glsl@ =~= self@.glsl(position_output_name@).0);
            (glsl, String::new())
        } else if fragment_main {
            assert(glsl@ =~= self@.glsl(position_output_name@).1);
            (String::new(), glsl)
        } else {
            assert(glsl@ =~= self@.glsl(position_output_name@).0);
            (glsl.clone(), glsl)
        }
    }

    fn new_builtin(name: String, parameters: Vec<FunctionParameter>, return_type: Type) -> (function:
        Self)
        ensures
            function@ == (FunctionView {
                name: name@,
                return_type: return_type@,
                parameters: parameters.deep_view(),
                code_block: None,
            }),
    {
        Function { name, parameters, return_type, code_block: None }
    }
}

} // verus!
