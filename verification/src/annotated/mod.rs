//! The annotated syntax tree: the program after semantic analysis, and the
//! two backends that write it out.

use constant::{constant_named, Constant, ConstantView};
use constant_buffer::{ConstantBuffer, ConstantBufferView};
use crate::ast::{SemanticAnalysisError, SemanticAnalysisErrorView};
use crate::ast::scope::{scopes_stay_in_order, Scope, ScopeView};
use crate::model::{
    concat, concat_push, first, first_from, first_from_found, first_is_none, first_push,
    result_model,
};
use crate::text::{decimal, is_reserved_name, push_decimal, reserved_name, str_eq};
use crate::types::{builtin_type, member_named, Primitive, Type, TypeView};
use function::{builtin_function_views, function_named, Function, FunctionView};
use std::rc::Rc;
use structure::{struct_named, Struct, StructView};
use texture::{Texture, TextureView};
use vstd::prelude::*;
use vstd::string::*;

pub mod code_block;
pub mod constant;
pub mod constant_buffer;
pub mod expression;
pub mod function;
pub mod statement;
pub mod structure;
pub mod texture;

verus! {

/// The number of constant buffer slots.
pub const MAX_CONSTANT_BUFFERS: usize = 32;

/// The number of texture slots.
pub const MAX_TEXTURES: usize = 8;

/// The first GLSL location of the constant buffers.
pub const CONSTANT_BUFFER_INDEX: usize = 0;

/// The first GLSL location of the textures: behind the constant buffers.
pub const TEXTURES_INDEX: usize = 32;

/// A declaration that the backends write out, by its place in the tree: the
/// position of a function, a struct or a constant in its list, the slot of a
/// constant buffer or a texture.
#[derive(Clone, Copy, PartialEq, Eq, Structural, Debug)]
pub enum DeclarationType {
    Function(usize),
    Struct(usize),
    ConstantBuffer(usize),
    Texture(usize),
    Constant(usize),
}

/// The kind of a declaration that the backends write out.
pub enum DeclarationKind {
    Function,
    Struct,
    ConstantBuffer,
    Texture,
    Constant,
}

/// The model of a [`DeclarationType`].
pub enum DeclarationPlace {
    Function(int),
    Struct(int),
    ConstantBuffer(int),
    Texture(int),
    Constant(int),
}

impl DeepView for DeclarationType {
    type V = DeclarationPlace;

    open spec fn deep_view(&self) -> DeclarationPlace {
        match self {
            DeclarationType::Function(at) => DeclarationPlace::Function(*at as int),
            DeclarationType::Struct(at) => DeclarationPlace::Struct(*at as int),
            DeclarationType::ConstantBuffer(slot) => DeclarationPlace::ConstantBuffer(*slot as int),
            DeclarationType::Texture(slot) => DeclarationPlace::Texture(*slot as int),
            DeclarationType::Constant(at) => DeclarationPlace::Constant(*at as int),
        }
    }
}

/// The program after semantic analysis.
pub struct AnnotatedSyntaxTree {
    functions: Vec<Function>,
    structs: Vec<Rc<Struct>>,
    constant_buffers: Vec<Option<ConstantBuffer>>,
    textures: Vec<Option<Texture>>,
    constants: Vec<Constant>,
    declaration_order: Vec<DeclarationType>,
    builtin_functions: Vec<Function>,
    type_aliases: Vec<(String, Type)>,
    global_scope: Scope,
    vertex_input_type: Option<Type>,
    fragment_input_type: Option<Type>,
}

/// The model of an [`AnnotatedSyntaxTree`].
pub struct TreeView {
    pub functions: Seq<FunctionView>,
    pub structs: Seq<StructView>,
    pub constant_buffers: Seq<Option<ConstantBufferView>>,
    pub textures: Seq<Option<TextureView>>,
    pub constants: Seq<ConstantView>,
    pub declaration_order: Seq<DeclarationPlace>,
    pub builtin_functions: Seq<FunctionView>,
    pub type_aliases: Seq<(Seq<char>, TypeView)>,
    pub global_scope: ScopeView,
    pub vertex_input_type: Option<TypeView>,
    pub fragment_input_type: Option<TypeView>,
}

/// The type `float4` as a model.
pub open spec fn float4_view() -> TypeView {
    TypeView::Primitive(Primitive::FloatVec(4))
}

/// Whether `name` is the name of a built-in type.
pub open spec fn is_builtin_type_name(name: Seq<char>) -> bool {
    builtin_type(name) is Some || name == "texture"@
}

/// Whether `name` is the name of a type of a target language.
pub open spec fn is_reserved_type_name(name: Seq<char>) -> bool {
    name == "vec1"@ || name == "vec2"@ || name == "vec3"@ || name == "vec4"@ || name == "mat"@
        || name == "sampler2D"@ || name == "Texture2D"@
}

/// Whether `name` may be the name of a function, a struct, an alias or a
/// constant at all: it has no reserved prefix and is not the name of a type.
pub open spec fn is_allowed_name(name: Seq<char>) -> bool {
    !is_reserved_name(name) && !is_builtin_type_name(name) && !is_reserved_type_name(name)
}

/// Whether `t`, where it is a struct behind its aliases, is the struct that
/// `structs` holds under its handle.
pub open spec fn is_interned(t: TypeView, structs: Seq<StructView>) -> bool {
    t.resolved() matches TypeView::Struct(handle, structure) ==> 0 <= handle < structs.len()
        && structs[handle] == structure
}

/// Whether the return type and the parameter types of `function` are
/// interned in `structs`.
pub open spec fn is_interned_function(function: FunctionView, structs: Seq<StructView>) -> bool {
    &&& is_interned(function.return_type, structs)
    &&& forall|i: int|
        0 <= i < function.parameters.len() ==> is_interned(
            (#[trigger] function.parameters[i]).parameter_type,
            structs,
        )
}

/// Whether `t` is, behind its aliases, a user struct whose members carry
/// semantics.
pub open spec fn is_semantic_struct(t: TypeView) -> bool {
    t.resolved() matches TypeView::Struct(_, structure) && structure.semantics is Some
}

/// Whether `t` is a user struct with semantics, one of them `SV_POSITION`.
pub open spec fn is_position_struct(t: TypeView) -> bool {
    t.resolved() matches TypeView::Struct(_, structure) && structure.position_member() is Some
}

/// The header of every generated unit.
pub open spec fn generated_notice() -> Seq<char> {
    "// Generated from Alexandria Common Shader Language\n\n"@
}

/// The inputs of the vertex stage: one for each member of the vertex input
/// struct, at the location of the member's position in the struct.
pub open spec fn vertex_input_lines(members: Seq<(Seq<char>, TypeView)>) -> Seq<Seq<char>> {
    Seq::new(
        members.len(),
        |i: int|
            "layout(location = "@ + decimal(i as nat) + ") in "@ + members[i].1.glsl()
                + " acsl_vertex_input_"@ + members[i].0 + ";\n"@,
    )
}

/// The values handed from the vertex stage to the fragment stage: one for
/// each member of the struct that the two entry points share, declared with
/// `direction`, which is `out` in the vertex unit and `in` in the fragment
/// unit.
pub open spec fn pixel_input_lines(members: Seq<(Seq<char>, TypeView)>, direction: Seq<char>) -> Seq<
    Seq<char>,
> {
    Seq::new(
        members.len(),
        |i: int| direction + members[i].1.glsl() + " acsl_pixel_input_"@ + members[i].0 + ";\n"@,
    )
}

impl TreeView {
    /// The tree of the empty program: no declarations, every slot free, the
    /// built-in functions in place.
    pub open spec fn empty() -> TreeView {
        TreeView {
            functions: Seq::empty(),
            structs: Seq::empty(),
            constant_buffers: Seq::new(MAX_CONSTANT_BUFFERS as nat, |i: int| None),
            textures: Seq::new(MAX_TEXTURES as nat, |i: int| None),
            constants: Seq::empty(),
            declaration_order: Seq::empty(),
            builtin_functions: builtin_function_views(),
            type_aliases: Seq::empty(),
            global_scope: ScopeView::empty(),
            vertex_input_type: None,
            fragment_input_type: None,
        }
    }

    /// Whether the program declares a function called `name`.
    pub open spec fn has_function(self, name: Seq<char>) -> bool {
        first(self.functions, function_named(name)) is Some
    }

    /// The function called `name`: the first of the program's own, else the
    /// built-in one, else `UnknownFunction`.
    pub open spec fn get_function(self, name: Seq<char>) -> Result<
        FunctionView,
        SemanticAnalysisErrorView,
    > {
        match first(self.functions, function_named(name)) {
            Some(at) => Ok(self.functions[at]),
            None => match first(self.builtin_functions, function_named(name)) {
                Some(at) => Ok(self.builtin_functions[at]),
                None => Err(SemanticAnalysisErrorView::UnknownFunction(name)),
            },
        }
    }

    /// The struct called `name`, or `UnknownType`.
    pub open spec fn get_structure(self, name: Seq<char>) -> Result<
        StructView,
        SemanticAnalysisErrorView,
    > {
        match first(self.structs, struct_named(name)) {
            Some(at) => Ok(self.structs[at]),
            None => Err(SemanticAnalysisErrorView::UnknownType(name)),
        }
    }

    /// The user type called `name`: the struct of that name, under the
    /// handle that is its position among the structs, else the alias of that
    /// name, else `UnknownType`.
    pub open spec fn get_type(self, name: Seq<char>) -> Result<TypeView, SemanticAnalysisErrorView> {
        match first(self.structs, struct_named(name)) {
            Some(at) => Ok(TypeView::Struct(at, self.structs[at])),
            None => match first(self.type_aliases, member_named(name)) {
                Some(at) => Ok(self.type_aliases[at].1),
                None => Err(SemanticAnalysisErrorView::UnknownType(name)),
            },
        }
    }

    /// The type called `name`: a built-in type, else a user type.
    pub open spec fn type_from_name(self, name: Seq<char>) -> Result<
        TypeView,
        SemanticAnalysisErrorView,
    > {
        match builtin_type(name) {
            Some(primitive) => Ok(TypeView::Primitive(primitive)),
            None => self.get_type(name),
        }
    }

    /// Whether a function, a struct, an alias or a constant may still take
    /// the name `name`: none of them has it yet, and it is neither the name
    /// of a built-in type nor that of a type of a target language.
    pub open spec fn name_is_free(self, name: Seq<char>) -> bool {
        &&& first(self.functions, function_named(name)) is None
        &&& first(self.structs, struct_named(name)) is None
        &&& first(self.type_aliases, member_named(name)) is None
        &&& first(self.constants, constant_named(name)) is None
        &&& !is_builtin_type_name(name)
        &&& !is_reserved_type_name(name)
    }

    /// The error for a name that a function, a struct, an alias or a
    /// constant may not take: `InvalidVariableName` for a reserved prefix,
    /// `MultipleDefinition` for a name that is taken.
    pub open spec fn name_error(self, name: Seq<char>) -> Option<SemanticAnalysisErrorView> {
        if is_reserved_name(name) {
            Some(SemanticAnalysisErrorView::InvalidVariableName(name))
        } else if !self.name_is_free(name) {
            Some(SemanticAnalysisErrorView::MultipleDefinition(name))
        } else {
            None
        }
    }

    /// The tree with one more struct, which takes the next handle.
    pub open spec fn push_struct(self, structure: StructView) -> Result<
        TreeView,
        SemanticAnalysisErrorView,
    > {
        match self.name_error(structure.name) {
            Some(error) => Err(error),
            None => Ok(
                TreeView {
                    structs: self.structs.push(structure),
                    declaration_order: self.declaration_order.push(
                        DeclarationPlace::Struct(self.structs.len() as int),
                    ),
                    ..self
                },
            ),
        }
    }

    /// The tree with one more alias. Aliases are not written out.
    pub open spec fn push_type_alias(self, name: Seq<char>, alias_type: TypeView) -> Result<
        TreeView,
        SemanticAnalysisErrorView,
    > {
        match self.name_error(name) {
            Some(error) => Err(error),
            None => Ok(TreeView { type_aliases: self.type_aliases.push((name, alias_type)), ..self }),
        }
    }

    /// The tree with one more constant buffer, which becomes a variable of
    /// the global scope and takes its slot. A slot that is taken gives
    /// `MultipleDefinition` with the name of the new buffer.
    pub open spec fn push_constant_buffer(self, constant_buffer: ConstantBufferView) -> Result<
        TreeView,
        SemanticAnalysisErrorView,
    > {
        match self.global_scope.define_variable(constant_buffer.name, constant_buffer.cb_type, false) {
            Err(error) => Err(error),
            Ok(scope) => if self.constant_buffers[constant_buffer.slot as int] is Some {
                Err(SemanticAnalysisErrorView::MultipleDefinition(constant_buffer.name))
            } else {
                Ok(
                    TreeView {
                        constant_buffers: self.constant_buffers.update(
                            constant_buffer.slot as int,
                            Some(constant_buffer),
                        ),
                        declaration_order: self.declaration_order.push(
                            DeclarationPlace::ConstantBuffer(constant_buffer.slot as int),
                        ),
                        global_scope: scope,
                        ..self
                    },
                )
            },
        }
    }

    /// The tree with one more texture, which becomes a variable of the
    /// global scope, of type `texture`, and takes its slot. A slot that is
    /// taken gives `MultipleDefinition` with the name of the new texture.
    pub open spec fn push_texture(self, texture: TextureView) -> Result<
        TreeView,
        SemanticAnalysisErrorView,
    > {
        match self.global_scope.define_variable(
            texture.name,
            TypeView::Primitive(Primitive::Texture),
            false,
        ) {
            Err(error) => Err(error),
            Ok(scope) => if self.textures[texture.slot as int] is Some {
                Err(SemanticAnalysisErrorView::MultipleDefinition(texture.name))
            } else {
                Ok(
                    TreeView {
                        textures: self.textures.update(texture.slot as int, Some(texture)),
                        declaration_order: self.declaration_order.push(
                            DeclarationPlace::Texture(texture.slot as int),
                        ),
                        global_scope: scope,
                        ..self
                    },
                )
            },
        }
    }

    /// The tree with one more constant, which becomes an immutable variable
    /// of the global scope.
    pub open spec fn push_constant(self, constant: ConstantView) -> Result<
        TreeView,
        SemanticAnalysisErrorView,
    > {
        match self.name_error(constant.name) {
            Some(error) => Err(error),
            None => match self.global_scope.define_variable(
                constant.name,
                constant.constant_type,
                false,
            ) {
                Err(error) => Err(error),
                Ok(scope) => Ok(
                    TreeView {
                        constants: self.constants.push(constant),
                        declaration_order: self.declaration_order.push(
                            DeclarationPlace::Constant(self.constants.len() as int),
                        ),
                        global_scope: scope,
                        ..self
                    },
                ),
            },
        }
    }

    /// The tree with the function appended to its functions and to the
    /// declarations to write out.
    pub open spec fn with_function(self, function: FunctionView) -> TreeView {
        TreeView {
            functions: self.functions.push(function),
            declaration_order: self.declaration_order.push(
                DeclarationPlace::Function(self.functions.len() as int),
            ),
            ..self
        }
    }

    /// The tree with `vertex_main` added. It must take one parameter, a
    /// struct with semantics, which becomes the vertex input type. Where
    /// `fragment_main` has fixed the type that the two entry points share,
    /// it must return that type; else it must return a struct with
    /// semantics, one of them `SV_POSITION`, which becomes the shared type.
    pub open spec fn push_vertex_main(self, function: FunctionView) -> Result<
        TreeView,
        SemanticAnalysisErrorView,
    > {
        if function.parameters.len() != 1 {
            Err(SemanticAnalysisErrorView::VertexMainParameterCount)
        } else if !is_semantic_struct(function.parameters[0].parameter_type) {
            Err(
                SemanticAnalysisErrorView::InvalidVertexMainParameterType(
                    function.parameters[0].parameter_type.display(),
                ),
            )
        } else {
            match self.fragment_input_type {
                Some(fragment_input_type) => if !function.return_type.same_as(fragment_input_type) {
                    Err(
                        SemanticAnalysisErrorView::VertexMainReturnTypeMismatch(
                            function.return_type.display(),
                            fragment_input_type.display(),
                        ),
                    )
                } else {
                    Ok(
                        TreeView {
                            vertex_input_type: Some(function.parameters[0].parameter_type),
                            ..self.with_function(function)
                        },
                    )
                },
                None => if !is_position_struct(function.return_type) {
                    Err(
                        SemanticAnalysisErrorView::InvalidVertexMainReturnType(
                            function.return_type.display(),
                        ),
                    )
                } else {
                    Ok(
                        TreeView {
                            vertex_input_type: Some(function.parameters[0].parameter_type),
                            fragment_input_type: Some(function.return_type),
                            ..self.with_function(function)
                        },
                    )
                },
            }
        }
    }

    /// The tree with `fragment_main` added. It must take one parameter: of
    /// the type that `vertex_main` returns where that is fixed, else a
    /// struct with semantics, one of them `SV_POSITION`, which becomes the
    /// type that the two entry points share. It must return `float4`.
    pub open spec fn push_fragment_main(self, function: FunctionView) -> Result<
        TreeView,
        SemanticAnalysisErrorView,
    > {
        if function.parameters.len() != 1 {
            Err(SemanticAnalysisErrorView::FragmentMainParameterCount)
        } else {
            let parameter_type = function.parameters[0].parameter_type;
            match self.fragment_input_type {
                Some(fragment_input_type) if !parameter_type.same_as(fragment_input_type) => Err(
                    SemanticAnalysisErrorView::FragmentMainParameterTypeMismatch(
                        parameter_type.display(),
                        fragment_input_type.display(),
                    ),
                ),
                None if !is_position_struct(parameter_type) => Err(
                    SemanticAnalysisErrorView::InvalidFragmentMainParameterType(
                        parameter_type.display(),
                    ),
                ),
                _ => if !function.return_type.same_as(float4_view()) {
                    Err(
                        SemanticAnalysisErrorView::InvalidFragmentMainReturnType(
                            function.return_type.display(),
                        ),
                    )
                } else {
                    Ok(
                        TreeView {
                            fragment_input_type: match self.fragment_input_type {
                                Some(fragment_input_type) => Some(fragment_input_type),
                                None => Some(parameter_type),
                            },
                            ..self.with_function(function)
                        },
                    )
                },
            }
        }
    }

    /// The tree with one more function. The two entry points are held to
    /// their contracts.
    pub open spec fn push_function(self, function: FunctionView) -> Result<
        TreeView,
        SemanticAnalysisErrorView,
    > {
        match self.name_error(function.name) {
            Some(error) => Err(error),
            None => if function.name == "vertex_main"@ {
                self.push_vertex_main(function)
            } else if function.name == "fragment_main"@ {
                self.push_fragment_main(function)
            } else {
                Ok(self.with_function(function))
            },
        }
    }

    /// `NoVertexMain` where the program has no `vertex_main`, else
    /// `NoFragmentMain` where it has no `fragment_main`.
    pub open spec fn verify_graphics_functions(self) -> Result<(), SemanticAnalysisErrorView> {
        if !self.has_function("vertex_main"@) {
            Err(SemanticAnalysisErrorView::NoVertexMain)
        } else if !self.has_function("fragment_main"@) {
            Err(SemanticAnalysisErrorView::NoFragmentMain)
        } else {
            Ok(())
        }
    }

    /// Whether the tree holds the declaration that `declaration` points to.
    pub open spec fn declares(self, declaration: DeclarationPlace) -> bool {
        match declaration {
            DeclarationPlace::Function(at) => 0 <= at < self.functions.len(),
            DeclarationPlace::Struct(at) => 0 <= at < self.structs.len(),
            DeclarationPlace::ConstantBuffer(slot) => 0 <= slot < self.constant_buffers.len()
                && self.constant_buffers[slot] is Some,
            DeclarationPlace::Texture(slot) => 0 <= slot < self.textures.len() && self.textures[slot]
                is Some,
            DeclarationPlace::Constant(at) => 0 <= at < self.constants.len(),
        }
    }

    /// Whether `function` has a body and, where it is an entry point, meets
    /// the contract of the entry points against the types that the tree has
    /// fixed for them.
    pub open spec fn accepts(self, function: FunctionView) -> bool {
        &&& function.code_block is Some
        &&& function.name == "vertex_main"@ ==> {
            &&& function.parameters.len() == 1
            &&& self.vertex_input_type == Some(function.parameters[0].parameter_type)
            &&& self.fragment_input_type is Some
            &&& function.return_type.same_as(self.fragment_input_type->0)
        }
        &&& function.name == "fragment_main"@ ==> {
            &&& function.parameters.len() == 1
            &&& self.fragment_input_type is Some
            &&& function.parameters[0].parameter_type.same_as(self.fragment_input_type->0)
            &&& function.return_type.same_as(float4_view())
        }
    }

    /// Whether every name that a function, a struct, an alias or a constant
    /// bears resolves to that declaration alone: it is the first of its kind
    /// with the name, no declaration of a kind that comes later in this list
    /// has the name, the name has no reserved prefix and is not the name of
    /// a type.
    pub open spec fn names_resolve(self) -> bool {
        &&& forall|i: int|
            0 <= i < self.functions.len() ==> {
                let name = (#[trigger] self.functions[i]).name;
                &&& is_allowed_name(name)
                &&& first(self.functions, function_named(name)) == Some(i)
                &&& first(self.structs, struct_named(name)) is None
                &&& first(self.type_aliases, member_named(name)) is None
                &&& first(self.constants, constant_named(name)) is None
            }
        &&& forall|i: int|
            0 <= i < self.structs.len() ==> {
                let name = (#[trigger] self.structs[i]).name;
                &&& is_allowed_name(name)
                &&& first(self.structs, struct_named(name)) == Some(i)
                &&& first(self.type_aliases, member_named(name)) is None
                &&& first(self.constants, constant_named(name)) is None
            }
        &&& forall|i: int|
            0 <= i < self.type_aliases.len() ==> {
                let name = (#[trigger] self.type_aliases[i]).0;
                &&& is_allowed_name(name)
                &&& first(self.type_aliases, member_named(name)) == Some(i)
                &&& first(self.constants, constant_named(name)) is None
            }
        &&& forall|i: int|
            0 <= i < self.constants.len() ==> {
                let name = (#[trigger] self.constants[i]).name;
                &&& is_allowed_name(name)
                &&& first(self.constants, constant_named(name)) == Some(i)
            }
    }

    /// Whether the struct types in the aliases, in the signatures of the
    /// functions and in the types fixed for the entry points are the structs
    /// of the tree: each holds the struct that the tree holds under its
    /// handle.
    pub open spec fn signatures_are_interned(self) -> bool {
        &&& forall|i: int|
            0 <= i < self.type_aliases.len() ==> is_interned(
                (#[trigger] self.type_aliases[i]).1,
                self.structs,
            )
        &&& forall|i: int|
            0 <= i < self.functions.len() ==> is_interned_function(
                #[trigger] self.functions[i],
                self.structs,
            )
        &&& (self.vertex_input_type matches Some(t) ==> is_interned(t, self.structs))
        &&& (self.fragment_input_type matches Some(t) ==> is_interned(t, self.structs))
    }

    /// Whether no function of the tree has a parameter or defines a
    /// variable with a reserved prefix.
    pub open spec fn locals_are_allowed(self) -> bool {
        forall|i: int|
            0 <= i < self.functions.len() ==> (#[trigger] self.functions[i]).locals_are_allowed()
    }

    /// Whether every struct and every texture of the tree is in order.
    pub open spec fn resources_are_in_order(self) -> bool {
        &&& forall|i: int| 0 <= i < self.structs.len() ==> (#[trigger] self.structs[i]).in_order()
        &&& forall|slot: int|
            0 <= slot < self.textures.len() && (#[trigger] self.textures[slot]) is Some
                ==> self.textures[slot]->0.in_order()
    }

    /// Whether each constant buffer and each texture sits in the slot that
    /// it names.
    pub open spec fn resources_sit_in_their_slots(self) -> bool {
        &&& forall|slot: int|
            0 <= slot < self.constant_buffers.len() && (#[trigger] self.constant_buffers[slot])
                is Some ==> self.constant_buffers[slot]->0.slot == slot
        &&& forall|slot: int|
            0 <= slot < self.textures.len() && (#[trigger] self.textures[slot]) is Some
                ==> self.textures[slot]->0.slot == slot
    }

    /// Whether the tree holds every declaration that it is to write out,
    /// and every function has a body and, where it is an entry point, meets
    /// the contract of the entry points.
    pub open spec fn writable(self) -> bool {
        &&& forall|i: int|
            0 <= i < self.declaration_order.len() ==> self.declares(#[trigger] self.declaration_order[i])
        &&& forall|i: int| 0 <= i < self.functions.len() ==> self.accepts(#[trigger] self.functions[i])
    }

    /// The invariant of the tree: it has its 32 constant buffer slots, its 8
    /// texture slots and the built-in functions, and each resource sits in
    /// its slot; every name resolves to one declaration, and the global
    /// scope is in order; the tree holds every declaration that it is to
    /// write out; every function has a body, and the entry points meet their
    /// contract; the vertex input type is a struct with semantics and the
    /// type shared by the entry points is one with the semantic
    /// `SV_POSITION`.
    pub open spec fn well_formed(self) -> bool {
        &&& self.constant_buffers.len() == MAX_CONSTANT_BUFFERS
        &&& self.textures.len() == MAX_TEXTURES
        &&& self.builtin_functions == builtin_function_views()
        &&& self.resources_sit_in_their_slots()
        &&& self.names_resolve()
        &&& self.global_scope.well_formed()
        &&& self.writable()
        &&& (self.vertex_input_type matches Some(t) ==> is_semantic_struct(t))
        &&& (self.fragment_input_type matches Some(t) ==> is_position_struct(t))
    }

    /// Whether both entry points are there.
    pub open spec fn complete(self) -> bool {
        self.has_function("vertex_main"@) && self.has_function("fragment_main"@)
    }

    /// The member of the type shared by the entry points that holds the
    /// position.
    pub open spec fn position_output_name(self) -> Seq<char> {
        self.fragment_input_type->0.resolved()->Struct_1.position_member()->0
    }

    /// The kind and the name of the declaration that `declaration` points
    /// to.
    pub open spec fn label(self, declaration: DeclarationPlace) -> (DeclarationKind, Seq<char>) {
        match declaration {
            DeclarationPlace::Function(at) => (DeclarationKind::Function, self.functions[at].name),
            DeclarationPlace::Struct(at) => (DeclarationKind::Struct, self.structs[at].name),
            DeclarationPlace::ConstantBuffer(slot) => (
                DeclarationKind::ConstantBuffer,
                self.constant_buffers[slot]->0.name,
            ),
            DeclarationPlace::Texture(slot) => (
                DeclarationKind::Texture,
                self.textures[slot]->0.name,
            ),
            DeclarationPlace::Constant(at) => (DeclarationKind::Constant, self.constants[at].name),
        }
    }

    /// The kinds and the names of the declarations that the backends write
    /// out, in the order in which they write them.
    pub open spec fn written(self) -> Seq<(DeclarationKind, Seq<char>)> {
        Seq::new(self.declaration_order.len(), |i: int| self.label(self.declaration_order[i]))
    }

    /// What HLSL writes for one declaration.
    pub open spec fn declaration_hlsl(self, declaration: DeclarationPlace) -> Seq<char> {
        match declaration {
            DeclarationPlace::Function(at) => self.functions[at].hlsl(),
            DeclarationPlace::Struct(at) => self.structs[at].hlsl(),
            DeclarationPlace::ConstantBuffer(slot) => self.constant_buffers[slot]->0.hlsl(),
            DeclarationPlace::Texture(slot) => self.textures[slot]->0.hlsl(),
            DeclarationPlace::Constant(at) => self.constants[at].hlsl(),
        }
    }

    /// What GLSL writes for one declaration, in the vertex unit and in the
    /// fragment unit.
    pub open spec fn declaration_glsl(self, declaration: DeclarationPlace) -> (Seq<char>, Seq<char>) {
        match declaration {
            DeclarationPlace::Function(at) => self.functions[at].glsl(
                self.position_output_name(),
            ),
            DeclarationPlace::Struct(at) => (
                self.structs[at].glsl(),
                self.structs[at].glsl(),
            ),
            DeclarationPlace::ConstantBuffer(slot) => (
                self.constant_buffers[slot]->0.glsl(),
                self.constant_buffers[slot]->0.glsl(),
            ),
            DeclarationPlace::Texture(slot) => (
                self.textures[slot]->0.glsl(),
                self.textures[slot]->0.glsl(),
            ),
            DeclarationPlace::Constant(at) => (
                self.constants[at].glsl(),
                self.constants[at].glsl(),
            ),
        }
    }

    /// The declarations in HLSL, in the order of their declaration, each
    /// followed by an empty line.
    pub open spec fn hlsl_declarations(self) -> Seq<Seq<char>> {
        Seq::new(
            self.declaration_order.len(),
            |i: int| self.declaration_hlsl(self.declaration_order[i]) + "\n"@,
        )
    }

    /// The declarations of the GLSL vertex unit, in the order of their
    /// declaration, each followed by an empty line.
    pub open spec fn glsl_vertex_declarations(self) -> Seq<Seq<char>> {
        Seq::new(
            self.declaration_order.len(),
            |i: int| self.declaration_glsl(self.declaration_order[i]).0 + "\n"@,
        )
    }

    /// The declarations of the GLSL fragment unit, in the order of their
    /// declaration, each followed by an empty line.
    pub open spec fn glsl_fragment_declarations(self) -> Seq<Seq<char>> {
        Seq::new(
            self.declaration_order.len(),
            |i: int| self.declaration_glsl(self.declaration_order[i]).1 + "\n"@,
        )
    }

    /// The program in HLSL: the notice, then the declarations in the order
    /// of their declaration.
    pub open spec fn hlsl(self) -> Seq<char> {
        generated_notice() + concat(self.hlsl_declarations())
    }

    /// The vertex unit of the program in GLSL: the version, the notice, the
    /// inputs of the vertex stage, the outputs to the fragment stage, then
    /// the declarations in the order of their declaration.
    pub open spec fn glsl_vertex(self) -> Seq<char> {
        "#version 430 core\n\n"@ + generated_notice() + concat(
            vertex_input_lines(self.vertex_input_type->0.members()),
        ) + "\n"@ + concat(pixel_input_lines(self.fragment_input_type->0.members(), "out "@)) + "\n"@
            + concat(self.glsl_vertex_declarations())
    }

    /// The fragment unit of the program in GLSL: the version, the notice,
    /// the colour output, the inputs from the vertex stage, then the
    /// declarations in the order of their declaration.
    pub open spec fn glsl_fragment(self) -> Seq<char> {
        "#version 430 core\n\n"@ + generated_notice() + "out vec4 acsl_fragment_color;\n\n"@ + concat(
            pixel_input_lines(self.fragment_input_type->0.members(), "in "@),
        ) + "\n"@ + concat(self.glsl_fragment_declarations())
    }
}

/// Nothing in the tree bears a name that is free.
proof fn free_name_is_borne_by_nothing(tree: TreeView, name: Seq<char>)
    requires
        tree.name_is_free(name),
    ensures
        forall|i: int| 0 <= i < tree.functions.len() ==> (#[trigger] tree.functions[i]).name != name,
        forall|i: int| 0 <= i < tree.structs.len() ==> (#[trigger] tree.structs[i]).name != name,
        forall|i: int| 0 <= i < tree.type_aliases.len() ==> (#[trigger] tree.type_aliases[i]).0 != name,
        forall|i: int| 0 <= i < tree.constants.len() ==> (#[trigger] tree.constants[i]).name != name,
{
    first_is_none(tree.functions, function_named(name));
    first_is_none(tree.structs, struct_named(name));
    first_is_none(tree.type_aliases, member_named(name));
    first_is_none(tree.constants, constant_named(name));
    assert forall|i: int| 0 <= i < tree.functions.len() implies (#[trigger] tree.functions[i]).name
        != name by {
        assert(!function_named(name)(tree.functions[i]));
    }
    assert forall|i: int| 0 <= i < tree.structs.len() implies (#[trigger] tree.structs[i]).name
        != name by {
        assert(!struct_named(name)(tree.structs[i]));
    }
    assert forall|i: int| 0 <= i < tree.type_aliases.len() implies (#[trigger] tree.type_aliases[i]).0
        != name by {
        assert(!member_named(name)(tree.type_aliases[i]));
    }
    assert forall|i: int| 0 <= i < tree.constants.len() implies (#[trigger] tree.constants[i]).name
        != name by {
        assert(!constant_named(name)(tree.constants[i]));
    }
}

/// A function with a free name keeps the names of the tree resolved.
proof fn names_resolve_with_function(tree: TreeView, function: FunctionView)
    requires
        tree.names_resolve(),
        tree.name_error(function.name) is None,
    ensures
        (TreeView { functions: tree.functions.push(function), ..tree }).names_resolve(),
{
    let after = TreeView { functions: tree.functions.push(function), ..tree };
    free_name_is_borne_by_nothing(tree, function.name);
    assert forall|i: int| 0 <= i < after.functions.len() implies {
        let name = (#[trigger] after.functions[i]).name;
        &&& is_allowed_name(name)
        &&& first(after.functions, function_named(name)) == Some(i)
        &&& first(after.structs, struct_named(name)) is None
        &&& first(after.type_aliases, member_named(name)) is None
        &&& first(after.constants, constant_named(name)) is None
    } by {
        first_push(tree.functions, function_named(after.functions[i].name), function);
        if i < tree.functions.len() {
            assert(after.functions[i] == tree.functions[i]);
        }
    }
    assert forall|i: int| 0 <= i < after.structs.len() implies {
        let name = (#[trigger] after.structs[i]).name;
        &&& is_allowed_name(name)
        &&& first(after.structs, struct_named(name)) == Some(i)
        &&& first(after.type_aliases, member_named(name)) is None
        &&& first(after.constants, constant_named(name)) is None
    } by {
        assert(after.structs[i] == tree.structs[i]);
    }
    assert forall|i: int| 0 <= i < after.type_aliases.len() implies {
        let name = (#[trigger] after.type_aliases[i]).0;
        &&& is_allowed_name(name)
        &&& first(after.type_aliases, member_named(name)) == Some(i)
        &&& first(after.constants, constant_named(name)) is None
    } by {
        assert(after.type_aliases[i] == tree.type_aliases[i]);
    }
    assert forall|i: int| 0 <= i < after.constants.len() implies {
        let name = (#[trigger] after.constants[i]).name;
        &&& is_allowed_name(name)
        &&& first(after.constants, constant_named(name)) == Some(i)
    } by {
        assert(after.constants[i] == tree.constants[i]);
    }
}

/// A struct with a free name keeps the names of the tree resolved.
proof fn names_resolve_with_struct(tree: TreeView, structure: StructView)
    requires
        tree.names_resolve(),
        tree.name_error(structure.name) is None,
    ensures
        (TreeView { structs: tree.structs.push(structure), ..tree }).names_resolve(),
{
    let after = TreeView { structs: tree.structs.push(structure), ..tree };
    free_name_is_borne_by_nothing(tree, structure.name);
    assert forall|i: int| 0 <= i < after.functions.len() implies {
        let name = (#[trigger] after.functions[i]).name;
        &&& is_allowed_name(name)
        &&& first(after.functions, function_named(name)) == Some(i)
        &&& first(after.structs, struct_named(name)) is None
        &&& first(after.type_aliases, member_named(name)) is None
        &&& first(after.constants, constant_named(name)) is None
    } by {
        assert(after.functions[i] == tree.functions[i]);
        first_push(tree.structs, struct_named(tree.functions[i].name), structure);
    }
    assert forall|i: int| 0 <= i < after.structs.len() implies {
        let name = (#[trigger] after.structs[i]).name;
        &&& is_allowed_name(name)
        &&& first(after.structs, struct_named(name)) == Some(i)
        &&& first(after.type_aliases, member_named(name)) is None
        &&& first(after.constants, constant_named(name)) is None
    } by {
        first_push(tree.structs, struct_named(after.structs[i].name), structure);
        if i < tree.structs.len() {
            assert(after.structs[i] == tree.structs[i]);
        }
    }
    assert forall|i: int| 0 <= i < after.type_aliases.len() implies {
        let name = (#[trigger] after.type_aliases[i]).0;
        &&& is_allowed_name(name)
        &&& first(after.type_aliases, member_named(name)) == Some(i)
        &&& first(after.constants, constant_named(name)) is None
    } by {
        assert(after.type_aliases[i] == tree.type_aliases[i]);
    }
    assert forall|i: int| 0 <= i < after.constants.len() implies {
        let name = (#[trigger] after.constants[i]).name;
        &&& is_allowed_name(name)
        &&& first(after.constants, constant_named(name)) == Some(i)
    } by {
        assert(after.constants[i] == tree.constants[i]);
    }
}

/// An alias with a free name keeps the names of the tree resolved.
proof fn names_resolve_with_alias(tree: TreeView, name: Seq<char>, alias_type: TypeView)
    requires
        tree.names_resolve(),
        tree.name_error(name) is None,
    ensures
        (TreeView { type_aliases: tree.type_aliases.push((name, alias_type)), ..tree }).names_resolve(),
{
    let after = TreeView { type_aliases: tree.type_aliases.push((name, alias_type)), ..tree };
    free_name_is_borne_by_nothing(tree, name);
    assert forall|i: int| 0 <= i < after.functions.len() implies {
        let name = (#[trigger] after.functions[i]).name;
        &&& is_allowed_name(name)
        &&& first(after.functions, function_named(name)) == Some(i)
        &&& first(after.structs, struct_named(name)) is None
        &&& first(after.type_aliases, member_named(name)) is None
        &&& first(after.constants, constant_named(name)) is None
    } by {
        assert(after.functions[i] == tree.functions[i]);
        first_push(tree.type_aliases, member_named(tree.functions[i].name), (name, alias_type));
    }
    assert forall|i: int| 0 <= i < after.structs.len() implies {
        let name = (#[trigger] after.structs[i]).name;
        &&& is_allowed_name(name)
        &&& first(after.structs, struct_named(name)) == Some(i)
        &&& first(after.type_aliases, member_named(name)) is None
        &&& first(after.constants, constant_named(name)) is None
    } by {
        assert(after.structs[i] == tree.structs[i]);
        first_push(tree.type_aliases, member_named(tree.structs[i].name), (name, alias_type));
    }
    assert forall|i: int| 0 <= i < after.type_aliases.len() implies {
        let name = (#[trigger] after.type_aliases[i]).0;
        &&& is_allowed_name(name)
        &&& first(after.type_aliases, member_named(name)) == Some(i)
        &&& first(after.constants, constant_named(name)) is None
    } by {
        first_push(tree.type_aliases, member_named(after.type_aliases[i].0), (name, alias_type));
        if i < tree.type_aliases.len() {
            assert(after.type_aliases[i] == tree.type_aliases[i]);
        }
    }
    assert forall|i: int| 0 <= i < after.constants.len() implies {
        let name = (#[trigger] after.constants[i]).name;
        &&& is_allowed_name(name)
        &&& first(after.constants, constant_named(name)) == Some(i)
    } by {
        assert(after.constants[i] == tree.constants[i]);
    }
}

/// A constant with a free name keeps the names of the tree resolved.
proof fn names_resolve_with_constant(tree: TreeView, constant: ConstantView)
    requires
        tree.names_resolve(),
        tree.name_error(constant.name) is None,
    ensures
        (TreeView { constants: tree.constants.push(constant), ..tree }).names_resolve(),
{
    let after = TreeView { constants: tree.constants.push(constant), ..tree };
    free_name_is_borne_by_nothing(tree, constant.name);
    assert forall|i: int| 0 <= i < after.functions.len() implies {
        let name = (#[trigger] after.functions[i]).name;
        &&& is_allowed_name(name)
        &&& first(after.functions, function_named(name)) == Some(i)
        &&& first(after.structs, struct_named(name)) is None
        &&& first(after.type_aliases, member_named(name)) is None
        &&& first(after.constants, constant_named(name)) is None
    } by {
        assert(after.functions[i] == tree.functions[i]);
        first_push(tree.constants, constant_named(tree.functions[i].name), constant);
    }
    assert forall|i: int| 0 <= i < after.structs.len() implies {
        let name = (#[trigger] after.structs[i]).name;
        &&& is_allowed_name(name)
        &&& first(after.structs, struct_named(name)) == Some(i)
        &&& first(after.type_aliases, member_named(name)) is None
        &&& first(after.constants, constant_named(name)) is None
    } by {
        assert(after.structs[i] == tree.structs[i]);
        first_push(tree.constants, constant_named(tree.structs[i].name), constant);
    }
    assert forall|i: int| 0 <= i < after.type_aliases.len() implies {
        let name = (#[trigger] after.type_aliases[i]).0;
        &&& is_allowed_name(name)
        &&& first(after.type_aliases, member_named(name)) == Some(i)
        &&& first(after.constants, constant_named(name)) is None
    } by {
        assert(after.type_aliases[i] == tree.type_aliases[i]);
        first_push(tree.constants, constant_named(tree.type_aliases[i].0), constant);
    }
    assert forall|i: int| 0 <= i < after.constants.len() implies {
        let name = (#[trigger] after.constants[i]).name;
        &&& is_allowed_name(name)
        &&& first(after.constants, constant_named(name)) == Some(i)
    } by {
        first_push(tree.constants, constant_named(after.constants[i].name), constant);
        if i < tree.constants.len() {
            assert(after.constants[i] == tree.constants[i]);
        }
    }
}

/// Adding a struct keeps the invariant of the tree.
pub proof fn push_struct_preserves(tree: TreeView, structure: StructView)
    requires
        tree.well_formed(),
        tree.push_struct(structure) is Ok,
    ensures
        tree.push_struct(structure)->Ok_0.well_formed(),
{
    let after = tree.push_struct(structure)->Ok_0;
    names_resolve_with_struct(tree, structure);
    assert((TreeView { structs: tree.structs.push(structure), ..tree }).names_resolve()
        == after.names_resolve());
    assert forall|i: int| 0 <= i < after.declaration_order.len() implies after.declares(
        #[trigger] after.declaration_order[i],
    ) by {
        if i < tree.declaration_order.len() {
            assert(tree.declares(tree.declaration_order[i]));
        }
    }
    assert forall|i: int| 0 <= i < after.functions.len() implies after.accepts(
        #[trigger] after.functions[i],
    ) by {
        assert(tree.accepts(tree.functions[i]));
    }
}

/// Adding an alias keeps the invariant of the tree.
pub proof fn push_type_alias_preserves(tree: TreeView, name: Seq<char>, alias_type: TypeView)
    requires
        tree.well_formed(),
        tree.push_type_alias(name, alias_type) is Ok,
    ensures
        tree.push_type_alias(name, alias_type)->Ok_0.well_formed(),
{
    let after = tree.push_type_alias(name, alias_type)->Ok_0;
    names_resolve_with_alias(tree, name, alias_type);
    assert forall|i: int| 0 <= i < after.declaration_order.len() implies after.declares(
        #[trigger] after.declaration_order[i],
    ) by {
        assert(tree.declares(tree.declaration_order[i]));
    }
    assert forall|i: int| 0 <= i < after.functions.len() implies after.accepts(
        #[trigger] after.functions[i],
    ) by {
        assert(tree.accepts(tree.functions[i]));
    }
}

/// Adding a constant buffer keeps the invariant of the tree.
pub proof fn push_constant_buffer_preserves(tree: TreeView, constant_buffer: ConstantBufferView)
    requires
        tree.well_formed(),
        constant_buffer.slot < MAX_CONSTANT_BUFFERS,
        tree.push_constant_buffer(constant_buffer) is Ok,
    ensures
        tree.push_constant_buffer(constant_buffer)->Ok_0.well_formed(),
{
    let after = tree.push_constant_buffer(constant_buffer)->Ok_0;
    scopes_stay_in_order(tree.global_scope, constant_buffer.name, constant_buffer.cb_type, false);
    assert(after.names_resolve() == tree.names_resolve());
    assert forall|i: int| 0 <= i < after.declaration_order.len() implies after.declares(
        #[trigger] after.declaration_order[i],
    ) by {
        if i < tree.declaration_order.len() {
            assert(tree.declares(tree.declaration_order[i]));
        }
    }
    assert forall|i: int| 0 <= i < after.functions.len() implies after.accepts(
        #[trigger] after.functions[i],
    ) by {
        assert(tree.accepts(tree.functions[i]));
    }
}

/// Adding a texture keeps the invariant of the tree.
pub proof fn push_texture_preserves(tree: TreeView, texture: TextureView)
    requires
        tree.well_formed(),
        texture.slot < MAX_TEXTURES,
        tree.push_texture(texture) is Ok,
    ensures
        tree.push_texture(texture)->Ok_0.well_formed(),
{
    let after = tree.push_texture(texture)->Ok_0;
    scopes_stay_in_order(
        tree.global_scope,
        texture.name,
        TypeView::Primitive(Primitive::Texture),
        false,
    );
    assert(after.names_resolve() == tree.names_resolve());
    assert forall|i: int| 0 <= i < after.declaration_order.len() implies after.declares(
        #[trigger] after.declaration_order[i],
    ) by {
        if i < tree.declaration_order.len() {
            assert(tree.declares(tree.declaration_order[i]));
        }
    }
    assert forall|i: int| 0 <= i < after.functions.len() implies after.accepts(
        #[trigger] after.functions[i],
    ) by {
        assert(tree.accepts(tree.functions[i]));
    }
}

/// Adding a constant keeps the invariant of the tree.
pub proof fn push_constant_preserves(tree: TreeView, constant: ConstantView)
    requires
        tree.well_formed(),
        tree.push_constant(constant) is Ok,
    ensures
        tree.push_constant(constant)->Ok_0.well_formed(),
{
    let after = tree.push_constant(constant)->Ok_0;
    names_resolve_with_constant(tree, constant);
    scopes_stay_in_order(tree.global_scope, constant.name, constant.constant_type, false);
    assert((TreeView { constants: tree.constants.push(constant), ..tree }).names_resolve()
        == after.names_resolve());
    assert forall|i: int| 0 <= i < after.declaration_order.len() implies after.declares(
        #[trigger] after.declaration_order[i],
    ) by {
        if i < tree.declaration_order.len() {
            assert(tree.declares(tree.declaration_order[i]));
        }
    }
    assert forall|i: int| 0 <= i < after.functions.len() implies after.accepts(
        #[trigger] after.functions[i],
    ) by {
        assert(tree.accepts(tree.functions[i]));
    }
}

/// Adding a function with a body keeps the invariant of the tree.
pub proof fn push_function_preserves(tree: TreeView, function: FunctionView)
    requires
        tree.well_formed(),
        function.code_block is Some,
        tree.push_function(function) is Ok,
    ensures
        tree.push_function(function)->Ok_0.well_formed(),
{
    let after = tree.push_function(function)->Ok_0;
    free_name_is_borne_by_nothing(tree, function.name);
    names_resolve_with_function(tree, function);
    assert((TreeView { functions: tree.functions.push(function), ..tree }).names_resolve()
        == after.names_resolve());
    function::entry_point_names_differ();
    assert forall|i: int| 0 <= i < after.declaration_order.len() implies after.declares(
        #[trigger] after.declaration_order[i],
    ) by {
        if i < tree.declaration_order.len() {
            assert(tree.declares(tree.declaration_order[i]));
        }
    }
    assert forall|i: int| 0 <= i < after.functions.len() implies after.accepts(
        #[trigger] after.functions[i],
    ) by {
        if i < tree.functions.len() {
            assert(tree.accepts(tree.functions[i]));
            assert(tree.functions[i].name != function.name);
        } else {
            if function.name == "fragment_main"@ {
                match tree.fragment_input_type {
                    Some(shared) => {},
                    None => {
                        same_as_is_reflexive(function.parameters[0].parameter_type);
                    },
                }
            } else if function.name == "vertex_main"@ {
                match tree.fragment_input_type {
                    Some(shared) => {},
                    None => {
                        same_as_is_reflexive(function.return_type);
                    },
                }
            }
        }
    }
}

/// A type named in a tree whose signatures are interned is interned.
pub proof fn named_type_is_interned(tree: TreeView, name: Seq<char>)
    requires
        tree.signatures_are_interned(),
        tree.type_from_name(name) is Ok,
    ensures
        is_interned(tree.type_from_name(name)->Ok_0, tree.structs),
{
    first_from_found(tree.structs, struct_named(name), 0);
    first_from_found(tree.type_aliases, member_named(name), 0);
}

/// Adding a struct keeps the signatures of the tree interned.
pub proof fn push_struct_keeps_signatures(tree: TreeView, structure: StructView)
    requires
        tree.signatures_are_interned(),
        tree.push_struct(structure) is Ok,
    ensures
        tree.push_struct(structure)->Ok_0.signatures_are_interned(),
{
    let after = tree.push_struct(structure)->Ok_0;
    assert forall|t: TypeView| is_interned(t, tree.structs) implies is_interned(
        t,
        after.structs,
    ) by {}
    assert forall|i: int| 0 <= i < after.functions.len() implies is_interned_function(
        #[trigger] after.functions[i],
        after.structs,
    ) by {
        assert(is_interned_function(tree.functions[i], tree.structs));
    }
}

/// Adding an alias of an interned type keeps the signatures of the tree
/// interned.
pub proof fn push_type_alias_keeps_signatures(tree: TreeView, name: Seq<char>, aliased: TypeView)
    requires
        tree.signatures_are_interned(),
        is_interned(aliased, tree.structs),
        tree.push_type_alias(name, TypeView::Alias(Box::new(aliased))) is Ok,
    ensures
        tree.push_type_alias(name, TypeView::Alias(Box::new(aliased)))->Ok_0.signatures_are_interned(),
{
    let after = tree.push_type_alias(name, TypeView::Alias(Box::new(aliased)))->Ok_0;
    assert forall|i: int| 0 <= i < after.type_aliases.len() implies is_interned(
        (#[trigger] after.type_aliases[i]).1,
        after.structs,
    ) by {
        if i < tree.type_aliases.len() {
            assert(after.type_aliases[i] == tree.type_aliases[i]);
        }
    }
}

/// Adding a function with an interned signature keeps the signatures of the
/// tree interned.
pub proof fn push_function_keeps_signatures(tree: TreeView, function: FunctionView)
    requires
        tree.signatures_are_interned(),
        is_interned_function(function, tree.structs),
        tree.push_function(function) is Ok,
    ensures
        tree.push_function(function)->Ok_0.signatures_are_interned(),
{
    let after = tree.push_function(function)->Ok_0;
    assert forall|i: int| 0 <= i < after.functions.len() implies is_interned_function(
        #[trigger] after.functions[i],
        after.structs,
    ) by {
        if i < tree.functions.len() {
            assert(after.functions[i] == tree.functions[i]);
        }
    }
    if function.name == "vertex_main"@ || function.name == "fragment_main"@ {
        assert(is_interned(function.parameters[0].parameter_type, tree.structs));
    }
}

/// In a tree that keeps its invariant, has interned signatures and has both
/// entry points, the entry points share one struct: what `vertex_main`
/// returns and what `fragment_main` takes is, behind the aliases, the same
/// struct of the tree under the same handle, and this struct has a member
/// with the semantic `SV_POSITION`.
pub proof fn entry_points_share_one_struct(tree: TreeView)
    requires
        tree.well_formed(),
        tree.signatures_are_interned(),
        tree.complete(),
    ensures
        ({
            let vertex = tree.functions[first(tree.functions, function_named("vertex_main"@))->0];
            let fragment = tree.functions[first(tree.functions, function_named("fragment_main"@))->0];
            &&& vertex.return_type.resolved() == fragment.parameters[0].parameter_type.resolved()
            &&& vertex.return_type.resolved() matches TypeView::Struct(handle, structure)
                && 0 <= handle < tree.structs.len() && tree.structs[handle] == structure
                && structure.position_member() is Some
        }),
{
    entry_points_meet_their_contract(tree);
    first_from_found(tree.functions, function_named("vertex_main"@), 0);
    first_from_found(tree.functions, function_named("fragment_main"@), 0);
    let vertex = tree.functions[first(tree.functions, function_named("vertex_main"@))->0];
    let fragment = tree.functions[first(tree.functions, function_named("fragment_main"@))->0];
    assert(is_interned_function(vertex, tree.structs));
    assert(is_interned_function(fragment, tree.structs));
    assert(is_interned(fragment.parameters[0].parameter_type, tree.structs));
}

/// A struct that is added is written out last, after what was written out
/// before.
pub proof fn push_struct_is_written_last(tree: TreeView, structure: StructView)
    requires
        tree.well_formed(),
        tree.push_struct(structure) is Ok,
    ensures
        tree.push_struct(structure)->Ok_0.written() == tree.written().push(
            (DeclarationKind::Struct, structure.name),
        ),
{
    let after = tree.push_struct(structure)->Ok_0;
    assert forall|i: int| 0 <= i < tree.declaration_order.len() implies after.label(
        after.declaration_order[i],
    ) == tree.label(tree.declaration_order[i]) by {
        assert(tree.declares(tree.declaration_order[i]));
    }
    assert(after.written() =~= tree.written().push((DeclarationKind::Struct, structure.name)));
}

/// An alias that is added is not written out.
pub proof fn push_type_alias_is_not_written(tree: TreeView, name: Seq<char>, alias_type: TypeView)
    requires
        tree.well_formed(),
        tree.push_type_alias(name, alias_type) is Ok,
    ensures
        tree.push_type_alias(name, alias_type)->Ok_0.written() == tree.written(),
{
    let after = tree.push_type_alias(name, alias_type)->Ok_0;
    assert(after.written() =~= tree.written());
}

/// A constant buffer that is added is written out last.
pub proof fn push_constant_buffer_is_written_last(tree: TreeView, constant_buffer: ConstantBufferView)
    requires
        tree.well_formed(),
        constant_buffer.slot < MAX_CONSTANT_BUFFERS,
        tree.push_constant_buffer(constant_buffer) is Ok,
    ensures
        tree.push_constant_buffer(constant_buffer)->Ok_0.written() == tree.written().push(
            (DeclarationKind::ConstantBuffer, constant_buffer.name),
        ),
{
    let after = tree.push_constant_buffer(constant_buffer)->Ok_0;
    assert forall|i: int| 0 <= i < tree.declaration_order.len() implies after.label(
        after.declaration_order[i],
    ) == tree.label(tree.declaration_order[i]) by {
        assert(tree.declares(tree.declaration_order[i]));
    }
    assert(after.written() =~= tree.written().push(
        (DeclarationKind::ConstantBuffer, constant_buffer.name),
    ));
}

/// A texture that is added is written out last.
pub proof fn push_texture_is_written_last(tree: TreeView, texture: TextureView)
    requires
        tree.well_formed(),
        texture.slot < MAX_TEXTURES,
        tree.push_texture(texture) is Ok,
    ensures
        tree.push_texture(texture)->Ok_0.written() == tree.written().push(
            (DeclarationKind::Texture, texture.name),
        ),
{
    let after = tree.push_texture(texture)->Ok_0;
    assert forall|i: int| 0 <= i < tree.declaration_order.len() implies after.label(
        after.declaration_order[i],
    ) == tree.label(tree.declaration_order[i]) by {
        assert(tree.declares(tree.declaration_order[i]));
    }
    assert(after.written() =~= tree.written().push((DeclarationKind::Texture, texture.name)));
}

/// A constant that is added is written out last.
pub proof fn push_constant_is_written_last(tree: TreeView, constant: ConstantView)
    requires
        tree.well_formed(),
        tree.push_constant(constant) is Ok,
    ensures
        tree.push_constant(constant)->Ok_0.written() == tree.written().push(
            (DeclarationKind::Constant, constant.name),
        ),
{
    let after = tree.push_constant(constant)->Ok_0;
    assert forall|i: int| 0 <= i < tree.declaration_order.len() implies after.label(
        after.declaration_order[i],
    ) == tree.label(tree.declaration_order[i]) by {
        assert(tree.declares(tree.declaration_order[i]));
    }
    assert(after.written() =~= tree.written().push((DeclarationKind::Constant, constant.name)));
}

/// A function that is added is written out last.
pub proof fn push_function_is_written_last(tree: TreeView, function: FunctionView)
    requires
        tree.well_formed(),
        tree.push_function(function) is Ok,
    ensures
        tree.push_function(function)->Ok_0.written() == tree.written().push(
            (DeclarationKind::Function, function.name),
        ),
{
    let after = tree.push_function(function)->Ok_0;
    assert forall|i: int| 0 <= i < tree.declaration_order.len() implies after.label(
        after.declaration_order[i],
    ) == tree.label(tree.declaration_order[i]) by {
        assert(tree.declares(tree.declaration_order[i]));
    }
    assert(after.written() =~= tree.written().push((DeclarationKind::Function, function.name)));
}

/// In a tree that keeps its invariant and has both entry points,
/// `vertex_main` takes one parameter, a struct with semantics, and returns
/// the type of the one parameter of `fragment_main`; that type is the type
/// that the tree holds as shared by the entry points, a struct with a member
/// whose semantic is `SV_POSITION`; and `fragment_main` returns `float4`.
pub proof fn entry_points_meet_their_contract(tree: TreeView)
    requires
        tree.well_formed(),
        tree.complete(),
    ensures
        ({
            let vertex = tree.functions[first(tree.functions, function_named("vertex_main"@))->0];
            let fragment = tree.functions[first(tree.functions, function_named("fragment_main"@))->0];
            &&& vertex.name == "vertex_main"@
            &&& fragment.name == "fragment_main"@
            &&& vertex.parameters.len() == 1
            &&& is_semantic_struct(vertex.parameters[0].parameter_type)
            &&& fragment.parameters.len() == 1
            &&& vertex.return_type.same_as(fragment.parameters[0].parameter_type)
            &&& tree.fragment_input_type is Some
            &&& fragment.parameters[0].parameter_type.same_as(tree.fragment_input_type->0)
            &&& is_position_struct(tree.fragment_input_type->0)
            &&& fragment.return_type.same_as(float4_view())
        }),
{
    first_from_found(tree.functions, function_named("vertex_main"@), 0);
    first_from_found(tree.functions, function_named("fragment_main"@), 0);
    let vertex = tree.functions[first(tree.functions, function_named("vertex_main"@))->0];
    let fragment = tree.functions[first(tree.functions, function_named("fragment_main"@))->0];
    assert(function_named("vertex_main"@)(vertex));
    assert(function_named("fragment_main"@)(fragment));
    assert(tree.accepts(vertex));
    assert(tree.accepts(fragment));
}

/// A name that begins with `acsl_` or `gl_` is taken by nothing: a
/// function, a struct, an alias, a constant, a constant buffer or a texture
/// of that name is answered with `InvalidVariableName` and the name.
pub proof fn reserved_declarations_are_rejected(
    tree: TreeView,
    function: FunctionView,
    structure: StructView,
    alias: (Seq<char>, TypeView),
    constant: ConstantView,
    constant_buffer: ConstantBufferView,
    texture: TextureView,
)
    ensures
        is_reserved_name(function.name) ==> tree.push_function(function) == Err::<
            TreeView,
            SemanticAnalysisErrorView,
        >(SemanticAnalysisErrorView::InvalidVariableName(function.name)),
        is_reserved_name(structure.name) ==> tree.push_struct(structure) == Err::<
            TreeView,
            SemanticAnalysisErrorView,
        >(SemanticAnalysisErrorView::InvalidVariableName(structure.name)),
        is_reserved_name(alias.0) ==> tree.push_type_alias(alias.0, alias.1) == Err::<
            TreeView,
            SemanticAnalysisErrorView,
        >(SemanticAnalysisErrorView::InvalidVariableName(alias.0)),
        is_reserved_name(constant.name) ==> tree.push_constant(constant) == Err::<
            TreeView,
            SemanticAnalysisErrorView,
        >(SemanticAnalysisErrorView::InvalidVariableName(constant.name)),
        is_reserved_name(constant_buffer.name) ==> tree.push_constant_buffer(constant_buffer) == Err::<
            TreeView,
            SemanticAnalysisErrorView,
        >(SemanticAnalysisErrorView::InvalidVariableName(constant_buffer.name)),
        is_reserved_name(texture.name) ==> tree.push_texture(texture) == Err::<
            TreeView,
            SemanticAnalysisErrorView,
        >(SemanticAnalysisErrorView::InvalidVariableName(texture.name)),
{
}

/// Two structs of a program are different types, whatever their members
/// are: types are equal only under the same handle.
pub proof fn structs_are_distinct_types(
    first_handle: int,
    first_struct: StructView,
    second_handle: int,
    second_struct: StructView,
)
    ensures
        TypeView::Struct(first_handle, first_struct).same_as(
            TypeView::Struct(second_handle, second_struct),
        ) == (first_handle == second_handle),
{
}

/// A struct type and a primitive type are equal to themselves.
pub proof fn same_as_is_reflexive(t: TypeView)
    ensures
        t.same_as(t),
{
    crate::types::resolved_is_not_alias(t);
}

/// In a tree that keeps its invariant and has both entry points, the vertex
/// input type is fixed, and so is the type that the entry points share,
/// which has a member with the semantic `SV_POSITION`.
pub proof fn entry_points_fix_types(tree: TreeView)
    requires
        tree.well_formed(),
        tree.complete(),
    ensures
        tree.vertex_input_type is Some,
        is_semantic_struct(tree.vertex_input_type->0),
        tree.fragment_input_type is Some,
        is_position_struct(tree.fragment_input_type->0),
{
    first_from_found(tree.functions, function_named("vertex_main"@), 0);
    let at = first(tree.functions, function_named("vertex_main"@))->0;
    assert(tree.accepts(tree.functions[at]));
}

/// Whether `name` is the name of a type of a target language.
fn reserved_type_name(name: &str) -> (r: bool)
    ensures
        r == is_reserved_type_name(name@),
{
    str_eq(name, "vec1") || str_eq(name, "vec2") || str_eq(name, "vec3") || str_eq(name, "vec4")
        || str_eq(name, "mat") || str_eq(name, "sampler2D") || str_eq(name, "Texture2D")
}

/// Whether `t` is, behind its aliases, a user struct whose members carry
/// semantics.
pub fn semantic_struct(t: &Type) -> (r: bool)
    ensures
        r == is_semantic_struct(t@),
{
    match t.resolved() {
        Type::Struct(_, structure) => structure.has_semantics(),
        _ => false,
    }
}

/// Whether `t` is a user struct with semantics, one of them `SV_POSITION`.
pub fn position_struct(t: &Type) -> (r: bool)
    ensures
        r == is_position_struct(t@),
{
    match t.resolved() {
        Type::Struct(_, structure) => structure.position_member().is_some(),
        _ => false,
    }
}

impl AnnotatedSyntaxTree {
    /// The model of this tree.
    pub closed spec fn model(&self) -> TreeView {
        TreeView {
            functions: self.functions.deep_view(),
            structs: self.structs.deep_view(),
            constant_buffers: self.constant_buffers.deep_view(),
            textures: self.textures.deep_view(),
            constants: self.constants.deep_view(),
            declaration_order: self.declaration_order.deep_view(),
            builtin_functions: self.builtin_functions.deep_view(),
            type_aliases: self.type_aliases.deep_view(),
            global_scope: self.global_scope@,
            vertex_input_type: self.vertex_input_type.deep_view(),
            fragment_input_type: self.fragment_input_type.deep_view(),
        }
    }

    /// The tree of the empty program.
    pub fn new() -> (tree: Self)
        ensures
            tree@ == TreeView::empty(),
            tree@.well_formed(),
    {
        let mut constant_buffers: Vec<Option<ConstantBuffer>> = Vec::new();
        while constant_buffers.len() < MAX_CONSTANT_BUFFERS
            invariant
                constant_buffers.len() <= MAX_CONSTANT_BUFFERS,
                forall|i: int| 0 <= i < constant_buffers.len() ==> constant_buffers[i] is None,
            decreases MAX_CONSTANT_BUFFERS - constant_buffers.len(),
        {
            constant_buffers.push(None);
        }
        let mut textures: Vec<Option<Texture>> = Vec::new();
        while textures.len() < MAX_TEXTURES
            invariant
                textures.len() <= MAX_TEXTURES,
                forall|i: int| 0 <= i < textures.len() ==> textures[i] is None,
            decreases MAX_TEXTURES - textures.len(),
        {
            textures.push(None);
        }
        let tree = AnnotatedSyntaxTree {
            functions: Vec::new(),
            structs: Vec::new(),
            constant_buffers,
            textures,
            constants: Vec::new(),
            declaration_order: Vec::new(),
            builtin_functions: Function::builtin_functions(),
            type_aliases: Vec::new(),
            global_scope: Scope::new(),
            vertex_input_type: None,
            fragment_input_type: None,
        };
        proof {
            let empty = TreeView::empty();
            assert(tree.model().functions =~= empty.functions);
            assert(tree.model().structs =~= empty.structs);
            assert(tree.model().constant_buffers =~= empty.constant_buffers);
            assert(tree.model().textures =~= empty.textures);
            assert(tree.model().constants =~= empty.constants);
            assert(tree.model().declaration_order =~= empty.declaration_order);
            assert(tree.model().type_aliases =~= empty.type_aliases);
        }
        tree
    }

    /// The position of the function called `name` among the functions of
    /// the program.
    fn find_function(&self, name: &str) -> (at: Option<usize>)
        ensures
            match at {
                Some(at) => first(self@.functions, function_named(name@)) == Some(at as int) && at
                    < self.functions.len(),
                None => first(self@.functions, function_named(name@)) is None,
            },
    {
        let ghost wanted = function_named(name@);
        let mut i: usize = 0;
        while i < self.functions.len()
            invariant
                i <= self.functions.len(),
                wanted == function_named(name@),
                first_from(self@.functions, wanted, i as int) == first(self@.functions, wanted),
            decreases self.functions.len() - i,
        {
            if str_eq(self.functions[i].name(), name) {
                return Some(i);
            }
            i += 1;
        }
        None
    }

    /// The position of the built-in function called `name`.
    fn find_builtin_function(&self, name: &str) -> (at: Option<usize>)
        ensures
            match at {
                Some(at) => first(self@.builtin_functions, function_named(name@)) == Some(at as int)
                    && at < self.builtin_functions.len(),
                None => first(self@.builtin_functions, function_named(name@)) is None,
            },
    {
        let ghost wanted = function_named(name@);
        let mut i: usize = 0;
        while i < self.builtin_functions.len()
            invariant
                i <= self.builtin_functions.len(),
                wanted == function_named(name@),
                first_from(self@.builtin_functions, wanted, i as int) == first(
                    self@.builtin_functions,
                    wanted,
                ),
            decreases self.builtin_functions.len() - i,
        {
            if str_eq(self.builtin_functions[i].name(), name) {
                return Some(i);
            }
            i += 1;
        }
        None
    }

    /// The handle of the struct called `name`.
    fn find_struct(&self, name: &str) -> (at: Option<usize>)
        ensures
            match at {
                Some(at) => first(self@.structs, struct_named(name@)) == Some(at as int) && at
                    < self.structs.len(),
                None => first(self@.structs, struct_named(name@)) is None,
            },
    {
        let ghost wanted = struct_named(name@);
        let mut i: usize = 0;
        while i < self.structs.len()
            invariant
                i <= self.structs.len(),
                wanted == struct_named(name@),
                first_from(self@.structs, wanted, i as int) == first(self@.structs, wanted),
            decreases self.structs.len() - i,
        {
            if str_eq(self.structs[i].name(), name) {
                return Some(i);
            }
            i += 1;
        }
        None
    }

    /// The position of the alias called `name`.
    fn find_type_alias(&self, name: &str) -> (at: Option<usize>)
        ensures
            match at {
                Some(at) => first(self@.type_aliases, member_named(name@)) == Some(at as int) && at
                    < self.type_aliases.len(),
                None => first(self@.type_aliases, member_named(name@)) is None,
            },
    {
        let ghost wanted = member_named(name@);
        let mut i: usize = 0;
        while i < self.type_aliases.len()
            invariant
                i <= self.type_aliases.len(),
                wanted == member_named(name@),
                first_from(self@.type_aliases, wanted, i as int) == first(self@.type_aliases, wanted),
            decreases self.type_aliases.len() - i,
        {
            assert(self@.type_aliases[i as int] == self.type_aliases[i as int].deep_view());
            if str_eq(self.type_aliases[i].0.as_str(), name) {
                return Some(i);
            }
            i += 1;
        }
        None
    }

    /// The position of the constant called `name`.
    fn find_constant(&self, name: &str) -> (at: Option<usize>)
        ensures
            match at {
                Some(at) => first(self@.constants, constant_named(name@)) == Some(at as int) && at
                    < self.constants.len(),
                None => first(self@.constants, constant_named(name@)) is None,
            },
    {
        let ghost wanted = constant_named(name@);
        let mut i: usize = 0;
        while i < self.constants.len()
            invariant
                i <= self.constants.len(),
                wanted == constant_named(name@),
                first_from(self@.constants, wanted, i as int) == first(self@.constants, wanted),
            decreases self.constants.len() - i,
        {
            if str_eq(self.constants[i].name(), name) {
                return Some(i);
            }
            i += 1;
        }
        None
    }

    /// Checks that both entry points are there.
    pub fn verify_graphics_functions(&self) -> (r: Result<(), SemanticAnalysisError>)
        ensures
            result_model(r) == self@.verify_graphics_functions(),
    {
        if self.find_function("vertex_main").is_none() {
            Err(SemanticAnalysisError::NoVertexMain)
        } else if self.find_function("fragment_main").is_none() {
            Err(SemanticAnalysisError::NoFragmentMain)
        } else {
            Ok(())
        }
    }

    /// The function called `name`.
    pub fn get_function(&self, name: &str) -> (r: Result<&Function, SemanticAnalysisError>)
        ensures
            result_model(r) == self@.get_function(name@),
    {
        match self.find_function(name) {
            Some(at) => Ok(&self.functions[at]),
            None => match self.find_builtin_function(name) {
                Some(at) => Ok(&self.builtin_functions[at]),
                None => Err(SemanticAnalysisError::UnknownFunction(name.to_owned())),
            },
        }
    }

    /// The struct called `name`.
    pub fn get_structure(&self, name: &str) -> (r: Result<&Struct, SemanticAnalysisError>)
        ensures
            result_model(r) == self@.get_structure(name@),
    {
        match self.find_struct(name) {
            Some(at) => Ok(&self.structs[at]),
            None => Err(SemanticAnalysisError::UnknownType(name.to_owned())),
        }
    }

    /// The user type called `name`.
    pub fn get_type(&self, name: &str) -> (r: Result<Type, SemanticAnalysisError>)
        ensures
            result_model(r) == self@.get_type(name@),
    {
        match self.find_struct(name) {
            Some(at) => Ok(Type::Struct(at, Rc::clone(&self.structs[at]))),
            None => match self.find_type_alias(name) {
                Some(at) => {
                    assert(self@.type_aliases[at as int] == self.type_aliases[at as int].deep_view());
                    Ok(self.type_aliases[at].1.clone())
                },
                None => Err(SemanticAnalysisError::UnknownType(name.to_owned())),
            },
        }
    }

    /// The scope of the global variables: the constants, the constant
    /// buffers and the textures.
    pub fn global_scope(&self) -> (scope: &Scope)
        ensures
            scope@ == self@.global_scope,
    {
        &self.global_scope
    }

    /// The vertex input type, once `vertex_main` is there.
    pub fn vertex_input_type(&self) -> (t: &Option<Type>)
        ensures
            t.deep_view() == self@.vertex_input_type,
    {
        &self.vertex_input_type
    }

    /// The type that the entry points share, once one of them is there.
    pub fn fragment_input_type(&self) -> (t: &Option<Type>)
        ensures
            t.deep_view() == self@.fragment_input_type,
    {
        &self.fragment_input_type
    }

    /// Whether a function, a struct, an alias or a constant may still take
    /// the name `name`.
    fn verify_type_name(&self, name: &str) -> (free: bool)
        ensures
            free == self@.name_is_free(name@),
    {
        self.find_function(name).is_none() && self.find_struct(name).is_none()
            && self.find_type_alias(name).is_none() && self.find_constant(name).is_none()
            && Type::builtin(name).is_none() && !str_eq(name, "texture") && !reserved_type_name(
            name,
        )
    }

    /// The error for a name that a function, a struct, an alias or a
    /// constant may not take.
    fn check_name(&self, name: &str) -> (error: Option<SemanticAnalysisError>)
        ensures
            error.deep_view() == self@.name_error(name@),
    {
        if reserved_name(name) {
            Some(SemanticAnalysisError::InvalidVariableName(name.to_owned()))
        } else if !self.verify_type_name(name) {
            Some(SemanticAnalysisError::MultipleDefinition(name.to_owned()))
        } else {
            None
        }
    }
    /// Adds a function to the program.
    pub fn push_function(&mut self, function: Function) -> (r: Result<(), SemanticAnalysisError>)
        requires
            old(self)@.well_formed(),
            function@.code_block is Some,
        ensures
            match old(self)@.push_function(function@) {
                Ok(tree) => r is Ok && final(self)@ == tree,
                Err(error) => result_model(r) == Err::<(), SemanticAnalysisErrorView>(error)
                    && final(self)@ == old(self)@,
            },
            final(self)@.well_formed(),
    {
        match self.check_name(function.name()) {
            Some(error) => {
                return Err(error);
            },
            None => {},
        }
        let ghost before = self@;
        let mut vertex_input_type: Option<Type> = None;
        let mut fragment_input_type: Option<Type> = None;
        if str_eq(function.name(), "vertex_main") {
            if function.parameters().len() != 1 {
                return Err(SemanticAnalysisError::VertexMainParameterCount);
            }
            let parameters = function.parameters();
            assert(function@.parameters[0] == parameters[0].deep_view());
            let input_type = parameters[0].parameter_type();
            if !semantic_struct(input_type) {
                return Err(
                    SemanticAnalysisError::InvalidVertexMainParameterType(input_type.to_string()),
                );
            }
            match &self.fragment_input_type {
                Some(shared) => {
                    if !(*function.return_type() == *shared) {
                        return Err(
                            SemanticAnalysisError::VertexMainReturnTypeMismatch(
                                function.return_type().to_string(),
                                shared.to_string(),
                            ),
                        );
                    }
                },
                None => {
                    if !position_struct(function.return_type()) {
                        return Err(
                            SemanticAnalysisError::InvalidVertexMainReturnType(
                                function.return_type().to_string(),
                            ),
                        );
                    }
                    fragment_input_type = Some(function.return_type().clone());
                },
            }
            vertex_input_type = Some(input_type.clone());
        } else if str_eq(function.name(), "fragment_main") {
            if function.parameters().len() != 1 {
                return Err(SemanticAnalysisError::FragmentMainParameterCount);
            }
            let parameters = function.parameters();
            assert(function@.parameters[0] == parameters[0].deep_view());
            let parameter_type = parameters[0].parameter_type();
            match &self.fragment_input_type {
                Some(shared) => {
                    if !(*parameter_type == *shared) {
                        return Err(
                            SemanticAnalysisError::FragmentMainParameterTypeMismatch(
                                parameter_type.to_string(),
                                shared.to_string(),
                            ),
                        );
                    }
                },
                None => {
                    if !position_struct(parameter_type) {
                        return Err(
                            SemanticAnalysisError::InvalidFragmentMainParameterType(
                                parameter_type.to_string(),
                            ),
                        );
                    }
                    fragment_input_type = Some(parameter_type.clone());
                },
            }
            if !(*function.return_type() == Type::float4()) {
                return Err(
                    SemanticAnalysisError::InvalidFragmentMainReturnType(
                        function.return_type().to_string(),
                    ),
                );
            }
        }
        let ghost after = before.push_function(function@)->Ok_0;
        proof {
            push_function_preserves(before, function@);
        }
        if vertex_input_type.is_some() {
            self.vertex_input_type = vertex_input_type;
        }
        if fragment_input_type.is_some() {
            self.fragment_input_type = fragment_input_type;
        }
        self.declaration_order.push(DeclarationType::Function(self.functions.len()));
        self.functions.push(function);
        proof {
            assert(self.model().functions =~= after.functions);
            assert(self.model().declaration_order =~= after.declaration_order);
        }
        Ok(())
    }

    /// Adds a struct to the program and gives it its handle.
    pub fn push_struct(&mut self, structure: Struct) -> (r: Result<(), SemanticAnalysisError>)
        requires
            old(self)@.well_formed(),
        ensures
            match old(self)@.push_struct(structure@) {
                Ok(tree) => r is Ok && final(self)@ == tree,
                Err(error) => result_model(r) == Err::<(), SemanticAnalysisErrorView>(error)
                    && final(self)@ == old(self)@,
            },
            final(self)@.well_formed(),
    {
        match self.check_name(structure.name()) {
            Some(error) => {
                return Err(error);
            },
            None => {},
        }
        let ghost after = self@.push_struct(structure@)->Ok_0;
        proof {
            push_struct_preserves(self@, structure@);
        }
        self.declaration_order.push(DeclarationType::Struct(self.structs.len()));
        self.structs.push(Rc::new(structure));
        proof {
            assert(self.model().structs =~= after.structs);
            assert(self.model().declaration_order =~= after.declaration_order);
        }
        Ok(())
    }

    /// Adds a type alias to the program.
    pub fn push_type_alias(&mut self, name: String, alias_type: Type) -> (r: Result<
        (),
        SemanticAnalysisError,
    >)
        requires
            old(self)@.well_formed(),
        ensures
            match old(self)@.push_type_alias(name@, alias_type@) {
                Ok(tree) => r is Ok && final(self)@ == tree,
                Err(error) => result_model(r) == Err::<(), SemanticAnalysisErrorView>(error)
                    && final(self)@ == old(self)@,
            },
            final(self)@.well_formed(),
    {
        match self.check_name(name.as_str()) {
            Some(error) => {
                return Err(error);
            },
            None => {},
        }
        let ghost after = self@.push_type_alias(name@, alias_type@)->Ok_0;
        proof {
            push_type_alias_preserves(self@, name@, alias_type@);
        }
        self.type_aliases.push((name, alias_type));
        proof {
            assert(self.model().type_aliases =~= after.type_aliases);
        }
        Ok(())
    }

    /// Adds a constant buffer to the program.
    pub fn push_constant_buffer(&mut self, constant_buffer: ConstantBuffer) -> (r: Result<
        (),
        SemanticAnalysisError,
    >)
        requires
            old(self)@.well_formed(),
        ensures
            match old(self)@.push_constant_buffer(constant_buffer@) {
                Ok(tree) => r is Ok && final(self)@ == tree,
                Err(error) => result_model(r) == Err::<(), SemanticAnalysisErrorView>(error)
                    && final(self)@ == old(self)@,
            },
            final(self)@.well_formed(),
    {
        if reserved_name(constant_buffer.name()) {
            return Err(
                SemanticAnalysisError::InvalidVariableName(constant_buffer.name().to_owned()),
            );
        }
        let slot = constant_buffer.slot();
        assert(self@.constant_buffers[slot as int] == self.constant_buffers[slot as int].deep_view());
        if self.constant_buffers[slot].is_some() {
            return Err(SemanticAnalysisError::MultipleDefinition(constant_buffer.name().to_owned()));
        }
        let ghost before = self@;
        match self.global_scope.define_variable(
            constant_buffer.name().to_owned(),
            constant_buffer.cb_type().clone(),
            false,
        ) {
            Err(error) => {
                return Err(error);
            },
            Ok(()) => {},
        }
        let ghost after = before.push_constant_buffer(constant_buffer@)->Ok_0;
        proof {
            push_constant_buffer_preserves(before, constant_buffer@);
        }
        self.constant_buffers.set(slot, Some(constant_buffer));
        self.declaration_order.push(DeclarationType::ConstantBuffer(slot));
        proof {
            assert(self.model().constant_buffers =~= after.constant_buffers);
            assert(self.model().declaration_order =~= after.declaration_order);
        }
        Ok(())
    }

    /// Adds a texture to the program.
    pub fn push_texture(&mut self, texture: Texture) -> (r: Result<(), SemanticAnalysisError>)
        requires
            old(self)@.well_formed(),
        ensures
            match old(self)@.push_texture(texture@) {
                Ok(tree) => r is Ok && final(self)@ == tree,
                Err(error) => result_model(r) == Err::<(), SemanticAnalysisErrorView>(error)
                    && final(self)@ == old(self)@,
            },
            final(self)@.well_formed(),
    {
        if reserved_name(texture.name()) {
            return Err(SemanticAnalysisError::InvalidVariableName(texture.name().to_owned()));
        }
        let slot = texture.slot();
        assert(self@.textures[slot as int] == self.textures[slot as int].deep_view());
        if self.textures[slot].is_some() {
            return Err(SemanticAnalysisError::MultipleDefinition(texture.name().to_owned()));
        }
        let ghost before = self@;
        match self.global_scope.define_variable(texture.name().to_owned(), Type::texture(), false) {
            Err(error) => {
                return Err(error);
            },
            Ok(()) => {},
        }
        let ghost after = before.push_texture(texture@)->Ok_0;
        proof {
            push_texture_preserves(before, texture@);
        }
        self.textures.set(slot, Some(texture));
        self.declaration_order.push(DeclarationType::Texture(slot));
        proof {
            assert(self.model().textures =~= after.textures);
            assert(self.model().declaration_order =~= after.declaration_order);
        }
        Ok(())
    }

    /// Adds a constant to the program.
    pub fn push_constant(&mut self, constant: Constant) -> (r: Result<(), SemanticAnalysisError>)
        requires
            old(self)@.well_formed(),
        ensures
            match old(self)@.push_constant(constant@) {
                Ok(tree) => r is Ok && final(self)@ == tree,
                Err(error) => result_model(r) == Err::<(), SemanticAnalysisErrorView>(error)
                    && final(self)@ == old(self)@,
            },
            final(self)@.well_formed(),
    {
        match self.check_name(constant.name()) {
            Some(error) => {
                return Err(error);
            },
            None => {},
        }
        let ghost before = self@;
        match self.global_scope.define_variable(
            constant.name().to_owned(),
            constant.get_type().clone(),
            false,
        ) {
            Err(error) => {
                return Err(error);
            },
            Ok(()) => {},
        }
        let ghost after = before.push_constant(constant@)->Ok_0;
        proof {
            push_constant_preserves(before, constant@);
        }
        self.declaration_order.push(DeclarationType::Constant(self.constants.len()));
        self.constants.push(constant);
        proof {
            assert(self.model().constants =~= after.constants);
            assert(self.model().declaration_order =~= after.declaration_order);
        }
        Ok(())
    }
    /// The program in HLSL.
    pub fn generate_hlsl(&self) -> (text: String)
        requires
            self@.well_formed(),
        ensures
            text@ == self@.hlsl(),
    {
        let mut hlsl = "// Generated from Alexandria Common Shader Language\n\n".to_owned();
        let ghost view = self@;
        let ghost written = view.hlsl_declarations();
        let mut i: usize = 0;
        assert(written.take(0) =~= Seq::<Seq<char>>::empty());
        assert(hlsl@ =~= generated_notice() + concat(written.take(0)));
        while i < self.declaration_order.len()
            invariant
                i <= self.declaration_order.len(),
                view == self@,
                view.writable(),
                written == view.hlsl_declarations(),
                hlsl@ == generated_notice() + concat(written.take(i as int)),
            decreases self.declaration_order.len() - i,
        {
            let ghost before = hlsl@;
            assert(view.declares(view.declaration_order[i as int]));
            match self.declaration_order[i] {
                DeclarationType::Function(at) => {
                    assert(view.accepts(view.functions[at as int]));
                    hlsl.append(self.functions[at].generate_hlsl().as_str());
                },
                DeclarationType::Struct(at) => {
                    hlsl.append(self.structs[at].generate_hlsl().as_str());
                },
                DeclarationType::ConstantBuffer(slot) => {
                    assert(view.constant_buffers[slot as int]
                        == self.constant_buffers[slot as int].deep_view());
                    match &self.constant_buffers[slot] {
                        Some(constant_buffer) => {
                            hlsl.append(constant_buffer.generate_hlsl().as_str());
                        },
                        None => {},
                    }
                },
                DeclarationType::Texture(slot) => {
                    assert(view.textures[slot as int] == self.textures[slot as int].deep_view());
                    match &self.textures[slot] {
                        Some(texture) => {
                            hlsl.append(texture.generate_hlsl().as_str());
                        },
                        None => {},
                    }
                },
                DeclarationType::Constant(at) => {
                    hlsl.append(self.constants[at].generate_hlsl().as_str());
                },
            }
            hlsl.append("\n");
            proof {
                concat_push(written.take(i as int), written[i as int]);
                assert(written.take(i as int).push(written[i as int]) =~= written.take(i + 1));
                assert(hlsl@ =~= before + written[i as int]);
                assert(hlsl@ =~= generated_notice() + concat(written.take(i + 1)));
            }
            i += 1;
        }
        assert(written.take(self.declaration_order.len() as int) =~= written);
        hlsl
    }

    /// Appends to `text` the inputs of the vertex stage.
    fn push_vertex_inputs(text: &mut String, members: &Vec<(String, Type)>)
        ensures
            final(text)@ == old(text)@ + concat(vertex_input_lines(members.deep_view())),
    {
        let ghost lines = vertex_input_lines(members.deep_view());
        let mut i: usize = 0;
        assert(lines.take(0) =~= Seq::<Seq<char>>::empty());
        assert(text@ =~= old(text)@ + concat(lines.take(0)));
        while i < members.len()
            invariant
                i <= members.len(),
                lines == vertex_input_lines(members.deep_view()),
                text@ == old(text)@ + concat(lines.take(i as int)),
            decreases members.len() - i,
        {
            let ghost before = text@;
            text.append("layout(location = ");
            push_decimal(text, i);
            text.append(") in ");
            text.append(members[i].1.glsl().as_str());
            text.append(" acsl_vertex_input_");
            text.append(members[i].0.as_str());
            text.append(";\n");
            proof {
                assert(members.deep_view()[i as int] == members[i as int].deep_view());
                concat_push(lines.take(i as int), lines[i as int]);
                assert(lines.take(i as int).push(lines[i as int]) =~= lines.take(i + 1));
                assert(text@ =~= before + lines[i as int]);
                assert(text@ =~= old(text)@ + concat(lines.take(i + 1)));
            }
            i += 1;
        }
        assert(lines.take(members.len() as int) =~= lines);
    }

    /// Appends to `text` the values handed from the vertex stage to the
    /// fragment stage, declared with `direction`.
    fn push_pixel_inputs(text: &mut String, members: &Vec<(String, Type)>, direction: &str)
        ensures
            final(text)@ == old(text)@ + concat(pixel_input_lines(members.deep_view(), direction@)),
    {
        let ghost lines = pixel_input_lines(members.deep_view(), direction@);
        let mut i: usize = 0;
        assert(lines.take(0) =~= Seq::<Seq<char>>::empty());
        assert(text@ =~= old(text)@ + concat(lines.take(0)));
        while i < members.len()
            invariant
                i <= members.len(),
                lines == pixel_input_lines(members.deep_view(), direction@),
                text@ == old(text)@ + concat(lines.take(i as int)),
            decreases members.len() - i,
        {
            let ghost before = text@;
            text.append(direction);
            text.append(members[i].1.glsl().as_str());
            text.append(" acsl_pixel_input_");
            text.append(members[i].0.as_str());
            text.append(";\n");
            proof {
                assert(members.deep_view()[i as int] == members[i as int].deep_view());
                concat_push(lines.take(i as int), lines[i as int]);
                assert(lines.take(i as int).push(lines[i as int]) =~= lines.take(i + 1));
                assert(text@ =~= before + lines[i as int]);
                assert(text@ =~= old(text)@ + concat(lines.take(i + 1)));
            }
            i += 1;
        }
        assert(lines.take(members.len() as int) =~= lines);
    }

    /// The program in GLSL: the vertex unit and the fragment unit.
    pub fn generate_glsl(&self) -> (text: (String, String))
        requires
            self@.well_formed(),
            self@.complete(),
        ensures
            text.0@ == self@.glsl_vertex(),
            text.1@ == self@.glsl_fragment(),
    {
        let ghost view = self@;
        proof {
            entry_points_fix_types(view);
        }
        let mut glsl_vertex = "#version 430 core\n\n".to_owned();
        glsl_vertex.append("// Generated from Alexandria Common Shader Language\n\n");
        let mut glsl_frag = glsl_vertex.clone();
        glsl_frag.append("out vec4 acsl_fragment_color;\n\n");
        let mut position_variable_name = String::new();
        match &self.vertex_input_type {
            Some(vertex_input_type) => {
                let members = vertex_input_type.members();
                AnnotatedSyntaxTree::push_vertex_inputs(&mut glsl_vertex, &members);
                glsl_vertex.append("\n");
            },
            None => {},
        }
        match &self.fragment_input_type {
            Some(fragment_input_type) => {
                let members = fragment_input_type.members();
                AnnotatedSyntaxTree::push_pixel_inputs(&mut glsl_vertex, &members, "out ");
                AnnotatedSyntaxTree::push_pixel_inputs(&mut glsl_frag, &members, "in ");
                glsl_vertex.append("\n");
                glsl_frag.append("\n");
                match fragment_input_type.resolved() {
                    Type::Struct(_, structure) => {
                        match structure.position_member() {
                            Some(name) => {
                                position_variable_name = name;
                            },
                            None => {},
                        }
                    },
                    _ => {},
                }
            },
            None => {},
        }
        assert(position_variable_name@ == view.position_output_name());
        let ghost vertex_start = glsl_vertex@;
        let ghost fragment_start = glsl_frag@;
        let ghost vertex_written = view.glsl_vertex_declarations();
        let ghost fragment_written = view.glsl_fragment_declarations();
        let mut i: usize = 0;
        proof {
            assert(vertex_written.take(0) =~= Seq::<Seq<char>>::empty());
            assert(fragment_written.take(0) =~= Seq::<Seq<char>>::empty());
            assert(glsl_vertex@ =~= vertex_start + concat(vertex_written.take(0)));
            assert(glsl_frag@ =~= fragment_start + concat(fragment_written.take(0)));
        }
        while i < self.declaration_order.len()
            invariant
                i <= self.declaration_order.len(),
                view == self@,
                view.writable(),
                position_variable_name@ == view.position_output_name(),
                vertex_written == view.glsl_vertex_declarations(),
                fragment_written == view.glsl_fragment_declarations(),
                glsl_vertex@ == vertex_start + concat(vertex_written.take(i as int)),
                glsl_frag@ == fragment_start + concat(fragment_written.take(i as int)),
            decreases self.declaration_order.len() - i,
        {
            let ghost vertex_before = glsl_vertex@;
            let ghost fragment_before = glsl_frag@;
            assert(view.declares(view.declaration_order[i as int]));
            match self.declaration_order[i] {
                DeclarationType::Function(at) => {
                    assert(view.accepts(view.functions[at as int]));
                    let (vertex, frag) = self.functions[at].generate_glsl(
                        position_variable_name.as_str(),
                    );
                    glsl_vertex.append(vertex.as_str());
                    glsl_frag.append(frag.as_str());
                },
                DeclarationType::Struct(at) => {
                    let glsl = self.structs[at].generate_glsl();
                    glsl_vertex.append(glsl.as_str());
                    glsl_frag.append(glsl.as_str());
                },
                DeclarationType::ConstantBuffer(slot) => {
                    assert(view.constant_buffers[slot as int]
                        == self.constant_buffers[slot as int].deep_view());
                    match &self.constant_buffers[slot] {
                        Some(constant_buffer) => {
                            let glsl = constant_buffer.generate_glsl();
                            glsl_vertex.append(glsl.as_str());
                            glsl_frag.append(glsl.as_str());
                        },
                        None => {},
                    }
                },
                DeclarationType::Texture(slot) => {
                    assert(view.textures[slot as int] == self.textures[slot as int].deep_view());
                    match &self.textures[slot] {
                        Some(texture) => {
                            let glsl = texture.generate_glsl();
                            glsl_vertex.append(glsl.as_str());
                            glsl_frag.append(glsl.as_str());
                        },
                        None => {},
                    }
                },
                DeclarationType::Constant(at) => {
                    let glsl = self.constants[at].generate_glsl();
                    glsl_vertex.append(glsl.as_str());
                    glsl_frag.append(glsl.as_str());
                },
            }
            glsl_vertex.append("\n");
            glsl_frag.append("\n");
            proof {
                concat_push(vertex_written.take(i as int), vertex_written[i as int]);
                assert(vertex_written.take(i as int).push(vertex_written[i as int])
                    =~= vertex_written.take(i + 1));
                assert(glsl_vertex@ =~= vertex_before + vertex_written[i as int]);
                assert(glsl_vertex@ =~= vertex_start + concat(vertex_written.take(i + 1)));
                concat_push(fragment_written.take(i as int), fragment_written[i as int]);
                assert(fragment_written.take(i as int).push(fragment_written[i as int])
                    =~= fragment_written.take(i + 1));
                assert(glsl_frag@ =~= fragment_before + fragment_written[i as int]);
                assert(glsl_frag@ =~= fragment_start + concat(fragment_written.take(i + 1)));
            }
            i += 1;
        }
        proof {
            assert(vertex_written.take(self.declaration_order.len() as int) =~= vertex_written);
            assert(fragment_written.take(self.declaration_order.len() as int) =~= fragment_written);
            assert(glsl_vertex@ =~= view.glsl_vertex());
            assert(glsl_frag@ =~= view.glsl_fragment());
        }
        (glsl_vertex, glsl_frag)
    }
}

impl DeepView for AnnotatedSyntaxTree {
    type V = TreeView;

    open spec fn deep_view(&self) -> TreeView {
        self.model()
    }
}

impl View for AnnotatedSyntaxTree {
    type V = TreeView;

    open spec fn view(&self) -> TreeView {
        self.model()
    }
}

} // verus!
