//! Top-level declarations and their analysis.

use crate::annotated::{
    push_constant_buffer_is_written_last, push_constant_buffer_preserves,
    push_constant_is_written_last, push_constant_preserves, push_function_is_written_last,
    push_function_preserves, push_struct_is_written_last, push_struct_preserves,
    push_texture_is_written_last, push_texture_preserves, push_type_alias_is_not_written,
    push_type_alias_preserves, AnnotatedSyntaxTree, DeclarationKind, TreeView,
};
use crate::model::{concat, concat_push, join, join_push, result_model};
use crate::text::{decimal, push_decimal};
use super::{SemanticAnalysisError, SemanticAnalysisErrorView};
use super::code_block::{CodeBlock, CodeBlockView};
use super::expression::{Expression, ExpressionView};
use vstd::prelude::*;
use vstd::string::*;

pub mod constant;
pub mod constant_buffer;
pub mod function;
pub mod structure;
pub mod texture;
pub mod type_alias;

verus! {

/// A declaration as the parser read it. Types are still names.
pub enum Declaration {
    /// Name, parameters (name, type, whether `mut`), return type, body.
    Function(String, Vec<(String, String, bool)>, Option<String>, CodeBlock),
    /// Name, members (name, type, semantic).
    Struct(String, Vec<(String, String, Option<String>)>),
    /// Name, slot, type.
    ConstantBuffer(String, usize, String),
    /// Name, slot, element type.
    Texture(String, usize, String),
    /// Name, the type it stands for.
    TypeAlias(String, String),
    /// Name, value.
    Constant(String, Expression),
}

/// The model of a [`Declaration`].
pub enum DeclarationView {
    Function(Seq<char>, Seq<(Seq<char>, Seq<char>, bool)>, Option<Seq<char>>, CodeBlockView),
    Struct(Seq<char>, Seq<(Seq<char>, Seq<char>, Option<Seq<char>>)>),
    ConstantBuffer(Seq<char>, usize, Seq<char>),
    Texture(Seq<char>, usize, Seq<char>),
    TypeAlias(Seq<char>, Seq<char>),
    Constant(Seq<char>, ExpressionView),
}

/// The parameters of a function as a diagnostic lists them: each its name,
/// a colon and its type.
pub open spec fn display_parameters(parameters: Seq<(Seq<char>, Seq<char>, bool)>) -> Seq<Seq<char>> {
    Seq::new(parameters.len(), |i: int| parameters[i].0 + ": "@ + parameters[i].1)
}

/// The members of a struct as a diagnostic lists them: each on a line of its
/// own, its name, a colon, its type and, behind another colon, its semantic.
pub open spec fn display_members(members: Seq<(Seq<char>, Seq<char>, Option<Seq<char>>)>) -> Seq<
    Seq<char>,
> {
    Seq::new(
        members.len(),
        |i: int|
            "      - "@ + members[i].0 + ": "@ + members[i].1 + (match members[i].2 {
                Some(semantic) => " : "@ + semantic,
                None => Seq::empty(),
            }) + "\n"@,
    )
}

impl DeclarationView {
    /// The declaration as a diagnostic lists it, behind a dash.
    pub open spec fn display(self) -> Seq<char> {
        "  - "@ + (match self {
            DeclarationView::Function(name, parameters, return_type, code_block) => "Function "@
                + name + "("@ + join(display_parameters(parameters), ", "@) + ")"@ + (
            match return_type {
                Some(return_type) => " -> "@ + return_type + "\n"@,
                None => "\n"@,
            }) + code_block.display(),
            DeclarationView::Struct(name, members) => "Structure \""@ + name + "\"\n"@ + concat(
                display_members(members),
            ),
            DeclarationView::ConstantBuffer(name, slot, named_type) => "Constant Buffer \""@ + name
                + "\" @ "@ + decimal(slot as nat) + " ("@ + named_type + ")\n"@,
            DeclarationView::Texture(name, slot, texture_type) => "Texture<"@ + texture_type
                + "> \""@ + name + "\" @ "@ + decimal(slot as nat) + "\n"@,
            DeclarationView::TypeAlias(name, named_type) => "Type Alias "@ + name + " = "@
                + named_type + "\n"@,
            DeclarationView::Constant(name, expression) => "Constant \""@ + name + "\" = "@
                + expression.display() + "\n"@,
        })
    }

    /// The kind and the name under which the backends write the declaration
    /// out; none for an alias, which they do not write out.
    pub open spec fn label(self) -> Option<(DeclarationKind, Seq<char>)> {
        match self {
            DeclarationView::Function(name, _, _, _) => Some((DeclarationKind::Function, name)),
            DeclarationView::Struct(name, _) => Some((DeclarationKind::Struct, name)),
            DeclarationView::ConstantBuffer(name, _, _) => Some(
                (DeclarationKind::ConstantBuffer, name),
            ),
            DeclarationView::Texture(name, _, _) => Some((DeclarationKind::Texture, name)),
            DeclarationView::TypeAlias(_, _) => None,
            DeclarationView::Constant(name, _) => Some((DeclarationKind::Constant, name)),
        }
    }

    /// The tree with this declaration analysed and added, or the first
    /// error of the analysis.
    pub open spec fn analyse(self, tree: TreeView) -> Result<TreeView, SemanticAnalysisErrorView> {
        match self {
            DeclarationView::Function(name, parameters, return_type, code_block) => match function::analyse(
                tree,
                name,
                parameters,
                return_type,
                code_block,
            ) {
                Ok(function) => tree.push_function(function),
                Err(error) => Err(error),
            },
            DeclarationView::Struct(name, members) => match structure::analyse(tree, name, members) {
                Ok(structure) => tree.push_struct(structure),
                Err(error) => Err(error),
            },
            DeclarationView::ConstantBuffer(name, slot, named_type) => match constant_buffer::analyse(
                tree,
                name,
                slot,
                named_type,
            ) {
                Ok(constant_buffer) => tree.push_constant_buffer(constant_buffer),
                Err(error) => Err(error),
            },
            DeclarationView::Texture(name, slot, texture_type) => match texture::analyse(
                name,
                slot,
                texture_type,
                tree,
            ) {
                Ok(texture) => tree.push_texture(texture),
                Err(error) => Err(error),
            },
            DeclarationView::TypeAlias(name, named_type) => type_alias::analyse(tree, name, named_type),
            DeclarationView::Constant(name, expression) => match constant::analyse(
                tree,
                name,
                expression,
            ) {
                Ok(constant) => tree.push_constant(constant),
                Err(error) => Err(error),
            },
        }
    }
}

impl DeepView for Declaration {
    type V = DeclarationView;

    open spec fn deep_view(&self) -> DeclarationView {
        match self {
            Declaration::Function(name, parameters, return_type, code_block) => DeclarationView::Function(
                name@,
                parameters.deep_view(),
                return_type.deep_view(),
                code_block@,
            ),
            Declaration::Struct(name, members) => DeclarationView::Struct(name@, members.deep_view()),
            Declaration::ConstantBuffer(name, slot, named_type) => DeclarationView::ConstantBuffer(
                name@,
                *slot,
                named_type@,
            ),
            Declaration::Texture(name, slot, texture_type) => DeclarationView::Texture(
                name@,
                *slot,
                texture_type@,
            ),
            Declaration::TypeAlias(name, named_type) => DeclarationView::TypeAlias(name@, named_type@),
            Declaration::Constant(name, expression) => DeclarationView::Constant(name@, expression@),
        }
    }
}

impl View for Declaration {
    type V = DeclarationView;

    open spec fn view(&self) -> DeclarationView {
        self.deep_view()
    }
}

/// The parameters of a function as a diagnostic lists them, separated by
/// commas.
fn parameters_to_string(parameters: &Vec<(String, String, bool)>) -> (text: String)
    ensures
        text@ == join(display_parameters(parameters.deep_view()), ", "@),
{
    let mut text = String::new();
    let ghost listed = display_parameters(parameters.deep_view());
    let mut i: usize = 0;
    assert(listed.take(0) =~= Seq::<Seq<char>>::empty());
    while i < parameters.len()
        invariant
            i <= parameters.len(),
            listed == display_parameters(parameters.deep_view()),
            text@ == join(listed.take(i as int), ", "@),
        decreases parameters.len() - i,
    {
        if i != 0 {
            text.append(", ");
        }
        text.append(parameters[i].0.as_str());
        text.append(": ");
        text.append(parameters[i].1.as_str());
        proof {
            assert(parameters.deep_view()[i as int] == parameters[i as int].deep_view());
            join_push(listed.take(i as int), ", "@, listed[i as int]);
            assert(listed.take(i as int).push(listed[i as int]) =~= listed.take(i + 1));
            assert(text@ =~= join(listed.take(i + 1), ", "@));
        }
        i += 1;
    }
    assert(listed.take(parameters.len() as int) =~= listed);
    text
}

/// The members of a struct as a diagnostic lists them, each on a line of
/// its own.
fn members_to_string(members: &Vec<(String, String, Option<String>)>) -> (text: String)
    ensures
        text@ == concat(display_members(members.deep_view())),
{
    let mut text = String::new();
    let ghost listed = display_members(members.deep_view());
    let mut i: usize = 0;
    assert(listed.take(0) =~= Seq::<Seq<char>>::empty());
    while i < members.len()
        invariant
            i <= members.len(),
            listed == display_members(members.deep_view()),
            text@ == concat(listed.take(i as int)),
        decreases members.len() - i,
    {
        let ghost before = text@;
        text.append("      - ");
        text.append(members[i].0.as_str());
        text.append(": ");
        text.append(members[i].1.as_str());
        match &members[i].2 {
            Some(semantic) => {
                text.append(" : ");
                text.append(semantic.as_str());
            },
            None => {},
        }
        text.append("\n");
        proof {
            assert(members.deep_view()[i as int] == members[i as int].deep_view());
            concat_push(listed.take(i as int), listed[i as int]);
            assert(listed.take(i as int).push(listed[i as int]) =~= listed.take(i + 1));
            assert(text@ =~= before + listed[i as int]);
        }
        i += 1;
    }
    assert(listed.take(members.len() as int) =~= listed);
    text
}

impl Declaration {
    /// The declaration as a diagnostic lists it.
    pub fn to_string(&self) -> (text: String)
        ensures
            text@ == self@.display(),
    {
        let mut text = "  - ".to_owned();
        match self {
            Declaration::Function(name, parameters, return_type, code_block) => {
                text.append("Function ");
                text.append(name.as_str());
                text.append("(");
                text.append(parameters_to_string(parameters).as_str());
                text.append(")");
                match return_type {
                    Some(return_type) => {
                        text.append(" -> ");
                        text.append(return_type.as_str());
                        text.append("\n");
                    },
                    None => {
                        text.append("\n");
                    },
                }
                text.append(code_block.to_string().as_str());
                assert(text@ =~= self@.display());
            },
            Declaration::Struct(name, members) => {
                text.append("Structure \"");
                text.append(name.as_str());
                text.append("\"\n");
                text.append(members_to_string(members).as_str());
                assert(text@ =~= self@.display());
            },
            Declaration::ConstantBuffer(name, slot, named_type) => {
                text.append("Constant Buffer \"");
                text.append(name.as_str());
                text.append("\" @ ");
                push_decimal(&mut text, *slot);
                text.append(" (");
                text.append(named_type.as_str());
                text.append(")\n");
                assert(text@ =~= self@.display());
            },
            Declaration::Texture(name, slot, texture_type) => {
                text.append("Texture<");
                text.append(texture_type.as_str());
                text.append("> \"");
                text.append(name.as_str());
                text.append("\" @ ");
                push_decimal(&mut text, *slot);
                text.append("\n");
                assert(text@ =~= self@.display());
            },
            Declaration::TypeAlias(name, named_type) => {
                text.append("Type Alias ");
                text.append(name.as_str());
                text.append(" = ");
                text.append(named_type.as_str());
                text.append("\n");
                assert(text@ =~= self@.display());
            },
            Declaration::Constant(name, expression) => {
                text.append("Constant \"");
                text.append(name.as_str());
                text.append("\" = ");
                text.append(expression.to_string().as_str());
                text.append("\n");
                assert(text@ =~= self@.display());
            },
        }
        text
    }

    /// Analyses the declaration and adds it to `output_tree`. On an error
    /// the tree is left as it was.
    pub fn semantic_analysis(&self, output_tree: &mut AnnotatedSyntaxTree) -> (r: Result<
        (),
        SemanticAnalysisError,
    >)
        requires
            old(output_tree)@.well_formed(),
        ensures
            match self@.analyse(old(output_tree)@) {
                Ok(tree) => r is Ok && final(output_tree)@ == tree,
                Err(error) => result_model(r) == Err::<(), SemanticAnalysisErrorView>(error)
                    && final(output_tree)@ == old(output_tree)@,
            },
            final(output_tree)@.well_formed(),
    {
        match self {
            Declaration::Function(name, parameters, return_type, code_block) => {
                match function::semantic_analysis(
                    output_tree,
                    name.clone(),
                    parameters,
                    return_type,
                    code_block,
                ) {
                    Ok(function) => output_tree.push_function(function),
                    Err(error) => Err(error),
                }
            },
            Declaration::Struct(name, members) => {
                match structure::semantic_analysis(output_tree, name.clone(), members) {
                    Ok(structure) => output_tree.push_struct(structure),
                    Err(error) => Err(error),
                }
            },
            Declaration::ConstantBuffer(name, slot, named_type) => {
                match constant_buffer::semantic_analysis(
                    output_tree,
                    name.clone(),
                    *slot,
                    named_type.clone(),
                ) {
                    Ok(constant_buffer) => output_tree.push_constant_buffer(constant_buffer),
                    Err(error) => Err(error),
                }
            },
            Declaration::Texture(name, slot, texture_type) => {
                match texture::semantic_analysis(
                    name.clone(),
                    *slot,
                    texture_type.clone(),
                    output_tree,
                ) {
                    Ok(texture) => output_tree.push_texture(texture),
                    Err(error) => Err(error),
                }
            },
            Declaration::TypeAlias(name, named_type) => type_alias::semantic_analysis(
                output_tree,
                name.clone(),
                named_type.clone(),
            ),
            Declaration::Constant(name, expression) => {
                match constant::semantic_analysis(output_tree, name.clone(), expression) {
                    Ok(constant) => output_tree.push_constant(constant),
                    Err(error) => Err(error),
                }
            },
        }
    }
}

/// A declaration that is analysed without error keeps the invariant of the
/// tree, its signatures interned, its resources in order and its local
/// names free of reserved prefixes, and is written out after everything that
/// was written out before; an alias adds nothing to what is written out.
pub proof fn analysed_declaration_is_written_last(declaration: DeclarationView, tree: TreeView)
    requires
        tree.well_formed(),
        tree.signatures_are_interned(),
        tree.resources_are_in_order(),
        tree.locals_are_allowed(),
        declaration.analyse(tree) is Ok,
    ensures
        declaration.analyse(tree)->Ok_0.well_formed(),
        declaration.analyse(tree)->Ok_0.signatures_are_interned(),
        declaration.analyse(tree)->Ok_0.resources_are_in_order(),
        declaration.analyse(tree)->Ok_0.locals_are_allowed(),
        declaration.analyse(tree)->Ok_0.written() == (match declaration.label() {
            Some(label) => tree.written().push(label),
            None => tree.written(),
        }),
{
    match declaration {
        DeclarationView::Function(name, parameters, return_type, code_block) => {
            function::analysed_function_is_interned(tree, name, parameters, return_type, code_block);
            let function = function::analyse(tree, name, parameters, return_type, code_block)->Ok_0;
            push_function_preserves(tree, function);
            push_function_is_written_last(tree, function);
            crate::annotated::push_function_keeps_signatures(tree, function);
            let after = tree.push_function(function)->Ok_0;
            assert forall|i: int| 0 <= i < after.functions.len() implies (
            #[trigger] after.functions[i]).locals_are_allowed() by {
                if i < tree.functions.len() {
                    assert(after.functions[i] == tree.functions[i]);
                }
            }
        },
        DeclarationView::Struct(name, members) => {
            structure::analysed_struct_is_in_order(tree, name, members);
            structure::analysed_struct_declares_each_member_once(tree, name, members);
            let structure = structure::analyse(tree, name, members)->Ok_0;
            push_struct_preserves(tree, structure);
            push_struct_is_written_last(tree, structure);
            crate::annotated::push_struct_keeps_signatures(tree, structure);
        },
        DeclarationView::ConstantBuffer(name, slot, named_type) => {
            let constant_buffer = constant_buffer::analyse(tree, name, slot, named_type)->Ok_0;
            push_constant_buffer_preserves(tree, constant_buffer);
            push_constant_buffer_is_written_last(tree, constant_buffer);
            let after = tree.push_constant_buffer(constant_buffer)->Ok_0;
            assert forall|i: int| 0 <= i < after.functions.len() implies crate::annotated::is_interned_function(
                #[trigger] after.functions[i],
                after.structs,
            ) by {
                assert(crate::annotated::is_interned_function(tree.functions[i], tree.structs));
            }
        },
        DeclarationView::Texture(name, slot, texture_type) => {
            texture::analysed_texture_is_in_order(name, slot, texture_type, tree);
            let texture = texture::analyse(name, slot, texture_type, tree)->Ok_0;
            push_texture_preserves(tree, texture);
            push_texture_is_written_last(tree, texture);
            let after = tree.push_texture(texture)->Ok_0;
            assert forall|i: int| 0 <= i < after.functions.len() implies crate::annotated::is_interned_function(
                #[trigger] after.functions[i],
                after.structs,
            ) by {
                assert(crate::annotated::is_interned_function(tree.functions[i], tree.structs));
            }
        },
        DeclarationView::TypeAlias(name, named_type) => {
            crate::annotated::named_type_is_interned(tree, named_type);
            let named = tree.type_from_name(named_type)->Ok_0;
            let aliased = crate::types::TypeView::Alias(Box::new(named));
            push_type_alias_preserves(tree, name, aliased);
            push_type_alias_is_not_written(tree, name, aliased);
            crate::annotated::push_type_alias_keeps_signatures(tree, name, named);
        },
        DeclarationView::Constant(name, expression) => {
            let constant = constant::analyse(tree, name, expression)->Ok_0;
            push_constant_preserves(tree, constant);
            push_constant_is_written_last(tree, constant);
            let after = tree.push_constant(constant)->Ok_0;
            assert forall|i: int| 0 <= i < after.functions.len() implies crate::annotated::is_interned_function(
                #[trigger] after.functions[i],
                after.structs,
            ) by {
                assert(crate::annotated::is_interned_function(tree.functions[i], tree.structs));
            }
        },
    }
}

} // verus!
