//! The untyped syntax tree and the errors of semantic analysis.

use crate::annotated::{AnnotatedSyntaxTree, DeclarationKind, TreeView};
use crate::model::{concat, concat_push, result_model};
use crate::text::decimal;
use declaration::{Declaration, DeclarationView};
use vstd::prelude::*;
use vstd::string::*;

pub mod code_block;
pub mod declaration;
pub mod expression;
pub mod scope;
pub mod statement;

verus! {

/// Why semantic analysis rejected a program.
#[derive(Debug)]
pub enum SemanticAnalysisError {
    MultipleDefinition(String),
    NoVertexMain,
    NoFragmentMain,
    UnknownType(String),
    UnknownVariable(String),
    UnknownFunction(String),
    UnknownStructure(String),
    /// Function name, arguments given, parameters declared.
    InvalidParameterCount(String, usize, usize),
    /// Function name, zero-based position, type given, type declared.
    InvalidParameterType(String, usize, String, String),
    /// Type returned, type declared.
    InvalidReturnType(String, String),
    /// Struct name, member name, type given, type declared.
    InvalidMemberType(String, String, String, String),
    /// Struct name, member name.
    MissingStructureMember(String, String),
    /// Type name, member name.
    InvalidMember(String, String),
    VertexMainParameterCount,
    InvalidVertexMainParameterType(String),
    InvalidVertexMainReturnType(String),
    /// Type returned by `vertex_main`, parameter type of `fragment_main`.
    VertexMainReturnTypeMismatch(String, String),
    FragmentMainParameterCount,
    InvalidFragmentMainParameterType(String),
    InvalidFragmentMainReturnType(String),
    /// Parameter type of `fragment_main`, type returned by `vertex_main`.
    FragmentMainParameterTypeMismatch(String, String),
    AllFieldsNeedSemantics(String),
    /// Resource kind, slot asked for, number of slots.
    SlotOutOfRange(&'static str, usize, usize),
    InvalidTextureType(String),
    InvalidVariableName(String),
    /// Left type, operator, right type.
    InvalidOperation(String, &'static str, String),
    /// Variable name, type assigned, type declared.
    VariableTypeMismatch(String, String, String),
    /// Assignment to a variable that was not declared `mut`.
    ImmutableVariable(String),
}

/// The model of a [`SemanticAnalysisError`].
pub enum SemanticAnalysisErrorView {
    MultipleDefinition(Seq<char>),
    NoVertexMain,
    NoFragmentMain,
    UnknownType(Seq<char>),
    UnknownVariable(Seq<char>),
    UnknownFunction(Seq<char>),
    UnknownStructure(Seq<char>),
    InvalidParameterCount(Seq<char>, usize, usize),
    InvalidParameterType(Seq<char>, usize, Seq<char>, Seq<char>),
    InvalidReturnType(Seq<char>, Seq<char>),
    InvalidMemberType(Seq<char>, Seq<char>, Seq<char>, Seq<char>),
    MissingStructureMember(Seq<char>, Seq<char>),
    InvalidMember(Seq<char>, Seq<char>),
    VertexMainParameterCount,
    InvalidVertexMainParameterType(Seq<char>),
    InvalidVertexMainReturnType(Seq<char>),
    VertexMainReturnTypeMismatch(Seq<char>, Seq<char>),
    FragmentMainParameterCount,
    InvalidFragmentMainParameterType(Seq<char>),
    InvalidFragmentMainReturnType(Seq<char>),
    FragmentMainParameterTypeMismatch(Seq<char>, Seq<char>),
    AllFieldsNeedSemantics(Seq<char>),
    SlotOutOfRange(Seq<char>, usize, usize),
    InvalidTextureType(Seq<char>),
    InvalidVariableName(Seq<char>),
    InvalidOperation(Seq<char>, Seq<char>, Seq<char>),
    VariableTypeMismatch(Seq<char>, Seq<char>, Seq<char>),
    ImmutableVariable(Seq<char>),
}

impl DeepView for SemanticAnalysisError {
    type V = SemanticAnalysisErrorView;

    open spec fn deep_view(&self) -> SemanticAnalysisErrorView {
        match self {
            SemanticAnalysisError::MultipleDefinition(a) => {
                SemanticAnalysisErrorView::MultipleDefinition(a@)
            },
            SemanticAnalysisError::NoVertexMain => SemanticAnalysisErrorView::NoVertexMain,
            SemanticAnalysisError::NoFragmentMain => SemanticAnalysisErrorView::NoFragmentMain,
            SemanticAnalysisError::UnknownType(a) => SemanticAnalysisErrorView::UnknownType(a@),
            SemanticAnalysisError::UnknownVariable(a) => {
                SemanticAnalysisErrorView::UnknownVariable(a@)
            },
            SemanticAnalysisError::UnknownFunction(a) => {
                SemanticAnalysisErrorView::UnknownFunction(a@)
            },
            SemanticAnalysisError::UnknownStructure(a) => {
                SemanticAnalysisErrorView::UnknownStructure(a@)
            },
            SemanticAnalysisError::InvalidParameterCount(a, b, c) => {
                SemanticAnalysisErrorView::InvalidParameterCount(a@, *b, *c)
            },
            SemanticAnalysisError::InvalidParameterType(a, b, c, d) => {
                SemanticAnalysisErrorView::InvalidParameterType(a@, *b, c@, d@)
            },
            SemanticAnalysisError::InvalidReturnType(a, b) => {
                SemanticAnalysisErrorView::InvalidReturnType(a@, b@)
            },
            SemanticAnalysisError::InvalidMemberType(a, b, c, d) => {
                SemanticAnalysisErrorView::InvalidMemberType(a@, b@, c@, d@)
            },
            SemanticAnalysisError::MissingStructureMember(a, b) => {
                SemanticAnalysisErrorView::MissingStructureMember(a@, b@)
            },
            SemanticAnalysisError::InvalidMember(a, b) => {
                SemanticAnalysisErrorView::InvalidMember(a@, b@)
            },
            SemanticAnalysisError::VertexMainParameterCount => {
                SemanticAnalysisErrorView::VertexMainParameterCount
            },
            SemanticAnalysisError::InvalidVertexMainParameterType(a) => {
                SemanticAnalysisErrorView::InvalidVertexMainParameterType(a@)
            },
            SemanticAnalysisError::InvalidVertexMainReturnType(a) => {
                SemanticAnalysisErrorView::InvalidVertexMainReturnType(a@)
            },
            SemanticAnalysisError::VertexMainReturnTypeMismatch(a, b) => {
                SemanticAnalysisErrorView::VertexMainReturnTypeMismatch(a@, b@)
            },
            SemanticAnalysisError::FragmentMainParameterCount => {
                SemanticAnalysisErrorView::FragmentMainParameterCount
            },
            SemanticAnalysisError::InvalidFragmentMainParameterType(a) => {
                SemanticAnalysisErrorView::InvalidFragmentMainParameterType(a@)
            },
            SemanticAnalysisError::InvalidFragmentMainReturnType(a) => {
                SemanticAnalysisErrorView::InvalidFragmentMainReturnType(a@)
            },
            SemanticAnalysisError::FragmentMainParameterTypeMismatch(a, b) => {
                SemanticAnalysisErrorView::FragmentMainParameterTypeMismatch(a@, b@)
            },
            SemanticAnalysisError::AllFieldsNeedSemantics(a) => {
                SemanticAnalysisErrorView::AllFieldsNeedSemantics(a@)
            },
            SemanticAnalysisError::SlotOutOfRange(a, b, c) => {
                SemanticAnalysisErrorView::SlotOutOfRange(a@, *b, *c)
            },
            SemanticAnalysisError::InvalidTextureType(a) => {
                SemanticAnalysisErrorView::InvalidTextureType(a@)
            },
            SemanticAnalysisError::InvalidVariableName(a) => {
                SemanticAnalysisErrorView::InvalidVariableName(a@)
            },
            SemanticAnalysisError::InvalidOperation(a, b, c) => {
                SemanticAnalysisErrorView::InvalidOperation(a@, b@, c@)
            },
            SemanticAnalysisError::VariableTypeMismatch(a, b, c) => {
                SemanticAnalysisErrorView::VariableTypeMismatch(a@, b@, c@)
            },
            SemanticAnalysisError::ImmutableVariable(a) => {
                SemanticAnalysisErrorView::ImmutableVariable(a@)
            },
        }
    }
}

impl View for SemanticAnalysisError {
    type V = SemanticAnalysisErrorView;

    open spec fn view(&self) -> SemanticAnalysisErrorView {
        self.deep_view()
    }
}

impl SemanticAnalysisErrorView {
    /// The diagnostic for this error.
    pub open spec fn display(self) -> Seq<char> {
        match self {
            SemanticAnalysisErrorView::MultipleDefinition(identifier) => "Multiple definitions of \""@
                + identifier + "\""@,
            SemanticAnalysisErrorView::NoVertexMain => "No \"vertex_main()\" function defined"@,
            SemanticAnalysisErrorView::NoFragmentMain => "No \"fragment_main()\" function defined"@,
            SemanticAnalysisErrorView::UnknownType(name) => "Unknown type name \""@ + name + "\""@,
            SemanticAnalysisErrorView::UnknownVariable(name) => "Unknown variable name \""@ + name
                + "\""@,
            SemanticAnalysisErrorView::UnknownFunction(name) => {
                "Unknown function \""@ + name + "\""@
            },
            SemanticAnalysisErrorView::UnknownStructure(name) => "Unknown structure \""@ + name
                + "\""@,
            SemanticAnalysisErrorView::InvalidParameterCount(name, actual, expected) => "Function \""@
                + name + "\" expects "@ + decimal(expected as nat) + " parameters, only "@ + decimal(
                actual as nat,
            ) + " provided"@,
            SemanticAnalysisErrorView::InvalidParameterType(name, index, actual, expected) => "Function \""@
                + name + "\" expects parameter "@ + decimal(crate::stream::saturate(index + 1) as nat)
                + " to be of type \""@ + expected + "\", instead found type \""@ + actual + "\""@,
            SemanticAnalysisErrorView::InvalidReturnType(actual, expected) => "Invalid return type \""@
                + actual + "\", expected \""@ + expected + "\""@,
            SemanticAnalysisErrorView::InvalidMemberType(structure, member, actual, expected) => "\""@
                + member + "\" in struct \""@ + structure + "\" has type \""@ + expected
                + "\", found \""@ + actual + "\" instead"@,
            SemanticAnalysisErrorView::MissingStructureMember(structure, member) => "Missing member \""@
                + member + "\" from initialization of struct \""@ + structure + "\""@,
            SemanticAnalysisErrorView::InvalidMember(structure, member) => "Struct \""@ + structure
                + "\" does not contain a member named \""@ + member + "\""@,
            SemanticAnalysisErrorView::VertexMainParameterCount => {
                "\"vertex_main()\" must take one parameter"@
            },
            SemanticAnalysisErrorView::InvalidVertexMainParameterType(actual) => "The parameter for \"vertex_main()\" must be a structure with semantics, instead it is \""@
                + actual + "\""@,
            SemanticAnalysisErrorView::InvalidVertexMainReturnType(actual) => "The return type for \"vertex_main()\" must be a structure with semantics, instead is it \""@
                + actual + "\""@,
            SemanticAnalysisErrorView::VertexMainReturnTypeMismatch(actual, expected) => "The return type of \"vertex_main()\" must be the same as the parameter type \"fragment_main()\" (\""@
                + expected + "\"), instead it is \""@ + actual + "\""@,
            SemanticAnalysisErrorView::FragmentMainParameterCount => {
                "\"fragment_main()\" must take one parameter"@
            },
            SemanticAnalysisErrorView::InvalidFragmentMainParameterType(actual) => "The parameter for \"fragment_main()\" must be a structure with semantics, instead it is \""@
                + actual + "\""@,
            SemanticAnalysisErrorView::InvalidFragmentMainReturnType(actual) => "\"fragment_main()\" must return a float4, instead it is \""@
                + actual + "\""@,
            SemanticAnalysisErrorView::FragmentMainParameterTypeMismatch(actual, expected) => "The parameter for \"fragment_main()\" must be the same as the return type of \"vertex_main()\" (\""@
                + expected + "\"), instead it is \""@ + actual + "\""@,
            SemanticAnalysisErrorView::AllFieldsNeedSemantics(structure) => "All fields require semantics when they are defined, and \""@
                + structure + "\" is missing some"@,
            SemanticAnalysisErrorView::SlotOutOfRange(kind, slot, count) => "Slot "@ + decimal(
                slot as nat,
            ) + " is out of range for "@ + kind + ", of which there are "@ + decimal(count as nat),
            SemanticAnalysisErrorView::InvalidTextureType(actual) => "A texture cannot hold \""@
                + actual + "\""@,
            SemanticAnalysisErrorView::InvalidVariableName(name) => "The name \""@ + name
                + "\" is reserved"@,
            SemanticAnalysisErrorView::InvalidOperation(left, operator, right) => "Invalid operation \""@
                + left + " "@ + operator + " "@ + right + "\""@,
            SemanticAnalysisErrorView::VariableTypeMismatch(name, actual, expected) => "Variable \""@
                + name + "\" has type \""@ + expected + "\", found \""@ + actual + "\" instead"@,
            SemanticAnalysisErrorView::ImmutableVariable(name) => "Variable \""@ + name
                + "\" is not mutable"@,
        }
    }
}

/// Joins the pieces of a diagnostic: each text of `texts` with the value of
/// `values` at its position behind it.
fn message(texts: &[&str], values: &[&str]) -> (text: String)
    requires
        texts.len() == values.len(),
    ensures
        text@ == interleaved(texts.deep_view(), values.deep_view(), texts.len() as int),
{
    let mut text = String::new();
    let mut i: usize = 0;
    while i < texts.len()
        invariant
            i <= texts.len(),
            texts.len() == values.len(),
            text@ == interleaved(texts.deep_view(), values.deep_view(), i as int),
        decreases texts.len() - i,
    {
        text.append(texts[i]);
        text.append(values[i]);
        assert(texts.deep_view()[i as int] == texts[i as int]@);
        assert(values.deep_view()[i as int] == values[i as int]@);
        i += 1;
    }
    text
}

/// The first `count` texts, each with the value at its position behind it.
pub open spec fn interleaved(texts: Seq<Seq<char>>, values: Seq<Seq<char>>, count: int) -> Seq<char>
    decreases count,
{
    if count <= 0 {
        Seq::empty()
    } else {
        interleaved(texts, values, count - 1) + texts[count - 1] + values[count - 1]
    }
}

impl SemanticAnalysisError {
    /// The diagnostic for this error.
    pub fn to_string(&self) -> (text: String)
        ensures
            text@ == self@.display(),
    {
        let text = match self {
            SemanticAnalysisError::MultipleDefinition(identifier) => message(
                &["Multiple definitions of \"", "\""],
                &[identifier.as_str(), ""],
            ),
            SemanticAnalysisError::NoVertexMain => {
                "No \"vertex_main()\" function defined".to_owned()
            },
            SemanticAnalysisError::NoFragmentMain => {
                "No \"fragment_main()\" function defined".to_owned()
            },
            SemanticAnalysisError::UnknownType(name) => message(
                &["Unknown type name \"", "\""],
                &[name.as_str(), ""],
            ),
            SemanticAnalysisError::UnknownVariable(name) => message(
                &["Unknown variable name \"", "\""],
                &[name.as_str(), ""],
            ),
            SemanticAnalysisError::UnknownFunction(name) => message(
                &["Unknown function \"", "\""],
                &[name.as_str(), ""],
            ),
            SemanticAnalysisError::UnknownStructure(name) => message(
                &["Unknown structure \"", "\""],
                &[name.as_str(), ""],
            ),
            SemanticAnalysisError::InvalidParameterCount(name, actual, expected) => {
                let expected = crate::text::decimal_string(*expected);
                let actual = crate::text::decimal_string(*actual);
                message(
                    &["Function \"", "\" expects ", " parameters, only ", " provided"],
                    &[name.as_str(), expected.as_str(), actual.as_str(), ""],
                )
            },
            SemanticAnalysisError::InvalidParameterType(name, index, actual, expected) => {
                let position = crate::text::decimal_string(
                    if *index < usize::MAX {
                        *index + 1
                    } else {
                        usize::MAX
                    },
                );
                message(
                    &[
                        "Function \"",
                        "\" expects parameter ",
                        " to be of type \"",
                        "\", instead found type \"",
                        "\"",
                    ],
                    &[name.as_str(), position.as_str(), expected.as_str(), actual.as_str(), ""],
                )
            },
            SemanticAnalysisError::InvalidReturnType(actual, expected) => message(
                &["Invalid return type \"", "\", expected \"", "\""],
                &[actual.as_str(), expected.as_str(), ""],
            ),
            SemanticAnalysisError::InvalidMemberType(structure, member, actual, expected) => message(
                &["\"", "\" in struct \"", "\" has type \"", "\", found \"", "\" instead"],
                &[member.as_str(), structure.as_str(), expected.as_str(), actual.as_str(), ""],
            ),
            SemanticAnalysisError::MissingStructureMember(structure, member) => message(
                &["Missing member \"", "\" from initialization of struct \"", "\""],
                &[member.as_str(), structure.as_str(), ""],
            ),
            SemanticAnalysisError::InvalidMember(structure, member) => message(
                &["Struct \"", "\" does not contain a member named \"", "\""],
                &[structure.as_str(), member.as_str(), ""],
            ),
            SemanticAnalysisError::VertexMainParameterCount => {
                "\"vertex_main()\" must take one parameter".to_owned()
            },
            SemanticAnalysisError::InvalidVertexMainParameterType(actual) => message(
                &[
                    "The parameter for \"vertex_main()\" must be a structure with semantics, instead it is \"",
                    "\"",
                ],
                &[actual.as_str(), ""],
            ),
            SemanticAnalysisError::InvalidVertexMainReturnType(actual) => message(
                &[
                    "The return type for \"vertex_main()\" must be a structure with semantics, instead is it \"",
                    "\"",
                ],
                &[actual.as_str(), ""],
            ),
            SemanticAnalysisError::VertexMainReturnTypeMismatch(actual, expected) => message(
                &[
                    "The return type of \"vertex_main()\" must be the same as the parameter type \"fragment_main()\" (\"",
                    "\"), instead it is \"",
                    "\"",
                ],
                &[expected.as_str(), actual.as_str(), ""],
            ),
            SemanticAnalysisError::FragmentMainParameterCount => {
                "\"fragment_main()\" must take one parameter".to_owned()
            },
            SemanticAnalysisError::InvalidFragmentMainParameterType(actual) => message(
                &[
                    "The parameter for \"fragment_main()\" must be a structure with semantics, instead it is \"",
                    "\"",
                ],
                &[actual.as_str(), ""],
            ),
            SemanticAnalysisError::InvalidFragmentMainReturnType(actual) => message(
                &["\"fragment_main()\" must return a float4, instead it is \"", "\""],
                &[actual.as_str(), ""],
            ),
            SemanticAnalysisError::FragmentMainParameterTypeMismatch(actual, expected) => message(
                &[
                    "The parameter for \"fragment_main()\" must be the same as the return type of \"vertex_main()\" (\"",
                    "\"), instead it is \"",
                    "\"",
                ],
                &[expected.as_str(), actual.as_str(), ""],
            ),
            SemanticAnalysisError::AllFieldsNeedSemantics(structure) => message(
                &[
                    "All fields require semantics when they are defined, and \"",
                    "\" is missing some",
                ],
                &[structure.as_str(), ""],
            ),
            SemanticAnalysisError::SlotOutOfRange(kind, slot, count) => {
                let slot = crate::text::decimal_string(*slot);
                let count = crate::text::decimal_string(*count);
                message(
                    &["Slot ", " is out of range for ", ", of which there are "],
                    &[slot.as_str(), *kind, count.as_str()],
                )
            },
            SemanticAnalysisError::InvalidTextureType(actual) => message(
                &["A texture cannot hold \"", "\""],
                &[actual.as_str(), ""],
            ),
            SemanticAnalysisError::InvalidVariableName(name) => message(
                &["The name \"", "\" is reserved"],
                &[name.as_str(), ""],
            ),
            SemanticAnalysisError::InvalidOperation(left, operator, right) => message(
                &["Invalid operation \"", " ", " ", "\""],
                &[left.as_str(), *operator, right.as_str(), ""],
            ),
            SemanticAnalysisError::VariableTypeMismatch(name, actual, expected) => message(
                &["Variable \"", "\" has type \"", "\", found \"", "\" instead"],
                &[name.as_str(), expected.as_str(), actual.as_str(), ""],
            ),
            SemanticAnalysisError::ImmutableVariable(name) => message(
                &["Variable \"", "\" is not mutable"],
                &[name.as_str(), ""],
            ),
        };
        proof {
            reveal_strlit("");
            reveal_with_fuel(interleaved, 6);
            assert(text@ =~= self@.display());
        }
        text
    }
}

/// The program as the parser read it: its declarations in source order.
pub struct AbstractSyntaxTree {
    declarations: Vec<Declaration>,
}

/// The model of an [`AbstractSyntaxTree`].
pub struct AbstractSyntaxTreeView {
    pub declarations: Seq<DeclarationView>,
}

/// The tree after the declarations from position `at` on have been analysed
/// and added to `tree`, one after the other, or the first error.
pub open spec fn analyse_declarations(declarations: Seq<DeclarationView>, tree: TreeView, at: int) -> Result<
    TreeView,
    SemanticAnalysisErrorView,
>
    decreases declarations.len() - at,
{
    if at < 0 || at >= declarations.len() {
        Ok(tree)
    } else {
        match declarations[at].analyse(tree) {
            Err(error) => Err(error),
            Ok(after) => analyse_declarations(declarations, after, at + 1),
        }
    }
}

/// The kinds and the names of the declarations from position `at` on that
/// the backends write out: those that are no aliases, in source order.
pub open spec fn labels(declarations: Seq<DeclarationView>, at: int) -> Seq<
    (DeclarationKind, Seq<char>),
>
    decreases declarations.len() - at,
{
    if at < 0 || at >= declarations.len() {
        Seq::empty()
    } else {
        (match declarations[at].label() {
            Some(label) => seq![label],
            None => Seq::empty(),
        }) + labels(declarations, at + 1)
    }
}

/// Where the declarations from position `at` on are analysed without error,
/// the tree keeps its invariant, its signatures interned, its resources in
/// order and its local names free of reserved prefixes, and the declarations
/// that were written out before are followed by those that are no aliases,
/// in source order.
pub proof fn analysed_declarations_are_written_in_order(
    declarations: Seq<DeclarationView>,
    tree: TreeView,
    at: int,
)
    requires
        tree.well_formed(),
        tree.signatures_are_interned(),
        tree.resources_are_in_order(),
        tree.locals_are_allowed(),
        0 <= at,
        analyse_declarations(declarations, tree, at) is Ok,
    ensures
        analyse_declarations(declarations, tree, at)->Ok_0.well_formed(),
        analyse_declarations(declarations, tree, at)->Ok_0.signatures_are_interned(),
        analyse_declarations(declarations, tree, at)->Ok_0.resources_are_in_order(),
        analyse_declarations(declarations, tree, at)->Ok_0.locals_are_allowed(),
        analyse_declarations(declarations, tree, at)->Ok_0.written() == tree.written() + labels(
            declarations,
            at,
        ),
    decreases declarations.len() - at,
{
    if at < declarations.len() {
        let after = declarations[at].analyse(tree)->Ok_0;
        declaration::analysed_declaration_is_written_last(declarations[at], tree);
        analysed_declarations_are_written_in_order(declarations, after, at + 1);
        assert(analyse_declarations(declarations, tree, at)->Ok_0.written() =~= tree.written()
            + labels(declarations, at));
    } else {
        assert(tree.written() + labels(declarations, at) =~= tree.written());
    }
}

/// The backends write the declarations of a program in source order and
/// leave the aliases out: the declarations that the annotated tree of a
/// program lists for writing are, by kind and name, the declarations of the
/// program that are no aliases, in the order of the source. The tree keeps
/// the invariant of annotated trees, its signatures are interned, its
/// structs and textures are in order, no name in it has a reserved prefix,
/// and it has both entry points.
pub proof fn declaration_order_is_preserved(program: AbstractSyntaxTreeView)
    requires
        program.analyse() is Ok,
    ensures
        program.analyse()->Ok_0.written() == labels(program.declarations, 0),
        program.analyse()->Ok_0.well_formed(),
        program.analyse()->Ok_0.signatures_are_interned(),
        program.analyse()->Ok_0.resources_are_in_order(),
        program.analyse()->Ok_0.locals_are_allowed(),
        program.analyse()->Ok_0.complete(),
{
    let empty = TreeView::empty();
    crate::ast::scope::scopes_stay_in_order(
        crate::ast::scope::ScopeView::empty(),
        Seq::empty(),
        crate::types::float_view(),
        false,
    );
    assert(empty.well_formed());
    assert(empty.signatures_are_interned());
    assert(empty.resources_are_in_order());
    analysed_declarations_are_written_in_order(program.declarations, empty, 0);
    assert(empty.written() =~= Seq::empty());
    assert(Seq::<(DeclarationKind, Seq<char>)>::empty() + labels(program.declarations, 0) =~= labels(
        program.declarations,
        0,
    ));
}

impl AbstractSyntaxTreeView {
    /// The declarations as a diagnostic lists them.
    pub open spec fn display_lines(self) -> Seq<Seq<char>> {
        Seq::new(self.declarations.len(), |i: int| self.declarations[i].display())
    }

    /// The program as a diagnostic writes it: a heading and the list of the
    /// declarations.
    pub open spec fn display(self) -> Seq<char> {
        "Abstract Syntax Tree:\n"@ + concat(self.display_lines())
    }

    /// The annotated tree of the program, or the first error of the
    /// analysis: the declarations are analysed in source order, and then the
    /// two entry points must be there.
    pub open spec fn analyse(self) -> Result<TreeView, SemanticAnalysisErrorView> {
        match analyse_declarations(self.declarations, TreeView::empty(), 0) {
            Err(error) => Err(error),
            Ok(tree) => match tree.verify_graphics_functions() {
                Err(error) => Err(error),
                Ok(()) => Ok(tree),
            },
        }
    }
}

impl AbstractSyntaxTree {
    /// The model of this tree.
    pub closed spec fn model(&self) -> AbstractSyntaxTreeView {
        AbstractSyntaxTreeView { declarations: self.declarations.deep_view() }
    }

    /// The empty program.
    pub fn new() -> (tree: Self)
        ensures
            tree@.declarations == Seq::<DeclarationView>::empty(),
    {
        let tree = AbstractSyntaxTree { declarations: Vec::new() };
        assert(tree.model().declarations =~= Seq::empty());
        tree
    }

    /// Appends a declaration.
    pub fn push(&mut self, declaration: Declaration)
        ensures
            final(self)@.declarations == old(self)@.declarations.push(declaration@),
    {
        self.declarations.push(declaration);
        assert(self.model().declarations =~= old(self).model().declarations.push(declaration@));
    }

    /// The declarations of the program, in source order.
    pub fn declarations(&self) -> (declarations: &Vec<Declaration>)
        ensures
            declarations.deep_view() == self@.declarations,
    {
        &self.declarations
    }

    /// The program as a diagnostic writes it.
    pub fn to_string(&self) -> (text: String)
        ensures
            text@ == self@.display(),
    {
        let mut text = "Abstract Syntax Tree:\n".to_owned();
        let ghost lines = self@.display_lines();
        let mut i: usize = 0;
        assert(lines.take(0) =~= Seq::<Seq<char>>::empty());
        assert(text@ =~= "Abstract Syntax Tree:\n"@ + concat(lines.take(0)));
        while i < self.declarations.len()
            invariant
                i <= self.declarations.len(),
                lines == self@.display_lines(),
                text@ == "Abstract Syntax Tree:\n"@ + concat(lines.take(i as int)),
            decreases self.declarations.len() - i,
        {
            let ghost before = text@;
            text.append(self.declarations[i].to_string().as_str());
            proof {
                assert(self@.declarations[i as int] == self.declarations[i as int]@);
                concat_push(lines.take(i as int), lines[i as int]);
                assert(lines.take(i as int).push(lines[i as int]) =~= lines.take(i + 1));
                assert(text@ =~= before + lines[i as int]);
                assert(text@ =~= "Abstract Syntax Tree:\n"@ + concat(lines.take(i + 1)));
            }
            i += 1;
        }
        assert(lines.take(self.declarations.len() as int) =~= lines);
        text
    }

    /// The annotated tree of the program. A tree that comes out keeps the
    /// invariant of annotated trees and has both entry points.
    #[verifier::loop_isolation(false)]
    pub fn semantic_analysis(&self) -> (r: Result<AnnotatedSyntaxTree, SemanticAnalysisError>)
        ensures
            result_model(r) == self@.analyse(),
            r matches Ok(tree) ==> tree@.well_formed() && tree@.complete(),
    {
        let mut output_tree = AnnotatedSyntaxTree::new();
        let mut i: usize = 0;
        while i < self.declarations.len()
            invariant
                i <= self.declarations.len(),
                output_tree@.well_formed(),
                analyse_declarations(self@.declarations, output_tree@, i as int)
                    == analyse_declarations(self@.declarations, TreeView::empty(), 0),
            decreases self.declarations.len() - i,
        {
            assert(self@.declarations[i as int] == self.declarations[i as int]@);
            match self.declarations[i].semantic_analysis(&mut output_tree) {
                Ok(()) => {},
                Err(error) => {
                    return Err(error);
                },
            }
            i += 1;
        }
        match output_tree.verify_graphics_functions() {
            Ok(()) => {},
            Err(error) => {
                return Err(error);
            },
        }
        Ok(output_tree)
    }
}

impl DeepView for AbstractSyntaxTree {
    type V = AbstractSyntaxTreeView;

    open spec fn deep_view(&self) -> AbstractSyntaxTreeView {
        self.model()
    }
}

impl View for AbstractSyntaxTree {
    type V = AbstractSyntaxTreeView;

    open spec fn view(&self) -> AbstractSyntaxTreeView {
        self.model()
    }
}

} // verus!
