//! Untyped code blocks and their analysis.

use crate::annotated::{self, AnnotatedSyntaxTree, TreeView};
use crate::lexer::{token_stream, TokenStream};
use crate::model::{concat, concat_push, indentation, push_indentation};
use crate::parser::{parsed, required_token, Parsed, ParserError, ParserErrorView};
use crate::stream::Stream;
use crate::tokens::{TokenClass, TokenClassView};
use crate::types::{Type, TypeView};
use super::{SemanticAnalysisError, SemanticAnalysisErrorView};
use super::scope::{Scope, ScopeView};
use super::statement::{Statement, StatementView};
use vstd::prelude::*;
use vstd::string::*;

verus! {

/// The statements between the braces of a function and the depth at which
/// they are indented.
pub struct CodeBlock {
    indent: usize,
    statements: Vec<Statement>,
}

/// The model of a [`CodeBlock`].
pub struct CodeBlockView {
    pub indent: usize,
    pub statements: Seq<StatementView>,
}

/// The typed statements from position `at` on, after the typed statements
/// `done`, and the scope after the last of them. Each statement is analysed
/// in the scope that the statements before it left.
pub open spec fn analyse_statements(
    statements: Seq<StatementView>,
    tree: TreeView,
    scope: ScopeView,
    return_type: TypeView,
    at: int,
    done: Seq<annotated::statement::StatementView>,
) -> Result<(Seq<annotated::statement::StatementView>, ScopeView), SemanticAnalysisErrorView>
    decreases statements.len() - at,
{
    if at < 0 || at >= statements.len() {
        Ok((done, scope))
    } else {
        match statements[at].analyse(tree, scope, return_type) {
            Err(error) => Err(error),
            Ok((typed, after)) => analyse_statements(
                statements,
                tree,
                after,
                return_type,
                at + 1,
                done.push(typed),
            ),
        }
    }
}

/// The statements of a block after the statements `done`, up to the
/// closing brace.
pub open spec fn statements(tokens: TokenStream, done: Seq<StatementView>) -> Parsed<
    Seq<StatementView>,
>
    decreases tokens.tokens.len(),
{
    match tokens.next() {
        Err(error) => Err(error),
        Ok((token, rest)) => if token.class is CloseCurlyBrace {
            Ok((done, rest))
        } else {
            match super::statement::parse_tokens(rest, token) {
                Err(error) => Err(error),
                Ok((statement, after)) => {
                    proof {
                        statement_consumes(rest, token);
                    }
                    statements(after, done.push(statement))
                },
            }
        },
    }
}

/// A statement takes a token at least.
pub proof fn statement_consumes(tokens: TokenStream, first_token: crate::tokens::TokenView)
    ensures
        super::statement::parse_tokens(tokens, first_token) matches Ok((_, rest))
            ==> rest.tokens.len() < tokens.tokens.len(),
{
    super::expression::expression_consumes(tokens);
    match tokens.expect(TokenClassView::Equal) {
        Ok((_, rest)) => {
            super::expression::expression_consumes(rest);
        },
        Err(_) => {},
    }
    match super::statement::variable_definition::declared_name(tokens) {
        Ok((_, rest)) => match rest.expect(TokenClassView::Equal) {
            Ok((_, rest)) => {
                super::expression::expression_consumes(rest);
            },
            Err(_) => {},
        },
        Err(_) => {},
    }
}

/// The statements of a block and its closing brace take a token at least.
pub proof fn statements_consume(tokens: TokenStream, done: Seq<StatementView>)
    ensures
        statements(tokens, done) matches Ok((_, rest)) ==> rest.tokens.len() < tokens.tokens.len(),
    decreases tokens.tokens.len(),
{
    match tokens.next() {
        Err(_) => {},
        Ok((token, rest)) => if !(token.class is CloseCurlyBrace) {
            statement_consumes(rest, token);
            match super::statement::parse_tokens(rest, token) {
                Err(_) => {},
                Ok((statement, after)) => {
                    statements_consume(after, done.push(statement));
                },
            }
        },
    }
}

/// A block after its opening brace, indented by `indent` levels.
pub open spec fn parse_tokens(tokens: TokenStream, indent: usize) -> Parsed<CodeBlockView> {
    match statements(tokens, Seq::empty()) {
        Err(error) => Err(error),
        Ok((read, rest)) => Ok((CodeBlockView { indent, statements: read }, rest)),
    }
}

/// The statements that are analysed without error define no variable with
/// a reserved prefix.
pub proof fn analysed_statements_define_allowed_names(
    statements: Seq<StatementView>,
    tree: TreeView,
    scope: ScopeView,
    return_type: TypeView,
    at: int,
    done: Seq<annotated::statement::StatementView>,
)
    requires
        forall|i: int|
            0 <= i < done.len() ==> annotated::code_block::defines_allowed_name(#[trigger] done[i]),
        analyse_statements(statements, tree, scope, return_type, at, done) is Ok,
    ensures
        forall|i: int|
            0 <= i < analyse_statements(statements, tree, scope, return_type, at, done)->Ok_0.0.len()
                ==> annotated::code_block::defines_allowed_name(
                #[trigger] analyse_statements(statements, tree, scope, return_type, at, done)->Ok_0.0[i],
            ),
    decreases statements.len() - at,
{
    if 0 <= at < statements.len() {
        let (typed, after) = statements[at].analyse(tree, scope, return_type)->Ok_0;
        let longer = done.push(typed);
        assert forall|i: int| 0 <= i < longer.len() implies annotated::code_block::defines_allowed_name(
            #[trigger] longer[i],
        ) by {
            if i < done.len() {
                assert(longer[i] == done[i]);
            }
        }
        analysed_statements_define_allowed_names(statements, tree, after, return_type, at + 1, longer);
    }
}

impl CodeBlockView {
    /// The statements as a diagnostic lists them, one for each statement:
    /// indented, behind a dash.
    pub open spec fn display_lines(self) -> Seq<Seq<char>> {
        Seq::new(
            self.statements.len(),
            |i: int| indentation(self.indent as nat) + "  - "@ + self.statements[i].display(),
        )
    }

    /// The block as a diagnostic writes it.
    pub open spec fn display(self) -> Seq<char> {
        concat(self.display_lines())
    }

    /// The typed block and the scope after its last statement, or the first
    /// error of the analysis.
    pub open spec fn analyse(self, tree: TreeView, scope: ScopeView, return_type: TypeView) -> Result<
        (annotated::code_block::CodeBlockView, ScopeView),
        SemanticAnalysisErrorView,
    > {
        match analyse_statements(self.statements, tree, scope, return_type, 0, Seq::empty()) {
            Err(error) => Err(error),
            Ok((statements, after)) => Ok(
                (annotated::code_block::CodeBlockView { indent: self.indent, statements }, after),
            ),
        }
    }
}

impl CodeBlock {
    /// The model of this block.
    pub closed spec fn model(&self) -> CodeBlockView {
        CodeBlockView { indent: self.indent, statements: self.statements.deep_view() }
    }

    pub fn new(indent: usize, statements: Vec<Statement>) -> (block: Self)
        ensures
            block@ == (CodeBlockView { indent, statements: statements.deep_view() }),
    {
        CodeBlock { indent, statements }
    }

    /// The block as a diagnostic writes it.
    pub fn to_string(&self) -> (text: String)
        ensures
            text@ == self@.display(),
    {
        let mut text = String::new();
        let ghost lines = self@.display_lines();
        let mut i: usize = 0;
        assert(lines.take(0) =~= Seq::<Seq<char>>::empty());
        assert(text@ =~= concat(lines.take(0)));
        while i < self.statements.len()
            invariant
                i <= self.statements.len(),
                lines == self@.display_lines(),
                text@ == concat(lines.take(i as int)),
            decreases self.statements.len() - i,
        {
            let ghost before = text@;
            push_indentation(&mut text, self.indent);
            text.append("  - ");
            text.append(self.statements[i].to_string().as_str());
            proof {
                assert(self@.statements[i as int] == self.statements[i as int]@);
                concat_push(lines.take(i as int), lines[i as int]);
                assert(lines.take(i as int).push(lines[i as int]) =~= lines.take(i + 1));
                assert(text@ =~= before + lines[i as int]);
            }
            i += 1;
        }
        assert(lines.take(self.statements.len() as int) =~= lines);
        text
    }

    /// Parses a block after its opening brace.
    pub fn parse(stream: &mut Stream, indent: usize) -> (r: Result<Self, ParserError>)
        ensures
            parsed(
                r,
                old(stream)@,
                final(stream)@,
                parse_tokens(token_stream(old(stream)@), indent),
            ),
    {
        let mut read: Vec<Statement> = Vec::new();
        assert(read.deep_view() =~= Seq::empty());
        loop
            invariant_except_break
                statements(token_stream(stream@), read.deep_view()) == statements(
                    token_stream(old(stream)@),
                    Seq::empty(),
                ),
                token_stream(stream@).tokens.len() <= token_stream(old(stream)@).tokens.len(),
            ensures
                statements(token_stream(old(stream)@), Seq::empty()) == Ok::<
                    (Seq<StatementView>, TokenStream),
                    ParserErrorView,
                >((read.deep_view(), token_stream(stream@))),
                token_stream(stream@).tokens.len() < token_stream(old(stream)@).tokens.len(),
            decreases token_stream(stream@).tokens.len(),
        {
            let ghost before = read.deep_view();
            let token = match required_token(stream) {
                Ok(token) => token,
                Err(error) => {
                    return Err(error);
                },
            };
            let closing = match token.class() {
                TokenClass::CloseCurlyBrace => true,
                _ => false,
            };
            if closing {
                break ;
            }
            match Statement::parse(stream, token) {
                Ok(statement) => {
                    read.push(statement);
                    assert(read.deep_view() =~= before.push(statement@));
                },
                Err(error) => {
                    return Err(error);
                },
            }
        }
        Ok(CodeBlock { indent, statements: read })
    }

    /// The typed block. The definitions of the block are added to `scope`.
    #[verifier::loop_isolation(false)]
    pub fn semantic_analysis(
        &self,
        output_tree: &AnnotatedSyntaxTree,
        scope: &mut Scope,
        function_return_type: &Type,
    ) -> (r: Result<annotated::code_block::CodeBlock, SemanticAnalysisError>)
        ensures
            match self@.analyse(output_tree@, old(scope)@, function_return_type@) {
                Ok((block, after)) => r matches Ok(typed) && typed@ == block && final(scope)@ == after,
                Err(error) => r matches Err(e) && e@ == error,
            },
    {
        let mut statements: Vec<annotated::statement::Statement> = Vec::new();
        let mut i: usize = 0;
        assert(statements.deep_view() =~= Seq::empty());
        while i < self.statements.len()
            invariant
                i <= self.statements.len(),
                analyse_statements(
                    self@.statements,
                    output_tree@,
                    scope@,
                    function_return_type@,
                    i as int,
                    statements.deep_view(),
                ) == analyse_statements(
                    self@.statements,
                    output_tree@,
                    old(scope)@,
                    function_return_type@,
                    0,
                    Seq::empty(),
                ),
            decreases self.statements.len() - i,
        {
            let ghost before = statements.deep_view();
            assert(self@.statements[i as int] == self.statements[i as int]@);
            match self.statements[i].semantic_analysis(output_tree, scope, function_return_type) {
                Ok(typed) => {
                    statements.push(typed);
                    assert(statements.deep_view() =~= before.push(typed@));
                },
                Err(error) => {
                    return Err(error);
                },
            }
            i += 1;
        }
        Ok(annotated::code_block::CodeBlock::new(self.indent, statements))
    }
}

impl DeepView for CodeBlock {
    type V = CodeBlockView;

    open spec fn deep_view(&self) -> CodeBlockView {
        self.model()
    }
}

impl View for CodeBlock {
    type V = CodeBlockView;

    open spec fn view(&self) -> CodeBlockView {
        self.model()
    }
}

} // verus!
