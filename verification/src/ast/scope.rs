//! Lexical scopes: the variables in sight at a place of the program.

use crate::model::{first, first_from, first_push, result_model};
use crate::text::{is_reserved_name, reserved_name, str_eq};
use crate::types::{Type, TypeView};
use super::{SemanticAnalysisError, SemanticAnalysisErrorView};
use vstd::prelude::*;
use vstd::string::*;

verus! {

/// A scope: its own variables in the order of their definition, each with
/// its type and whether it may be assigned to, and the scope around it.
pub struct Scope {
    variables: Vec<(String, Type, bool)>,
    parent: Option<Box<Scope>>,
}

/// The model of a [`Scope`].
pub struct ScopeView {
    pub variables: Seq<(Seq<char>, TypeView, bool)>,
    pub parent: Option<Box<ScopeView>>,
}

/// The test for a variable called `name`.
pub open spec fn variable_named(name: Seq<char>) -> spec_fn((Seq<char>, TypeView, bool)) -> bool {
    |v: (Seq<char>, TypeView, bool)| v.0 == name
}

impl ScopeView {
    /// The scope without variables and without parent.
    pub open spec fn empty() -> ScopeView {
        ScopeView { variables: Seq::empty(), parent: None }
    }

    /// An empty scope inside this one.
    pub open spec fn new_child(self) -> ScopeView {
        ScopeView { variables: Seq::empty(), parent: Some(Box::new(self)) }
    }

    /// Whether the scope and the scopes around it are in order: each defines
    /// every one of its names once, and none with a reserved prefix.
    pub open spec fn well_formed(self) -> bool
        decreases self,
    {
        &&& forall|i: int|
            0 <= i < self.variables.len() ==> self.position((#[trigger] self.variables[i]).0) == Some(
                i,
            ) && !is_reserved_name(self.variables[i].0)
        &&& match self.parent {
            Some(parent) => parent.well_formed(),
            None => true,
        }
    }

    /// The position of the variable `name` among the scope's own variables.
    pub open spec fn position(self, name: Seq<char>) -> Option<int> {
        first(self.variables, variable_named(name))
    }

    /// The type and the mutability of the variable `name`, looked for in
    /// this scope first and then in the scopes around it.
    pub open spec fn lookup(self, name: Seq<char>) -> Option<(TypeView, bool)>
        decreases self,
    {
        match self.position(name) {
            Some(at) => Some((self.variables[at].1, self.variables[at].2)),
            None => match self.parent {
                Some(parent) => parent.lookup(name),
                None => None,
            },
        }
    }

    /// The variable `name`, or `UnknownVariable`.
    pub open spec fn get_variable(self, name: Seq<char>) -> Result<
        (TypeView, bool),
        SemanticAnalysisErrorView,
    > {
        match self.lookup(name) {
            Some(variable) => Ok(variable),
            None => Err(SemanticAnalysisErrorView::UnknownVariable(name)),
        }
    }

    /// The scope with one more variable of its own. A name with a reserved
    /// prefix gives `InvalidVariableName`, a name that the scope itself
    /// already defines `MultipleDefinition`; a name of a scope around it may
    /// be defined again.
    pub open spec fn define_variable(self, name: Seq<char>, variable_type: TypeView, mutable: bool) -> Result<
        ScopeView,
        SemanticAnalysisErrorView,
    > {
        if is_reserved_name(name) {
            Err(SemanticAnalysisErrorView::InvalidVariableName(name))
        } else if self.position(name) is Some {
            Err(SemanticAnalysisErrorView::MultipleDefinition(name))
        } else {
            Ok(
                ScopeView {
                    variables: self.variables.push((name, variable_type, mutable)),
                    parent: self.parent,
                },
            )
        }
    }
}

impl Scope {
    /// The model of this scope.
    pub closed spec fn model(&self) -> ScopeView
        decreases self,
    {
        ScopeView {
            variables: Seq::new(
                self.variables.len() as nat,
                |i: int|
                    (self.variables[i].0@, self.variables[i].1@, self.variables[i].2),
            ),
            parent: match self.parent {
                Some(parent) => Some(Box::new(parent.model())),
                None => None,
            },
        }
    }

    pub fn new() -> (scope: Self)
        ensures
            scope@ == ScopeView::empty(),
    {
        let scope = Scope { variables: Vec::new(), parent: None };
        assert(scope.model().variables =~= Seq::empty());
        scope
    }

    /// A copy of this scope.
    fn duplicate(&self) -> (copy: Self)
        ensures
            copy@ == self@,
        decreases self,
    {
        let mut variables: Vec<(String, Type, bool)> = Vec::new();
        let mut i: usize = 0;
        while i < self.variables.len()
            invariant
                i <= self.variables.len(),
                variables.len() == i,
                forall|k: int|
                    0 <= k < i ==> (#[trigger] variables[k].0)@ == self.variables[k].0@
                        && variables[k].1@ == self.variables[k].1@ && variables[k].2
                        == self.variables[k].2,
            decreases self.variables.len() - i,
        {
            variables.push(
                (self.variables[i].0.clone(), self.variables[i].1.clone(), self.variables[i].2),
            );
            i += 1;
        }
        let parent = match &self.parent {
            Some(parent) => Some(Box::new(parent.duplicate())),
            None => None,
        };
        let copy = Scope { variables, parent };
        assert(copy.model().variables =~= self.model().variables);
        copy
    }

    /// An empty scope inside this one. What is defined in the child stays in
    /// the child.
    pub fn new_child(&self) -> (child: Self)
        ensures
            child@ == self@.new_child(),
    {
        let child = Scope { variables: Vec::new(), parent: Some(Box::new(self.duplicate())) };
        assert(child.model().variables =~= Seq::empty());
        child
    }

    /// The position of the variable `name` among the scope's own variables.
    fn position(&self, name: &str) -> (at: Option<usize>)
        ensures
            match at {
                Some(at) => self@.position(name@) == Some(at as int) && at < self.variables.len(),
                None => self@.position(name@) is None,
            },
    {
        let ghost wanted = variable_named(name@);
        let mut i: usize = 0;
        while i < self.variables.len()
            invariant
                i <= self.variables.len(),
                wanted == variable_named(name@),
                first_from(self@.variables, wanted, i as int) == self@.position(name@),
            decreases self.variables.len() - i,
        {
            if str_eq(self.variables[i].0.as_str(), name) {
                return Some(i);
            }
            i += 1;
        }
        None
    }

    /// The type and the mutability of the variable `name`.
    pub fn get_variable(&self, name: &str) -> (r: Result<(Type, bool), SemanticAnalysisError>)
        ensures
            result_model(r) == self@.get_variable(name@),
        decreases self,
    {
        match self.position(name) {
            Some(at) => Ok((self.variables[at].1.clone(), self.variables[at].2)),
            None => match &self.parent {
                Some(parent) => parent.get_variable(name),
                None => Err(SemanticAnalysisError::UnknownVariable(name.to_owned())),
            },
        }
    }

    /// Defines a variable in this scope. On an error the scope is left as
    /// it was.
    pub fn define_variable(&mut self, name: String, variable_type: Type, mutable: bool) -> (r: Result<
        (),
        SemanticAnalysisError,
    >)
        ensures
            match old(self)@.define_variable(name@, variable_type@, mutable) {
                Ok(scope) => r is Ok && final(self)@ == scope,
                Err(error) => result_model(r) == Err::<(), SemanticAnalysisErrorView>(error)
                    && final(self)@ == old(self)@,
            },
    {
        if reserved_name(name.as_str()) {
            return Err(SemanticAnalysisError::InvalidVariableName(name));
        }
        if self.position(name.as_str()).is_some() {
            return Err(SemanticAnalysisError::MultipleDefinition(name));
        }
        let ghost defined = old(self)@.define_variable(name@, variable_type@, mutable)->Ok_0;
        self.variables.push((name, variable_type, mutable));
        assert(self.model().variables =~= defined.variables);
        Ok(())
    }
}

impl DeepView for Scope {
    type V = ScopeView;

    open spec fn deep_view(&self) -> ScopeView {
        self.model()
    }
}

impl View for Scope {
    type V = ScopeView;

    open spec fn view(&self) -> ScopeView {
        self.model()
    }
}

/// Defining a variable keeps a scope in order, and so does making a child;
/// the empty scope is in order.
pub proof fn scopes_stay_in_order(
    scope: ScopeView,
    name: Seq<char>,
    variable_type: TypeView,
    mutable: bool,
)
    ensures
        ScopeView::empty().well_formed(),
        scope.well_formed() ==> scope.new_child().well_formed(),
        scope.well_formed() && scope.define_variable(name, variable_type, mutable) is Ok
            ==> scope.define_variable(name, variable_type, mutable)->Ok_0.well_formed(),
{
    if scope.well_formed() && scope.define_variable(name, variable_type, mutable) is Ok {
        let after = scope.define_variable(name, variable_type, mutable)->Ok_0;
        assert forall|i: int| 0 <= i < after.variables.len() implies after.position(
            (#[trigger] after.variables[i]).0,
        ) == Some(i) && !is_reserved_name(after.variables[i].0) by {
            first_push(
                scope.variables,
                variable_named(after.variables[i].0),
                (name, variable_type, mutable),
            );
            if i < scope.variables.len() {
                assert(after.variables[i] == scope.variables[i]);
                assert(scope.position(scope.variables[i].0) == Some(i));
            }
        }
    }
}

/// A variable defined in a scope is found there, with the type and the
/// mutability it was defined with, whatever the scopes around it hold; every
/// other name is found as before.
pub proof fn defined_variable_is_found(
    scope: ScopeView,
    name: Seq<char>,
    variable_type: TypeView,
    mutable: bool,
    other: Seq<char>,
)
    requires
        scope.define_variable(name, variable_type, mutable) is Ok,
    ensures
        scope.define_variable(name, variable_type, mutable)->Ok_0.lookup(name) == Some(
            (variable_type, mutable),
        ),
        other != name ==> scope.define_variable(name, variable_type, mutable)->Ok_0.lookup(other)
            == scope.lookup(other),
{
    let after = scope.define_variable(name, variable_type, mutable)->Ok_0;
    let is_name = variable_named(name);
    let is_other = variable_named(other);
    crate::model::first_from_found(scope.variables, is_name, 0);
    crate::model::first_from_found(after.variables, is_name, 0);
    crate::model::first_from_found(scope.variables, is_other, 0);
    crate::model::first_from_found(after.variables, is_other, 0);
    assert(after.variables[scope.variables.len() as int] == (name, variable_type, mutable));
    assert forall|k: int| 0 <= k < scope.variables.len() implies after.variables[k]
        == scope.variables[k] by {}
    if other != name {
        match scope.position(other) {
            Some(at) => {
                assert(is_other(after.variables[at]));
            },
            None => {
                match after.position(other) {
                    Some(at) => {
                        if at < scope.variables.len() {
                            assert(is_other(scope.variables[at]));
                        }
                    },
                    None => {},
                }
            },
        }
    }
}

/// A name that begins with `acsl_` or `gl_` is never defined: the scope
/// answers `InvalidVariableName` with that name.
pub proof fn reserved_names_are_rejected(
    scope: ScopeView,
    name: Seq<char>,
    variable_type: TypeView,
    mutable: bool,
)
    requires
        "acsl_"@.is_prefix_of(name) || "gl_"@.is_prefix_of(name),
    ensures
        scope.define_variable(name, variable_type, mutable) == Err::<
            ScopeView,
            SemanticAnalysisErrorView,
        >(SemanticAnalysisErrorView::InvalidVariableName(name)),
{
}

/// What is defined in a child scope does not reach its parent: the parent
/// of the child is the scope it was made from, before and after.
pub proof fn child_writes_stay_in_child(
    scope: ScopeView,
    name: Seq<char>,
    variable_type: TypeView,
    mutable: bool,
)
    requires
        scope.new_child().define_variable(name, variable_type, mutable) is Ok,
    ensures
        scope.new_child().define_variable(name, variable_type, mutable)->Ok_0.parent == Some(
            Box::new(scope),
        ),
{
}

} // verus!
