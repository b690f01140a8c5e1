//! The type lattice of the language: primitives, user structs and aliases,
//! with member projection and the result types of `+`, `-` and `*`.

use crate::annotated::AnnotatedSyntaxTree;
use crate::annotated::structure::{Struct, StructView};
use crate::ast::{SemanticAnalysisError, SemanticAnalysisErrorView};
use crate::model::{first, first_from, result_model};
use crate::text::{decimal, push_decimal};
use std::rc::Rc;
use vstd::prelude::*;
use vstd::std_specs::cmp::PartialEqSpecImpl;
use vstd::string::*;

verus! {

/// A built-in type. Vector widths and matrix dimensions range over 1 to 4.
#[derive(Clone, Copy, PartialEq, Eq, Structural, Debug)]
pub enum Primitive {
    Void,
    Float,
    FloatVec(usize),
    /// Rows, then columns.
    FloatMatrix(usize, usize),
    Uint,
    Texture,
}

/// A type of the language. A user struct is known by the handle under which
/// the annotated tree interned it; an alias stands for the type it names.
#[derive(Debug)]
pub enum Type {
    Primitive(Primitive),
    Struct(usize, Rc<Struct>),
    Alias(Box<Type>),
}

/// The model of a [`Type`].
pub enum TypeView {
    Primitive(Primitive),
    Struct(int, StructView),
    Alias(Box<TypeView>),
}

impl DeepView for Primitive {
    type V = Primitive;

    open spec fn deep_view(&self) -> Primitive {
        *self
    }
}

impl View for Primitive {
    type V = Primitive;

    open spec fn view(&self) -> Primitive {
        *self
    }
}

impl DeepView for Type {
    type V = TypeView;

    open spec fn deep_view(&self) -> TypeView {
        self.model()
    }
}

impl View for Type {
    type V = TypeView;

    open spec fn view(&self) -> TypeView {
        self.model()
    }
}

/// The type `float` as a model.
pub open spec fn float_view() -> TypeView {
    TypeView::Primitive(Primitive::Float)
}

impl Primitive {
    /// The name of the primitive in diagnostics.
    pub open spec fn spec_name(self) -> Seq<char> {
        match self {
            Primitive::Void => "()"@,
            Primitive::Float => "float"@,
            Primitive::FloatVec(n) => "float"@ + decimal(n as nat),
            Primitive::FloatMatrix(n, m) => "float"@ + decimal(n as nat) + "x"@ + decimal(m as nat),
            Primitive::Uint => "uint"@,
            Primitive::Texture => "texture"@,
        }
    }

    /// The name of the primitive in HLSL.
    pub open spec fn spec_hlsl(self) -> Seq<char> {
        match self {
            Primitive::Void => "void"@,
            Primitive::Float => "float"@,
            Primitive::FloatVec(n) => "float"@ + decimal(n as nat),
            Primitive::FloatMatrix(n, m) => "float"@ + decimal(n as nat) + "x"@ + decimal(m as nat),
            Primitive::Uint => "uint"@,
            Primitive::Texture => "Texture2D"@,
        }
    }

    /// The name of the primitive in GLSL. A matrix is named columns first.
    pub open spec fn spec_glsl(self) -> Seq<char> {
        match self {
            Primitive::Void => "void"@,
            Primitive::Float => "float"@,
            Primitive::FloatVec(n) => "vec"@ + decimal(n as nat),
            Primitive::FloatMatrix(n, m) => "mat"@ + decimal(m as nat) + "x"@ + decimal(n as nat),
            Primitive::Uint => "uint"@,
            Primitive::Texture => "sampler2D"@,
        }
    }

    /// The members of the primitive: `x`, `y`, `z`, `w`, as far as the width
    /// goes, each a `float`; none for the other primitives.
    pub open spec fn spec_members(self) -> Seq<(Seq<char>, TypeView)> {
        match self {
            Primitive::Float => seq![("x"@, float_view())],
            Primitive::FloatVec(n) => if n == 1 {
                seq![("x"@, float_view())]
            } else if n == 2 {
                seq![("x"@, float_view()), ("y"@, float_view())]
            } else if n == 3 {
                seq![("x"@, float_view()), ("y"@, float_view()), ("z"@, float_view())]
            } else if n == 4 {
                seq![
                    ("x"@, float_view()),
                    ("y"@, float_view()),
                    ("z"@, float_view()),
                    ("w"@, float_view()),
                ]
            } else {
                Seq::empty()
            },
            _ => Seq::empty(),
        }
    }

    /// The type of `self + other` and of `self - other`, where there is one.
    pub open spec fn spec_sum(self, other: Primitive) -> Option<Primitive> {
        match (self, other) {
            (Primitive::Float, Primitive::Float) => Some(Primitive::Float),
            (Primitive::FloatVec(n), Primitive::FloatVec(m)) => if n == m {
                Some(Primitive::FloatVec(n))
            } else {
                None
            },
            (Primitive::Uint, Primitive::Uint) => Some(Primitive::Uint),
            _ => None,
        }
    }

    /// The type of `self * other`, where there is one. A scalar scales a
    /// vector or a matrix; vectors multiply member by member; a row vector
    /// times a matrix and a matrix times a column vector or a matrix follow
    /// the rules of linear algebra, so the inner dimensions must agree.
    pub open spec fn spec_product(self, other: Primitive) -> Option<Primitive> {
        match (self, other) {
            (Primitive::Float, Primitive::Float) => Some(Primitive::Float),
            (Primitive::Float, Primitive::FloatVec(n)) => Some(Primitive::FloatVec(n)),
            (Primitive::Float, Primitive::FloatMatrix(r, c)) => Some(Primitive::FloatMatrix(r, c)),
            (Primitive::FloatVec(m), Primitive::Float) => Some(Primitive::FloatVec(m)),
            (Primitive::FloatVec(m), Primitive::FloatVec(n)) => if m == n {
                Some(Primitive::FloatVec(m))
            } else {
                None
            },
            (Primitive::FloatVec(m), Primitive::FloatMatrix(r, c)) => if m == r {
                Some(Primitive::FloatVec(c))
            } else {
                None
            },
            (Primitive::FloatMatrix(a, b), Primitive::Float) => Some(Primitive::FloatMatrix(a, b)),
            (Primitive::FloatMatrix(a, b), Primitive::FloatVec(n)) => if n == b {
                Some(Primitive::FloatVec(a))
            } else {
                None
            },
            (Primitive::FloatMatrix(a, b), Primitive::FloatMatrix(r, c)) => if b == r {
                Some(Primitive::FloatMatrix(a, c))
            } else {
                None
            },
            (Primitive::Uint, Primitive::Uint) => Some(Primitive::Uint),
            _ => None,
        }
    }

    pub fn members(&self) -> (members: Vec<(String, Type)>)
        ensures
            members.deep_view() == self.spec_members(),
    {
        let count: usize = match self {
            Primitive::Float => 1,
            Primitive::FloatVec(n) => if *n >= 1 && *n <= 4 {
                *n
            } else {
                0
            },
            _ => 0,
        };
        let mut members: Vec<(String, Type)> = Vec::new();
        if count >= 1 {
            members.push(("x".to_owned(), Type::float()));
        }
        if count >= 2 {
            members.push(("y".to_owned(), Type::float()));
        }
        if count >= 3 {
            members.push(("z".to_owned(), Type::float()));
        }
        if count >= 4 {
            members.push(("w".to_owned(), Type::float()));
        }
        assert(members.deep_view() =~= self.spec_members());
        members
    }

    pub fn is_uint(&self) -> (r: bool)
        ensures
            r == (*self is Uint),
    {
        match self {
            Primitive::Uint => true,
            _ => false,
        }
    }

    pub fn is_float(&self) -> (r: bool)
        ensures
            r == (*self is Float),
    {
        match self {
            Primitive::Float => true,
            _ => false,
        }
    }

    pub fn is_float_vector(&self) -> (r: bool)
        ensures
            r == (*self is FloatVec),
    {
        match self {
            Primitive::FloatVec(_) => true,
            _ => false,
        }
    }

    pub fn is_float_matrix(&self) -> (r: bool)
        ensures
            r == (*self is FloatMatrix),
    {
        match self {
            Primitive::FloatMatrix(_, _) => true,
            _ => false,
        }
    }

    /// The type of a sum or difference of two primitives, or
    /// `InvalidOperation` with the two names and `+`.
    pub fn sum_type(&self, other: &Primitive) -> (r: Result<Type, SemanticAnalysisError>)
        ensures
            result_model(r) == TypeView::Primitive(*self).sum_type(TypeView::Primitive(*other)),
    {
        let sum = match (*self, *other) {
            (Primitive::Float, Primitive::Float) => Some(Primitive::Float),
            (Primitive::FloatVec(n), Primitive::FloatVec(m)) => if n == m {
                Some(Primitive::FloatVec(n))
            } else {
                None
            },
            (Primitive::Uint, Primitive::Uint) => Some(Primitive::Uint),
            _ => None,
        };
        match sum {
            Some(primitive) => Ok(Type::Primitive(primitive)),
            None => Err(SemanticAnalysisError::InvalidOperation(self.to_string(), "+", other.to_string())),
        }
    }

    /// The type of a product of two primitives, or `InvalidOperation` with
    /// the two names and `*`.
    pub fn product_type(&self, other: &Primitive) -> (r: Result<Type, SemanticAnalysisError>)
        ensures
            result_model(r) == TypeView::Primitive(*self).product_type(TypeView::Primitive(*other)),
    {
        let product = match (*self, *other) {
            (Primitive::Float, Primitive::Float) => Some(Primitive::Float),
            (Primitive::Float, Primitive::FloatVec(n)) => Some(Primitive::FloatVec(n)),
            (Primitive::Float, Primitive::FloatMatrix(r, c)) => Some(Primitive::FloatMatrix(r, c)),
            (Primitive::FloatVec(m), Primitive::Float) => Some(Primitive::FloatVec(m)),
            (Primitive::FloatVec(m), Primitive::FloatVec(n)) => if m == n {
                Some(Primitive::FloatVec(m))
            } else {
                None
            },
            (Primitive::FloatVec(m), Primitive::FloatMatrix(r, c)) => if m == r {
                Some(Primitive::FloatVec(c))
            } else {
                None
            },
            (Primitive::FloatMatrix(a, b), Primitive::Float) => Some(Primitive::FloatMatrix(a, b)),
            (Primitive::FloatMatrix(a, b), Primitive::FloatVec(n)) => if n == b {
                Some(Primitive::FloatVec(a))
            } else {
                None
            },
            (Primitive::FloatMatrix(a, b), Primitive::FloatMatrix(r, c)) => if b == r {
                Some(Primitive::FloatMatrix(a, c))
            } else {
                None
            },
            (Primitive::Uint, Primitive::Uint) => Some(Primitive::Uint),
            _ => None,
        };
        match product {
            Some(primitive) => Ok(Type::Primitive(primitive)),
            None => Err(SemanticAnalysisError::InvalidOperation(self.to_string(), "*", other.to_string())),
        }
    }

    pub fn hlsl(&self) -> (name: String)
        ensures
            name@ == self.spec_hlsl(),
    {
        match self {
            Primitive::Void => "void".to_owned(),
            Primitive::Float => "float".to_owned(),
            Primitive::FloatVec(n) => {
                let mut name = "float".to_owned();
                push_decimal(&mut name, *n);
                name
            },
            Primitive::FloatMatrix(n, m) => {
                let mut name = "float".to_owned();
                push_decimal(&mut name, *n);
                name.append("x");
                push_decimal(&mut name, *m);
                name
            },
            Primitive::Uint => "uint".to_owned(),
            Primitive::Texture => "Texture2D".to_owned(),
        }
    }

    pub fn glsl(&self) -> (name: String)
        ensures
            name@ == self.spec_glsl(),
    {
        match self {
            Primitive::Void => "void".to_owned(),
            Primitive::Float => "float".to_owned(),
            Primitive::FloatVec(n) => {
                let mut name = "vec".to_owned();
                push_decimal(&mut name, *n);
                name
            },
            Primitive::FloatMatrix(n, m) => {
                let mut name = "mat".to_owned();
                push_decimal(&mut name, *m);
                name.append("x");
                push_decimal(&mut name, *n);
                name
            },
            Primitive::Uint => "uint".to_owned(),
            Primitive::Texture => "sampler2D".to_owned(),
        }
    }

    /// The name of the primitive in diagnostics.
    pub fn to_string(&self) -> (name: String)
        ensures
            name@ == self.spec_name(),
    {
        match self {
            Primitive::Void => "()".to_owned(),
            Primitive::Float => "float".to_owned(),
            Primitive::FloatVec(n) => {
                let mut name = "float".to_owned();
                push_decimal(&mut name, *n);
                name
            },
            Primitive::FloatMatrix(n, m) => {
                let mut name = "float".to_owned();
                push_decimal(&mut name, *n);
                name.append("x");
                push_decimal(&mut name, *m);
                name
            },
            Primitive::Uint => "uint".to_owned(),
            Primitive::Texture => "texture".to_owned(),
        }
    }
}

/// The primitive that the type name `name` stands for: `float`, `float1` to
/// `float4`, `float1x1` to `float4x4` and `uint` are the names of types.
pub open spec fn builtin_type(name: Seq<char>) -> Option<Primitive> {
    if name == "float"@ {
        Some(Primitive::Float)
    } else if name == "float1"@ {
        Some(Primitive::FloatVec(1))
    } else if name == "float2"@ {
        Some(Primitive::FloatVec(2))
    } else if name == "float3"@ {
        Some(Primitive::FloatVec(3))
    } else if name == "float4"@ {
        Some(Primitive::FloatVec(4))
    } else if name == "float1x1"@ {
        Some(Primitive::FloatMatrix(1, 1))
    } else if name == "float1x2"@ {
        Some(Primitive::FloatMatrix(1, 2))
    } else if name == "float1x3"@ {
        Some(Primitive::FloatMatrix(1, 3))
    } else if name == "float1x4"@ {
        Some(Primitive::FloatMatrix(1, 4))
    } else if name == "float2x1"@ {
        Some(Primitive::FloatMatrix(2, 1))
    } else if name == "float2x2"@ {
        Some(Primitive::FloatMatrix(2, 2))
    } else if name == "float2x3"@ {
        Some(Primitive::FloatMatrix(2, 3))
    } else if name == "float2x4"@ {
        Some(Primitive::FloatMatrix(2, 4))
    } else if name == "float3x1"@ {
        Some(Primitive::FloatMatrix(3, 1))
    } else if name == "float3x2"@ {
        Some(Primitive::FloatMatrix(3, 2))
    } else if name == "float3x3"@ {
        Some(Primitive::FloatMatrix(3, 3))
    } else if name == "float3x4"@ {
        Some(Primitive::FloatMatrix(3, 4))
    } else if name == "float4x1"@ {
        Some(Primitive::FloatMatrix(4, 1))
    } else if name == "float4x2"@ {
        Some(Primitive::FloatMatrix(4, 2))
    } else if name == "float4x3"@ {
        Some(Primitive::FloatMatrix(4, 3))
    } else if name == "float4x4"@ {
        Some(Primitive::FloatMatrix(4, 4))
    } else if name == "uint"@ {
        Some(Primitive::Uint)
    } else {
        None
    }
}

/// The test for a member called `name`.
pub open spec fn member_named(name: Seq<char>) -> spec_fn((Seq<char>, TypeView)) -> bool {
    |m: (Seq<char>, TypeView)| m.0 == name
}

impl TypeView {
    /// The type behind every alias.
    pub open spec fn resolved(self) -> TypeView
        decreases self,
    {
        match self {
            TypeView::Alias(inner) => inner.resolved(),
            _ => self,
        }
    }

    /// Equality of types: aliases are transparent, primitives are compared
    /// by shape and user structs by identity.
    pub open spec fn same_as(self, other: TypeView) -> bool {
        match (self.resolved(), other.resolved()) {
            (TypeView::Primitive(left), TypeView::Primitive(right)) => left == right,
            (TypeView::Struct(left, _), TypeView::Struct(right, _)) => left == right,
            _ => false,
        }
    }

    pub open spec fn is_uint(self) -> bool {
        self.resolved() == TypeView::Primitive(Primitive::Uint)
    }

    pub open spec fn is_float(self) -> bool {
        self.resolved() == TypeView::Primitive(Primitive::Float)
    }

    pub open spec fn is_float_vector(self) -> bool {
        self.resolved() matches TypeView::Primitive(Primitive::FloatVec(_))
    }

    pub open spec fn is_float_matrix(self) -> bool {
        self.resolved() matches TypeView::Primitive(Primitive::FloatMatrix(_, _))
    }

    /// The name of the type in diagnostics.
    pub open spec fn display(self) -> Seq<char> {
        match self.resolved() {
            TypeView::Primitive(primitive) => primitive.spec_name(),
            TypeView::Struct(_, structure) => structure.name,
            TypeView::Alias(_) => Seq::empty(),
        }
    }

    /// The name of the type in HLSL.
    pub open spec fn hlsl(self) -> Seq<char> {
        match self.resolved() {
            TypeView::Primitive(primitive) => primitive.spec_hlsl(),
            TypeView::Struct(_, structure) => structure.name,
            TypeView::Alias(_) => Seq::empty(),
        }
    }

    /// The name of the type in GLSL.
    pub open spec fn glsl(self) -> Seq<char> {
        match self.resolved() {
            TypeView::Primitive(primitive) => primitive.spec_glsl(),
            TypeView::Struct(_, structure) => structure.name,
            TypeView::Alias(_) => Seq::empty(),
        }
    }

    /// The members of the type, in order.
    pub open spec fn members(self) -> Seq<(Seq<char>, TypeView)> {
        match self.resolved() {
            TypeView::Primitive(primitive) => primitive.spec_members(),
            TypeView::Struct(_, structure) => structure.members,
            TypeView::Alias(_) => Seq::empty(),
        }
    }

    /// The type of the member `member`, or `InvalidMember` with the names of
    /// the type and of the member.
    pub open spec fn member_type(self, member: Seq<char>) -> Result<
        TypeView,
        SemanticAnalysisErrorView,
    > {
        match first(self.members(), member_named(member)) {
            Some(at) => Ok(self.members()[at].1),
            None => Err(SemanticAnalysisErrorView::InvalidMember(self.display(), member)),
        }
    }

    /// The type of a sum or difference, or `InvalidOperation`.
    pub open spec fn sum_type(self, other: TypeView) -> Result<TypeView, SemanticAnalysisErrorView> {
        match (self.resolved(), other.resolved()) {
            (TypeView::Primitive(left), TypeView::Primitive(right)) if left.spec_sum(right) is Some => Ok(
                TypeView::Primitive(left.spec_sum(right)->0),
            ),
            _ => Err(SemanticAnalysisErrorView::InvalidOperation(self.display(), "+"@, other.display())),
        }
    }

    /// The type of a product, or `InvalidOperation`.
    pub open spec fn product_type(self, other: TypeView) -> Result<
        TypeView,
        SemanticAnalysisErrorView,
    > {
        match (self.resolved(), other.resolved()) {
            (TypeView::Primitive(left), TypeView::Primitive(right)) if left.spec_product(right) is Some => Ok(
                TypeView::Primitive(left.spec_product(right)->0),
            ),
            _ => Err(SemanticAnalysisErrorView::InvalidOperation(self.display(), "*"@, other.display())),
        }
    }
}

impl Clone for Type {
    fn clone(&self) -> (copy: Self)
        ensures
            copy == *self,
        decreases self,
    {
        match self {
            Type::Primitive(primitive) => Type::Primitive(*primitive),
            Type::Struct(handle, structure) => Type::Struct(*handle, Rc::clone(structure)),
            Type::Alias(inner) => Type::Alias(Box::new((**inner).clone())),
        }
    }
}

impl Type {
    /// The model of this type.
    pub open spec fn model(&self) -> TypeView
        decreases self,
    {
        match self {
            Type::Primitive(primitive) => TypeView::Primitive(*primitive),
            Type::Struct(handle, structure) => TypeView::Struct(*handle as int, structure.model()),
            Type::Alias(inner) => TypeView::Alias(Box::new(inner.model())),
        }
    }

    pub fn alias(inner_type: Type) -> (t: Self)
        ensures
            t@ == TypeView::Alias(Box::new(inner_type@)),
    {
        Type::Alias(Box::new(inner_type))
    }

    pub fn void() -> (t: Self)
        ensures
            t@ == TypeView::Primitive(Primitive::Void),
    {
        Type::Primitive(Primitive::Void)
    }

    pub fn float() -> (t: Self)
        ensures
            t@ == TypeView::Primitive(Primitive::Float),
    {
        Type::Primitive(Primitive::Float)
    }

    /// The vector of `n` floats.
    pub fn floatn(n: usize) -> (t: Self)
        requires
            1 <= n <= 4,
        ensures
            t@ == TypeView::Primitive(Primitive::FloatVec(n)),
    {
        Type::Primitive(Primitive::FloatVec(n))
    }

    pub fn float1() -> (t: Self)
        ensures
            t@ == TypeView::Primitive(Primitive::FloatVec(1)),
    {
        Type::floatn(1)
    }

    pub fn float2() -> (t: Self)
        ensures
            t@ == TypeView::Primitive(Primitive::FloatVec(2)),
    {
        Type::floatn(2)
    }

    pub fn float3() -> (t: Self)
        ensures
            t@ == TypeView::Primitive(Primitive::FloatVec(3)),
    {
        Type::floatn(3)
    }

    pub fn float4() -> (t: Self)
        ensures
            t@ == TypeView::Primitive(Primitive::FloatVec(4)),
    {
        Type::floatn(4)
    }

    /// The matrix of `n` rows and `m` columns.
    pub fn floatnxm(n: usize, m: usize) -> (t: Self)
        requires
            1 <= n <= 4,
            1 <= m <= 4,
        ensures
            t@ == TypeView::Primitive(Primitive::FloatMatrix(n, m)),
    {
        Type::Primitive(Primitive::FloatMatrix(n, m))
    }

    pub fn float1x1() -> (t: Self)
        ensures
            t@ == TypeView::Primitive(Primitive::FloatMatrix(1, 1)),
    {
        Type::floatnxm(1, 1)
    }

    pub fn float1x2() -> (t: Self)
        ensures
            t@ == TypeView::Primitive(Primitive::FloatMatrix(1, 2)),
    {
        Type::floatnxm(1, 2)
    }

    pub fn float1x3() -> (t: Self)
        ensures
            t@ == TypeView::Primitive(Primitive::FloatMatrix(1, 3)),
    {
        Type::floatnxm(1, 3)
    }

    pub fn float1x4() -> (t: Self)
        ensures
            t@ == TypeView::Primitive(Primitive::FloatMatrix(1, 4)),
    {
        Type::floatnxm(1, 4)
    }

    pub fn float2x1() -> (t: Self)
        ensures
            t@ == TypeView::Primitive(Primitive::FloatMatrix(2, 1)),
    {
        Type::floatnxm(2, 1)
    }

    pub fn float2x2() -> (t: Self)
        ensures
            t@ == TypeView::Primitive(Primitive::FloatMatrix(2, 2)),
    {
        Type::floatnxm(2, 2)
    }

    pub fn float2x3() -> (t: Self)
        ensures
            t@ == TypeView::Primitive(Primitive::FloatMatrix(2, 3)),
    {
        Type::floatnxm(2, 3)
    }

    pub fn float2x4() -> (t: Self)
        ensures
            t@ == TypeView::Primitive(Primitive::FloatMatrix(2, 4)),
    {
        Type::floatnxm(2, 4)
    }

    pub fn float3x1() -> (t: Self)
        ensures
            t@ == TypeView::Primitive(Primitive::FloatMatrix(3, 1)),
    {
        Type::floatnxm(3, 1)
    }

    pub fn float3x2() -> (t: Self)
        ensures
            t@ == TypeView::Primitive(Primitive::FloatMatrix(3, 2)),
    {
        Type::floatnxm(3, 2)
    }

    pub fn float3x3() -> (t: Self)
        ensures
            t@ == TypeView::Primitive(Primitive::FloatMatrix(3, 3)),
    {
        Type::floatnxm(3, 3)
    }

    pub fn float3x4() -> (t: Self)
        ensures
            t@ == TypeView::Primitive(Primitive::FloatMatrix(3, 4)),
    {
        Type::floatnxm(3, 4)
    }

    pub fn float4x1() -> (t: Self)
        ensures
            t@ == TypeView::Primitive(Primitive::FloatMatrix(4, 1)),
    {
        Type::floatnxm(4, 1)
    }

    pub fn float4x2() -> (t: Self)
        ensures
            t@ == TypeView::Primitive(Primitive::FloatMatrix(4, 2)),
    {
        Type::floatnxm(4, 2)
    }

    pub fn float4x3() -> (t: Self)
        ensures
            t@ == TypeView::Primitive(Primitive::FloatMatrix(4, 3)),
    {
        Type::floatnxm(4, 3)
    }

    pub fn float4x4() -> (t: Self)
        ensures
            t@ == TypeView::Primitive(Primitive::FloatMatrix(4, 4)),
    {
        Type::floatnxm(4, 4)
    }

    pub fn uint() -> (t: Self)
        ensures
            t@ == TypeView::Primitive(Primitive::Uint),
    {
        Type::Primitive(Primitive::Uint)
    }

    pub fn texture() -> (t: Self)
        ensures
            t@ == TypeView::Primitive(Primitive::Texture),
    {
        Type::Primitive(Primitive::Texture)
    }

    /// The built-in type called `name`, if there is one.
    pub fn builtin(name: &str) -> (t: Option<Type>)
        ensures
            t.deep_view() == (match builtin_type(name@) {
                Some(primitive) => Some(TypeView::Primitive(primitive)),
                None => None,
            }),
    {
        if crate::text::str_eq(name, "float") {
            Some(Type::Primitive(Primitive::Float))
        } else if crate::text::str_eq(name, "float1") {
            Some(Type::Primitive(Primitive::FloatVec(1)))
        } else if crate::text::str_eq(name, "float2") {
            Some(Type::Primitive(Primitive::FloatVec(2)))
        } else if crate::text::str_eq(name, "float3") {
            Some(Type::Primitive(Primitive::FloatVec(3)))
        } else if crate::text::str_eq(name, "float4") {
            Some(Type::Primitive(Primitive::FloatVec(4)))
        } else if crate::text::str_eq(name, "float1x1") {
            Some(Type::Primitive(Primitive::FloatMatrix(1, 1)))
        } else if crate::text::str_eq(name, "float1x2") {
            Some(Type::Primitive(Primitive::FloatMatrix(1, 2)))
        } else if crate::text::str_eq(name, "float1x3") {
            Some(Type::Primitive(Primitive::FloatMatrix(1, 3)))
        } else if crate::text::str_eq(name, "float1x4") {
            Some(Type::Primitive(Primitive::FloatMatrix(1, 4)))
        } else if crate::text::str_eq(name, "float2x1") {
            Some(Type::Primitive(Primitive::FloatMatrix(2, 1)))
        } else if crate::text::str_eq(name, "float2x2") {
            Some(Type::Primitive(Primitive::FloatMatrix(2, 2)))
        } else if crate::text::str_eq(name, "float2x3") {
            Some(Type::Primitive(Primitive::FloatMatrix(2, 3)))
        } else if crate::text::str_eq(name, "float2x4") {
            Some(Type::Primitive(Primitive::FloatMatrix(2, 4)))
        } else if crate::text::str_eq(name, "float3x1") {
            Some(Type::Primitive(Primitive::FloatMatrix(3, 1)))
        } else if crate::text::str_eq(name, "float3x2") {
            Some(Type::Primitive(Primitive::FloatMatrix(3, 2)))
        } else if crate::text::str_eq(name, "float3x3") {
            Some(Type::Primitive(Primitive::FloatMatrix(3, 3)))
        } else if crate::text::str_eq(name, "float3x4") {
            Some(Type::Primitive(Primitive::FloatMatrix(3, 4)))
        } else if crate::text::str_eq(name, "float4x1") {
            Some(Type::Primitive(Primitive::FloatMatrix(4, 1)))
        } else if crate::text::str_eq(name, "float4x2") {
            Some(Type::Primitive(Primitive::FloatMatrix(4, 2)))
        } else if crate::text::str_eq(name, "float4x3") {
            Some(Type::Primitive(Primitive::FloatMatrix(4, 3)))
        } else if crate::text::str_eq(name, "float4x4") {
            Some(Type::Primitive(Primitive::FloatMatrix(4, 4)))
        } else if crate::text::str_eq(name, "uint") {
            Some(Type::Primitive(Primitive::Uint))
        } else {
            None
        }
    }

    /// The type called `name`: a built-in type, else a struct or an alias of
    /// the program.
    pub fn from_name(name: &str, output_tree: &AnnotatedSyntaxTree) -> (r: Result<
        Self,
        SemanticAnalysisError,
    >)
        ensures
            result_model(r) == output_tree@.type_from_name(name@),
    {
        match Type::builtin(name) {
            Some(t) => Ok(t),
            None => output_tree.get_type(name),
        }
    }

    /// The type behind every alias.
    pub fn resolved(&self) -> (t: &Type)
        ensures
            t@ == self@.resolved(),
            !(*t is Alias),
        decreases self,
    {
        match self {
            Type::Alias(inner) => inner.resolved(),
            _ => self,
        }
    }

    pub fn is_uint(&self) -> (r: bool)
        ensures
            r == self@.is_uint(),
    {
        match self.resolved() {
            Type::Primitive(primitive) => primitive.is_uint(),
            _ => false,
        }
    }

    pub fn is_float(&self) -> (r: bool)
        ensures
            r == self@.is_float(),
    {
        match self.resolved() {
            Type::Primitive(primitive) => primitive.is_float(),
            _ => false,
        }
    }

    pub fn is_float_vector(&self) -> (r: bool)
        ensures
            r == self@.is_float_vector(),
    {
        match self.resolved() {
            Type::Primitive(primitive) => primitive.is_float_vector(),
            _ => false,
        }
    }

    pub fn is_float_matrix(&self) -> (r: bool)
        ensures
            r == self@.is_float_matrix(),
    {
        match self.resolved() {
            Type::Primitive(primitive) => primitive.is_float_matrix(),
            _ => false,
        }
    }

    /// The members of the type, in order: those of the struct, or `x`, `y`,
    /// `z`, `w` of a float or a float vector.
    pub fn members(&self) -> (members: Vec<(String, Type)>)
        ensures
            members.deep_view() == self@.members(),
    {
        match self.resolved() {
            Type::Primitive(primitive) => primitive.members(),
            Type::Struct(_, structure) => {
                let declared = structure.members();
                let mut members: Vec<(String, Type)> = Vec::new();
                let mut i: usize = 0;
                while i < declared.len()
                    invariant
                        i <= declared.len(),
                        members.len() == i,
                        forall|k: int|
                            0 <= k < i ==> (#[trigger] members[k]).deep_view() == declared[k].deep_view(),
                    decreases declared.len() - i,
                {
                    members.push((declared[i].0.clone(), declared[i].1.clone()));
                    i += 1;
                }
                assert(members.deep_view() =~= declared.deep_view());
                members
            },
            Type::Alias(_) => Vec::new(),
        }
    }

    /// The type of the member `member`.
    pub fn member_type(&self, member: &str) -> (r: Result<Type, SemanticAnalysisError>)
        ensures
            result_model(r) == self@.member_type(member@),
    {
        let members = self.members();
        let ghost wanted = member_named(member@);
        let mut i: usize = 0;
        while i < members.len()
            invariant
                i <= members.len(),
                members.deep_view() == self@.members(),
                wanted == member_named(member@),
                first_from(self@.members(), wanted, i as int) == first(self@.members(), wanted),
            decreases members.len() - i,
        {
            assert(members.deep_view()[i as int] == members[i as int].deep_view());
            if crate::text::str_eq(members[i].0.as_str(), member) {
                return Ok(members[i].1.clone());
            }
            i += 1;
        }
        Err(SemanticAnalysisError::InvalidMember(self.to_string(), member.to_owned()))
    }

    /// The type of `self + other` and of `self - other`.
    pub fn sum_type(&self, other: &Type) -> (r: Result<Type, SemanticAnalysisError>)
        ensures
            result_model(r) == self@.sum_type(other@),
    {
        match (self.resolved(), other.resolved()) {
            (Type::Primitive(left), Type::Primitive(right)) => left.sum_type(right),
            _ => Err(SemanticAnalysisError::InvalidOperation(self.to_string(), "+", other.to_string())),
        }
    }

    /// The type of `self * other`.
    pub fn product_type(&self, other: &Type) -> (r: Result<Type, SemanticAnalysisError>)
        ensures
            result_model(r) == self@.product_type(other@),
    {
        match (self.resolved(), other.resolved()) {
            (Type::Primitive(left), Type::Primitive(right)) => left.product_type(right),
            _ => Err(SemanticAnalysisError::InvalidOperation(self.to_string(), "*", other.to_string())),
        }
    }

    pub fn hlsl(&self) -> (name: String)
        ensures
            name@ == self@.hlsl(),
    {
        match self.resolved() {
            Type::Primitive(primitive) => primitive.hlsl(),
            Type::Struct(_, structure) => structure.name().to_owned(),
            Type::Alias(_) => String::new(),
        }
    }

    pub fn glsl(&self) -> (name: String)
        ensures
            name@ == self@.glsl(),
    {
        match self.resolved() {
            Type::Primitive(primitive) => primitive.glsl(),
            Type::Struct(_, structure) => structure.name().to_owned(),
            Type::Alias(_) => String::new(),
        }
    }

    /// The name of the type in diagnostics.
    pub fn to_string(&self) -> (name: String)
        ensures
            name@ == self@.display(),
    {
        match self.resolved() {
            Type::Primitive(primitive) => primitive.to_string(),
            Type::Struct(_, structure) => structure.name().to_owned(),
            Type::Alias(_) => String::new(),
        }
    }
}

impl PartialEq for Type {
    fn eq(&self, other: &Self) -> (equal: bool) {
        match (self.resolved(), other.resolved()) {
            (Type::Primitive(left), Type::Primitive(right)) => *left == *right,
            (Type::Struct(left, _), Type::Struct(right, _)) => *left == *right,
            _ => false,
        }
    }
}

impl PartialEqSpecImpl for Type {
    open spec fn obeys_eq_spec() -> bool {
        true
    }

    open spec fn eq_spec(&self, other: &Type) -> bool {
        self@.same_as(other@)
    }
}

/// Resolving aliases changes none of what the type system computes: a type
/// and the type behind its aliases are equal, have the same names and
/// members, and give the same sums and products with any other type.
pub proof fn aliases_are_transparent(t: TypeView, other: TypeView)
    ensures
        TypeView::Alias(Box::new(t)).same_as(t),
        TypeView::Alias(Box::new(t)).same_as(other) == t.same_as(other),
        TypeView::Alias(Box::new(t)).display() == t.display(),
        TypeView::Alias(Box::new(t)).hlsl() == t.hlsl(),
        TypeView::Alias(Box::new(t)).glsl() == t.glsl(),
        TypeView::Alias(Box::new(t)).members() == t.members(),
        TypeView::Alias(Box::new(t)).sum_type(other) == t.sum_type(other),
        other.sum_type(TypeView::Alias(Box::new(t))) == other.sum_type(t),
        TypeView::Alias(Box::new(t)).product_type(other) == t.product_type(other),
        other.product_type(TypeView::Alias(Box::new(t))) == other.product_type(t),
{
    resolved_is_not_alias(t);
}

/// The type behind every alias is no alias.
pub proof fn resolved_is_not_alias(t: TypeView)
    ensures
        !(t.resolved() is Alias),
        t.resolved().resolved() == t.resolved(),
    decreases t,
{
    match t {
        TypeView::Alias(inner) => resolved_is_not_alias(*inner),
        _ => {},
    }
}

/// The result types of `+` and `-`: two floats, two unsigned integers or two
/// vectors of one width give their own type; every other pairing of
/// primitives has no sum.
pub proof fn sum_table(left: Primitive, right: Primitive)
    ensures
        left.spec_sum(right) is Some <==> left == right && (left is Float || left is FloatVec
            || left is Uint),
        left.spec_sum(right) is Some ==> left.spec_sum(right) == Some(left),
        left.spec_sum(right) is None ==> TypeView::Primitive(left).sum_type(
            TypeView::Primitive(right),
        ) == Err::<TypeView, SemanticAnalysisErrorView>(
            SemanticAnalysisErrorView::InvalidOperation(left.spec_name(), "+"@, right.spec_name()),
        ),
{
}

/// The result types of `*`, row by row: a float scales a float, a vector or a
/// matrix from either side; vectors of one width multiply to that width; a
/// vector of `m` floats times a matrix of `m` rows and `c` columns is a
/// vector of `c` floats; a matrix of `a` rows and `b` columns times a vector
/// of `b` floats is a vector of `a` floats, and times a matrix of `b` rows
/// and `c` columns a matrix of `a` rows and `c` columns; two unsigned
/// integers multiply to one. Dimensions that do not agree, and every pairing
/// with `void` or a texture, have no product.
pub proof fn product_table(m: usize, n: usize, a: usize, b: usize, r: usize, c: usize)
    ensures
        Primitive::Float.spec_product(Primitive::Float) == Some(Primitive::Float),
        Primitive::Float.spec_product(Primitive::FloatVec(n)) == Some(Primitive::FloatVec(n)),
        Primitive::Float.spec_product(Primitive::FloatMatrix(r, c)) == Some(Primitive::FloatMatrix(r, c)),
        Primitive::FloatVec(m).spec_product(Primitive::Float) == Some(Primitive::FloatVec(m)),
        Primitive::FloatVec(m).spec_product(Primitive::FloatVec(n)) == (if m == n {
            Some(Primitive::FloatVec(m))
        } else {
            None
        }),
        Primitive::FloatVec(m).spec_product(Primitive::FloatMatrix(r, c)) == (if m == r {
            Some(Primitive::FloatVec(c))
        } else {
            None
        }),
        Primitive::FloatMatrix(a, b).spec_product(Primitive::Float) == Some(Primitive::FloatMatrix(a, b)),
        Primitive::FloatMatrix(a, b).spec_product(Primitive::FloatVec(n)) == (if n == b {
            Some(Primitive::FloatVec(a))
        } else {
            None
        }),
        Primitive::FloatMatrix(a, b).spec_product(Primitive::FloatMatrix(r, c)) == (if b == r {
            Some(Primitive::FloatMatrix(a, c))
        } else {
            None
        }),
        Primitive::Uint.spec_product(Primitive::Uint) == Some(Primitive::Uint),
        forall|p: Primitive, q: Primitive|
            p is Void || p is Texture || q is Void || q is Texture ==> (#[trigger] p.spec_product(q))
                is None,
        forall|p: Primitive, q: Primitive|
            (#[trigger] p.spec_product(q)) is None ==> TypeView::Primitive(p).product_type(
                TypeView::Primitive(q),
            ) == Err::<TypeView, SemanticAnalysisErrorView>(
                SemanticAnalysisErrorView::InvalidOperation(p.spec_name(), "*"@, q.spec_name()),
            ),
{
}

} // verus!
