use acsl::annotated::structure::Struct;
use acsl::ast::SemanticAnalysisError;
use acsl::types::{Primitive, Type};
use std::rc::Rc;

fn structure(handle: usize, name: &str, members: Vec<(&str, Type)>) -> Type {
    Type::Struct(
        handle,
        Rc::new(Struct::new(
            name.to_string(),
            members.into_iter().map(|(name, t)| (name.to_string(), t)).collect(),
            None,
        )),
    )
}

fn invalid_operation(result: Result<Type, SemanticAnalysisError>) -> (String, String, String) {
    match result {
        Err(SemanticAnalysisError::InvalidOperation(left, operator, right)) => {
            (left, operator.to_string(), right)
        }
        other => panic!("{:?}", other),
    }
}

fn all_primitives() -> Vec<Primitive> {
    let mut all = vec![Primitive::Void, Primitive::Float, Primitive::Uint, Primitive::Texture];
    for n in 1..=4 {
        all.push(Primitive::FloatVec(n));
        for m in 1..=4 {
            all.push(Primitive::FloatMatrix(n, m));
        }
    }
    all
}

#[test]
fn constructors_give_the_named_types() {
    assert!(Type::void() == Type::Primitive(Primitive::Void));
    assert!(Type::float() == Type::Primitive(Primitive::Float));
    assert!(Type::uint() == Type::Primitive(Primitive::Uint));
    assert!(Type::texture() == Type::Primitive(Primitive::Texture));
    assert!(Type::float1() == Type::Primitive(Primitive::FloatVec(1)));
    assert!(Type::float2() == Type::Primitive(Primitive::FloatVec(2)));
    assert!(Type::float3() == Type::Primitive(Primitive::FloatVec(3)));
    assert!(Type::float4() == Type::Primitive(Primitive::FloatVec(4)));
    for n in 1..=4 {
        assert!(Type::floatn(n) == Type::Primitive(Primitive::FloatVec(n)));
        for m in 1..=4 {
            assert!(Type::floatnxm(n, m) == Type::Primitive(Primitive::FloatMatrix(n, m)));
        }
    }
    let matrices = [
        (Type::float1x1(), 1, 1),
        (Type::float1x2(), 1, 2),
        (Type::float1x3(), 1, 3),
        (Type::float1x4(), 1, 4),
        (Type::float2x1(), 2, 1),
        (Type::float2x2(), 2, 2),
        (Type::float2x3(), 2, 3),
        (Type::float2x4(), 2, 4),
        (Type::float3x1(), 3, 1),
        (Type::float3x2(), 3, 2),
        (Type::float3x3(), 3, 3),
        (Type::float3x4(), 3, 4),
        (Type::float4x1(), 4, 1),
        (Type::float4x2(), 4, 2),
        (Type::float4x3(), 4, 3),
        (Type::float4x4(), 4, 4),
    ];
    for (matrix, n, m) in matrices {
        assert!(matches!(matrix, Type::Primitive(Primitive::FloatMatrix(rows, columns)) if rows == n && columns == m));
    }
}

#[test]
fn built_in_names_are_types() {
    assert!(Type::builtin("float").unwrap() == Type::float());
    assert!(Type::builtin("uint").unwrap() == Type::uint());
    for n in 1..=4 {
        assert!(Type::builtin(&format!("float{}", n)).unwrap() == Type::floatn(n));
        for m in 1..=4 {
            assert!(Type::builtin(&format!("float{}x{}", n, m)).unwrap() == Type::floatnxm(n, m));
        }
    }
    for name in ["", "texture", "float0", "float5", "float1x5", "float0x1", "Float", "int", "void", "vec4", "float 2"] {
        assert!(Type::builtin(name).is_none(), "{:?}", name);
    }
}

#[test]
fn types_are_named_in_three_languages() {
    let names = [
        (Type::void(), "()", "void", "void"),
        (Type::float(), "float", "float", "float"),
        (Type::uint(), "uint", "uint", "uint"),
        (Type::texture(), "texture", "Texture2D", "sampler2D"),
        (Type::float1(), "float1", "float1", "vec1"),
        (Type::float2(), "float2", "float2", "vec2"),
        (Type::float3(), "float3", "float3", "vec3"),
        (Type::float4(), "float4", "float4", "vec4"),
        (Type::float4x4(), "float4x4", "float4x4", "mat4x4"),
        (Type::float2x3(), "float2x3", "float2x3", "mat3x2"),
        (Type::float4x1(), "float4x1", "float4x1", "mat1x4"),
        (Type::float1x4(), "float1x4", "float1x4", "mat4x1"),
    ];
    for (t, acsl, hlsl, glsl) in names {
        assert_eq!(t.to_string(), acsl);
        assert_eq!(t.hlsl(), hlsl);
        assert_eq!(t.glsl(), glsl);
    }
    assert_eq!(Primitive::FloatMatrix(3, 2).to_string(), "float3x2");
    assert_eq!(Primitive::FloatMatrix(3, 2).hlsl(), "float3x2");
    assert_eq!(Primitive::FloatMatrix(3, 2).glsl(), "mat2x3");
    assert_eq!(Primitive::FloatVec(12).to_string(), "float12");
    let s = structure(0, "Light", vec![("color", Type::float3())]);
    assert_eq!(s.to_string(), "Light");
    assert_eq!(s.hlsl(), "Light");
    assert_eq!(s.glsl(), "Light");
}

#[test]
fn aliases_are_transparent() {
    let alias = Type::alias(Type::float3());
    let twice = Type::alias(Type::alias(Type::float3()));
    assert!(alias == Type::float3());
    assert!(Type::float3() == alias);
    assert!(twice == alias);
    assert!(alias != Type::float2());
    assert_eq!(alias.to_string(), "float3");
    assert_eq!(twice.hlsl(), "float3");
    assert_eq!(twice.glsl(), "vec3");
    assert!(alias.is_float_vector());
    assert!(!alias.is_float());
    assert!(Type::alias(Type::float()).is_float());
    assert!(Type::alias(Type::uint()).is_uint());
    assert!(Type::alias(Type::float2x2()).is_float_matrix());
    assert!(twice.sum_type(&Type::float3()).unwrap() == Type::float3());
    assert!(Type::float3().sum_type(&twice).unwrap() == Type::float3());
    assert!(alias.product_type(&Type::alias(Type::float())).unwrap() == Type::float3());
    assert!(Type::alias(Type::float3x3()).product_type(&twice).unwrap() == Type::float3());
    assert!(twice.member_type("z").unwrap() == Type::float());
    assert_eq!(twice.members().len(), 3);
    assert_eq!(
        invalid_operation(alias.sum_type(&Type::alias(Type::float2()))),
        ("float3".to_string(), "+".to_string(), "float2".to_string())
    );
    let s = structure(3, "S", vec![("a", Type::float())]);
    let aliased = Type::alias(s.clone());
    assert!(aliased == s);
    assert_eq!(aliased.to_string(), "S");
    assert!(aliased.member_type("a").unwrap() == Type::float());
    assert!(matches!(aliased.resolved(), Type::Struct(3, _)));
    assert!(matches!(twice.resolved(), Type::Primitive(Primitive::FloatVec(3))));
}

#[test]
fn primitives_are_equal_by_shape() {
    let all = all_primitives();
    for (i, left) in all.iter().enumerate() {
        for (j, right) in all.iter().enumerate() {
            assert_eq!(Type::Primitive(*left) == Type::Primitive(*right), i == j);
            assert_eq!(left == right, i == j);
        }
    }
    assert!(Type::float1() != Type::float());
    assert!(Type::float1x1() != Type::float());
    assert!(Type::float2x3() != Type::float3x2());
}

#[test]
fn structs_are_equal_by_identity() {
    let first = structure(0, "A", vec![("x", Type::float())]);
    let second = structure(1, "B", vec![("x", Type::float())]);
    let twin = structure(1, "A", vec![("x", Type::float())]);
    assert!(first == first.clone());
    assert!(first != second);
    // The same name and the same members do not make the same type.
    assert!(first != twin);
    assert!(first != Type::float());
    assert!(Type::float() != first);
    assert!(Type::alias(first.clone()) != second);
}

#[test]
fn predicates_tell_the_primitives_apart() {
    for primitive in all_primitives() {
        let t = Type::Primitive(primitive);
        assert_eq!(t.is_uint(), primitive == Primitive::Uint);
        assert_eq!(t.is_float(), primitive == Primitive::Float);
        assert_eq!(t.is_float_vector(), matches!(primitive, Primitive::FloatVec(_)));
        assert_eq!(t.is_float_matrix(), matches!(primitive, Primitive::FloatMatrix(_, _)));
        assert_eq!(primitive.is_uint(), t.is_uint());
        assert_eq!(primitive.is_float(), t.is_float());
        assert_eq!(primitive.is_float_vector(), t.is_float_vector());
        assert_eq!(primitive.is_float_matrix(), t.is_float_matrix());
    }
    let s = structure(0, "S", vec![]);
    assert!(!s.is_uint() && !s.is_float() && !s.is_float_vector() && !s.is_float_matrix());
}

fn member_names(t: &Type) -> Vec<String> {
    t.members().into_iter().map(|(name, member)| {
        assert!(member == Type::float());
        name
    }).collect()
}

#[test]
fn floats_and_vectors_have_members() {
    assert_eq!(member_names(&Type::float()), vec!["x"]);
    assert_eq!(member_names(&Type::float1()), vec!["x"]);
    assert_eq!(member_names(&Type::float2()), vec!["x", "y"]);
    assert_eq!(member_names(&Type::float3()), vec!["x", "y", "z"]);
    assert_eq!(member_names(&Type::float4()), vec!["x", "y", "z", "w"]);
    assert_eq!(Primitive::FloatVec(3).members().len(), 3);
    for t in [Type::void(), Type::uint(), Type::texture(), Type::float4x4(), Type::float1x1()] {
        assert!(t.members().is_empty());
    }
}

#[test]
fn member_type_looks_the_member_up() {
    assert!(Type::float().member_type("x").unwrap() == Type::float());
    assert!(Type::float4().member_type("w").unwrap() == Type::float());
    assert!(Type::float3().member_type("z").unwrap() == Type::float());
    let cases = [
        (Type::float(), "y", "float"),
        (Type::float2(), "z", "float2"),
        (Type::float3(), "w", "float3"),
        (Type::float4(), "r", "float4"),
        (Type::float4(), "xy", "float4"),
        (Type::float4(), "", "float4"),
        (Type::uint(), "x", "uint"),
        (Type::float4x4(), "x", "float4x4"),
        (Type::texture(), "x", "texture"),
        (Type::void(), "x", "()"),
    ];
    for (t, member, name) in cases {
        match t.member_type(member) {
            Err(SemanticAnalysisError::InvalidMember(named_type, member_name)) => {
                assert_eq!(named_type, name);
                assert_eq!(member_name, member);
            }
            other => panic!("{:?}", other),
        }
    }
    let inner = structure(0, "Inner", vec![("v", Type::float2())]);
    let outer = structure(
        1,
        "Outer",
        vec![("inner", inner.clone()), ("m", Type::float4x4()), ("inner2", inner.clone())],
    );
    assert!(outer.member_type("inner").unwrap() == inner);
    assert!(outer.member_type("m").unwrap() == Type::float4x4());
    assert!(outer.member_type("inner").unwrap().member_type("v").unwrap() == Type::float2());
    assert!(matches!(
        outer.member_type("x"),
        Err(SemanticAnalysisError::InvalidMember(named_type, member)) if named_type == "Outer" && member == "x"
    ));
    assert_eq!(outer.members().len(), 3);
    assert_eq!(outer.members()[1].0, "m");
}

#[test]
fn member_type_takes_the_first_of_equal_names() {
    let s = structure(0, "S", vec![("a", Type::float()), ("a", Type::float2())]);
    assert!(s.member_type("a").unwrap() == Type::float());
}

#[test]
fn sums_follow_the_table() {
    let all = all_primitives();
    for left in &all {
        for right in &all {
            let expected = match (left, right) {
                (Primitive::Float, Primitive::Float) => Some(Primitive::Float),
                (Primitive::Uint, Primitive::Uint) => Some(Primitive::Uint),
                (Primitive::FloatVec(n), Primitive::FloatVec(m)) if n == m => {
                    Some(Primitive::FloatVec(*n))
                }
                _ => None,
            };
            let by_type = Type::Primitive(*left).sum_type(&Type::Primitive(*right));
            let by_primitive = left.sum_type(right);
            match expected {
                Some(sum) => {
                    assert!(by_type.unwrap() == Type::Primitive(sum));
                    assert!(by_primitive.unwrap() == Type::Primitive(sum));
                }
                None => {
                    let names = (left.to_string(), "+".to_string(), right.to_string());
                    assert_eq!(invalid_operation(by_type), names);
                    assert_eq!(invalid_operation(by_primitive), names);
                }
            }
        }
    }
}

#[test]
fn products_follow_the_table() {
    let all = all_primitives();
    for left in &all {
        for right in &all {
            let expected = match (*left, *right) {
                (Primitive::Float, Primitive::Float) => Some(Primitive::Float),
                (Primitive::Float, Primitive::FloatVec(n)) => Some(Primitive::FloatVec(n)),
                (Primitive::Float, Primitive::FloatMatrix(r, c)) => Some(Primitive::FloatMatrix(r, c)),
                (Primitive::FloatVec(m), Primitive::Float) => Some(Primitive::FloatVec(m)),
                (Primitive::FloatVec(m), Primitive::FloatVec(n)) if m == n => Some(Primitive::FloatVec(m)),
                (Primitive::FloatVec(m), Primitive::FloatMatrix(r, c)) if m == r => Some(Primitive::FloatVec(c)),
                (Primitive::FloatMatrix(a, b), Primitive::Float) => Some(Primitive::FloatMatrix(a, b)),
                (Primitive::FloatMatrix(a, b), Primitive::FloatVec(n)) if n == b => Some(Primitive::FloatVec(a)),
                (Primitive::FloatMatrix(a, b), Primitive::FloatMatrix(r, c)) if b == r => Some(Primitive::FloatMatrix(a, c)),
                (Primitive::Uint, Primitive::Uint) => Some(Primitive::Uint),
                _ => None,
            };
            let by_type = Type::Primitive(*left).product_type(&Type::Primitive(*right));
            let by_primitive = left.product_type(right);
            match expected {
                Some(product) => {
                    assert!(by_type.unwrap() == Type::Primitive(product));
                    assert!(by_primitive.unwrap() == Type::Primitive(product));
                }
                None => {
                    let names = (left.to_string(), "*".to_string(), right.to_string());
                    assert_eq!(invalid_operation(by_type), names);
                    assert_eq!(invalid_operation(by_primitive), names);
                }
            }
        }
    }
}

#[test]
fn products_by_example() {
    assert!(Type::float4x4().product_type(&Type::float4()).unwrap() == Type::float4());
    assert!(Type::float4().product_type(&Type::float4x4()).unwrap() == Type::float4());
    assert!(Type::float2x3().product_type(&Type::float3()).unwrap() == Type::float2());
    assert!(Type::float2().product_type(&Type::float2x3()).unwrap() == Type::float3());
    assert!(Type::float2x3().product_type(&Type::float3x4()).unwrap() == Type::float2x4());
    assert!(Type::float().product_type(&Type::float2x3()).unwrap() == Type::float2x3());
    assert!(Type::float3().product_type(&Type::float()).unwrap() == Type::float3());
    assert_eq!(
        invalid_operation(Type::float2x3().product_type(&Type::float2x3())),
        ("float2x3".to_string(), "*".to_string(), "float2x3".to_string())
    );
    assert_eq!(
        invalid_operation(Type::float2x3().product_type(&Type::float2())),
        ("float2x3".to_string(), "*".to_string(), "float2".to_string())
    );
    assert_eq!(
        invalid_operation(Type::float3().product_type(&Type::float2x3())),
        ("float3".to_string(), "*".to_string(), "float2x3".to_string())
    );
    assert_eq!(
        invalid_operation(Type::uint().product_type(&Type::float())),
        ("uint".to_string(), "*".to_string(), "float".to_string())
    );
}

#[test]
fn sum_of_vectors_of_different_width_is_invalid() {
    assert_eq!(
        invalid_operation(Type::float2().sum_type(&Type::float3())),
        ("float2".to_string(), "+".to_string(), "float3".to_string())
    );
}

#[test]
fn structs_have_no_sum_and_no_product() {
    let s = structure(0, "S", vec![("a", Type::float())]);
    assert_eq!(
        invalid_operation(s.sum_type(&Type::float())),
        ("S".to_string(), "+".to_string(), "float".to_string())
    );
    assert_eq!(
        invalid_operation(Type::float().sum_type(&s)),
        ("float".to_string(), "+".to_string(), "S".to_string())
    );
    assert_eq!(
        invalid_operation(s.sum_type(&s)),
        ("S".to_string(), "+".to_string(), "S".to_string())
    );
    assert_eq!(
        invalid_operation(s.product_type(&Type::float4x4())),
        ("S".to_string(), "*".to_string(), "float4x4".to_string())
    );
    assert_eq!(
        invalid_operation(Type::float().product_type(&Type::alias(s.clone()))),
        ("float".to_string(), "*".to_string(), "S".to_string())
    );
}

#[test]
fn clone_keeps_the_type() {
    let s = structure(5, "S", vec![("a", Type::alias(Type::float2()))]);
    let all = [Type::float(), Type::float2x3(), Type::alias(Type::uint()), s];
    for t in &all {
        let copy = t.clone();
        assert!(copy == *t);
        assert_eq!(copy.to_string(), t.to_string());
        assert_eq!(copy.members().len(), t.members().len());
    }
}
