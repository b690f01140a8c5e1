use acsl::ast::scope::Scope;
use acsl::ast::SemanticAnalysisError;
use acsl::types::Type;

#[test]
fn empty_scope_knows_no_variable() {
    let scope = Scope::new();
    assert!(matches!(
        scope.get_variable("a"),
        Err(SemanticAnalysisError::UnknownVariable(name)) if name == "a"
    ));
    assert!(matches!(
        scope.get_variable(""),
        Err(SemanticAnalysisError::UnknownVariable(name)) if name.is_empty()
    ));
}

#[test]
fn defined_variable_is_found_with_type_and_mutability() {
    let mut scope = Scope::new();
    scope.define_variable("a".to_string(), Type::float2(), false).unwrap();
    scope.define_variable("b".to_string(), Type::uint(), true).unwrap();
    let (a_type, a_mutable) = scope.get_variable("a").unwrap();
    assert!(a_type == Type::float2());
    assert!(!a_mutable);
    let (b_type, b_mutable) = scope.get_variable("b").unwrap();
    assert!(b_type == Type::uint());
    assert!(b_mutable);
    assert!(scope.get_variable("c").is_err());
    assert!(scope.get_variable("A").is_err());
}

#[test]
fn variable_is_defined_once_in_a_scope() {
    let mut scope = Scope::new();
    scope.define_variable("a".to_string(), Type::float(), false).unwrap();
    assert!(matches!(
        scope.define_variable("a".to_string(), Type::float2(), true),
        Err(SemanticAnalysisError::MultipleDefinition(name)) if name == "a"
    ));
    // The first definition stands.
    let (found, mutable) = scope.get_variable("a").unwrap();
    assert!(found == Type::float());
    assert!(!mutable);
}

#[test]
fn reserved_prefixes_are_rejected() {
    let mut scope = Scope::new();
    for name in ["acsl_", "acsl_foo", "gl_", "gl_Position", "acsl_gl_", "gl_acsl_x"] {
        assert!(matches!(
            scope.define_variable(name.to_string(), Type::float(), false),
            Err(SemanticAnalysisError::InvalidVariableName(found)) if found == name
        ));
        assert!(scope.get_variable(name).is_err());
    }
    for name in ["acsl", "acs_l", "ACSL_x", "gl", "g_l", "GL_x", "_acsl_", "xgl_", "", "a"] {
        assert!(scope.define_variable(name.to_string(), Type::float(), false).is_ok(), "{:?}", name);
        assert!(scope.get_variable(name).is_ok());
    }
}

#[test]
fn reserved_prefix_is_checked_before_the_definition() {
    let mut scope = Scope::new();
    assert!(matches!(
        scope.define_variable("gl_x".to_string(), Type::float(), false),
        Err(SemanticAnalysisError::InvalidVariableName(_))
    ));
    assert!(matches!(
        scope.define_variable("gl_x".to_string(), Type::float(), false),
        Err(SemanticAnalysisError::InvalidVariableName(_))
    ));
}

#[test]
fn child_sees_the_variables_of_its_parent() {
    let mut global = Scope::new();
    global.define_variable("a".to_string(), Type::float3(), false).unwrap();
    let child = global.new_child();
    let (found, mutable) = child.get_variable("a").unwrap();
    assert!(found == Type::float3());
    assert!(!mutable);
    let grandchild = child.new_child();
    assert!(grandchild.get_variable("a").unwrap().0 == Type::float3());
    assert!(grandchild.get_variable("b").is_err());
}

#[test]
fn child_writes_do_not_reach_the_parent() {
    let mut global = Scope::new();
    global.define_variable("a".to_string(), Type::float(), false).unwrap();
    let mut child = global.new_child();
    child.define_variable("b".to_string(), Type::float2(), true).unwrap();
    assert!(child.get_variable("b").is_ok());
    assert!(global.get_variable("b").is_err());
    let other = global.new_child();
    assert!(other.get_variable("b").is_err());
}

#[test]
fn parent_writes_after_the_child_was_made_do_not_reach_the_child() {
    let mut global = Scope::new();
    let child = global.new_child();
    global.define_variable("a".to_string(), Type::float(), false).unwrap();
    assert!(child.get_variable("a").is_err());
}

#[test]
fn child_may_define_a_name_of_its_parent_again() {
    let mut global = Scope::new();
    global.define_variable("a".to_string(), Type::float(), false).unwrap();
    let mut child = global.new_child();
    child.define_variable("a".to_string(), Type::float4(), true).unwrap();
    let (found, mutable) = child.get_variable("a").unwrap();
    assert!(found == Type::float4());
    assert!(mutable);
    let (found, mutable) = global.get_variable("a").unwrap();
    assert!(found == Type::float());
    assert!(!mutable);
    assert!(matches!(
        child.define_variable("a".to_string(), Type::float(), false),
        Err(SemanticAnalysisError::MultipleDefinition(name)) if name == "a"
    ));
}
