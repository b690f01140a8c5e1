use acsl::ast::SemanticAnalysisError;
use acsl::{compile, compile_glsl, compile_hlsl, CompilationError};

const STRUCTS: &str = "struct VIn { pos: float4 : SV_POSITION }\nstruct VOut { pos: float4 : SV_POSITION }\n";
const MAINS: &str = "fn vertex_main(v: VIn) -> VOut { return VOut { pos: v.pos }; }\nfn fragment_main(p: VOut) -> float4 { return p.pos; }\n";

/// The program made of the two structs, `body` and the two entry points.
fn program(body: &str) -> String {
    format!("{}{}\n{}", STRUCTS, body, MAINS)
}

fn accepted(source: &str) {
    if let Err(error) = compile(source) {
        panic!("{}\n{}", error.to_string(), source);
    }
}

fn rejected(source: &str) -> SemanticAnalysisError {
    match compile(source) {
        Ok(_) => panic!("accepted:\n{}", source),
        Err(CompilationError::SemanticAnalysisError(error)) => {
            // Neither backend produces anything for a program that is
            // rejected.
            assert!(compile_hlsl(source).is_err());
            assert!(compile_glsl(source).is_err());
            error
        }
        Err(other) => panic!("{}\n{}", other.to_string(), source),
    }
}

fn multiple_definition(source: &str, name: &str) {
    match rejected(source) {
        SemanticAnalysisError::MultipleDefinition(found) => assert_eq!(found, name, "{}", source),
        other => panic!("{:?}\n{}", other, source),
    }
}

fn unknown_type(source: &str, name: &str) {
    match rejected(source) {
        SemanticAnalysisError::UnknownType(found) => assert_eq!(found, name, "{}", source),
        other => panic!("{:?}\n{}", other, source),
    }
}

fn invalid_variable_name(source: &str, name: &str) {
    match rejected(source) {
        SemanticAnalysisError::InvalidVariableName(found) => assert_eq!(found, name, "{}", source),
        other => panic!("{:?}\n{}", other, source),
    }
}

#[test]
fn minimal_program_is_accepted() {
    accepted(&program(""));
}

#[test]
fn names_are_defined_once() {
    multiple_definition("struct A { x: float } struct A { y: float }", "A");
    multiple_definition("fn f() {} fn f() {}", "f");
    multiple_definition("struct f {} fn f() {}", "f");
    multiple_definition("fn f() {} struct f {}", "f");
    multiple_definition("type A = float; struct A {}", "A");
    multiple_definition("struct A {} type A = float;", "A");
    multiple_definition("type A = float; type A = float2;", "A");
    multiple_definition("const a = 1.0; fn a() {}", "a");
    multiple_definition("fn a() {} const a = 1.0;", "a");
    multiple_definition("const a = 1.0; const a = 2.0;", "a");
    multiple_definition("const a = 1.0; struct a {}", "a");
    multiple_definition("const a = 1.0; type a = float;", "a");
    multiple_definition(
        &format!("{}fn fragment_main(p: VOut) -> float4 {{ return p.pos; }}", program("")),
        "fragment_main",
    );
    multiple_definition(
        &format!("{}fn vertex_main(v: VIn) -> VOut {{ return VOut {{ pos: v.pos }}; }}", program("")),
        "vertex_main",
    );
}

#[test]
fn names_of_built_in_types_are_taken() {
    let mut names = vec![
        "float".to_string(),
        "uint".to_string(),
        "texture".to_string(),
        "vec1".to_string(),
        "vec2".to_string(),
        "vec3".to_string(),
        "vec4".to_string(),
        "mat".to_string(),
        "sampler2D".to_string(),
        "Texture2D".to_string(),
    ];
    for n in 1..=4 {
        names.push(format!("float{}", n));
        for m in 1..=4 {
            names.push(format!("float{}x{}", n, m));
        }
    }
    for name in names {
        multiple_definition(&format!("struct {} {{ x: float }}", name), &name);
        multiple_definition(&format!("fn {}() {{ }}", name), &name);
        multiple_definition(&format!("type {} = float;", name), &name);
        multiple_definition(&format!("const {} = 1.0;", name), &name);
    }
    accepted(&program("struct vec5 { x: float }\nstruct mat4 { x: float }\nstruct Float { x: float }"));
}

#[test]
fn names_of_built_in_functions_may_be_taken() {
    accepted(&program("fn floor(value: float2) -> float2 { return value; }\nconst a = floor(float2(1.5, 2.5));"));
}

#[test]
fn members_are_defined_once() {
    multiple_definition("struct S { a: float, a: float2 }", "S");
    multiple_definition("struct S { a: float, b: float, c: float2, b: float }", "S");
}

#[test]
fn variables_are_defined_once_in_a_scope() {
    multiple_definition("fn f(a: float, a: float) {}", "a");
    multiple_definition("fn f() { let a = 1.0; let a = 2.0; }", "a");
    multiple_definition("fn f(a: float) { let a = 2.0; }", "a");
    multiple_definition("texture a : 0; texture a : 1;", "a");
    multiple_definition("const a = 1.0; texture a : 0;", "a");
    multiple_definition("texture a : 0; const a = 1.0;", "a");
    multiple_definition("struct S { x: float } cbuffer a : S : 0; cbuffer a : S : 1;", "a");
    multiple_definition("struct S { x: float } texture a : 0; cbuffer a : S : 1;", "a");
}

#[test]
fn local_variable_may_bear_the_name_of_a_global_one() {
    accepted(&program(
        "const a = 1.0;\ntexture t : 0;\nfn f(a: float2) -> float2 { return a; }\nfn g() -> float2 { let t = float2(a, a); return t; }\nfn h() -> float { return a; }",
    ));
}

#[test]
fn variables_of_a_function_stay_in_the_function() {
    match rejected("fn f() { let a = 1.0; } fn g() -> float { return a; }") {
        SemanticAnalysisError::UnknownVariable(name) => assert_eq!(name, "a"),
        other => panic!("{:?}", other),
    }
    match rejected("fn f(a: float) { } fn g() -> float { return a; }") {
        SemanticAnalysisError::UnknownVariable(name) => assert_eq!(name, "a"),
        other => panic!("{:?}", other),
    }
}

#[test]
fn slots_hold_one_resource() {
    multiple_definition("struct S { x: float } cbuffer a : S : 0; cbuffer b : S : 0;", "b");
    multiple_definition("texture a : 3; texture b : 3;", "b");
    accepted(&program("struct S { x: float } cbuffer a : S : 0; texture b : 0; cbuffer c : S : 1; texture d : 1;"));
}

#[test]
fn entry_points_are_needed() {
    assert!(matches!(rejected(""), SemanticAnalysisError::NoVertexMain));
    assert!(matches!(rejected(STRUCTS), SemanticAnalysisError::NoVertexMain));
    assert!(matches!(
        rejected(&format!("{}fn fragment_main(p: VOut) -> float4 {{ return p.pos; }}", STRUCTS)),
        SemanticAnalysisError::NoVertexMain
    ));
    assert!(matches!(
        rejected(&format!("{}fn vertex_main(v: VIn) -> VOut {{ return VOut {{ pos: v.pos }}; }}", STRUCTS)),
        SemanticAnalysisError::NoFragmentMain
    ));
}

#[test]
fn entry_points_come_in_either_order() {
    accepted(&format!(
        "{}fn fragment_main(p: VOut) -> float4 {{ return p.pos; }}\nfn vertex_main(v: VIn) -> VOut {{ return VOut {{ pos: v.pos }}; }}",
        STRUCTS
    ));
}

#[test]
fn types_are_known() {
    unknown_type("struct S { a: Foo }", "Foo");
    unknown_type("struct S { a: float, b: S }", "S");
    unknown_type("cbuffer a : Foo : 0;", "Foo");
    unknown_type("fn f(a: Foo) {}", "Foo");
    unknown_type("fn f() -> Foo {}", "Foo");
    unknown_type("type A = Foo;", "Foo");
    unknown_type("type A = A;", "A");
    unknown_type("texture<Foo> t : 0;", "Foo");
    unknown_type("const a = Foo { };", "Foo");
    unknown_type("fn f(a: texture) {}", "texture");
    unknown_type("fn f(a: void) {}", "void");
    unknown_type("struct S { a: float5 }", "float5");
    unknown_type("struct S { a: float } struct T { a: s }", "s");
    unknown_type("type T = float; const a = T { };", "T");
}

#[test]
fn types_are_known_from_their_declaration_on() {
    unknown_type("struct A { b: B } struct B { x: float }", "B");
    accepted(&program("struct B { x: float } struct A { b: B } type C = A; type D = C; struct E { d: D }"));
}

#[test]
fn variables_are_known() {
    for (source, name) in [
        ("const a = b;", "b"),
        ("const a = a;", "a"),
        ("fn f() -> float { return x; }", "x"),
        ("fn f() { a = 1.0; }", "a"),
        ("fn f() { let a = b.x; }", "b"),
        ("fn f() { let a = floor(b); }", "b"),
        ("fn f() { let a = 1.0 + b; }", "b"),
        ("fn f() { let b = c * 1.0; }", "c"),
        ("fn f() { let a = a; }", "a"),
    ] {
        match rejected(source) {
            SemanticAnalysisError::UnknownVariable(found) => assert_eq!(found, name, "{}", source),
            other => panic!("{:?}\n{}", other, source),
        }
    }
}

#[test]
fn functions_are_known() {
    for (source, name) in [
        ("const a = foo(1.0);", "foo"),
        ("const a = vec2(1.0, 2.0);", "vec2"),
        ("const a = float2x2(1.0);", "float2x2"),
        ("fn f() -> float { return g(); } fn g() -> float { return 1.0; }", "g"),
    ] {
        match rejected(source) {
            SemanticAnalysisError::UnknownFunction(found) => assert_eq!(found, name, "{}", source),
            other => panic!("{:?}\n{}", other, source),
        }
    }
    accepted(&program("fn g() -> float { return 1.0; } fn f() -> float { return g(); }"));
}

#[test]
fn a_function_may_call_itself() {
    match rejected("fn f() -> float { return f(); }") {
        SemanticAnalysisError::UnknownFunction(found) => assert_eq!(found, "f"),
        other => panic!("{:?}", other),
    }
}

#[test]
fn calls_give_as_many_arguments_as_there_are_parameters() {
    for (source, name, given, declared) in [
        ("const a = float2(1.0);", "float2", 1, 2),
        ("const a = float();", "float", 0, 1),
        ("const a = float4(1.0, 2.0, 3.0, 4.0, 5.0);", "float4", 5, 4),
        ("fn f(a: float) -> float { return a; } const b = f(1.0, 2.0);", "f", 2, 1),
        ("fn f() -> float { return 1.0; } const b = f(1.0);", "f", 1, 0),
        ("texture t : 0; const a = sample_texture(t);", "sample_texture", 1, 2),
    ] {
        match rejected(source) {
            SemanticAnalysisError::InvalidParameterCount(found, got, want) => {
                assert_eq!((found.as_str(), got, want), (name, given, declared), "{}", source)
            }
            other => panic!("{:?}\n{}", other, source),
        }
    }
    accepted(&program("fn f() -> float { return 1.0; } const b = f();"));
}

#[test]
fn arguments_have_the_types_of_the_parameters() {
    for (source, name, index, given, declared) in [
        ("const a = float2(1.0, float2(1.0, 2.0));", "float2", 1, "float2", "float"),
        ("const a = float2(float2(1.0, 2.0), 1.0);", "float2", 0, "float2", "float"),
        ("texture t : 0; const a = sample_texture(t, float3(1.0, 2.0, 3.0));", "sample_texture", 1, "float3", "float2"),
        ("const a = sample_texture(1.0, float2(1.0, 2.0));", "sample_texture", 0, "float", "texture"),
        ("const a = frac3(float2(1.0, 2.0));", "frac3", 0, "float2", "float3"),
        ("const a = uint_to_float(1.0);", "uint_to_float", 0, "float", "uint"),
        ("struct S { a: float } struct T { a: float } fn f(s: S) {} fn g(t: T) { let a = f(t); }", "f", 0, "T", "S"),
    ] {
        match rejected(source) {
            SemanticAnalysisError::InvalidParameterType(found, at, got, want) => assert_eq!(
                (found.as_str(), at, got.as_str(), want.as_str()),
                (name, index, given, declared),
                "{}",
                source
            ),
            other => panic!("{:?}\n{}", other, source),
        }
    }
}

#[test]
fn built_in_functions_are_typed() {
    accepted(&program(
        "texture t : 0;\ntexture<uint> u : 1;\nconst a = float(1.0);\nconst b = float1(1.0);\nconst c = float2(1.0, 2.0);\nconst d = float3(1.0, 2.0, 3.0);\nconst e = float4(1.0, 2.0, 3.0, 4.0);\nconst f = sample_texture(t, c);\nconst g = frac(a);\nconst h = frac2(c);\nconst i = frac3(d);\nconst j = frac4(e);\nconst k = floor(a);\nconst l = load(u, d);\nconst m = uint_to_float(l);\nconst n = e + f + j;\nconst o = a + g + k + m;\nconst p = l + l * l;",
    ));
}

#[test]
fn return_gives_the_return_type() {
    for (source, given, declared) in [
        ("fn f() -> float { return float2(1.0, 2.0); }", "float2", "float"),
        ("fn f() { return 1.0; }", "float", "()"),
        ("fn f() -> float { return; }", "()", "float"),
        ("struct S { a: float } struct T { a: float } fn f(s: S) -> T { return s; }", "S", "T"),
        ("fn f() -> float2x2 { return 1.0; }", "float", "float2x2"),
    ] {
        match rejected(source) {
            SemanticAnalysisError::InvalidReturnType(got, want) => {
                assert_eq!((got.as_str(), want.as_str()), (given, declared), "{}", source)
            }
            other => panic!("{:?}\n{}", other, source),
        }
    }
    accepted(&program("type Scalar = float; fn f() -> Scalar { return 1.0; } fn g(a: Scalar) -> float { return a; } fn h() { return; }"));
}

#[test]
fn initializers_have_the_types_of_the_members() {
    for (source, structure, member, given, declared) in [
        ("struct S { a: float } const s = S { a: float2(1.0, 2.0) };", "S", "a", "float2", "float"),
        ("struct S { a: float, b: float3 } const s = S { b: 1.0, a: 1.0 };", "S", "b", "float", "float3"),
        ("struct A { x: float } struct B { x: float } struct S { a: A } const s = S { a: B { x: 1.0 } };", "S", "a", "B", "A"),
    ] {
        match rejected(source) {
            SemanticAnalysisError::InvalidMemberType(found, name, got, want) => assert_eq!(
                (found.as_str(), name.as_str(), got.as_str(), want.as_str()),
                (structure, member, given, declared),
                "{}",
                source
            ),
            other => panic!("{:?}\n{}", other, source),
        }
    }
}

#[test]
fn every_member_is_initialized_once() {
    for (source, structure, member) in [
        ("struct S { a: float, b: float } const s = S { a: 1.0 };", "S", "b"),
        ("struct S { a: float, b: float } const s = S { };", "S", "a"),
        ("struct S { a: float, b: float } const s = S { b: 1.0 };", "S", "a"),
        ("struct S { a: float, b: float } const s = S { a: 1.0, b: 2.0, c: 3.0 };", "S", "c"),
        ("struct S { a: float, b: float } const s = S { c: 3.0, a: 1.0, b: 2.0 };", "S", "c"),
        ("struct S { a: float, b: float } const s = S { a: 1.0, a: 2.0, b: 1.0 };", "S", "a"),
        ("struct S { } const s = S { a: 1.0 };", "S", "a"),
    ] {
        match rejected(source) {
            SemanticAnalysisError::MissingStructureMember(found, name) => {
                assert_eq!((found.as_str(), name.as_str()), (structure, member), "{}", source)
            }
            other => panic!("{:?}\n{}", other, source),
        }
    }
    accepted(&program("struct S { a: float, b: float2 } const s = S { b: float2(1.0, 2.0), a: 1.0 }; struct E { } const e = E { };"));
}

#[test]
fn members_are_known() {
    for (source, owner, member) in [
        ("const a = float2(1.0, 2.0).z;", "float2", "z"),
        ("const a = 1.0; const b = a.y;", "float", "y"),
        ("struct S { a: float } const s = S { a: 1.0 }; const b = s.q;", "S", "q"),
        ("struct S { a: float } const s = S { a: 1.0 }; const b = s.a.x.x.y;", "float", "y"),
        ("texture t : 0; const a = t.x;", "texture", "x"),
        ("type V = float3; const a = float3(1.0, 2.0, 3.0); fn f(v: V) -> float { return v.w; }", "float3", "w"),
    ] {
        match rejected(source) {
            SemanticAnalysisError::InvalidMember(found, name) => {
                assert_eq!((found.as_str(), name.as_str()), (owner, member), "{}", source)
            }
            other => panic!("{:?}\n{}", other, source),
        }
    }
    accepted(&program("const v = float4(1.0, 2.0, 3.0, 4.0); const s = v.x + v.y + v.z + v.w + v.x.x;"));
}

#[test]
fn vertex_main_is_held_to_its_contract() {
    assert!(matches!(
        rejected(&format!("{}fn vertex_main() {{ }}", STRUCTS)),
        SemanticAnalysisError::VertexMainParameterCount
    ));
    assert!(matches!(
        rejected(&format!("{}fn vertex_main(a: VIn, b: VIn) -> VOut {{ return VOut {{ pos: a.pos }}; }}", STRUCTS)),
        SemanticAnalysisError::VertexMainParameterCount
    ));
    for (source, name) in [
        (format!("{}fn vertex_main(v: float4) -> VOut {{ return VOut {{ pos: v }}; }}", STRUCTS), "float4"),
        (format!("{}struct Plain {{ pos: float4 }}\nfn vertex_main(v: Plain) -> VOut {{ return VOut {{ pos: v.pos }}; }}", STRUCTS), "Plain"),
    ] {
        match rejected(&source) {
            SemanticAnalysisError::InvalidVertexMainParameterType(found) => assert_eq!(found, name),
            other => panic!("{:?}\n{}", other, source),
        }
    }
    for (source, name) in [
        (format!("{}fn vertex_main(v: VIn) -> float4 {{ return v.pos; }}", STRUCTS), "float4"),
        (format!("{}fn vertex_main(v: VIn) {{ }}", STRUCTS), "()"),
        (format!("{}struct Plain {{ pos: float4 }}\nfn vertex_main(v: VIn) -> Plain {{ return Plain {{ pos: v.pos }}; }}", STRUCTS), "Plain"),
        (format!("{}struct NoPosition {{ uv: float2 : TEXCOORD0 }}\nfn vertex_main(v: VIn) -> NoPosition {{ return NoPosition {{ uv: float2(1.0, 2.0) }}; }}", STRUCTS), "NoPosition"),
    ] {
        match rejected(&source) {
            SemanticAnalysisError::InvalidVertexMainReturnType(found) => assert_eq!(found, name),
            other => panic!("{:?}\n{}", other, source),
        }
    }
    match rejected(&format!(
        "{}struct Other {{ pos: float4 : SV_POSITION }}\nfn fragment_main(p: VOut) -> float4 {{ return p.pos; }}\nfn vertex_main(v: VIn) -> Other {{ return Other {{ pos: v.pos }}; }}",
        STRUCTS
    )) {
        SemanticAnalysisError::VertexMainReturnTypeMismatch(got, want) => {
            assert_eq!((got.as_str(), want.as_str()), ("Other", "VOut"))
        }
        other => panic!("{:?}", other),
    }
}

#[test]
fn fragment_main_is_held_to_its_contract() {
    let vertex = "fn vertex_main(v: VIn) -> VOut { return VOut { pos: v.pos }; }\n";
    assert!(matches!(
        rejected(&format!("{}{}fn fragment_main() -> float4 {{ return float4(1.0, 1.0, 1.0, 1.0); }}", STRUCTS, vertex)),
        SemanticAnalysisError::FragmentMainParameterCount
    ));
    assert!(matches!(
        rejected(&format!("{}{}fn fragment_main(a: VOut, b: VOut) -> float4 {{ return a.pos; }}", STRUCTS, vertex)),
        SemanticAnalysisError::FragmentMainParameterCount
    ));
    for (source, name) in [
        (format!("{}fn fragment_main(p: float4) -> float4 {{ return p; }}", STRUCTS), "float4"),
        (format!("{}struct Plain {{ pos: float4 }}\nfn fragment_main(p: Plain) -> float4 {{ return p.pos; }}", STRUCTS), "Plain"),
        (format!("{}struct NoPosition {{ uv: float2 : TEXCOORD0 }}\nfn fragment_main(p: NoPosition) -> float4 {{ return float4(1.0, 1.0, 1.0, 1.0); }}", STRUCTS), "NoPosition"),
    ] {
        match rejected(&source) {
            SemanticAnalysisError::InvalidFragmentMainParameterType(found) => assert_eq!(found, name),
            other => panic!("{:?}\n{}", other, source),
        }
    }
    for (source, name) in [
        (format!("{}{}fn fragment_main(p: VOut) -> float3 {{ return float3(1.0, 1.0, 1.0); }}", STRUCTS, vertex), "float3"),
        (format!("{}{}fn fragment_main(p: VOut) {{ }}", STRUCTS, vertex), "()"),
        (format!("{}{}fn fragment_main(p: VOut) -> VOut {{ return p; }}", STRUCTS, vertex), "VOut"),
        (format!("{}fn fragment_main(p: VOut) -> float {{ return 1.0; }}", STRUCTS), "float"),
    ] {
        match rejected(&source) {
            SemanticAnalysisError::InvalidFragmentMainReturnType(found) => assert_eq!(found, name),
            other => panic!("{:?}\n{}", other, source),
        }
    }
    match rejected(&format!("{}{}fn fragment_main(p: float4) -> float4 {{ return p; }}", STRUCTS, vertex)) {
        SemanticAnalysisError::FragmentMainParameterTypeMismatch(got, want) => {
            assert_eq!((got.as_str(), want.as_str()), ("float4", "VOut"))
        }
        other => panic!("{:?}", other),
    }
}

#[test]
fn entry_points_share_one_struct() {
    // Two structs of one shape are two types.
    let source = "struct VIn { pos: float4 : SV_POSITION }\nstruct A { pos: float4 : SV_POSITION }\nstruct B { pos: float4 : SV_POSITION }\nfn vertex_main(v: VIn) -> A { return A { pos: v.pos }; }\nfn fragment_main(p: B) -> float4 { return p.pos; }\n";
    match rejected(source) {
        SemanticAnalysisError::FragmentMainParameterTypeMismatch(got, want) => {
            assert_eq!((got.as_str(), want.as_str()), ("B", "A"))
        }
        other => panic!("{:?}", other),
    }
}

#[test]
fn entry_points_see_through_aliases() {
    accepted("struct VIn { pos: float4 : SV_POSITION }\nstruct VOut { pos: float4 : SV_POSITION }\ntype In = VIn;\ntype Out = VOut;\ntype Color = float4;\nfn vertex_main(v: In) -> Out { return VOut { pos: v.pos }; }\nfn fragment_main(p: VOut) -> Color { return p.pos; }\n");
}

#[test]
fn semantics_are_for_all_members_or_for_none() {
    for source in [
        "struct S { a: float : SEM, b: float }",
        "struct S { a: float, b: float : SEM }",
        "struct S { a: float : A, b: float : B, c: float }",
        "struct S { a: float, b: float, c: float : C }",
    ] {
        match rejected(source) {
            SemanticAnalysisError::AllFieldsNeedSemantics(name) => assert_eq!(name, "S"),
            other => panic!("{:?}\n{}", other, source),
        }
    }
}

#[test]
fn slots_are_in_range() {
    for (source, kind, slot, count) in [
        ("struct S { a: float } cbuffer c : S : 32;", "constant buffers", 32, 32),
        ("struct S { a: float } cbuffer c : S : 1000;", "constant buffers", 1000, 32),
        ("cbuffer c : float4x4 : 99999999999999999999999999;", "constant buffers", usize::MAX, 32),
        ("texture t : 8;", "textures", 8, 8),
        ("texture<uint> t : 31;", "textures", 31, 8),
        ("texture t : 99999999999999999999999999;", "textures", usize::MAX, 8),
    ] {
        match rejected(source) {
            SemanticAnalysisError::SlotOutOfRange(found, got, cap) => {
                assert_eq!((found, got, cap), (kind, slot, count), "{}", source)
            }
            other => panic!("{:?}\n{}", other, source),
        }
    }
    let mut body = String::from("struct S { a: float }\n");
    for slot in 0..32 {
        body.push_str(&format!("cbuffer c{} : S : {};\n", slot, slot));
    }
    for slot in 0..8 {
        body.push_str(&format!("texture t{} : {};\n", slot, slot));
    }
    accepted(&program(&body));
}

#[test]
fn textures_hold_floats_vectors_or_unsigned_integers() {
    for (source, name) in [
        ("texture<float4x4> t : 0;", "float4x4"),
        ("struct S { a: float } texture<S> t : 0;", "S"),
        ("type M = float2x2; texture<M> t : 0;", "float2x2"),
    ] {
        match rejected(source) {
            SemanticAnalysisError::InvalidTextureType(found) => assert_eq!(found, name, "{}", source),
            other => panic!("{:?}\n{}", other, source),
        }
    }
    accepted(&program("type V = float3; texture<float> a : 0; texture<float1> b : 1; texture<float2> c : 2; texture<V> d : 3; texture<float4> e : 4; texture<uint> f : 5; texture g : 6;"));
}

#[test]
fn reserved_names_are_rejected() {
    invalid_variable_name("fn f() { let acsl_foo = 0.0; }", "acsl_foo");
    invalid_variable_name("fn f() { let mut gl_Position = 0.0; }", "gl_Position");
    invalid_variable_name("const gl_x = 1.0;", "gl_x");
    invalid_variable_name("const acsl_ = 1.0;", "acsl_");
    invalid_variable_name("fn f(gl_a: float) {}", "gl_a");
    invalid_variable_name("fn f(a: float, mut acsl_b: float) {}", "acsl_b");
    invalid_variable_name("struct acsl_S {}", "acsl_S");
    invalid_variable_name("fn gl_f() {}", "gl_f");
    invalid_variable_name("type acsl_T = float;", "acsl_T");
    invalid_variable_name("struct S { a: float } cbuffer acsl_c : S : 0;", "acsl_c");
    invalid_variable_name("texture gl_t : 0;", "gl_t");
    invalid_variable_name("struct S { gl_Position: float4 }", "gl_Position");
    invalid_variable_name("struct S { a: float, acsl_b: float }", "acsl_b");
}

#[test]
fn names_that_only_look_reserved_are_accepted() {
    accepted(&program(
        "const acsl = 1.0;\nconst gl = 1.0;\nconst glx = 1.0;\nconst my_acsl_x = 1.0;\nconst ACSL_x = 1.0;\nconst GL_x = 1.0;\nconst acslx_ = 1.0;\nconst _gl_x = 1.0;\nstruct acs_l { g_l: float }",
    ));
}

#[test]
fn operands_have_a_sum_or_a_product() {
    for (source, left, operator, right) in [
        ("const a = float2(1.0, 2.0) + float3(1.0, 2.0, 3.0);", "float2", "+", "float3"),
        ("const a = 1.0 - float2(1.0, 2.0);", "float", "+", "float2"),
        ("const a = float2(1.0, 2.0) * float3(1.0, 2.0, 3.0);", "float2", "*", "float3"),
        ("texture t : 0; const a = t + t;", "texture", "+", "texture"),
        ("texture t : 0; const a = t * 1.0;", "texture", "*", "float"),
        ("struct S { a: float } const s = S { a: 1.0 }; const b = s * s;", "S", "*", "S"),
        ("struct S { m: float4x4 } fn f(s: S, v: float3) -> float4 { return s.m * v; }", "float4x4", "*", "float3"),
        ("struct S { m: float2x3, n: float2x3 } fn f(s: S) -> float2x3 { return s.m * s.n; }", "float2x3", "*", "float2x3"),
        ("fn f() { } const a = f() + 1.0;", "()", "+", "float"),
        ("const a = 1.0 + 2.0 * float2(1.0, 2.0);", "float", "+", "float2"),
    ] {
        match rejected(source) {
            SemanticAnalysisError::InvalidOperation(a, op, b) => {
                assert_eq!((a.as_str(), op, b.as_str()), (left, operator, right), "{}", source)
            }
            other => panic!("{:?}\n{}", other, source),
        }
    }
    accepted(&program(
        "struct S { m: float4x4, n: float4x3, v: float4, w: float3 }\nfn f(s: S) -> float3 { return s.v * s.n + s.w * 2.0 - 0.5 * s.w; }\nfn g(s: S) -> float4 { return s.m * s.v + s.n * s.w; }\nfn h(s: S) -> float4x3 { return s.m * s.n * 2.0; }",
    ));
}

#[test]
fn assignment_keeps_the_type_of_the_variable() {
    for (source, name, given, declared) in [
        ("fn f() { let mut a = 1.0; a = float2(1.0, 2.0); }", "a", "float2", "float"),
        ("fn f(mut v: float3) { v = v.x; }", "v", "float", "float3"),
    ] {
        match rejected(source) {
            SemanticAnalysisError::VariableTypeMismatch(found, got, want) => assert_eq!(
                (found.as_str(), got.as_str(), want.as_str()),
                (name, given, declared),
                "{}",
                source
            ),
            other => panic!("{:?}\n{}", other, source),
        }
    }
}

#[test]
fn assignment_needs_a_mutable_variable() {
    for (source, name) in [
        ("fn f() { let a = 1.0; a = 2.0; }", "a"),
        ("fn f(a: float) { a = 1.0; }", "a"),
        ("const c = 1.0; fn f() { c = 2.0; }", "c"),
        ("texture t : 0; fn f() { t = 2.0; }", "t"),
        ("fn f() { let a = 1.0; a = float2(1.0, 2.0); }", "a"),
    ] {
        match rejected(source) {
            SemanticAnalysisError::ImmutableVariable(found) => assert_eq!(found, name, "{}", source),
            other => panic!("{:?}\n{}", other, source),
        }
    }
    accepted(&program("fn f(mut a: float) -> float { let mut b = a; b = b + 1.0; a = b; return a; }"));
}

#[test]
fn first_error_in_source_order_is_reported() {
    assert!(matches!(
        rejected("const a = b; struct S { x: Foo }"),
        SemanticAnalysisError::UnknownVariable(_)
    ));
    assert!(matches!(
        rejected("struct S { x: Foo } const a = b;"),
        SemanticAnalysisError::UnknownType(_)
    ));
    // The type of an expression is found before its parts are analysed.
    assert!(matches!(
        rejected("const a = float2(1.0) + float3(1.0, 2.0, 3.0);"),
        SemanticAnalysisError::InvalidOperation(_, _, _)
    ));
}

#[test]
fn parser_errors_come_before_the_analysis() {
    assert!(matches!(
        compile("const a = b; struct"),
        Err(CompilationError::ParserError(_))
    ));
    assert!(matches!(compile_hlsl("fn"), Err(CompilationError::ParserError(_))));
    assert!(matches!(compile_glsl("@"), Err(CompilationError::ParserError(_))));
    let error = CompilationError::from(compile("fn").err().map(|error| match error {
        CompilationError::ParserError(error) => error,
        other => panic!("{:?}", other),
    }).unwrap());
    assert_eq!(error.to_string(), "Unexpected end of file");
    let error = CompilationError::from(SemanticAnalysisError::NoVertexMain);
    assert_eq!(error.to_string(), "No \"vertex_main()\" function defined");
}
