use acsl::{compile_glsl, compile_hlsl};

const SIMPLE: &str = "struct Transforms {
    mvp: float4x4,
}

cbuffer transforms: Transforms: 0;

texture<float4> albedo: 0;

type Color = float4;

const brightness = 2.0;

struct VertexInput {
    position: float4: SV_POSITION,
    uv: float2: TEXCOORD0,
}

struct PixelInput {
    position: float4: SV_POSITION,
    uv: float2: TEXCOORD0,
}

fn scale(color: Color, factor: float) -> Color {
    return color * factor;
}

fn vertex_main(input: VertexInput) -> PixelInput {
    let position = transforms.mvp * input.position;
    return PixelInput {
        position: position,
        uv: input.uv,
    };
}

fn fragment_main(input: PixelInput) -> float4 {
    let mut color = sample_texture(albedo, input.uv);
    color = scale(color, brightness) + float4(0.5, 0.25, 1e1, 1.0);
    return color;
}
";

const SIMPLE_HLSL: &str = "// Generated from Alexandria Common Shader Language

struct Transforms {
    float4x4 mvp;
};
Transforms acsl_create_Transforms(float4x4 mvp) {
    Transforms output;
    output.mvp = mvp;
    return output;
}

cbuffer acsl_constant_buffer_0 : register(b0) {
    Transforms transforms;
}

Texture2D<float4> albedo : register(t0);
SamplerState acsl_albedo_sampler_state : register(s0);

static const float brightness = 2.0;

struct VertexInput {
    float4 position: SV_POSITION;
    float2 uv: TEXCOORD0;
};
VertexInput acsl_create_VertexInput(float4 position, float2 uv) {
    VertexInput output;
    output.position = position;
    output.uv = uv;
    return output;
}

struct PixelInput {
    float4 position: SV_POSITION;
    float2 uv: TEXCOORD0;
};
PixelInput acsl_create_PixelInput(float4 position, float2 uv) {
    PixelInput output;
    output.position = position;
    output.uv = uv;
    return output;
}

float4 scale(float4 color, float factor) {
    return (color * factor);
}

PixelInput vertex_main(VertexInput input) {
    float4 position = mul(transforms.mvp, input.position);
    return acsl_create_PixelInput(position, input.uv);
}

float4 fragment_main(PixelInput input) : SV_TARGET {
    float4 color = albedo.Sample(acsl_albedo_sampler_state, input.uv);
    color = (scale(color, brightness) + float4(0.5, 0.25, 10.0, 1.0));
    return color;
}

";

const SIMPLE_VERTEX: &str = "#version 430 core

// Generated from Alexandria Common Shader Language

layout(location = 0) in vec4 acsl_vertex_input_position;
layout(location = 1) in vec2 acsl_vertex_input_uv;

out vec4 acsl_pixel_input_position;
out vec2 acsl_pixel_input_uv;

struct Transforms {
    mat4x4 mvp;
};

layout(location = 0) uniform Transforms transforms;

layout(location = 32) uniform sampler2D albedo;

const float brightness = 2.0;

struct VertexInput {
    vec4 position;
    vec2 uv;
};

struct PixelInput {
    vec4 position;
    vec2 uv;
};

vec4 scale(vec4 color, float factor) {
    return (color * factor);
}

void main() {
    VertexInput input = VertexInput(acsl_vertex_input_position, acsl_vertex_input_uv);

    vec4 position = (transforms.mvp * input.position);
    PixelInput acsl_vertex_output = PixelInput(position, input.uv);
    acsl_pixel_input_position = acsl_vertex_output.position;
    acsl_pixel_input_uv = acsl_vertex_output.uv;
    gl_Position = acsl_pixel_input_position;
    return;
}


";

const SIMPLE_FRAGMENT: &str = "#version 430 core

// Generated from Alexandria Common Shader Language

out vec4 acsl_fragment_color;

in vec4 acsl_pixel_input_position;
in vec2 acsl_pixel_input_uv;

struct Transforms {
    mat4x4 mvp;
};

layout(location = 0) uniform Transforms transforms;

layout(location = 32) uniform sampler2D albedo;

const float brightness = 2.0;

struct VertexInput {
    vec4 position;
    vec2 uv;
};

struct PixelInput {
    vec4 position;
    vec2 uv;
};

vec4 scale(vec4 color, float factor) {
    return (color * factor);
}


void main() {
    PixelInput input = PixelInput(acsl_pixel_input_position, acsl_pixel_input_uv);

    vec4 color = texture(albedo, input.uv);
    color = (scale(color, brightness) + vec4(0.5, 0.25, 10.0, 1.0));
    acsl_fragment_color = color;
    return;
}

";

fn compiled_hlsl(source: &str) -> String {
    match compile_hlsl(source) {
        Ok(text) => text,
        Err(error) => panic!("{}", error.to_string()),
    }
}

fn compiled_glsl(source: &str) -> (String, String) {
    match compile_glsl(source) {
        Ok(text) => text,
        Err(error) => panic!("{}", error.to_string()),
    }
}

#[test]
fn simple_1() {
    let compiled_code_hlsl = compiled_hlsl(SIMPLE);
    let (compiled_code_glsl_vertex, compiled_code_glsl_fragment) = compiled_glsl(SIMPLE);

    assert_eq!(compiled_code_hlsl, SIMPLE_HLSL);
    assert_eq!(compiled_code_glsl_vertex, SIMPLE_VERTEX);
    assert_eq!(compiled_code_glsl_fragment, SIMPLE_FRAGMENT);
}

const PASS_THROUGH: &str = "struct VIn  { pos: float4 : SV_POSITION }
struct VOut { pos: float4 : SV_POSITION }
fn vertex_main(v: VIn)   -> VOut    { return VOut { pos: v.pos }; }
fn fragment_main(p: VOut) -> float4 { return p.pos; }
";

#[test]
fn scenario_minimal_pass_through() {
    let hlsl = compiled_hlsl(PASS_THROUGH);
    assert!(hlsl.contains("acsl_create_VOut(v.pos)"));
    assert_eq!(
        hlsl,
        "// Generated from Alexandria Common Shader Language\n\nstruct VIn {\n    float4 pos: SV_POSITION;\n};\nVIn acsl_create_VIn(float4 pos) {\n    VIn output;\n    output.pos = pos;\n    return output;\n}\n\nstruct VOut {\n    float4 pos: SV_POSITION;\n};\nVOut acsl_create_VOut(float4 pos) {\n    VOut output;\n    output.pos = pos;\n    return output;\n}\n\nVOut vertex_main(VIn v) {\n    return acsl_create_VOut(v.pos);\n}\n\nfloat4 fragment_main(VOut p) : SV_TARGET {\n    return p.pos;\n}\n\n"
    );
    let (vertex, fragment) = compiled_glsl(PASS_THROUGH);
    assert!(vertex.contains("layout(location = 0) in vec4 acsl_vertex_input_pos;\n"));
    assert!(vertex.contains("out vec4 acsl_pixel_input_pos;\n"));
    assert!(vertex.contains("    gl_Position = acsl_pixel_input_pos;\n"));
    assert_eq!(
        vertex,
        "#version 430 core\n\n// Generated from Alexandria Common Shader Language\n\nlayout(location = 0) in vec4 acsl_vertex_input_pos;\n\nout vec4 acsl_pixel_input_pos;\n\nstruct VIn {\n    vec4 pos;\n};\n\nstruct VOut {\n    vec4 pos;\n};\n\nvoid main() {\n    VIn v = VIn(acsl_vertex_input_pos);\n\n    VOut acsl_vertex_output = VOut(v.pos);\n    acsl_pixel_input_pos = acsl_vertex_output.pos;\n    gl_Position = acsl_pixel_input_pos;\n    return;\n}\n\n\n"
    );
    assert_eq!(
        fragment,
        "#version 430 core\n\n// Generated from Alexandria Common Shader Language\n\nout vec4 acsl_fragment_color;\n\nin vec4 acsl_pixel_input_pos;\n\nstruct VIn {\n    vec4 pos;\n};\n\nstruct VOut {\n    vec4 pos;\n};\n\n\nvoid main() {\n    VOut p = VOut(acsl_pixel_input_pos);\n\n    acsl_fragment_color = p.pos;\n    return;\n}\n\n"
    );
}

const MATRIX_PRODUCT: &str = "struct Mats { mvp: float4x4 }
cbuffer xforms : Mats : 0;
struct VIn  { pos: float4 : SV_POSITION }
struct VOut { pos: float4 : SV_POSITION }
fn vertex_main(v: VIn) -> VOut { return VOut { pos: (xforms.mvp * v.pos) }; }
fn fragment_main(p: VOut) -> float4 { return p.pos; }
";

#[test]
fn scenario_matrix_product() {
    let hlsl = compiled_hlsl(MATRIX_PRODUCT);
    assert!(hlsl.contains("mul(xforms.mvp, v.pos)"));
    assert!(hlsl.contains("    return acsl_create_VOut(mul(xforms.mvp, v.pos));\n"));
    assert!(hlsl.contains("cbuffer acsl_constant_buffer_0 : register(b0) {\n    Mats xforms;\n}\n"));
    let (vertex, fragment) = compiled_glsl(MATRIX_PRODUCT);
    assert!(vertex.contains("(xforms.mvp * v.pos)"));
    assert!(vertex.contains("    VOut acsl_vertex_output = VOut((xforms.mvp * v.pos));\n"));
    assert!(vertex.contains("layout(location = 0) uniform Mats xforms;\n"));
    assert!(fragment.contains("layout(location = 0) uniform Mats xforms;\n"));
    assert!(!vertex.contains("mul("));
    assert!(!fragment.contains("mul("));
}

const TEXTURE_SAMPLING: &str = "texture<float4> albedo : 0;
struct VIn  { pos: float4 : SV_POSITION, uv: float2 : TEXCOORD0 }
struct VOut { pos: float4 : SV_POSITION, uv: float2 : TEXCOORD0 }
fn vertex_main(v: VIn) -> VOut { return VOut { pos: v.pos, uv: v.uv }; }
fn fragment_main(p: VOut) -> float4 {
    let uv = p.uv;
    return sample_texture(albedo, uv);
}
";

#[test]
fn scenario_texture_sampling() {
    let hlsl = compiled_hlsl(TEXTURE_SAMPLING);
    assert!(hlsl.contains("albedo.Sample(acsl_albedo_sampler_state, uv)"));
    assert!(hlsl.contains(
        "Texture2D<float4> albedo : register(t0);\nSamplerState acsl_albedo_sampler_state : register(s0);\n"
    ));
    let (vertex, fragment) = compiled_glsl(TEXTURE_SAMPLING);
    assert!(fragment.contains("texture(albedo, uv)"));
    assert!(fragment.contains("    acsl_fragment_color = texture(albedo, uv);\n    return;\n"));
    assert!(fragment.contains("layout(location = 32) uniform sampler2D albedo;\n"));
    assert!(vertex.contains("layout(location = 32) uniform sampler2D albedo;\n"));
}

fn semantic_error(source: &str) -> acsl::ast::SemanticAnalysisError {
    let hlsl = compile_hlsl(source);
    let glsl = compile_glsl(source);
    assert!(glsl.is_err());
    match hlsl {
        Err(acsl::CompilationError::SemanticAnalysisError(error)) => error,
        Err(other) => panic!("{}", other.to_string()),
        Ok(text) => panic!("{}", text),
    }
}

#[test]
fn scenario_reserved_name_rejection() {
    let source = format!("{}fn helper() {{ let acsl_foo = 0.0; }}\n", PASS_THROUGH);
    match semantic_error(&source) {
        acsl::ast::SemanticAnalysisError::InvalidVariableName(name) => assert_eq!(name, "acsl_foo"),
        other => panic!("{:?}", other),
    }
}

#[test]
fn scenario_entry_point_mismatch() {
    let source = "struct VIn { pos: float4 : SV_POSITION }
struct A { pos: float4 : SV_POSITION }
struct B { pos: float4 : SV_POSITION }
fn vertex_main(v: VIn) -> A { return A { pos: v.pos }; }
fn fragment_main(p: B) -> float4 { return p.pos; }
";
    assert!(matches!(
        semantic_error(source),
        acsl::ast::SemanticAnalysisError::FragmentMainParameterTypeMismatch(_, _)
    ));
}

#[test]
fn scenario_operator_typing() {
    let source = format!(
        "{}const a = float2(1.0, 2.0);\nconst b = float3(1.0, 2.0, 3.0);\nconst c = a + b;\n",
        PASS_THROUGH
    );
    match semantic_error(&source) {
        acsl::ast::SemanticAnalysisError::InvalidOperation(left, operator, right) => {
            assert_eq!((left.as_str(), operator, right.as_str()), ("float2", "+", "float3"))
        }
        other => panic!("{:?}", other),
    }
}

#[test]
fn emission_is_the_same_in_every_run() {
    for source in [SIMPLE, PASS_THROUGH, MATRIX_PRODUCT, TEXTURE_SAMPLING] {
        let first = compiled_hlsl(source);
        let (first_vertex, first_fragment) = compiled_glsl(source);
        for _ in 0..3 {
            assert_eq!(compiled_hlsl(source), first);
            let (vertex, fragment) = compiled_glsl(source);
            assert_eq!(vertex, first_vertex);
            assert_eq!(fragment, first_fragment);
        }
    }
    for source in ["", "fn", "const a = b;", "@"] {
        let first = compile_hlsl(source).unwrap_err().to_string();
        assert_eq!(compile_hlsl(source).unwrap_err().to_string(), first);
        assert_eq!(compile_glsl(source).unwrap_err().to_string(), first);
    }
}

/// The positions at which the texts of `marks` start in `text`, which must
/// hold each of them once.
fn positions(text: &str, marks: &[&str]) -> Vec<usize> {
    marks
        .iter()
        .map(|mark| {
            assert_eq!(text.matches(mark).count(), 1, "{:?} in\n{}", mark, text);
            text.find(mark).unwrap()
        })
        .collect()
}

const ORDERED: &str = "const first = 1.0;
texture second : 1;
struct Third { m: float4x4 }
type Fourth = Third;
fn fifth(a: Fourth) -> float4x4 { return a.m; }
cbuffer sixth : Fourth : 2;
struct VIn { pos: float4 : SV_POSITION }
fn fragment_main(p: VOut) -> float4 { return p.pos; }
const ninth = 2.0;
fn vertex_main(v: VIn) -> VOut { return VOut { pos: v.pos }; }
texture<uint> eleventh : 0;
";

#[test]
fn declarations_are_written_in_source_order() {
    let source = format!("struct VOut {{ pos: float4 : SV_POSITION }}\n{}", ORDERED);
    let hlsl = compiled_hlsl(&source);
    let found = positions(
        &hlsl,
        &[
            "struct VOut {",
            "static const float first = 1.0;",
            "Texture2D<float4> second",
            "struct Third {",
            "float4x4 fifth(Third a) {",
            "cbuffer acsl_constant_buffer_2",
            "struct VIn {",
            "float4 fragment_main(VOut p) : SV_TARGET {",
            "static const float ninth = 2.0;",
            "VOut vertex_main(VIn v) {",
            "Texture2D<uint> eleventh",
        ],
    );
    assert!(found.windows(2).all(|pair| pair[0] < pair[1]), "{:?}", found);
    // Aliases are not written out.
    assert!(!hlsl.contains("Fourth"));

    let (vertex, fragment) = compiled_glsl(&source);
    let shared = [
        "struct VOut {",
        "const float first = 1.0;",
        "layout(location = 33) uniform sampler2D second;",
        "struct Third {",
        "mat4x4 fifth(Third a) {",
        "layout(location = 2) uniform Third sixth;",
        "struct VIn {",
        "const float ninth = 2.0;",
    ];
    let mut in_vertex: Vec<&str> = shared.to_vec();
    in_vertex.push("void main() {");
    in_vertex.push("layout(location = 32) uniform usampler2D eleventh;");
    let found = positions(&vertex, &in_vertex);
    assert!(found.windows(2).all(|pair| pair[0] < pair[1]), "{:?}", found);
    let mut in_fragment: Vec<&str> = shared[..7].to_vec();
    in_fragment.push("void main() {");
    in_fragment.push("const float ninth = 2.0;");
    in_fragment.push("layout(location = 32) uniform usampler2D eleventh;");
    let found = positions(&fragment, &in_fragment);
    assert!(found.windows(2).all(|pair| pair[0] < pair[1]), "{:?}", found);
    assert!(!vertex.contains("Fourth"));
    assert!(!fragment.contains("Fourth"));
}

#[test]
fn units_begin_with_their_headers() {
    let hlsl = compiled_hlsl(PASS_THROUGH);
    assert!(hlsl.starts_with("// Generated from Alexandria Common Shader Language\n\nstruct"));
    let (vertex, fragment) = compiled_glsl(PASS_THROUGH);
    assert!(vertex.starts_with(
        "#version 430 core\n\n// Generated from Alexandria Common Shader Language\n\nlayout(location = 0) in"
    ));
    assert!(fragment.starts_with(
        "#version 430 core\n\n// Generated from Alexandria Common Shader Language\n\nout vec4 acsl_fragment_color;\n\nin "
    ));
}

#[test]
fn fragment_main_may_come_first() {
    let source = "struct VIn { position: float3 : POSITION }
struct VOut { uv: float2 : TEXCOORD0, pos: float4 : SV_POSITION }
fn fragment_main(p: VOut) -> float4 { return float4(p.uv.x, p.uv.y, 0.0, 1.0); }
fn vertex_main(mut v: VIn) -> VOut {
    return VOut { pos: float4(v.position.x, v.position.y, v.position.z, 1.0), uv: float2(0.5, 0.5) };
}
";
    let (vertex, fragment) = compiled_glsl(source);
    assert_eq!(
        vertex,
        "#version 430 core\n\n// Generated from Alexandria Common Shader Language\n\nlayout(location = 0) in vec3 acsl_vertex_input_position;\n\nout vec2 acsl_pixel_input_uv;\nout vec4 acsl_pixel_input_pos;\n\nstruct VIn {\n    vec3 position;\n};\n\nstruct VOut {\n    vec2 uv;\n    vec4 pos;\n};\n\n\nvoid main() {\n    VIn v = VIn(acsl_vertex_input_position);\n\n    VOut acsl_vertex_output = VOut(vec2(0.5, 0.5), vec4(v.position.x, v.position.y, v.position.z, 1.0));\n    acsl_pixel_input_uv = acsl_vertex_output.uv;\n    acsl_pixel_input_pos = acsl_vertex_output.pos;\n    gl_Position = acsl_pixel_input_pos;\n    return;\n}\n\n"
    );
    assert_eq!(
        fragment,
        "#version 430 core\n\n// Generated from Alexandria Common Shader Language\n\nout vec4 acsl_fragment_color;\n\nin vec2 acsl_pixel_input_uv;\nin vec4 acsl_pixel_input_pos;\n\nstruct VIn {\n    vec3 position;\n};\n\nstruct VOut {\n    vec2 uv;\n    vec4 pos;\n};\n\nvoid main() {\n    VOut p = VOut(acsl_pixel_input_uv, acsl_pixel_input_pos);\n\n    acsl_fragment_color = vec4(p.uv.x, p.uv.y, 0.0, 1.0);\n    return;\n}\n\n\n"
    );
    let hlsl = compiled_hlsl(source);
    assert!(hlsl.contains(
        "    return acsl_create_VOut(float2(0.5, 0.5), float4(v.position.x, v.position.y, v.position.z, 1.0));\n"
    ));
}

#[test]
fn every_return_of_an_entry_point_is_rewritten() {
    let source = "struct VIn { pos: float4 : SV_POSITION }
struct VOut { pos: float4 : SV_POSITION }
fn vertex_main(v: VIn) -> VOut {
    return VOut { pos: v.pos };
    return VOut { pos: v.pos * 2.0 };
}
fn fragment_main(p: VOut) -> float4 {
    return p.pos;
    return p.pos + p.pos;
}
";
    let (vertex, fragment) = compiled_glsl(source);
    assert_eq!(vertex.matches("gl_Position = acsl_pixel_input_pos;").count(), 2);
    assert!(vertex.contains("    VOut acsl_vertex_output = VOut((v.pos * 2.0));\n"));
    assert_eq!(fragment.matches("    return;\n").count(), 2);
    assert!(fragment.contains("    acsl_fragment_color = (p.pos + p.pos);\n"));
    assert!(!fragment.contains("return p"));
}
