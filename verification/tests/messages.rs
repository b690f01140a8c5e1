use acsl::ast::SemanticAnalysisError;
use acsl::{compile_hlsl, CompilationError};

fn s(text: &str) -> String {
    text.to_string()
}

#[test]
fn semantic_errors_are_written() {
    let messages = [
        (SemanticAnalysisError::MultipleDefinition(s("a")), "Multiple definitions of \"a\""),
        (SemanticAnalysisError::NoVertexMain, "No \"vertex_main()\" function defined"),
        (SemanticAnalysisError::NoFragmentMain, "No \"fragment_main()\" function defined"),
        (SemanticAnalysisError::UnknownType(s("T")), "Unknown type name \"T\""),
        (SemanticAnalysisError::UnknownVariable(s("v")), "Unknown variable name \"v\""),
        (SemanticAnalysisError::UnknownFunction(s("f")), "Unknown function \"f\""),
        (SemanticAnalysisError::UnknownStructure(s("S")), "Unknown structure \"S\""),
        (
            SemanticAnalysisError::InvalidParameterCount(s("f"), 1, 2),
            "Function \"f\" expects 2 parameters, only 1 provided",
        ),
        (
            SemanticAnalysisError::InvalidParameterType(s("f"), 0, s("float2"), s("float")),
            "Function \"f\" expects parameter 1 to be of type \"float\", instead found type \"float2\"",
        ),
        (
            SemanticAnalysisError::InvalidParameterType(s("f"), 11, s("A"), s("B")),
            "Function \"f\" expects parameter 12 to be of type \"B\", instead found type \"A\"",
        ),
        (
            SemanticAnalysisError::InvalidReturnType(s("float2"), s("float")),
            "Invalid return type \"float2\", expected \"float\"",
        ),
        (
            SemanticAnalysisError::InvalidMemberType(s("S"), s("m"), s("float2"), s("float")),
            "\"m\" in struct \"S\" has type \"float\", found \"float2\" instead",
        ),
        (
            SemanticAnalysisError::MissingStructureMember(s("S"), s("m")),
            "Missing member \"m\" from initialization of struct \"S\"",
        ),
        (
            SemanticAnalysisError::InvalidMember(s("S"), s("m")),
            "Struct \"S\" does not contain a member named \"m\"",
        ),
        (
            SemanticAnalysisError::VertexMainParameterCount,
            "\"vertex_main()\" must take one parameter",
        ),
        (
            SemanticAnalysisError::InvalidVertexMainParameterType(s("float")),
            "The parameter for \"vertex_main()\" must be a structure with semantics, instead it is \"float\"",
        ),
        (
            SemanticAnalysisError::InvalidVertexMainReturnType(s("float")),
            "The return type for \"vertex_main()\" must be a structure with semantics, instead is it \"float\"",
        ),
        (
            SemanticAnalysisError::VertexMainReturnTypeMismatch(s("A"), s("B")),
            "The return type of \"vertex_main()\" must be the same as the parameter type \"fragment_main()\" (\"B\"), instead it is \"A\"",
        ),
        (
            SemanticAnalysisError::FragmentMainParameterCount,
            "\"fragment_main()\" must take one parameter",
        ),
        (
            SemanticAnalysisError::InvalidFragmentMainParameterType(s("float")),
            "The parameter for \"fragment_main()\" must be a structure with semantics, instead it is \"float\"",
        ),
        (
            SemanticAnalysisError::InvalidFragmentMainReturnType(s("float3")),
            "\"fragment_main()\" must return a float4, instead it is \"float3\"",
        ),
        (
            SemanticAnalysisError::FragmentMainParameterTypeMismatch(s("A"), s("B")),
            "The parameter for \"fragment_main()\" must be the same as the return type of \"vertex_main()\" (\"B\"), instead it is \"A\"",
        ),
        (
            SemanticAnalysisError::AllFieldsNeedSemantics(s("S")),
            "All fields require semantics when they are defined, and \"S\" is missing some",
        ),
        (
            SemanticAnalysisError::SlotOutOfRange("textures", 8, 8),
            "Slot 8 is out of range for textures, of which there are 8",
        ),
        (
            SemanticAnalysisError::SlotOutOfRange("constant buffers", 1000, 32),
            "Slot 1000 is out of range for constant buffers, of which there are 32",
        ),
        (SemanticAnalysisError::InvalidTextureType(s("float4x4")), "A texture cannot hold \"float4x4\""),
        (SemanticAnalysisError::InvalidVariableName(s("gl_x")), "The name \"gl_x\" is reserved"),
        (
            SemanticAnalysisError::InvalidOperation(s("float2"), "+", s("float3")),
            "Invalid operation \"float2 + float3\"",
        ),
        (
            SemanticAnalysisError::VariableTypeMismatch(s("v"), s("float2"), s("float")),
            "Variable \"v\" has type \"float\", found \"float2\" instead",
        ),
        (SemanticAnalysisError::ImmutableVariable(s("v")), "Variable \"v\" is not mutable"),
    ];
    for (error, message) in messages {
        assert_eq!(error.to_string(), message);
        assert_eq!(CompilationError::SemanticAnalysisError(error).to_string(), message);
    }
}

#[test]
fn position_of_the_last_parameter_is_written() {
    let error = SemanticAnalysisError::InvalidParameterType(s("f"), usize::MAX, s("A"), s("B"));
    assert_eq!(
        error.to_string(),
        format!(
            "Function \"f\" expects parameter {} to be of type \"B\", instead found type \"A\"",
            usize::MAX
        )
    );
}

#[test]
fn compilation_errors_are_written() {
    let message = |source: &str| compile_hlsl(source).unwrap_err().to_string();
    assert_eq!(message(""), "No \"vertex_main()\" function defined");
    assert_eq!(message("const a = @;"), "Unknown character '@' at 1:11");
    assert_eq!(message("const a = 1.5e;"), "Exponent has no digits at 1:14");
    assert_eq!(message("const a"), "Unexpected end of file");
    assert_eq!(message("const a b"), "Unexpected token \"b\" at 1:9");
    assert_eq!(message("const a = b;"), "Unknown variable name \"b\"");
    assert_eq!(
        message("const a = float2(1.0, 2.0) + float3(1.0, 2.0, 3.0);"),
        "Invalid operation \"float2 + float3\""
    );
    assert_eq!(
        message("texture t : 12;"),
        "Slot 12 is out of range for textures, of which there are 8"
    );
}
