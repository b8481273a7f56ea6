use code_warrior::levels::harness::{
    escape_c_string, format_call_args, format_single_arg, generate_harness, generate_print_stmt,
    generate_result_decl, get_print_format,
};
use code_warrior::levels::loader::{FunctionParameter, FunctionSignature, JsonVal, TestCase};

fn signature(name: &str, ret: &str, params: &[(&str, &str)]) -> FunctionSignature {
    FunctionSignature {
        name: name.to_string(),
        return_type: ret.to_string(),
        parameters: params
            .iter()
            .map(|(n, t)| FunctionParameter {
                name: n.to_string(),
                param_type: t.to_string(),
            })
            .collect(),
    }
}

#[test]
fn test_generate_simple_harness() {
    let user_code = "int add(int a, int b) { return a + b; }";
    let signature = signature("add", "int", &[("a", "int"), ("b", "int")]);
    let test_case = TestCase {
        input: vec![JsonVal::Int(2), JsonVal::Int(3)],
        expected: "5".to_string(),
        sample: true,
    };

    let harness = generate_harness(user_code, &signature, &test_case).unwrap();
    assert!(harness.contains("int result = add(2, 3);"));
    assert!(harness.contains("printf(\"%d\\n\", result);"));
}

#[test]
fn test_void_function() {
    let signature = signature("hello", "void", &[]);
    let test_case = TestCase {
        input: vec![],
        expected: "Hello, World!".to_string(),
        sample: true,
    };

    let harness = generate_harness(
        "void hello() { printf(\"Hello, World!\\n\"); }",
        &signature,
        &test_case,
    )
    .unwrap();
    assert!(harness.contains("hello();"));
    assert!(harness.contains("printf(\"done\\n\");"));
}

#[test]
fn test_pointer_parameters() {
    let user_code = "int safeRead(int *ptr) { if (ptr == NULL) return -1; return *ptr; }";
    let signature = signature("safeRead", "int", &[("ptr", "int*")]);

    // Test with NULL string
    let test_null = TestCase {
        input: vec![JsonVal::Text("NULL".to_string())],
        expected: "-1".to_string(),
        sample: true,
    };
    let harness_null = generate_harness(user_code, &signature, &test_null).unwrap();
    assert!(harness_null.contains("safeRead(NULL)"));

    // Test with integer value (creates compound literal pointer)
    let test_value = TestCase {
        input: vec![JsonVal::Int(42)],
        expected: "42".to_string(),
        sample: true,
    };
    let harness_value = generate_harness(user_code, &signature, &test_value).unwrap();
    assert!(harness_value.contains("safeRead(&(int){42})"));
}

#[test]
fn test_array_to_pointer_parameter() {
    let user_code = "int getAt(int *arr, int i) { return *(arr + i); }";
    let signature = signature("getAt", "int", &[("arr", "int*"), ("i", "int")]);

    // Test with array input (creates compound literal array)
    let test_case = TestCase {
        input: vec![
            JsonVal::Arr(vec![
                JsonVal::Int(10),
                JsonVal::Int(20),
                JsonVal::Int(30),
                JsonVal::Int(40),
                JsonVal::Int(50),
            ]),
            JsonVal::Int(2),
        ],
        expected: "30".to_string(),
        sample: true,
    };
    let harness = generate_harness(user_code, &signature, &test_case).unwrap();
    assert!(harness.contains("getAt((int[]){ 10, 20, 30, 40, 50 }, 2)"));
}

#[test]
fn whole_harness_text_is_pinned() {
    let signature = signature("add", "int", &[("a", "int"), ("b", "int")]);
    let test_case = TestCase {
        input: vec![JsonVal::Int(2), JsonVal::Int(3)],
        expected: "5".to_string(),
        sample: true,
    };
    let harness = generate_harness("int add(int a, int b) { return a + b; }", &signature, &test_case)
        .unwrap();
    let expected = "#include <stdio.h>\n#include <stdlib.h>\n#include <string.h>\n\n\
// User's function\nint add(int a, int b) { return a + b; }\n\n\
int main() {\n    int result = add(2, 3);\n    printf(\"%d\\n\", result);\n    return 0;\n}\n";
    assert_eq!(harness, expected);
}

#[test]
fn parameter_count_mismatch_is_an_error() {
    let signature = signature("add", "int", &[("a", "int"), ("b", "int")]);
    let test_case = TestCase {
        input: vec![JsonVal::Int(2)],
        expected: "2".to_string(),
        sample: true,
    };
    let err = generate_harness("int add(int a, int b);", &signature, &test_case).unwrap_err();
    assert_eq!(err, "Parameter count mismatch: expected 2, got 1");
}

#[test]
fn unsupported_types_are_hard_errors() {
    assert_eq!(
        format_single_arg("struct point", &JsonVal::Int(1)).unwrap_err(),
        "Unsupported parameter type: struct point"
    );
    assert_eq!(
        get_print_format("struct point").unwrap_err(),
        "Unsupported return type: struct point"
    );
}

#[test]
fn scalar_argument_formatting() {
    assert_eq!(format_single_arg("int", &JsonVal::Int(-7)).unwrap(), "-7");
    assert_eq!(format_single_arg("unsigned int", &JsonVal::Int(7)).unwrap(), "7");
    assert!(format_single_arg("unsigned int", &JsonVal::Int(-1)).is_err());
    assert_eq!(
        format_single_arg("size_t", &JsonVal::Big(18446744073709551615)).unwrap(),
        "18446744073709551615"
    );
    assert_eq!(format_single_arg("double", &JsonVal::Int(2)).unwrap(), "2.000000");
    assert_eq!(
        format_single_arg("float", &JsonVal::Num(format!("{:.6}", 2.5f64))).unwrap(),
        "2.500000"
    );
    assert_eq!(format_single_arg("char", &JsonVal::Text("x".to_string())).unwrap(), "'x'");
    assert!(format_single_arg("char", &JsonVal::Text("xy".to_string())).is_err());
    // one character, but more than one byte: refused like any longer string
    assert!(format_single_arg("char", &JsonVal::Text("\u{e9}".to_string())).is_err());
    assert_eq!(
        format_single_arg("char*", &JsonVal::Text("a \"b\"\n".to_string())).unwrap(),
        "\"a \\\"b\\\"\\n\""
    );
    assert_eq!(
        format_single_arg("int", &JsonVal::Null).unwrap_err(),
        "Expected integer, got null"
    );
    assert_eq!(
        format_single_arg("int", &JsonVal::Text("x".to_string())).unwrap_err(),
        "Expected integer, got \"x\""
    );
    assert_eq!(
        format_single_arg("unsigned int", &JsonVal::Int(-1)).unwrap_err(),
        "Expected unsigned integer, got -1"
    );
    assert_eq!(
        format_single_arg("char*", &JsonVal::Arr(vec![JsonVal::Int(1), JsonVal::Int(2)]))
            .unwrap_err(),
        "Expected string, got [1, 2]"
    );
    assert_eq!(
        format_single_arg("int*", &JsonVal::Bool(true)).unwrap_err(),
        "Expected integer, array, or 'NULL', got true"
    );
    assert_eq!(format_single_arg("int*", &JsonVal::Arr(vec![])).unwrap(), "(int[]){  }");
    assert_eq!(
        format_single_arg("int*", &JsonVal::Arr(vec![JsonVal::Text("x".to_string())]))
            .unwrap_err(),
        "Array element must be integer: \"x\""
    );
}

#[test]
fn print_formats_cover_the_type_vocabulary() {
    assert_eq!(get_print_format("int").unwrap(), "%d");
    assert_eq!(get_print_format("short").unwrap(), "%d");
    assert_eq!(get_print_format("long").unwrap(), "%ld");
    assert_eq!(get_print_format("unsigned int").unwrap(), "%u");
    assert_eq!(get_print_format("unsigned long").unwrap(), "%lu");
    assert_eq!(get_print_format("size_t").unwrap(), "%lu");
    assert_eq!(get_print_format("float").unwrap(), "%f");
    assert_eq!(get_print_format("double").unwrap(), "%lf");
    assert_eq!(get_print_format("char").unwrap(), "%c");
    assert_eq!(get_print_format("char*").unwrap(), "%s");
    assert_eq!(get_print_format("string").unwrap(), "%s");
    assert_eq!(get_print_format("void").unwrap(), "");
}

#[test]
fn result_decl_and_print_stmt() {
    let sig = signature("go", "void", &[]);
    assert_eq!(generate_result_decl(&sig, ""), "go();");
    assert_eq!(generate_print_stmt("void", ""), "printf(\"done\\n\");");
    let sig = signature("len", "unsigned long", &[("s", "char*")]);
    assert_eq!(
        generate_result_decl(&sig, "\"hi\""),
        "unsigned long result = len(\"hi\");"
    );
    assert_eq!(generate_print_stmt("unsigned long", "%lu"), "printf(\"%lu\\n\", result);");
}

#[test]
fn escaping_covers_the_five_escapes() {
    assert_eq!(escape_c_string("a\\b\"c\nd\te\rf"), "a\\\\b\\\"c\\nd\\te\\rf");
    assert_eq!(escape_c_string("plain"), "plain");
}

#[test]
fn call_args_join_in_order() {
    let params = vec![
        FunctionParameter { name: "a".to_string(), param_type: "int".to_string() },
        FunctionParameter { name: "b".to_string(), param_type: "char*".to_string() },
    ];
    let input = vec![JsonVal::Int(1), JsonVal::Text("x".to_string())];
    assert_eq!(format_call_args(&params, &input).unwrap(), "1, \"x\"");
}
