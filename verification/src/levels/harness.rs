//! Test-harness generator for function challenges.
//!
//! Wraps a player-written C function in a complete translation unit: a
//! synthesized `main` calls the function with the test case's inputs
//! and prints the result in the form canonical for the return type, so
//! that grading reduces to comparing trimmed output text.

use vstd::prelude::*;
use vstd::string::*;

use crate::levels::loader::{
    json_desc, spec_json_desc, FunctionParameter, FunctionSignature, JsonVal, TestCase,
};
use crate::strutil::{
    contains_seq, dec_int, dec_rep, i64_to_dec, str_contains, str_eq, u64_to_dec, usize_to_dec,
};

verus! {

/// How one character is written inside a C string literal.
pub open spec fn esc_char(c: char) -> Seq<char> {
    if c == '\\' {
        seq!['\\', '\\']
    } else if c == '"' {
        seq!['\\', '"']
    } else if c == '\n' {
        seq!['\\', 'n']
    } else if c == '\t' {
        seq!['\\', 't']
    } else if c == '\r' {
        seq!['\\', 'r']
    } else {
        seq![c]
    }
}

/// The body of a C string literal holding the characters of `s`.
pub open spec fn escape_c(s: Seq<char>) -> Seq<char>
    decreases s.len(),
{
    if s.len() == 0 {
        Seq::empty()
    } else {
        esc_char(s[0]) + escape_c(s.drop_first())
    }
}

proof fn lemma_escape_snoc(s: Seq<char>, c: char)
    ensures
        escape_c(s.push(c)) == escape_c(s) + esc_char(c),
    decreases s.len(),
{
    if s.len() == 0 {
        assert(s.push(c)[0] == c);
        assert(s.push(c).drop_first() =~= Seq::<char>::empty());
        assert(escape_c(s.push(c).drop_first()) == Seq::<char>::empty());
        assert(escape_c(s.push(c)) == esc_char(c) + escape_c(s.push(c).drop_first()));
        assert(escape_c(s.push(c)) =~= escape_c(s) + esc_char(c));
    } else {
        assert(s.push(c)[0] == s[0]);
        assert(s.push(c).drop_first() =~= s.drop_first().push(c));
        lemma_escape_snoc(s.drop_first(), c);
        assert(escape_c(s.push(c)) =~= escape_c(s) + esc_char(c));
    }
}

/// Escape a string for embedding in C source: backslash, double quote,
/// newline, tab and carriage return are written as escape sequences.
pub fn escape_c_string(s: &str) -> (r: String)
    ensures
        r@ == escape_c(s@),
{
    let len = s.unicode_len();
    let mut out = String::new();
    let mut i: usize = 0;
    proof {
        assert(s@.subrange(0, 0) =~= Seq::<char>::empty());
    }
    while i < len
        invariant
            len == s@.len(),
            i <= len,
            out@ == escape_c(s@.subrange(0, i as int)),
        decreases len - i,
    {
        let c = s.get_char(i);
        proof {
            reveal_strlit("\\\\");
            reveal_strlit("\\\"");
            reveal_strlit("\\n");
            reveal_strlit("\\t");
            reveal_strlit("\\r");
        }
        if c == '\\' {
            out.append("\\\\");
        } else if c == '"' {
            out.append("\\\"");
        } else if c == '\n' {
            out.append("\\n");
        } else if c == '\t' {
            out.append("\\t");
        } else if c == '\r' {
            out.append("\\r");
        } else {
            let piece = s.substring_char(i, i + 1);
            out.append(piece);
        }
        proof {
            assert(out@ =~= escape_c(s@.subrange(0, i as int)) + esc_char(s@[i as int]));
            lemma_escape_snoc(s@.subrange(0, i as int), s@[i as int]);
            assert(s@.subrange(0, i as int).push(s@[i as int]) =~= s@.subrange(0, i + 1));
        }
        i = i + 1;
    }
    proof {
        assert(s@.subrange(0, s@.len() as int) =~= s@);
    }
    out
}

/// The elements of an integer array input, joined by comma and space;
/// an element that is not an integer is an error.
pub open spec fn spec_arr_elems(elems: Seq<JsonVal>) -> Result<Seq<char>, Seq<char>>
    decreases elems.len(),
{
    if elems.len() == 0 {
        Ok(Seq::empty())
    } else if !(elems[0] is Int) {
        Err("Array element must be integer: "@ + spec_json_desc(elems[0]))
    } else if elems.len() == 1 {
        Ok(dec_int(elems[0]->Int_0 as int))
    } else {
        match spec_arr_elems(elems.drop_first()) {
            Ok(rest) => Ok(dec_int(elems[0]->Int_0 as int) + ", "@ + rest),
            Err(e) => Err(e),
        }
    }
}

/// The C expression standing for one argument, given the declared
/// parameter type and the test input for that position.
pub open spec fn spec_single_arg(t: Seq<char>, v: JsonVal) -> Result<Seq<char>, Seq<char>> {
    if contains_seq(t, "int*"@) || contains_seq(t, "int *"@) {
        if v is Text && v->Text_0@ == "NULL"@ {
            Ok("NULL"@)
        } else if v is Arr {
            match spec_arr_elems(v->Arr_0@) {
                Ok(es) => Ok("(int[]){ "@ + es + " }"@),
                Err(e) => Err(e),
            }
        } else if v is Int {
            Ok("&(int){"@ + dec_int(v->Int_0 as int) + "}"@)
        } else {
            Err("Expected integer, array, or 'NULL', got "@ + spec_json_desc(v))
        }
    } else if t == "int"@ || t == "long"@ || t == "short"@ {
        if v is Int {
            Ok(dec_int(v->Int_0 as int))
        } else {
            Err("Expected integer, got "@ + spec_json_desc(v))
        }
    } else if t == "unsigned int"@ || t == "unsigned long"@ || t == "size_t"@ {
        if v is Int && v->Int_0 >= 0 {
            Ok(dec_rep(v->Int_0 as nat))
        } else if v is Big {
            Ok(dec_rep(v->Big_0 as nat))
        } else {
            Err("Expected unsigned integer, got "@ + spec_json_desc(v))
        }
    } else if t == "float"@ || t == "double"@ {
        if v is Int {
            Ok(dec_int(v->Int_0 as int) + ".000000"@)
        } else if v is Big {
            Ok(dec_rep(v->Big_0 as nat) + ".000000"@)
        } else if v is Num {
            Ok(v->Num_0@)
        } else {
            Err("Expected float, got "@ + spec_json_desc(v))
        }
    } else if t == "char"@ {
        if v is Text {
            if v->Text_0@.len() == 1 && (v->Text_0@[0] as u32) < 128 {
                Ok("'"@ + v->Text_0@ + "'"@)
            } else {
                Err("Expected single char, got '"@ + v->Text_0@ + "'"@)
            }
        } else {
            Err("Expected char string, got "@ + spec_json_desc(v))
        }
    } else if contains_seq(t, "char*"@) || contains_seq(t, "char *"@) || t == "string"@ {
        if v is Text {
            Ok("\""@ + escape_c(v->Text_0@) + "\""@)
        } else {
            Err("Expected string, got "@ + spec_json_desc(v))
        }
    } else {
        Err("Unsupported parameter type: "@ + t)
    }
}

/// The comma-joined argument list, or the first error among the
/// arguments, taken in order.
pub open spec fn spec_args_joined(params: Seq<FunctionParameter>, input: Seq<JsonVal>) -> Result<
    Seq<char>,
    Seq<char>,
>
    decreases params.len(),
{
    if params.len() == 0 {
        Ok(Seq::empty())
    } else {
        match spec_single_arg(params[0].param_type@, input[0]) {
            Err(e) => Err(e),
            Ok(a) => if params.len() == 1 {
                Ok(a)
            } else {
                match spec_args_joined(params.drop_first(), input.drop_first()) {
                    Ok(rest) => Ok(a + ", "@ + rest),
                    Err(e) => Err(e),
                }
            },
        }
    }
}

/// The full argument list: a count mismatch is an error, never a silent
/// truncation.
pub open spec fn spec_call_args(params: Seq<FunctionParameter>, input: Seq<JsonVal>) -> Result<
    Seq<char>,
    Seq<char>,
> {
    if params.len() != input.len() {
        Err(
            "Parameter count mismatch: expected "@ + dec_rep(params.len()) + ", got "@ + dec_rep(
                input.len(),
            ),
        )
    } else {
        spec_args_joined(params, input)
    }
}

/// The printf conversion canonical for a return type; the empty string
/// for `void`, an error for a type outside the vocabulary.
pub open spec fn spec_print_format(rt: Seq<char>) -> Result<Seq<char>, Seq<char>> {
    if rt == "int"@ || rt == "short"@ {
        Ok("%d"@)
    } else if rt == "long"@ {
        Ok("%ld"@)
    } else if rt == "unsigned int"@ {
        Ok("%u"@)
    } else if rt == "unsigned long"@ || rt == "size_t"@ {
        Ok("%lu"@)
    } else if rt == "float"@ {
        Ok("%f"@)
    } else if rt == "double"@ {
        Ok("%lf"@)
    } else if rt == "char"@ {
        Ok("%c"@)
    } else if rt == "char*"@ || rt == "char *"@ || rt == "string"@ {
        Ok("%s"@)
    } else if rt == "void"@ {
        Ok(Seq::empty())
    } else {
        Err("Unsupported return type: "@ + rt)
    }
}

/// The statement that runs the player's function: a `void` function is
/// called bare, any other declares a typed `result`.
pub open spec fn spec_result_decl(
    name: Seq<char>,
    rt: Seq<char>,
    call_args: Seq<char>,
) -> Seq<char> {
    if rt == "void"@ {
        name + "("@ + call_args + ");"@
    } else {
        rt + " result = "@ + name + "("@ + call_args + ");"@
    }
}

/// The statement that prints the result: a fixed sentinel line for
/// `void`, the type's conversion otherwise.
pub open spec fn spec_print_stmt(rt: Seq<char>, fmt: Seq<char>) -> Seq<char> {
    if rt == "void"@ {
        "printf(\"done\\n\");"@
    } else {
        "printf(\""@ + fmt + "\\n\", result);"@
    }
}

/// The complete harness text around the player's code.
pub open spec fn spec_harness_text(
    user_code: Seq<char>,
    decl: Seq<char>,
    print: Seq<char>,
) -> Seq<char> {
    "#include <stdio.h>\n#include <stdlib.h>\n#include <string.h>\n\n// User's function\n"@
        + user_code + "\n\nint main() {\n    "@ + decl + "\n    "@ + print
        + "\n    return 0;\n}\n"@
}

/// The whole generated program, or the first error: argument errors
/// come before return-type errors.
pub open spec fn spec_generate_harness(
    user_code: Seq<char>,
    sig: FunctionSignature,
    tc: TestCase,
) -> Result<Seq<char>, Seq<char>> {
    match spec_call_args(sig.parameters@, tc.input@) {
        Err(e) => Err(e),
        Ok(args) => match spec_print_format(sig.return_type@) {
            Err(e) => Err(e),
            Ok(fmt) => Ok(
                spec_harness_text(
                    user_code,
                    spec_result_decl(sig.name@, sig.return_type@, args),
                    spec_print_stmt(sig.return_type@, fmt),
                ),
            ),
        },
    }
}

fn fmt_arr_from(arr: &Vec<JsonVal>, i: usize) -> (r: Result<String, String>)
    requires
        i <= arr@.len(),
    ensures
        r is Ok == spec_arr_elems(arr@.skip(i as int)) is Ok,
        r is Ok ==> r->Ok_0@ == spec_arr_elems(arr@.skip(i as int))->Ok_0,
        r is Err ==> r->Err_0@ == spec_arr_elems(arr@.skip(i as int))->Err_0,
    decreases arr@.len() - i,
{
    let ghost suffix = arr@.skip(i as int);
    if i == arr.len() {
        proof {
            assert(suffix.len() == 0);
        }
        return Ok(String::new());
    }
    proof {
        assert(suffix[0] == arr@[i as int]);
        assert(suffix.drop_first() =~= arr@.skip(i + 1));
    }
    match &arr[i] {
        JsonVal::Int(n) => {
            let mut out = i64_to_dec(*n);
            if i + 1 == arr.len() {
                proof {
                    assert(suffix.len() == 1);
                }
                Ok(out)
            } else {
                match fmt_arr_from(arr, i + 1) {
                    Ok(rest) => {
                        out.append(", ");
                        out.append(rest.as_str());
                        Ok(out)
                    },
                    Err(e) => Err(e),
                }
            }
        },
        other => {
            let mut out = "Array element must be integer: ".to_owned();
            let shown = json_desc(other);
            out.append(shown.as_str());
            Err(out)
        },
    }
}

/// Format one argument value from its declared parameter type. A
/// pointer-to-int parameter takes the literal string `"NULL"`, an
/// integer array, or a single integer; the three forms become the C
/// `NULL` keyword, an anonymous array, and a pointer to one value.
pub fn format_single_arg(param_type: &str, value: &JsonVal) -> (r: Result<String, String>)
    ensures
        r is Ok == spec_single_arg(param_type@, *value) is Ok,
        r is Ok ==> r->Ok_0@ == spec_single_arg(param_type@, *value)->Ok_0,
        r is Err ==> r->Err_0@ == spec_single_arg(param_type@, *value)->Err_0,
{
    if str_contains(param_type, "int*") || str_contains(param_type, "int *") {
        match value {
            JsonVal::Text(s) => {
                if str_eq(s.as_str(), "NULL") {
                    Ok("NULL".to_owned())
                } else {
                    let mut out = "Expected integer, array, or 'NULL', got ".to_owned();
                    let shown = json_desc(value);
                    out.append(shown.as_str());
                    Err(out)
                }
            },
            JsonVal::Arr(elems) => {
                match fmt_arr_from(elems, 0) {
                    Ok(es) => {
                        proof {
                            assert(elems@.skip(0) =~= elems@);
                        }
                        let mut out = "(int[]){ ".to_owned();
                        out.append(es.as_str());
                        out.append(" }");
                        Ok(out)
                    },
                    Err(e) => {
                        proof {
                            assert(elems@.skip(0) =~= elems@);
                        }
                        Err(e)
                    },
                }
            },
            JsonVal::Int(n) => {
                let mut out = "&(int){".to_owned();
                let digits = i64_to_dec(*n);
                out.append(digits.as_str());
                out.append("}");
                Ok(out)
            },
            _ => {
                let mut out = "Expected integer, array, or 'NULL', got ".to_owned();
                let shown = json_desc(value);
                out.append(shown.as_str());
                Err(out)
            },
        }
    } else if str_eq(param_type, "int") || str_eq(param_type, "long") || str_eq(
        param_type,
        "short",
    ) {
        match value {
            JsonVal::Int(n) => Ok(i64_to_dec(*n)),
            _ => {
                let mut out = "Expected integer, got ".to_owned();
                let shown = json_desc(value);
                out.append(shown.as_str());
                Err(out)
            },
        }
    } else if str_eq(param_type, "unsigned int") || str_eq(param_type, "unsigned long") || str_eq(
        param_type,
        "size_t",
    ) {
        match value {
            JsonVal::Int(n) => {
                if *n >= 0 {
                    Ok(u64_to_dec(*n as u64))
                } else {
                    let mut out = "Expected unsigned integer, got ".to_owned();
                    let shown = json_desc(value);
                    out.append(shown.as_str());
                    Err(out)
                }
            },
            JsonVal::Big(u) => Ok(u64_to_dec(*u)),
            _ => {
                let mut out = "Expected unsigned integer, got ".to_owned();
                let shown = json_desc(value);
                out.append(shown.as_str());
                Err(out)
            },
        }
    } else if str_eq(param_type, "float") || str_eq(param_type, "double") {
        match value {
            JsonVal::Int(n) => {
                let mut out = i64_to_dec(*n);
                out.append(".000000");
                Ok(out)
            },
            JsonVal::Big(u) => {
                let mut out = u64_to_dec(*u);
                out.append(".000000");
                Ok(out)
            },
            JsonVal::Num(s) => Ok(s.as_str().to_owned()),
            _ => {
                let mut out = "Expected float, got ".to_owned();
                let shown = json_desc(value);
                out.append(shown.as_str());
                Err(out)
            },
        }
    } else if str_eq(param_type, "char") {
        match value {
            JsonVal::Text(s) => {
                // a one-byte string: exactly one character, in ASCII
                if s.as_str().unicode_len() == 1 && (s.as_str().get_char(0) as u32) < 128 {
                    let mut out = "'".to_owned();
                    out.append(s.as_str());
                    out.append("'");
                    Ok(out)
                } else {
                    let mut out = "Expected single char, got '".to_owned();
                    out.append(s.as_str());
                    out.append("'");
                    Err(out)
                }
            },
            _ => {
                let mut out = "Expected char string, got ".to_owned();
                let shown = json_desc(value);
                out.append(shown.as_str());
                Err(out)
            },
        }
    } else if str_contains(param_type, "char*") || str_contains(param_type, "char *") || str_eq(
        param_type,
        "string",
    ) {
        match value {
            JsonVal::Text(s) => {
                let mut out = "\"".to_owned();
                let body = escape_c_string(s.as_str());
                out.append(body.as_str());
                out.append("\"");
                Ok(out)
            },
            _ => {
                let mut out = "Expected string, got ".to_owned();
                let shown = json_desc(value);
                out.append(shown.as_str());
                Err(out)
            },
        }
    } else {
        let mut out = "Unsupported parameter type: ".to_owned();
        out.append(param_type);
        Err(out)
    }
}

fn fmt_args_from(params: &Vec<FunctionParameter>, input: &Vec<JsonVal>, i: usize) -> (r: Result<
    String,
    String,
>)
    requires
        i <= params@.len(),
        params@.len() == input@.len(),
    ensures
        r is Ok == spec_args_joined(params@.skip(i as int), input@.skip(i as int)) is Ok,
        r is Ok ==> r->Ok_0@ == spec_args_joined(
            params@.skip(i as int),
            input@.skip(i as int),
        )->Ok_0,
        r is Err ==> r->Err_0@ == spec_args_joined(
            params@.skip(i as int),
            input@.skip(i as int),
        )->Err_0,
    decreases params@.len() - i,
{
    let ghost psuf = params@.skip(i as int);
    let ghost vsuf = input@.skip(i as int);
    if i == params.len() {
        proof {
            assert(psuf.len() == 0);
        }
        return Ok(String::new());
    }
    proof {
        assert(psuf[0] == params@[i as int]);
        assert(vsuf[0] == input@[i as int]);
        assert(psuf.drop_first() =~= params@.skip(i + 1));
        assert(vsuf.drop_first() =~= input@.skip(i + 1));
    }
    match format_single_arg(params[i].param_type.as_str(), &input[i]) {
        Err(e) => Err(e),
        Ok(a) => {
            if i + 1 == params.len() {
                proof {
                    assert(psuf.len() == 1);
                }
                Ok(a)
            } else {
                match fmt_args_from(params, input, i + 1) {
                    Ok(rest) => {
                        let mut out = a;
                        out.append(", ");
                        out.append(rest.as_str());
                        Ok(out)
                    },
                    Err(e) => Err(e),
                }
            }
        },
    }
}

/// Format the whole argument list; the parameter count must equal the
/// input count, else a descriptive error.
pub fn format_call_args(params: &Vec<FunctionParameter>, input: &Vec<JsonVal>) -> (r: Result<
    String,
    String,
>)
    ensures
        r is Ok == spec_call_args(params@, input@) is Ok,
        r is Ok ==> r->Ok_0@ == spec_call_args(params@, input@)->Ok_0,
        r is Err ==> r->Err_0@ == spec_call_args(params@, input@)->Err_0,
{
    if params.len() != input.len() {
        let mut out = "Parameter count mismatch: expected ".to_owned();
        let pd = usize_to_dec(params.len());
        out.append(pd.as_str());
        out.append(", got ");
        let vd = usize_to_dec(input.len());
        out.append(vd.as_str());
        return Err(out);
    }
    proof {
        assert(params@.skip(0) =~= params@);
        assert(input@.skip(0) =~= input@);
    }
    fmt_args_from(params, input, 0)
}

/// The printf conversion for a return type of the fixed vocabulary; an
/// unknown type is a hard error, never a best-effort guess.
pub fn get_print_format(return_type: &str) -> (r: Result<&'static str, String>)
    ensures
        r is Ok == spec_print_format(return_type@) is Ok,
        r is Ok ==> r->Ok_0@ == spec_print_format(return_type@)->Ok_0,
        r is Err ==> r->Err_0@ == spec_print_format(return_type@)->Err_0,
{
    if str_eq(return_type, "int") || str_eq(return_type, "short") {
        Ok("%d")
    } else if str_eq(return_type, "long") {
        Ok("%ld")
    } else if str_eq(return_type, "unsigned int") {
        Ok("%u")
    } else if str_eq(return_type, "unsigned long") || str_eq(return_type, "size_t") {
        Ok("%lu")
    } else if str_eq(return_type, "float") {
        Ok("%f")
    } else if str_eq(return_type, "double") {
        Ok("%lf")
    } else if str_eq(return_type, "char") {
        Ok("%c")
    } else if str_eq(return_type, "char*") || str_eq(return_type, "char *") || str_eq(
        return_type,
        "string",
    ) {
        Ok("%s")
    } else if str_eq(return_type, "void") {
        proof {
            reveal_strlit("");
        }
        Ok("")
    } else {
        let mut out = "Unsupported return type: ".to_owned();
        out.append(return_type);
        Err(out)
    }
}

/// The statement declaring and filling `result`, or the bare call for a
/// `void` function.
pub fn generate_result_decl(signature: &FunctionSignature, call_args: &str) -> (r: String)
    ensures
        r@ == spec_result_decl(signature.name@, signature.return_type@, call_args@),
{
    if str_eq(signature.return_type.as_str(), "void") {
        let mut out = String::new();
        out.append(signature.name.as_str());
        out.append("(");
        out.append(call_args);
        out.append(");");
        out
    } else {
        let mut out = String::new();
        out.append(signature.return_type.as_str());
        out.append(" result = ");
        out.append(signature.name.as_str());
        out.append("(");
        out.append(call_args);
        out.append(");");
        out
    }
}

/// The statement printing the result, or the sentinel line for `void`.
pub fn generate_print_stmt(return_type: &str, format: &str) -> (r: String)
    ensures
        r@ == spec_print_stmt(return_type@, format@),
{
    if str_eq(return_type, "void") {
        "printf(\"done\\n\");".to_owned()
    } else {
        let mut out = "printf(\"".to_owned();
        out.append(format);
        out.append("\\n\", result);");
        out
    }
}

/// Generate the complete C program wrapping the player's function with
/// a `main` that calls it on the test case's inputs and prints the
/// result.
pub fn generate_harness(user_code: &str, signature: &FunctionSignature, test_case: &TestCase) -> (r:
    Result<String, String>)
    ensures
        r is Ok == spec_generate_harness(user_code@, *signature, *test_case) is Ok,
        r is Ok ==> r->Ok_0@ == spec_generate_harness(user_code@, *signature, *test_case)->Ok_0,
        r is Err ==> r->Err_0@ == spec_generate_harness(user_code@, *signature, *test_case)->Err_0,
{
    let call_args = match format_call_args(&signature.parameters, &test_case.input) {
        Ok(a) => a,
        Err(e) => {
            return Err(e);
        },
    };
    let print_format = match get_print_format(signature.return_type.as_str()) {
        Ok(f) => f,
        Err(e) => {
            return Err(e);
        },
    };
    let decl = generate_result_decl(signature, call_args.as_str());
    let stmt = generate_print_stmt(signature.return_type.as_str(), print_format);
    let mut out =
        "#include <stdio.h>\n#include <stdlib.h>\n#include <string.h>\n\n// User's function\n".to_owned();
    out.append(user_code);
    out.append("\n\nint main() {\n    ");
    out.append(decl.as_str());
    out.append("\n    ");
    out.append(stmt.as_str());
    out.append("\n    return 0;\n}\n");
    Ok(out)
}

} // verus!
