//! The Rust templates: pure functions, ordinary functions and structs.
use vstd::prelude::*;
use vstd::string::*;
use crate::codegen::result::{GenerationResult, GenerationSuccess};
use crate::codegen::spec::{
    any_constraint_contains, asks_unsafe, letter, param_list, param_name, param_name_text,
    some_constraint_contains, GenerationSpec,
};
use crate::codegen::template::CodeTemplate;
use crate::text::{chars_of, decimal, decimal_text, join, join_texts, same_text, views};

verus! {

/// Unicode `Uppercase` property of a character.
pub uninterp spec fn uppercase(c: char) -> bool;

/// Calls `char::is_uppercase`, which reports the Unicode `Uppercase`
/// property. Stated: the answer is `uppercase(c)`; `A` to `Z` have the
/// property and no other ASCII character has it. Which characters outside
/// ASCII have it is left unstated (it is the Unicode table).
#[verifier::external_body]
fn char_is_uppercase(c: char) -> (b: bool)
    ensures
        b == uppercase(c),
        65 <= (c as u32) <= 90 ==> b,
        (c as u32) < 128 && !(65 <= (c as u32) <= 90) ==> !b,
{
    c.is_uppercase()
}

/// The description names a type: its name starts with an uppercase
/// character, or a constraint mentions `struct`.
pub open spec fn struct_like(s: GenerationSpec) -> bool {
    ||| (s.function_name@.len() > 0 && uppercase(s.function_name@[0]))
    ||| some_constraint_contains(s, "struct"@)
}

/// One-letter argument names for the first `min(n, cap)` inputs.
pub open spec fn arg_letters(n: int, cap: int) -> Seq<Seq<char>> {
    Seq::new(
        if n < cap {
            n as nat
        } else {
            cap as nat
        },
        |i: int| letter(i),
    )
}

/// Body of a generated ordinary function.
pub open spec fn default_body(s: GenerationSpec) -> Seq<char> {
    let n = s.input_types@.len();
    let out = s.output_type@;
    if n == 0 {
        if out == "String"@ {
            "    String::from(\""@ + s.function_name@ + "\")"@
        } else if out == "f64"@ {
            "    0.0_f64"@
        } else if out == "f32"@ {
            "    0.0_f32"@
        } else {
            "    todo!()"@
        }
    } else if n == 1 {
        if out == s.input_types@[0]@ {
            "    "@ + letter(0)
        } else {
            "    "@ + letter(0) + " as "@ + out
        }
    } else if n == 2 {
        "    "@ + letter(0) + " + "@ + letter(1)
    } else {
        "    "@ + join(arg_letters(n as int, 8), " + "@)
    }
}

/// Body of a generated pure function.
pub open spec fn pure_body(s: GenerationSpec) -> Seq<char> {
    let n = s.input_types@.len();
    if n == 0 {
        "    42"@
    } else if n == 1 {
        "    "@ + letter(0)
    } else if n == 2 {
        "    "@ + letter(0) + " * "@ + letter(1)
    } else {
        "    "@ + join(arg_letters(n as int, 8), " * "@)
    }
}

/// Test module calling the generated function with up to four arguments.
pub open spec fn tests_text(s: GenerationSpec) -> Seq<char> {
    "\n#[cfg(test)]\nmod tests {\n    use super::*;\n\n    #[test]\n    fn test_"@ + s.function_name@
        + "() {\n        let result = "@ + s.function_name@ + "("@ + join(
        arg_letters(s.input_types@.len() as int, 4),
        ", "@,
    ) + ");\n        let _ = result;\n    }\n}\n"@
}

/// The test module if tests are requested, nothing otherwise.
pub open spec fn tests_part(s: GenerationSpec) -> Seq<char> {
    if s.include_tests {
        tests_text(s)
    } else {
        Seq::empty()
    }
}

/// The description text, or `prefix` followed by the name when it is empty.
pub open spec fn description_or(s: GenerationSpec, prefix: Seq<char>) -> Seq<char> {
    if s.description@.len() == 0 {
        prefix + s.function_name@
    } else {
        s.description@
    }
}

/// Code produced by the pure function template.
pub open spec fn pure_code(s: GenerationSpec) -> Seq<char> {
    "/// "@ + description_or(s, "Pure function: "@) + "\n#[inline]\npub fn "@ + s.function_name@
        + "("@ + param_list(s) + ") -> "@ + s.output_type@ + " {\n"@ + pure_body(s) + "\n}\n"@
        + tests_part(s)
}

/// Code produced by the ordinary function template.
pub open spec fn function_code(s: GenerationSpec) -> Seq<char> {
    "/// "@ + description_or(s, "Compute: "@) + "\npub fn "@ + s.function_name@ + "("@
        + param_list(s) + ") -> "@ + s.output_type@ + " {\n"@ + default_body(s) + "\n}\n"@
        + tests_part(s)
}

/// Name of the struct field holding input `i`.
pub open spec fn field_name(i: int) -> Seq<char> {
    if i == 0 {
        "value"@
    } else {
        "field_"@ + decimal(i as nat)
    }
}

/// The field declarations of the generated struct.
pub open spec fn field_decls(types: Seq<Seq<char>>) -> Seq<Seq<char>> {
    Seq::new(types.len(), |i: int| "    pub "@ + field_name(i) + ": "@ + types[i])
}

/// The field initializers of the generated constructor: each field takes
/// the parameter of the same position, `value: a, field_1: b, ...`.
pub open spec fn field_inits(n: nat) -> Seq<Seq<char>> {
    Seq::new(n, |i: int| field_name(i) + ": "@ + param_name(i))
}

/// Code produced by the struct template.
pub open spec fn struct_code(s: GenerationSpec) -> Seq<char> {
    "/// "@ + description_or(s, "Struct: "@) + "\n#[derive(Debug, Clone)]\npub struct "@
        + s.function_name@ + " {\n"@ + join(field_decls(views(s.input_types@)), ",\n"@)
        + "\n}\n\nimpl "@ + s.function_name@ + " {\n    pub fn new("@ + param_list(s)
        + ") -> Self {\n        Self { "@ + join(field_inits(s.input_types@.len()), ", "@)
        + " }\n    }\n}\n"@
}

/// The pure function template fits: a constraint mentions `pure` or
/// `no_side_effects`.
pub open spec fn pure_fits(s: GenerationSpec) -> bool {
    some_constraint_contains(s, "pure"@) || some_constraint_contains(s, "no_side_effects"@)
}

/// The ordinary function template fits: a non-empty name, no unsafe
/// constraint, not struct-like, and an output other than `()`.
pub open spec fn function_fits(s: GenerationSpec) -> bool {
    &&& s.function_name@.len() > 0
    &&& !asks_unsafe(s)
    &&& !struct_like(s)
    &&& s.output_type@ != "()"@
}

/// The struct template fits: struct-like, or the output is `()`.
pub open spec fn struct_fits(s: GenerationSpec) -> bool {
    struct_like(s) || s.output_type@ == "()"@
}

/// `r` is a success with the given code and template name, numbered as the
/// attempt after the previous failures.
pub open spec fn generated(
    r: GenerationResult,
    s: GenerationSpec,
    code: Seq<char>,
    template: Seq<char>,
) -> bool {
    match r {
        GenerationResult::Success(g) => {
            &&& g.code@ == code
            &&& g.template_name@ == template
            &&& g.attempt_number == s.previous_failures@.len() + 1
        },
        GenerationResult::Failed { .. } => false,
    }
}

/// Whether the description is struct-like.
fn is_struct_like(s: &GenerationSpec) -> (b: bool)
    ensures
        b == struct_like(*s),
{
    let name = chars_of(s.function_name.as_str());
    let upper = if name.len() > 0 {
        char_is_uppercase(name[0])
    } else {
        false
    };
    upper || any_constraint_contains(s, "struct")
}

/// One-letter argument names for the first `min(n, cap)` inputs, joined by
/// `sep`.
fn arg_list(n: usize, cap: usize, sep: &str) -> (t: String)
    requires
        cap <= 26,
    ensures
        t@ == join(arg_letters(n as int, cap as int), sep@),
{
    let m = if n < cap {
        n
    } else {
        cap
    };
    let ghost want = arg_letters(n as int, cap as int);
    let mut items: Vec<String> = Vec::new();
    let mut i: usize = 0;
    while i < m
        invariant
            m <= 26,
            want == arg_letters(n as int, cap as int),
            want.len() == m,
            i <= m,
            views(items@) == want.take(i as int),
        decreases m - i,
    {
        let ghost before = items@;
        items.push(String::from_str(param_name_text(i)));
        proof {
            assert(views(items@) =~= views(before).push(want[i as int]));
            assert(want.take(i + 1) =~= want.take(i as int).push(want[i as int]));
        }
        i = i + 1;
    }
    assert(want.take(m as int) =~= want);
    join_texts(&items, sep)
}

/// Builds the body of an ordinary function.
fn generate_default_body(s: &GenerationSpec) -> (b: String)
    ensures
        b@ == default_body(*s),
{
    let n = s.input_types.len();
    let out = s.output_type.as_str();
    if n == 0 {
        if same_text(out, "String") {
            let mut b = String::from_str("    String::from(\"");
            b.append(s.function_name.as_str());
            b.append("\")");
            b
        } else if same_text(out, "f64") {
            String::from_str("    0.0_f64")
        } else if same_text(out, "f32") {
            String::from_str("    0.0_f32")
        } else {
            String::from_str("    todo!()")
        }
    } else if n == 1 {
        let mut b = String::from_str("    ");
        b.append(param_name_text(0));
        if !same_text(out, s.input_types[0].as_str()) {
            b.append(" as ");
            b.append(out);
        }
        b
    } else if n == 2 {
        let mut b = String::from_str("    ");
        b.append(param_name_text(0));
        b.append(" + ");
        b.append(param_name_text(1));
        b
    } else {
        let mut b = String::from_str("    ");
        let args = arg_list(n, 8, " + ");
        b.append(args.as_str());
        b
    }
}

/// Builds the body of a pure function.
fn generate_pure_body(s: &GenerationSpec) -> (b: String)
    ensures
        b@ == pure_body(*s),
{
    let n = s.input_types.len();
    if n == 0 {
        String::from_str("    42")
    } else if n == 1 {
        let mut b = String::from_str("    ");
        b.append(param_name_text(0));
        b
    } else if n == 2 {
        let mut b = String::from_str("    ");
        b.append(param_name_text(0));
        b.append(" * ");
        b.append(param_name_text(1));
        b
    } else {
        let mut b = String::from_str("    ");
        let args = arg_list(n, 8, " * ");
        b.append(args.as_str());
        b
    }
}

/// Builds the test module, or nothing when tests are not requested.
fn generate_tests(s: &GenerationSpec) -> (t: String)
    ensures
        t@ == tests_part(*s),
{
    if !s.include_tests {
        proof {
            reveal_strlit("");
        }
        return String::from_str("");
    }
    let name = s.function_name.as_str();
    let call_args = arg_list(s.input_types.len(), 4, ", ");
    let mut t = String::from_str(
        "\n#[cfg(test)]\nmod tests {\n    use super::*;\n\n    #[test]\n    fn test_",
    );
    t.append(name);
    t.append("() {\n        let result = ");
    t.append(name);
    t.append("(");
    t.append(call_args.as_str());
    t.append(");\n        let _ = result;\n    }\n}\n");
    t
}

/// The description text, or `prefix` followed by the name when it is empty.
fn description_text(s: &GenerationSpec, prefix: &str) -> (d: String)
    ensures
        d@ == description_or(*s, prefix@),
{
    if s.description.as_str().is_empty() {
        let mut d = String::from_str(prefix);
        d.append(s.function_name.as_str());
        d
    } else {
        s.description.clone()
    }
}

/// Template for functions without side effects, marked `#[inline]`.
#[derive(Debug)]
pub struct RustPureTemplate;

/// Template for ordinary functions.
#[derive(Debug)]
pub struct RustFunctionTemplate;

/// Template for structs with a constructor.
#[derive(Debug)]
pub struct RustStructTemplate;

impl CodeTemplate for RustPureTemplate {
    fn name(&self) -> (n: &'static str)
        ensures
            n@ == "RustPureTemplate"@,
    {
        "RustPureTemplate"
    }

    fn matches(&self, s: &GenerationSpec) -> (b: bool)
        ensures
            b == pure_fits(*s),
    {
        any_constraint_contains(s, "pure") || any_constraint_contains(s, "no_side_effects")
    }

    fn priority(&self) -> (p: u8)
        ensures
            p == 80,
    {
        80
    }

    fn generate(&self, s: &GenerationSpec) -> (r: GenerationResult)
        ensures
            generated(r, *s, pure_code(*s), "RustPureTemplate"@),
    {
        let body = generate_pure_body(s);
        let tests = generate_tests(s);
        let desc = description_text(s, "Pure function: ");
        let params = s.format_params();
        let mut code = String::from_str("/// ");
        code.append(desc.as_str());
        code.append("\n#[inline]\npub fn ");
        code.append(s.function_name.as_str());
        code.append("(");
        code.append(params.as_str());
        code.append(") -> ");
        code.append(s.output_type.as_str());
        code.append(" {\n");
        code.append(body.as_str());
        code.append("\n}\n");
        code.append(tests.as_str());
        GenerationResult::Success(GenerationSuccess::new(code, self.name(), s.attempt_number()))
    }
}

impl CodeTemplate for RustFunctionTemplate {
    fn name(&self) -> (n: &'static str)
        ensures
            n@ == "RustFunctionTemplate"@,
    {
        "RustFunctionTemplate"
    }

    fn matches(&self, s: &GenerationSpec) -> (b: bool)
        ensures
            b == function_fits(*s),
    {
        !s.function_name.as_str().is_empty() && !s.requires_unsafe() && !is_struct_like(s)
            && !same_text(s.output_type.as_str(), "()")
    }

    fn generate(&self, s: &GenerationSpec) -> (r: GenerationResult)
        ensures
            generated(r, *s, function_code(*s), "RustFunctionTemplate"@),
    {
        let body = generate_default_body(s);
        let tests = generate_tests(s);
        let desc = description_text(s, "Compute: ");
        let params = s.format_params();
        let mut code = String::from_str("/// ");
        code.append(desc.as_str());
        code.append("\npub fn ");
        code.append(s.function_name.as_str());
        code.append("(");
        code.append(params.as_str());
        code.append(") -> ");
        code.append(s.output_type.as_str());
        code.append(" {\n");
        code.append(body.as_str());
        code.append("\n}\n");
        code.append(tests.as_str());
        GenerationResult::Success(GenerationSuccess::new(code, self.name(), s.attempt_number()))
    }
}

/// Name of the struct field holding input `i`.
fn field_name_text(i: usize) -> (t: String)
    ensures
        t@ == field_name(i as int),
{
    if i == 0 {
        String::from_str("value")
    } else {
        let mut t = String::from_str("field_");
        let d = decimal_text(i);
        t.append(d.as_str());
        t
    }
}

impl CodeTemplate for RustStructTemplate {
    fn name(&self) -> (n: &'static str)
        ensures
            n@ == "RustStructTemplate"@,
    {
        "RustStructTemplate"
    }

    fn matches(&self, s: &GenerationSpec) -> (b: bool)
        ensures
            b == struct_fits(*s),
    {
        is_struct_like(s) || same_text(s.output_type.as_str(), "()")
    }

    fn priority(&self) -> (p: u8)
        ensures
            p == 60,
    {
        60
    }

    fn generate(&self, s: &GenerationSpec) -> (r: GenerationResult)
        ensures
            generated(r, *s, struct_code(*s), "RustStructTemplate"@),
    {
        let ghost types = views(s.input_types@);
        let mut fields: Vec<String> = Vec::new();
        let mut inits: Vec<String> = Vec::new();
        let mut i: usize = 0;
        while i < s.input_types.len()
            invariant
                types == views(s.input_types@),
                i <= s.input_types@.len(),
                views(fields@) == field_decls(types).take(i as int),
                views(inits@) == field_inits(s.input_types@.len()).take(i as int),
            decreases s.input_types@.len() - i,
        {
            let mut field = String::from_str("    pub ");
            let fname = field_name_text(i);
            field.append(fname.as_str());
            field.append(": ");
            field.append(s.input_types[i].as_str());
            let mut init = field_name_text(i);
            init.append(": ");
            init.append(param_name_text(i));
            let ghost fields_before = fields@;
            let ghost inits_before = inits@;
            fields.push(field);
            inits.push(init);
            proof {
                let fd = field_decls(types);
                let fnm = field_inits(s.input_types@.len());
                assert(views(fields@) =~= views(fields_before).push(fd[i as int]));
                assert(fd.take(i + 1) =~= fd.take(i as int).push(fd[i as int]));
                assert(views(inits@) =~= views(inits_before).push(fnm[i as int]));
                assert(fnm.take(i + 1) =~= fnm.take(i as int).push(fnm[i as int]));
            }
            i = i + 1;
        }
        proof {
            assert(field_decls(types).take(s.input_types@.len() as int) =~= field_decls(types));
            assert(field_inits(s.input_types@.len()).take(s.input_types@.len() as int)
                =~= field_inits(s.input_types@.len()));
        }
        let desc = description_text(s, "Struct: ");
        let params = s.format_params();
        let field_text = join_texts(&fields, ",\n");
        let init_text = join_texts(&inits, ", ");
        let name = s.function_name.as_str();
        let mut code = String::from_str("/// ");
        code.append(desc.as_str());
        code.append("\n#[derive(Debug, Clone)]\npub struct ");
        code.append(name);
        code.append(" {\n");
        code.append(field_text.as_str());
        code.append("\n}\n\nimpl ");
        code.append(name);
        code.append(" {\n    pub fn new(");
        code.append(params.as_str());
        code.append(") -> Self {\n        Self { ");
        code.append(init_text.as_str());
        code.append(" }\n    }\n}\n");
        GenerationResult::Success(GenerationSuccess::new(code, self.name(), s.attempt_number()))
    }
}

} // verus!
