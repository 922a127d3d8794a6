//! What is asked of the generator.
use vstd::prelude::*;
use vstd::string::*;
use crate::text::{contains_seq, contains_text, join, join_texts, views};

verus! {

/// A previous attempt that failed, kept so that later attempts can see it.
#[derive(Debug, Clone, PartialEq)]
pub struct FailureContext {
    /// Why the attempt failed.
    pub reason: String,
    /// IEEE 754 bit pattern of the security score the attempt got.
    pub security_score_bits: u64,
    /// IEEE 754 bit pattern of the coverage score the attempt got.
    pub coverage_score_bits: u64,
}

/// Description of the function (or struct) to generate.
#[derive(Debug, Clone, PartialEq)]
pub struct GenerationSpec {
    /// Name of the function, or of the struct.
    pub function_name: String,
    /// Types of the inputs, in order.
    pub input_types: Vec<String>,
    /// Type of the output.
    pub output_type: String,
    /// Free text description; empty for none.
    pub description: String,
    /// Extra constraints such as `pure`, `struct` or `unsafe`.
    pub constraints: Vec<String>,
    /// Whether to generate a test module as well.
    pub include_tests: bool,
    /// Previous failed attempts.
    pub previous_failures: Vec<FailureContext>,
}

/// The lowercase alphabet, from which parameter names are taken.
pub open spec fn alphabet() -> Seq<char> {
    "abcdefghijklmnopqrstuvwxyz"@
}

/// The one-letter name of the parameter at position `i < 26`.
pub open spec fn letter(i: int) -> Seq<char> {
    alphabet().subrange(i, i + 1)
}

/// Name of the parameter at position `i`: a letter for the first 26, `x`
/// after that.
pub open spec fn param_name(i: int) -> Seq<char> {
    if 0 <= i < 26 {
        letter(i)
    } else {
        "x"@
    }
}

/// Each input type with its parameter name: `name: Type`.
pub open spec fn params(types: Seq<Seq<char>>) -> Seq<Seq<char>> {
    Seq::new(types.len(), |i: int| param_name(i) + ": "@ + types[i])
}

/// The parameter list of `s`: `a: T1, b: T2, ...`.
pub open spec fn param_list(s: GenerationSpec) -> Seq<char> {
    join(params(views(s.input_types@)), ", "@)
}

/// Some constraint mentions `unsafe` or `raw_ptr`.
pub open spec fn asks_unsafe(s: GenerationSpec) -> bool {
    exists|k: int|
        0 <= k < s.constraints@.len() && (contains_seq(
            #[trigger] s.constraints@[k]@,
            "unsafe"@,
        ) || contains_seq(s.constraints@[k]@, "raw_ptr"@))
}

/// Some constraint contains `pat`.
pub open spec fn some_constraint_contains(s: GenerationSpec, pat: Seq<char>) -> bool {
    exists|k: int| 0 <= k < s.constraints@.len() && contains_seq(#[trigger] s.constraints@[k]@, pat)
}

/// Whether some constraint of `s` contains `pat`.
pub fn any_constraint_contains(s: &GenerationSpec, pat: &str) -> (b: bool)
    ensures
        b == some_constraint_contains(*s, pat@),
{
    let mut i: usize = 0;
    while i < s.constraints.len()
        invariant
            i <= s.constraints@.len(),
            forall|k: int| 0 <= k < i ==> !contains_seq(#[trigger] s.constraints@[k]@, pat@),
        decreases s.constraints@.len() - i,
    {
        if contains_text(s.constraints[i].as_str(), pat) {
            return true;
        }
        i = i + 1;
    }
    false
}

/// The parameter name at position `i`, as text.
pub fn param_name_text(i: usize) -> (t: &'static str)
    ensures
        t@ == param_name(i as int),
{
    let letters = "abcdefghijklmnopqrstuvwxyz";
    proof {
        reveal_strlit("abcdefghijklmnopqrstuvwxyz");
    }
    if i < 26 {
        letters.substring_char(i, i + 1)
    } else {
        "x"
    }
}

impl GenerationSpec {
    /// A description with the given name, input types and output type, no
    /// description text, no constraints, tests requested and no previous
    /// failures.
    pub fn simple(function_name: &str, input_types: Vec<&str>, output_type: &str) -> (s: Self)
        ensures
            s.function_name@ == function_name@,
            views(s.input_types@) == input_types@.map_values(|t: &str| t@),
            s.output_type@ == output_type@,
            s.description@ == Seq::<char>::empty(),
            s.constraints@ == Seq::<String>::empty(),
            s.include_tests,
            s.previous_failures@ == Seq::<FailureContext>::empty(),
    {
        let mut types: Vec<String> = Vec::new();
        let mut i: usize = 0;
        while i < input_types.len()
            invariant
                i <= input_types@.len(),
                views(types@) == input_types@.take(i as int).map_values(|t: &str| t@),
            decreases input_types@.len() - i,
        {
            let ghost before = types@;
            types.push(String::from_str(input_types[i]));
            proof {
                assert(views(types@) =~= views(before).push(input_types@[i as int]@));
                assert(input_types@.take(i + 1).map_values(|t: &str| t@) =~= input_types@.take(
                    i as int,
                ).map_values(|t: &str| t@).push(input_types@[i as int]@));
            }
            i = i + 1;
        }
        assert(input_types@.take(input_types@.len() as int) =~= input_types@);
        proof {
            reveal_strlit("");
        }
        GenerationSpec {
            function_name: String::from_str(function_name),
            input_types: types,
            output_type: String::from_str(output_type),
            description: String::from_str(""),
            constraints: Vec::new(),
            include_tests: true,
            previous_failures: Vec::new(),
        }
    }

    /// The same description with the given description text.
    pub fn with_description(self, desc: &str) -> (s: Self)
        ensures
            s.description@ == desc@,
            s.function_name == self.function_name,
            s.input_types == self.input_types,
            s.output_type == self.output_type,
            s.constraints == self.constraints,
            s.include_tests == self.include_tests,
            s.previous_failures == self.previous_failures,
    {
        let mut s = self;
        s.description = String::from_str(desc);
        s
    }

    /// The same description with one more previous failure.
    pub fn with_failure(self, failure: FailureContext) -> (s: Self)
        ensures
            s.previous_failures@ == self.previous_failures@.push(failure),
            s.function_name == self.function_name,
            s.input_types == self.input_types,
            s.output_type == self.output_type,
            s.description == self.description,
            s.constraints == self.constraints,
            s.include_tests == self.include_tests,
    {
        let mut s = self;
        s.previous_failures.push(failure);
        s
    }

    /// No attempt has failed yet.
    pub fn is_first_attempt(&self) -> (b: bool)
        ensures
            b == (self.previous_failures@.len() == 0),
    {
        self.previous_failures.len() == 0
    }

    /// Number of the current attempt, counted from one.
    pub fn attempt_number(&self) -> (n: usize)
        requires
            self.previous_failures@.len() < usize::MAX,
        ensures
            n == self.previous_failures@.len() + 1,
    {
        self.previous_failures.len() + 1
    }

    /// The parameter list: `a: T1, b: T2, ...`.
    pub fn format_params(&self) -> (p: String)
        ensures
            p@ == param_list(*self),
    {
        let ghost types = views(self.input_types@);
        let mut items: Vec<String> = Vec::new();
        let mut i: usize = 0;
        while i < self.input_types.len()
            invariant
                types == views(self.input_types@),
                i <= self.input_types@.len(),
                views(items@) == params(types).take(i as int),
            decreases self.input_types@.len() - i,
        {
            let mut item = String::from_str(param_name_text(i));
            item.append(": ");
            item.append(self.input_types[i].as_str());
            let ghost before = items@;
            items.push(item);
            proof {
                assert(views(items@) =~= views(before).push(item@));
                assert(params(types).take(i + 1) =~= params(types).take(i as int).push(
                    params(types)[i as int],
                ));
            }
            i = i + 1;
        }
        assert(params(types).take(self.input_types@.len() as int) =~= params(types));
        join_texts(&items, ", ")
    }

    /// Some constraint mentions `unsafe` or `raw_ptr`.
    pub fn requires_unsafe(&self) -> (b: bool)
        ensures
            b == asks_unsafe(*self),
    {
        let u = any_constraint_contains(self, "unsafe");
        let r = any_constraint_contains(self, "raw_ptr");
        u || r
    }
}

} // verus!
