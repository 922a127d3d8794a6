//! Chooses the template for a description and runs it.
use vstd::prelude::*;
use vstd::string::*;
use crate::codegen::result::GenerationResult;
use crate::codegen::rust::{
    function_code, function_fits, generated, pure_code, pure_fits, struct_code, struct_fits,
    RustFunctionTemplate, RustPureTemplate, RustStructTemplate,
};
use crate::codegen::spec::GenerationSpec;
use crate::codegen::template::CodeTemplate;
use crate::text::{decimal, decimal_text};

verus! {

/// The built-in templates.
#[derive(Debug, Clone, Copy, PartialEq, Eq, Structural)]
enum TemplateKind {
    Pure,
    Function,
    Struct,
}

/// Name of a built-in template.
spec fn kind_name(k: TemplateKind) -> Seq<char> {
    match k {
        TemplateKind::Pure => "RustPureTemplate"@,
        TemplateKind::Function => "RustFunctionTemplate"@,
        TemplateKind::Struct => "RustStructTemplate"@,
    }
}

/// Names of the templates in priority order: pure (80), struct (60),
/// function (50).
pub open spec fn priority_order() -> Seq<Seq<char>> {
    seq!["RustPureTemplate"@, "RustStructTemplate"@, "RustFunctionTemplate"@]
}

/// Reason given when no template fits.
pub open spec fn no_template_reason(s: GenerationSpec) -> Seq<char> {
    "No template matches spec for function '"@ + s.function_name@ + "' with "@ + decimal(
        s.input_types@.len(),
    ) + " input(s)"@
}

/// What the generator produces for `s`: the first fitting template in
/// priority order (pure, struct, function), or a failure naming the
/// function and its number of inputs.
pub open spec fn generation_outcome(r: GenerationResult, s: GenerationSpec) -> bool {
    if pure_fits(s) {
        generated(r, s, pure_code(s), "RustPureTemplate"@)
    } else if struct_fits(s) {
        generated(r, s, struct_code(s), "RustStructTemplate"@)
    } else if function_fits(s) {
        generated(r, s, function_code(s), "RustFunctionTemplate"@)
    } else {
        match r {
            GenerationResult::Failed { reason } => reason@ == no_template_reason(s),
            GenerationResult::Success(_) => false,
        }
    }
}

/// Generator holding the built-in templates, highest priority first.
#[derive(Debug)]
pub struct CodeGenerator {
    templates: Vec<TemplateKind>,
}

impl CodeGenerator {
    #[verifier::type_invariant]
    spec fn in_priority_order(self) -> bool {
        self.templates@ == seq![TemplateKind::Pure, TemplateKind::Struct, TemplateKind::Function]
    }

    /// Names of the templates held, in the order they are tried.
    pub closed spec fn template_order(self) -> Seq<Seq<char>> {
        self.templates@.map_values(|k: TemplateKind| kind_name(k))
    }

    /// A generator with the pure (priority 80), struct (60) and function
    /// (50) templates, tried in that order.
    pub fn new() -> (g: Self)
        ensures
            g.template_order() == priority_order(),
    {
        let g = CodeGenerator {
            templates: vec![TemplateKind::Pure, TemplateKind::Struct, TemplateKind::Function],
        };
        assert(g.template_order() =~= priority_order());
        g
    }

    /// Generates code for `s` with the first template that fits.
    pub fn generate(&self, s: &GenerationSpec) -> (r: GenerationResult)
        requires
            s.previous_failures@.len() < usize::MAX,
        ensures
            generation_outcome(r, *s),
    {
        proof {
            use_type_invariant(self);
        }
        let mut i: usize = 0;
        while i < self.templates.len()
            invariant
                self.templates@ == seq![
                    TemplateKind::Pure,
                    TemplateKind::Struct,
                    TemplateKind::Function,
                ],
                s.previous_failures@.len() < usize::MAX,
                i <= 3,
                i >= 1 ==> !pure_fits(*s),
                i >= 2 ==> !struct_fits(*s),
                i >= 3 ==> !function_fits(*s),
            decreases 3 - i,
        {
            match self.templates[i] {
                TemplateKind::Pure => {
                    if RustPureTemplate.matches(s) {
                        return RustPureTemplate.generate(s);
                    }
                },
                TemplateKind::Struct => {
                    if RustStructTemplate.matches(s) {
                        return RustStructTemplate.generate(s);
                    }
                },
                TemplateKind::Function => {
                    if RustFunctionTemplate.matches(s) {
                        return RustFunctionTemplate.generate(s);
                    }
                },
            }
            i = i + 1;
        }
        let mut reason = String::from_str("No template matches spec for function '");
        reason.append(s.function_name.as_str());
        reason.append("' with ");
        let count = decimal_text(s.input_types.len());
        reason.append(count.as_str());
        reason.append(" input(s)");
        GenerationResult::Failed { reason }
    }

    /// Number of templates.
    pub fn template_count(&self) -> (n: usize)
        ensures
            n == 3,
    {
        proof {
            use_type_invariant(self);
        }
        self.templates.len()
    }

    /// Names of the templates, in the order they are tried.
    pub fn template_names(&self) -> (names: Vec<&'static str>)
        ensures
            names@.map_values(|t: &'static str| t@) == seq![
                "RustPureTemplate"@,
                "RustStructTemplate"@,
                "RustFunctionTemplate"@,
            ],
            names@.map_values(|t: &'static str| t@) == self.template_order(),
    {
        proof {
            use_type_invariant(self);
            assert(self.template_order() =~= priority_order());
        }
        let mut names: Vec<&'static str> = Vec::new();
        let mut i: usize = 0;
        while i < self.templates.len()
            invariant
                self.templates@ == seq![
                    TemplateKind::Pure,
                    TemplateKind::Struct,
                    TemplateKind::Function,
                ],
                i <= 3,
                names@.map_values(|t: &'static str| t@) == seq![
                    "RustPureTemplate"@,
                    "RustStructTemplate"@,
                    "RustFunctionTemplate"@,
                ].take(i as int),
            decreases 3 - i,
        {
            let ghost before = names@;
            let name = match self.templates[i] {
                TemplateKind::Pure => RustPureTemplate.name(),
                TemplateKind::Struct => RustStructTemplate.name(),
                TemplateKind::Function => RustFunctionTemplate.name(),
            };
            names.push(name);
            proof {
                assert(names@.map_values(|t: &'static str| t@) =~= before.map_values(
                    |t: &'static str| t@,
                ).push(name@));
                assert(seq!["RustPureTemplate"@, "RustStructTemplate"@, "RustFunctionTemplate"@].take(
                    i + 1,
                ) =~= seq!["RustPureTemplate"@, "RustStructTemplate"@, "RustFunctionTemplate"@].take(
                    i as int,
                ).push(name@));
            }
            i = i + 1;
        }
        assert(seq!["RustPureTemplate"@, "RustStructTemplate"@, "RustFunctionTemplate"@].take(3)
            =~= seq!["RustPureTemplate"@, "RustStructTemplate"@, "RustFunctionTemplate"@]);
        names
    }
}

} // verus!
