//! Properties of the generator that span its templates.
use vstd::prelude::*;
use crate::codegen::generator::generation_outcome;
use crate::codegen::result::GenerationResult;
use crate::codegen::rust::{
    function_code, function_fits, pure_code, pure_fits, struct_code, struct_fits, struct_like,
    tests_part,
};
use crate::codegen::spec::GenerationSpec;
use crate::text::{contains_seq, matches_at};

verus! {

/// `inner` occurs in `pre + inner + post`.
pub proof fn lemma_contains_middle(pre: Seq<char>, inner: Seq<char>, post: Seq<char>)
    ensures
        contains_seq(pre + inner + post, inner),
{
    let whole = pre + inner + post;
    assert(whole.subrange(pre.len() as int, (pre.len() + inner.len()) as int) =~= inner);
    assert(matches_at(whole, inner, pre.len() as int));
}

/// The generator fails only when no template fits: it succeeds exactly when
/// the pure, struct or function template fits the description.
pub proof fn law_success_iff_some_template_fits(s: GenerationSpec, r: GenerationResult)
    requires
        generation_outcome(r, s),
    ensures
        r is Success <==> (pure_fits(s) || struct_fits(s) || function_fits(s)),
{
}

/// The function template and the struct template never both fit: a
/// description is either a function or a type.
pub proof fn law_function_and_struct_exclusive(s: GenerationSpec)
    ensures
        !(function_fits(s) && struct_fits(s)),
{
}

/// Whenever a function template (pure or ordinary) produced the code, the
/// code declares `pub fn` with the requested name.
pub proof fn law_function_code_declares_name(s: GenerationSpec, r: GenerationResult)
    requires
        generation_outcome(r, s),
        pure_fits(s) || (!struct_fits(s) && function_fits(s)),
    ensures
        r matches GenerationResult::Success(g) && contains_seq(
            g.code@,
            "pub fn "@ + s.function_name@,
        ),
{
    reveal_strlit("pub fn ");
    reveal_strlit("\n#[inline]\npub fn ");
    reveal_strlit("\npub fn ");
    let name = s.function_name@;
    let target = "pub fn "@ + name;
    if pure_fits(s) {
        let code = pure_code(s);
        let lead = "/// "@ + crate::codegen::rust::description_or(s, "Pure function: "@)
            + "\n#[inline]\npub fn "@;
        let pre = lead.subrange(0, lead.len() - 7int);
        assert(lead =~= pre + "pub fn "@);
        let post = code.subrange((lead.len() + name.len()) as int, code.len() as int);
        assert(code =~= pre + target + post);
        lemma_contains_middle(pre, target, post);
    } else {
        let code = function_code(s);
        let lead = "/// "@ + crate::codegen::rust::description_or(s, "Compute: "@) + "\npub fn "@;
        let pre = lead.subrange(0, lead.len() - 7int);
        assert(lead =~= pre + "pub fn "@);
        let post = code.subrange((lead.len() + name.len()) as int, code.len() as int);
        assert(code =~= pre + target + post);
        lemma_contains_middle(pre, target, post);
    }
}

/// Whenever a function template produced the code and tests were
/// requested, the code holds a `#[test]` function.
pub proof fn law_requested_tests_present(s: GenerationSpec, r: GenerationResult)
    requires
        generation_outcome(r, s),
        s.include_tests,
        pure_fits(s) || (!struct_fits(s) && function_fits(s)),
    ensures
        r matches GenerationResult::Success(g) && contains_seq(g.code@, "#[test]"@),
{
    let lit = "\n#[cfg(test)]\nmod tests {\n    use super::*;\n\n    #[test]\n    fn test_"@;
    reveal_strlit("#[test]");
    reveal_strlit("\n#[cfg(test)]\nmod tests {\n    use super::*;\n\n    #[test]\n    fn test_");
    let t = tests_part(s);
    let code = if pure_fits(s) {
        pure_code(s)
    } else {
        function_code(s)
    };
    let head = code.subrange(0, code.len() as int - t.len() as int);
    assert(code =~= head + t);
    let start: int = head.len() as int + 49;
    assert(lit.subrange(49, 56) =~= "#[test]"@);
    let post = code.subrange(start + 7, code.len() as int);
    assert(code =~= code.subrange(0, start) + "#[test]"@ + post);
    lemma_contains_middle(code.subrange(0, start), "#[test]"@, post);
}

/// Whenever the struct template produced the code, the code declares
/// `pub struct` with the requested name.
pub proof fn law_struct_code_declares_name(s: GenerationSpec, r: GenerationResult)
    requires
        generation_outcome(r, s),
        !pure_fits(s),
        struct_fits(s),
    ensures
        r matches GenerationResult::Success(g) && contains_seq(
            g.code@,
            "pub struct "@ + s.function_name@,
        ),
{
    reveal_strlit("pub struct ");
    reveal_strlit("\n#[derive(Debug, Clone)]\npub struct ");
    let name = s.function_name@;
    let target = "pub struct "@ + name;
    let code = struct_code(s);
    let lead = "/// "@ + crate::codegen::rust::description_or(s, "Struct: "@)
        + "\n#[derive(Debug, Clone)]\npub struct "@;
    let pre = lead.subrange(0, lead.len() - 11int);
    assert(lead =~= pre + "pub struct "@);
    let post = code.subrange((lead.len() + name.len()) as int, code.len() as int);
    assert(code =~= pre + target + post);
    lemma_contains_middle(pre, target, post);
}

} // verus!
