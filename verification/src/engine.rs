//! The two check batteries and the diagnostic orchestrator. Every check in
//! a battery is evaluated against the same log text and every match is
//! collected, in battery-declaration order, with no deduplication. Origin
//! findings take unconditional precedence: the mistake battery is consulted
//! only when no origin signature matched.

use vstd::prelude::*;

use crate::checks::{
    custom_build, detect_temp_directories, fabric_api_missing, forge_too_new_java, forked_build,
    id_range_exceeded, intel_graphics_icd_dll, java_architecture, m1_failed_to_find_service_port,
    m1_wrapper, macos_too_new_java, multimc_in_onedrive_managed_folder, multimc_in_program_files,
    one_seventeen_plus_java_too_old, out_of_memory_error, pirated_build,
    pixel_format_not_accelerated_win10, shadermod_optifine_conflict, spec_check, spec_custom_build,
    spec_detect_temp_directories, spec_fabric_api_missing, spec_forge_too_new_java,
    spec_forked_build, spec_id_range_exceeded, spec_intel_graphics_icd_dll,
    spec_java_architecture, spec_m1_failed_to_find_service_port, spec_m1_wrapper,
    spec_macos_too_new_java, spec_multimc_in_onedrive_managed_folder,
    spec_multimc_in_program_files, spec_one_seventeen_plus_java_too_old, spec_out_of_memory_error,
    spec_pirated_build, spec_pixel_format_not_accelerated_win10, spec_shadermod_optifine_conflict,
    spec_two_one_plus_java_too_old, spec_using_system_glfw, spec_using_system_openal,
    two_one_plus_java_too_old, using_system_glfw, using_system_openal,
};
use crate::pattern::regex_is_match;
use crate::responses::spec_response;

verus! {

/// One check's contribution to a battery's result list: one entry when the
/// check reported a finding, none otherwise.
pub open spec fn opt_entry(o: Option<(Seq<char>, Seq<char>)>) -> Seq<(Seq<char>, Seq<char>)> {
    match o {
        Some(p) => seq![p],
        None => Seq::empty(),
    }
}

/// The mistake battery's findings, in battery-declaration order.
pub open spec fn spec_mistakes(log: Seq<char>) -> Seq<(Seq<char>, Seq<char>)> {
    opt_entry(spec_multimc_in_program_files(log)) + opt_entry(spec_macos_too_new_java(log))
        + opt_entry(spec_multimc_in_onedrive_managed_folder(log)) + opt_entry(
        spec_forge_too_new_java(log),
    ) + opt_entry(spec_one_seventeen_plus_java_too_old(log)) + opt_entry(
        spec_two_one_plus_java_too_old(log),
    ) + opt_entry(spec_m1_failed_to_find_service_port(log)) + opt_entry(
        spec_pixel_format_not_accelerated_win10(log),
    ) + opt_entry(spec_intel_graphics_icd_dll(log)) + opt_entry(spec_id_range_exceeded(log))
        + opt_entry(spec_out_of_memory_error(log)) + opt_entry(spec_shadermod_optifine_conflict(log))
        + opt_entry(spec_fabric_api_missing(log)) + opt_entry(spec_java_architecture(log))
        + opt_entry(spec_detect_temp_directories(log)) + opt_entry(spec_using_system_glfw(log))
        + opt_entry(spec_using_system_openal(log))
}

/// The origin battery's findings, in battery-declaration order.
pub open spec fn spec_origins(log: Seq<char>) -> Seq<(Seq<char>, Seq<char>)> {
    opt_entry(spec_custom_build(log)) + opt_entry(spec_pirated_build(log)) + opt_entry(
        spec_forked_build(log),
    ) + opt_entry(spec_m1_wrapper(log))
}

/// The whole diagnosis: the origin findings when there are any, else the
/// mistake findings (possibly none).
pub open spec fn spec_diagnose(log: Seq<char>) -> Seq<(Seq<char>, Seq<char>)> {
    if spec_origins(log).len() > 0 {
        spec_origins(log)
    } else {
        spec_mistakes(log)
    }
}

/// Appends one check's finding, if any, to a battery's result list.
fn push_finding<'s>(out: &mut Vec<(&'s str, String)>, finding: Option<(&'s str, String)>)
    ensures
        final (out).deep_view() == old(out).deep_view() + opt_entry(finding.deep_view()),
{
    let ghost found = finding.deep_view();
    match finding {
        Some(p) => out.push(p),
        None => (),
    }
    proof {
        assert(out.deep_view() =~= old(out).deep_view() + opt_entry(found));
    }
}

/// Runs the mistake battery: every check, in declaration order, against the
/// same log text; all matches are collected, none short-circuits another.
pub fn common_mistakes(input: &str) -> (r: Vec<(&str, String)>)
    ensures
        r.deep_view() == spec_mistakes(input@),
{
    let mut findings: Vec<(&str, String)> = Vec::new();
    push_finding(&mut findings, multimc_in_program_files(input));
    push_finding(&mut findings, macos_too_new_java(input));
    push_finding(&mut findings, multimc_in_onedrive_managed_folder(input));
    push_finding(&mut findings, forge_too_new_java(input));
    push_finding(&mut findings, one_seventeen_plus_java_too_old(input));
    push_finding(&mut findings, two_one_plus_java_too_old(input));
    push_finding(&mut findings, m1_failed_to_find_service_port(input));
    push_finding(&mut findings, pixel_format_not_accelerated_win10(input));
    push_finding(&mut findings, intel_graphics_icd_dll(input));
    push_finding(&mut findings, id_range_exceeded(input));
    push_finding(&mut findings, out_of_memory_error(input));
    push_finding(&mut findings, shadermod_optifine_conflict(input));
    push_finding(&mut findings, fabric_api_missing(input));
    push_finding(&mut findings, java_architecture(input));
    push_finding(&mut findings, detect_temp_directories(input));
    push_finding(&mut findings, using_system_glfw(input));
    push_finding(&mut findings, using_system_openal(input));
    findings
}

/// Runs the origin battery: every check, in declaration order, against the
/// same log text; all matches are collected.
pub fn common_origins(input: &str) -> (r: Vec<(&str, String)>)
    ensures
        r.deep_view() == spec_origins(input@),
{
    let mut findings: Vec<(&str, String)> = Vec::new();
    push_finding(&mut findings, custom_build(input));
    push_finding(&mut findings, pirated_build(input));
    push_finding(&mut findings, forked_build(input));
    push_finding(&mut findings, m1_wrapper(input));
    findings
}

/// The full diagnosis. An unofficial build invalidates any advice about
/// configuring the official one, so when the origin battery reports
/// anything, its findings are returned alone and the mistake battery is not
/// evaluated at all. An empty result is the valid outcome "no known
/// signature recognized". The result is a function of the log text alone:
/// repeated calls return equal findings, in the same stable order.
pub fn diagnose(log: &str) -> (r: Vec<(&str, String)>)
    ensures
        r.deep_view() == spec_diagnose(log@),
{
    let origins = common_origins(log);
    if origins.len() > 0 {
        origins
    } else {
        common_mistakes(log)
    }
}

/// Precedence: whenever the origin battery reports at least one finding,
/// the diagnosis is exactly the origin findings; no mistake finding
/// reaches the result.
pub proof fn lemma_origin_precedence(log: Seq<char>)
    requires
        spec_origins(log).len() > 0,
    ensures
        spec_diagnose(log) == spec_origins(log),
{
}

/// Fallback: with no origin finding, the diagnosis is exactly the mistake
/// battery's findings.
pub proof fn lemma_mistakes_when_no_origin(log: Seq<char>)
    requires
        spec_origins(log).len() == 0,
    ensures
        spec_diagnose(log) == spec_mistakes(log),
{
}

/// Dangling-key tolerance: a check wired to a key that the registry does
/// not hold reports nothing — whether or not its signature matched — and
/// raises no error.
pub proof fn lemma_dangling_key_silent(matched: bool, marker: Seq<char>, key: Seq<char>)
    requires
        spec_response(key) is None,
    ensures
        spec_check(matched, marker, key) is None,
{
}

/// The official-version gate: a log that matches the official build
/// pattern never yields the custom-build finding, whatever else it holds.
pub proof fn lemma_official_build_wins(log: Seq<char>)
    requires
        regex_is_match(r"MultiMC version: 0\.[0-7]\.[0-9]+-[0-9]+"@, log),
    ensures
        spec_custom_build(log) is None,
{
}

/// Registry consistency: every diagnostic key wired to a check in either
/// battery has an entry in the response registry. A key that lost its entry
/// would silently disable its check (see `lemma_dangling_key_silent`), so
/// the agreement between the two tables is pinned down here once.
pub proof fn lemma_wired_keys_all_resolve()
    ensures
        spec_response("program-files"@) is Some,
        spec_response("macos-java-too-new"@) is Some,
        spec_response("multimc-in-onedrive"@) is Some,
        spec_response("use-java-8"@) is Some,
        spec_response("use-java-17"@) is Some,
        spec_response("use-java-21"@) is Some,
        spec_response("apple-silicon-incompatible-forge"@) is Some,
        spec_response("unsupported-intel-gpu"@) is Some,
        spec_response("id-limit"@) is Some,
        spec_response("out-of-memory"@) is Some,
        spec_response("optifine-and-shadermod"@) is Some,
        spec_response("missing-fabric-api"@) is Some,
        spec_response("32-bit-java"@) is Some,
        spec_response("winrar-temp"@) is Some,
        spec_response("temp-folder"@) is Some,
        spec_response("using-system-glfw"@) is Some,
        spec_response("using-system-openal"@) is Some,
        spec_response("custom-build"@) is Some,
        spec_response("pirated-build"@) is Some,
        spec_response("forked-build"@) is Some,
        spec_response("m1-python-wrapper"@) is Some,
{
    reveal_strlit("program-files");
    reveal_strlit("macos-java-too-new");
    reveal_strlit("id-limit");
    reveal_strlit("out-of-memory");
    reveal_strlit("optifine-and-shadermod");
    reveal_strlit("missing-fabric-api");
    reveal_strlit("multimc-in-onedrive");
    reveal_strlit("use-java-8");
    reveal_strlit("use-java-17");
    reveal_strlit("use-java-21");
    reveal_strlit("apple-silicon-incompatible-forge");
    reveal_strlit("unsupported-intel-gpu");
    reveal_strlit("32-bit-java");
    reveal_strlit("temp-folder");
    reveal_strlit("winrar-temp");
    reveal_strlit("custom-build");
    reveal_strlit("pirated-build");
    reveal_strlit("forked-build");
    reveal_strlit("m1-python-wrapper");
    reveal_strlit("using-system-openal");
    reveal_strlit("using-system-glfw");
    // Keys of equal length are told apart by one differing character; the
    // rest differ in length already.
    assert("program-files"@[0] != "out-of-memory"@[0]);
    assert("program-files"@[1] != "pirated-build"@[1]);
    assert("out-of-memory"@[0] != "pirated-build"@[0]);
    assert("macos-java-too-new"@[1] != "missing-fabric-api"@[1]);
    assert("use-java-17"@[9] != "use-java-21"@[9]);
    assert("use-java-17"@[0] != "32-bit-java"@[0]);
    assert("use-java-21"@[0] != "32-bit-java"@[0]);
    assert("use-java-17"@[0] != "temp-folder"@[0]);
    assert("use-java-21"@[0] != "temp-folder"@[0]);
    assert("32-bit-java"@[0] != "temp-folder"@[0]);
    assert("use-java-17"@[0] != "winrar-temp"@[0]);
    assert("use-java-21"@[0] != "winrar-temp"@[0]);
    assert("32-bit-java"@[0] != "winrar-temp"@[0]);
    assert("temp-folder"@[0] != "winrar-temp"@[0]);
    assert("multimc-in-onedrive"@[0] != "using-system-openal"@[0]);
    assert("custom-build"@[0] != "forked-build"@[0]);
    assert("m1-python-wrapper"@[0] != "using-system-glfw"@[0]);
}

} // verus!
