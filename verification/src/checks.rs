//! The checks: stateless predicates over log text, each tied to a severity
//! marker and a diagnostic key. A check that matches resolves its key
//! against the response registry at once; a key the registry does not hold
//! silences the check, exactly as if its signature had not matched.

use vstd::prelude::*;

use crate::pattern::{contains_str, is_substring, regex_is_match, regex_match};
use crate::responses::{response_for, spec_response};

verus! {

/// What one check reports: when its signature matched, the severity marker
/// paired with the registry text for its key; nothing otherwise, and
/// nothing when the registry does not hold the key.
pub open spec fn spec_check(matched: bool, marker: Seq<char>, key: Seq<char>) -> Option<
    (Seq<char>, Seq<char>),
> {
    if matched {
        match spec_response(key) {
            Some(text) => Some((marker, text)),
            None => None,
        }
    } else {
        None
    }
}

/// Resolves a matched check against the registry.
fn resolve<'m>(marker: &'m str, key: &str) -> (r: Option<(&'m str, String)>)
    ensures
        r.deep_view() == spec_check(true, marker@, key@),
{
    match response_for(key) {
        Some(text) => Some((marker, text)),
        None => None,
    }
}

/// One substring-containment check: fires when `trigger` occurs in the log.
pub fn substring_check<'m>(log: &str, trigger: &str, marker: &'m str, key: &str) -> (r: Option<
    (&'m str, String),
>)
    ensures
        r.deep_view() == spec_check(is_substring(log@, trigger@), marker@, key@),
{
    if contains_str(log, trigger) {
        resolve(marker, key)
    } else {
        None
    }
}

pub open spec fn spec_multimc_in_program_files(log: Seq<char>) -> Option<(Seq<char>, Seq<char>)> {
    spec_check(
        is_substring(log, "Minecraft folder is:\nC:/Program Files"@),
        "‼"@,
        "program-files"@,
    )
}

/// The launcher runs from a Program-Files path, where it cannot write.
pub fn multimc_in_program_files(log: &str) -> (r: Option<(&str, String)>)
    ensures
        r.deep_view() == spec_multimc_in_program_files(log@),
{
    substring_check(log, "Minecraft folder is:\nC:/Program Files", "‼", "program-files")
}

pub open spec fn spec_macos_too_new_java(log: Seq<char>) -> Option<(Seq<char>, Seq<char>)> {
    spec_check(
        is_substring(
            log,
            "Terminating app due to uncaught exception 'NSInternalInconsistencyException', reason: 'NSWindow drag regions should only be invalidated on the Main Thread!'"@,
        ),
        "‼"@,
        "macos-java-too-new"@,
    )
}

/// A macOS crash signature of a Java version too new for the game.
pub fn macos_too_new_java(log: &str) -> (r: Option<(&str, String)>)
    ensures
        r.deep_view() == spec_macos_too_new_java(log@),
{
    substring_check(
        log,
        "Terminating app due to uncaught exception 'NSInternalInconsistencyException', reason: 'NSWindow drag regions should only be invalidated on the Main Thread!'",
        "‼",
        "macos-java-too-new",
    )
}

pub open spec fn spec_multimc_in_onedrive_managed_folder(log: Seq<char>) -> Option<
    (Seq<char>, Seq<char>),
> {
    spec_check(
        regex_is_match(r"Minecraft folder is:\nC:/.+/.+/OneDrive"@, log),
        "❗"@,
        "multimc-in-onedrive"@,
    )
}

/// The game folder lies under a OneDrive-managed path.
pub fn multimc_in_onedrive_managed_folder(log: &str) -> (r: Option<(&str, String)>)
    ensures
        r.deep_view() == spec_multimc_in_onedrive_managed_folder(log@),
{
    if regex_match(log, r"Minecraft folder is:\nC:/.+/.+/OneDrive") {
        resolve("❗", "multimc-in-onedrive")
    } else {
        None
    }
}

pub open spec fn spec_forge_too_new_java(log: Seq<char>) -> Option<(Seq<char>, Seq<char>)> {
    spec_check(
        is_substring(
            log,
            "java.lang.ClassCastException: class jdk.internal.loader.ClassLoaders$AppClassLoader cannot be cast to class java.net.URLClassLoader"@,
        ),
        "‼"@,
        "use-java-8"@,
    )
}

/// An old Forge failing on a modern Java: the URLClassLoader cast.
pub fn forge_too_new_java(log: &str) -> (r: Option<(&str, String)>)
    ensures
        r.deep_view() == spec_forge_too_new_java(log@),
{
    substring_check(
        log,
        "java.lang.ClassCastException: class jdk.internal.loader.ClassLoaders$AppClassLoader cannot be cast to class java.net.URLClassLoader",
        "‼",
        "use-java-8",
    )
}

pub open spec fn spec_one_seventeen_plus_java_too_old(log: Seq<char>) -> Option<
    (Seq<char>, Seq<char>),
> {
    spec_check(
        is_substring(log, "fabric requires {java @ [>=16]}"@) || is_substring(
            log,
            "fabric requires {java @ [>=17]}"@,
        ) || is_substring(log, "Minecraft 1.18 Pre Release 2 and above require the use of Java 17"@),
        "‼"@,
        "use-java-17"@,
    )
}

/// A game version that needs Java 17 or newer, run on an older Java.
pub fn one_seventeen_plus_java_too_old(log: &str) -> (r: Option<(&str, String)>)
    ensures
        r.deep_view() == spec_one_seventeen_plus_java_too_old(log@),
{
    if contains_str(log, "fabric requires {java @ [>=16]}") || contains_str(
        log,
        "fabric requires {java @ [>=17]}",
    ) || contains_str(log, "Minecraft 1.18 Pre Release 2 and above require the use of Java 17") {
        resolve("‼", "use-java-17")
    } else {
        None
    }
}

pub open spec fn spec_two_one_plus_java_too_old(log: Seq<char>) -> Option<(Seq<char>, Seq<char>)> {
    spec_check(
        is_substring(log, "(class file version 65.0)"@) || is_substring(
            log,
            "Minecraft 24w14a and above require the use of Java 21"@,
        ),
        "‼"@,
        "use-java-21"@,
    )
}

/// A game version that needs Java 21 or newer, run on an older Java.
pub fn two_one_plus_java_too_old(log: &str) -> (r: Option<(&str, String)>)
    ensures
        r.deep_view() == spec_two_one_plus_java_too_old(log@),
{
    if contains_str(log, "(class file version 65.0)") || contains_str(
        log,
        "Minecraft 24w14a and above require the use of Java 21",
    ) {
        resolve("‼", "use-java-21")
    } else {
        None
    }
}

pub open spec fn spec_m1_failed_to_find_service_port(log: Seq<char>) -> Option<
    (Seq<char>, Seq<char>),
> {
    spec_check(
        is_substring(
            log,
            "java.lang.IllegalStateException: GLFW error before init: [0x10008]Cocoa: Failed to find service port for display"@,
        ),
        "‼"@,
        "apple-silicon-incompatible-forge"@,
    )
}

/// An Apple-silicon Mac running a Forge version that cannot open a window.
pub fn m1_failed_to_find_service_port(log: &str) -> (r: Option<(&str, String)>)
    ensures
        r.deep_view() == spec_m1_failed_to_find_service_port(log@),
{
    substring_check(
        log,
        "java.lang.IllegalStateException: GLFW error before init: [0x10008]Cocoa: Failed to find service port for display",
        "‼",
        "apple-silicon-incompatible-forge",
    )
}

pub open spec fn spec_pixel_format_not_accelerated_win10(log: Seq<char>) -> Option<
    (Seq<char>, Seq<char>),
> {
    spec_check(
        is_substring(log, "org.lwjgl.LWJGLException: Pixel format not accelerated"@)
            && is_substring(log, "Operating System: Windows 10"@),
        "❗"@,
        "unsupported-intel-gpu"@,
    )
}

/// An unaccelerated pixel format on Windows 10: an unsupported Intel GPU.
pub fn pixel_format_not_accelerated_win10(log: &str) -> (r: Option<(&str, String)>)
    ensures
        r.deep_view() == spec_pixel_format_not_accelerated_win10(log@),
{
    if contains_str(log, "org.lwjgl.LWJGLException: Pixel format not accelerated") && contains_str(
        log,
        "Operating System: Windows 10",
    ) {
        resolve("❗", "unsupported-intel-gpu")
    } else {
        None
    }
}

pub open spec fn spec_intel_graphics_icd_dll(log: Seq<char>) -> Option<(Seq<char>, Seq<char>)> {
    spec_check(
        regex_is_match(r"C  \[(ig[0-9]+icd[0-9]+\.dll)\+(0x[0-9a-f]+)\]"@, log),
        "❗"@,
        "unsupported-intel-gpu"@,
    )
}

/// A native crash frame inside an Intel graphics driver library.
pub fn intel_graphics_icd_dll(log: &str) -> (r: Option<(&str, String)>)
    ensures
        r.deep_view() == spec_intel_graphics_icd_dll(log@),
{
    if regex_match(log, r"C  \[(ig[0-9]+icd[0-9]+\.dll)\+(0x[0-9a-f]+)\]") {
        resolve("❗", "unsupported-intel-gpu")
    } else {
        None
    }
}

pub open spec fn spec_id_range_exceeded(log: Seq<char>) -> Option<(Seq<char>, Seq<char>)> {
    spec_check(
        is_substring(
            log,
            "java.lang.RuntimeException: Invalid id 4096 - maximum id range exceeded."@,
        ),
        "‼"@,
        "id-limit"@,
    )
}

/// The hardcoded block-ID limit has been exhausted.
pub fn id_range_exceeded(log: &str) -> (r: Option<(&str, String)>)
    ensures
        r.deep_view() == spec_id_range_exceeded(log@),
{
    substring_check(
        log,
        "java.lang.RuntimeException: Invalid id 4096 - maximum id range exceeded.",
        "‼",
        "id-limit",
    )
}

pub open spec fn spec_out_of_memory_error(log: Seq<char>) -> Option<(Seq<char>, Seq<char>)> {
    spec_check(is_substring(log, "java.lang.OutOfMemoryError"@), "‼"@, "out-of-memory"@)
}

/// The game ran out of memory.
pub fn out_of_memory_error(log: &str) -> (r: Option<(&str, String)>)
    ensures
        r.deep_view() == spec_out_of_memory_error(log@),
{
    substring_check(log, "java.lang.OutOfMemoryError", "‼", "out-of-memory")
}

pub open spec fn spec_shadermod_optifine_conflict(log: Seq<char>) -> Option<
    (Seq<char>, Seq<char>),
> {
    spec_check(
        is_substring(
            log,
            "java.lang.RuntimeException: Shaders Mod detected. Please remove it, OptiFine has built-in support for shaders."@,
        ),
        "‼"@,
        "optifine-and-shadermod"@,
    )
}

/// Shaders Mod installed alongside OptiFine.
pub fn shadermod_optifine_conflict(log: &str) -> (r: Option<(&str, String)>)
    ensures
        r.deep_view() == spec_shadermod_optifine_conflict(log@),
{
    substring_check(
        log,
        "java.lang.RuntimeException: Shaders Mod detected. Please remove it, OptiFine has built-in support for shaders.",
        "‼",
        "optifine-and-shadermod",
    )
}

pub open spec fn spec_fabric_api_missing(log: Seq<char>) -> Option<(Seq<char>, Seq<char>)> {
    spec_check(
        is_substring(
            log,
            "net.fabricmc.loader.discovery.ModResolutionException: Could not find required mod:"@,
        ) && is_substring(log, "requires {fabric @"@),
        "‼"@,
        "missing-fabric-api"@,
    )
}

/// A mod needs Fabric API, which is not installed.
pub fn fabric_api_missing(log: &str) -> (r: Option<(&str, String)>)
    ensures
        r.deep_view() == spec_fabric_api_missing(log@),
{
    if contains_str(
        log,
        "net.fabricmc.loader.discovery.ModResolutionException: Could not find required mod:",
    ) && contains_str(log, "requires {fabric @") {
        resolve("‼", "missing-fabric-api")
    } else {
        None
    }
}

pub open spec fn spec_java_architecture(log: Seq<char>) -> Option<(Seq<char>, Seq<char>)> {
    spec_check(
        is_substring(log, "Your Java architecture is not matching your system architecture."@),
        "❗"@,
        "32-bit-java"@,
    )
}

/// A 32-bit Java on a 64-bit system.
pub fn java_architecture(log: &str) -> (r: Option<(&str, String)>)
    ensures
        r.deep_view() == spec_java_architecture(log@),
{
    substring_check(
        log,
        "Your Java architecture is not matching your system architecture.",
        "❗",
        "32-bit-java",
    )
}

pub open spec fn spec_detect_temp_directories(log: Seq<char>) -> Option<(Seq<char>, Seq<char>)> {
    if is_substring(log, "Rar$"@) {
        spec_check(true, "‼"@, "winrar-temp"@)
    } else if regex_is_match(r"Minecraft folder is:\n[A-Z]:/([^/]+/)*Temp"@, log) && !is_substring(
        log,
        "forge_installer"@,
    ) {
        spec_check(true, "‼"@, "temp-folder"@)
    } else {
        None
    }
}

/// The launcher runs from a temporary-extraction path: straight out of a
/// WinRar archive, or from a Temp folder — unless the path belongs to the
/// Forge installer, which legitimately works under Temp.
pub fn detect_temp_directories(log: &str) -> (r: Option<(&str, String)>)
    ensures
        r.deep_view() == spec_detect_temp_directories(log@),
{
    if contains_str(log, "Rar$") {
        resolve("‼", "winrar-temp")
    } else if regex_match(log, r"Minecraft folder is:\n[A-Z]:/([^/]+/)*Temp") && !contains_str(
        log,
        "forge_installer",
    ) {
        resolve("‼", "temp-folder")
    } else {
        None
    }
}

pub open spec fn spec_using_system_glfw(log: Seq<char>) -> Option<(Seq<char>, Seq<char>)> {
    spec_check(is_substring(log, "Using system GLFW."@), "❗"@, "using-system-glfw"@)
}

/// The system GLFW library is used in place of the bundled one.
pub fn using_system_glfw(log: &str) -> (r: Option<(&str, String)>)
    ensures
        r.deep_view() == spec_using_system_glfw(log@),
{
    substring_check(log, "Using system GLFW.", "❗", "using-system-glfw")
}

pub open spec fn spec_using_system_openal(log: Seq<char>) -> Option<(Seq<char>, Seq<char>)> {
    spec_check(is_substring(log, "Using system OpenAL."@), "❗"@, "using-system-openal"@)
}

/// The system OpenAL library is used in place of the bundled one.
pub fn using_system_openal(log: &str) -> (r: Option<(&str, String)>)
    ensures
        r.deep_view() == spec_using_system_openal(log@),
{
    substring_check(log, "Using system OpenAL.", "❗", "using-system-openal")
}

pub open spec fn spec_custom_build(log: Seq<char>) -> Option<(Seq<char>, Seq<char>)> {
    spec_check(
        !regex_is_match(r"MultiMC version: 0\.[0-7]\.[0-9]+-[0-9]+"@, log) && regex_is_match(
            r"MultiMC version: [a-z0-9\.]+-custom"@,
            log,
        ),
        "‼"@,
        "custom-build"@,
    )
}

/// A self-compiled launcher build. The official version pattern is tried
/// first and, when it matches, suppresses the custom-build verdict for this
/// check alone, whatever else the log holds.
pub fn custom_build(log: &str) -> (r: Option<(&str, String)>)
    ensures
        r.deep_view() == spec_custom_build(log@),
{
    if regex_match(log, r"MultiMC version: 0\.[0-7]\.[0-9]+-[0-9]+") {
        None
    } else if regex_match(log, r"MultiMC version: [a-z0-9\.]+-custom") {
        resolve("‼", "custom-build")
    } else {
        None
    }
}

pub open spec fn spec_pirated_build(log: Seq<char>) -> Option<(Seq<char>, Seq<char>)> {
    spec_check(
        is_substring(log, "UltimMC version: "@) || is_substring(log, "authlib-injector"@),
        "‼"@,
        "pirated-build"@,
    )
}

/// A known pirate-launcher marker.
pub fn pirated_build(log: &str) -> (r: Option<(&str, String)>)
    ensures
        r.deep_view() == spec_pirated_build(log@),
{
    if contains_str(log, "UltimMC version: ") || contains_str(log, "authlib-injector") {
        resolve("‼", "pirated-build")
    } else {
        None
    }
}

pub open spec fn spec_forked_build(log: Seq<char>) -> Option<(Seq<char>, Seq<char>)> {
    spec_check(
        is_substring(log, "PolyMC version: "@) || is_substring(log, "ManyMC version: "@),
        "‼"@,
        "forked-build"@,
    )
}

/// A known forked-distribution marker.
pub fn forked_build(log: &str) -> (r: Option<(&str, String)>)
    ensures
        r.deep_view() == spec_forked_build(log@),
{
    if contains_str(log, "PolyMC version: ") || contains_str(log, "ManyMC version: ") {
        resolve("‼", "forked-build")
    } else {
        None
    }
}

pub open spec fn spec_m1_wrapper(log: Seq<char>) -> Option<(Seq<char>, Seq<char>)> {
    spec_check(is_substring(log, "/m1-multimc-hack/mcwrap.py"@), "‼"@, "m1-python-wrapper"@)
}

/// The unofficial Apple-silicon python wrapper.
pub fn m1_wrapper(log: &str) -> (r: Option<(&str, String)>)
    ensures
        r.deep_view() == spec_m1_wrapper(log@),
{
    substring_check(log, "/m1-multimc-hack/mcwrap.py", "‼", "m1-python-wrapper")
}

} // verus!
