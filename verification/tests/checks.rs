//! One minimal triggering fixture and one near-miss fixture per check.

use background_cat::checks::{
    custom_build, detect_temp_directories, fabric_api_missing, forge_too_new_java, forked_build,
    id_range_exceeded, intel_graphics_icd_dll, java_architecture, m1_failed_to_find_service_port,
    m1_wrapper, macos_too_new_java, multimc_in_onedrive_managed_folder, multimc_in_program_files,
    one_seventeen_plus_java_too_old, out_of_memory_error, pirated_build,
    pixel_format_not_accelerated_win10, shadermod_optifine_conflict, substring_check,
    two_one_plus_java_too_old, using_system_glfw, using_system_openal,
};

const CRITICAL: &str = "\u{203c}";
const ADVISORY: &str = "\u{2757}";

#[test]
fn program_files_fires() {
    let log = "Minecraft folder is:\nC:/Program Files/MultiMC";
    let r = multimc_in_program_files(log).expect("should fire");
    assert_eq!(r.0, CRITICAL);
    assert!(r.1.contains("Program Files"));
}

#[test]
fn program_files_near_miss() {
    // A different drive letter does not match the signature.
    let log = "Minecraft folder is:\nD:/Program Files/MultiMC";
    assert!(multimc_in_program_files(log).is_none());
}

#[test]
fn macos_java_fires() {
    let log = "stack: Terminating app due to uncaught exception 'NSInternalInconsistencyException', reason: 'NSWindow drag regions should only be invalidated on the Main Thread!' end";
    let r = macos_too_new_java(log).expect("should fire");
    assert_eq!(r.0, CRITICAL);
}

#[test]
fn macos_java_near_miss() {
    let log = "Terminating app due to uncaught exception 'NSGenericException'";
    assert!(macos_too_new_java(log).is_none());
}

#[test]
fn onedrive_fires() {
    let log = "Minecraft folder is:\nC:/Users/someone/OneDrive/MultiMC";
    let r = multimc_in_onedrive_managed_folder(log).expect("should fire");
    assert_eq!(r.0, ADVISORY);
    assert!(r.1.contains("OneDrive"));
}

#[test]
fn onedrive_near_miss() {
    // Only one path segment between the drive and OneDrive: no match.
    let log = "Minecraft folder is:\nC:/OneDrive/MultiMC";
    assert!(multimc_in_onedrive_managed_folder(log).is_none());
}

#[test]
fn forge_java_fires() {
    let log = "java.lang.ClassCastException: class jdk.internal.loader.ClassLoaders$AppClassLoader cannot be cast to class java.net.URLClassLoader";
    let r = forge_too_new_java(log).expect("should fire");
    assert_eq!(r.0, CRITICAL);
}

#[test]
fn forge_java_near_miss() {
    let log = "java.lang.ClassCastException: class SomethingElse";
    assert!(forge_too_new_java(log).is_none());
}

#[test]
fn java_seventeen_fires_on_each_variant() {
    for log in [
        "fabric requires {java @ [>=16]}",
        "fabric requires {java @ [>=17]}",
        "Minecraft 1.18 Pre Release 2 and above require the use of Java 17",
    ] {
        let r = one_seventeen_plus_java_too_old(log).expect("should fire");
        assert_eq!(r.0, CRITICAL);
    }
}

#[test]
fn java_seventeen_near_miss() {
    let log = "fabric requires {java @ [>=15]}";
    assert!(one_seventeen_plus_java_too_old(log).is_none());
}

#[test]
fn java_twentyone_fires_on_each_variant() {
    for log in [
        "(class file version 65.0)",
        "Minecraft 24w14a and above require the use of Java 21",
    ] {
        let r = two_one_plus_java_too_old(log).expect("should fire");
        assert_eq!(r.0, CRITICAL);
    }
}

#[test]
fn java_twentyone_near_miss() {
    let log = "(class file version 61.0)";
    assert!(two_one_plus_java_too_old(log).is_none());
}

#[test]
fn m1_service_port_fires() {
    let log = "java.lang.IllegalStateException: GLFW error before init: [0x10008]Cocoa: Failed to find service port for display";
    let r = m1_failed_to_find_service_port(log).expect("should fire");
    assert_eq!(r.0, CRITICAL);
}

#[test]
fn m1_service_port_near_miss() {
    let log = "GLFW error before init: [0x10008]";
    assert!(m1_failed_to_find_service_port(log).is_none());
}

#[test]
fn pixel_format_fires_on_co_occurrence() {
    let log = "Operating System: Windows 10\norg.lwjgl.LWJGLException: Pixel format not accelerated";
    let r = pixel_format_not_accelerated_win10(log).expect("should fire");
    assert_eq!(r.0, ADVISORY);
}

#[test]
fn pixel_format_needs_both_sides() {
    // Only one side of the conjunction present: no match.
    assert!(
        pixel_format_not_accelerated_win10("org.lwjgl.LWJGLException: Pixel format not accelerated")
            .is_none()
    );
    assert!(pixel_format_not_accelerated_win10("Operating System: Windows 10").is_none());
}

#[test]
fn intel_icd_fires() {
    let log = "# C  [ig9icd64.dll+0x3cbc3]";
    let r = intel_graphics_icd_dll(log).expect("should fire");
    assert_eq!(r.0, ADVISORY);
}

#[test]
fn intel_icd_near_miss() {
    // No hexadecimal offset after the library name: no match.
    let log = "# C  [ig9icd64.dll]";
    assert!(intel_graphics_icd_dll(log).is_none());
}

#[test]
fn id_limit_fires() {
    let log = "java.lang.RuntimeException: Invalid id 4096 - maximum id range exceeded.";
    let r = id_range_exceeded(log).expect("should fire");
    assert_eq!(r.0, CRITICAL);
}

#[test]
fn id_limit_near_miss() {
    let log = "java.lang.RuntimeException: Invalid id 4095";
    assert!(id_range_exceeded(log).is_none());
}

#[test]
fn out_of_memory_fires() {
    let log = "Caused by: java.lang.OutOfMemoryError: Java heap space";
    let r = out_of_memory_error(log).expect("should fire");
    assert_eq!(r.0, CRITICAL);
    assert_eq!(
        r.1,
        "You've run out of memory. You should allocate more, although the exact value depends on how many mods you have installed. [Click this link for a guide.](https://cdn.discordapp.com/attachments/531598137790562305/575376840173027330/unknown.png)"
    );
}

#[test]
fn out_of_memory_near_miss() {
    let log = "java.lang.StackOverflowError";
    assert!(out_of_memory_error(log).is_none());
}

#[test]
fn shadermod_fires() {
    let log = "java.lang.RuntimeException: Shaders Mod detected. Please remove it, OptiFine has built-in support for shaders.";
    let r = shadermod_optifine_conflict(log).expect("should fire");
    assert_eq!(r.0, CRITICAL);
}

#[test]
fn shadermod_near_miss() {
    let log = "Shaders Mod detected";
    assert!(shadermod_optifine_conflict(log).is_none());
}

#[test]
fn fabric_api_fires_on_co_occurrence() {
    let log = "net.fabricmc.loader.discovery.ModResolutionException: Could not find required mod: somemod requires {fabric @ [>=0.29]}";
    let r = fabric_api_missing(log).expect("should fire");
    assert_eq!(r.0, CRITICAL);
}

#[test]
fn fabric_api_needs_both_sides() {
    assert!(fabric_api_missing(
        "net.fabricmc.loader.discovery.ModResolutionException: Could not find required mod: x"
    )
    .is_none());
    assert!(fabric_api_missing("somemod requires {fabric @ [>=0.29]}").is_none());
}

#[test]
fn java_architecture_fires() {
    let log = "Your Java architecture is not matching your system architecture.";
    let r = java_architecture(log).expect("should fire");
    assert_eq!(r.0, ADVISORY);
}

#[test]
fn java_architecture_near_miss() {
    let log = "Your Java architecture matches your system architecture.";
    assert!(java_architecture(log).is_none());
}

#[test]
fn winrar_temp_fires() {
    let log = "Minecraft folder is:\nC:/Users/x/AppData/Local/Temp/Rar$EXa0.123/MultiMC";
    let r = detect_temp_directories(log).expect("should fire");
    assert_eq!(r.0, CRITICAL);
    assert!(r.1.contains("WinRar"));
}

#[test]
fn temp_folder_fires() {
    let log = "Minecraft folder is:\nC:/Users/x/AppData/Local/Temp";
    let r = detect_temp_directories(log).expect("should fire");
    assert_eq!(r.0, CRITICAL);
    assert!(r.1.contains("temporary folder"));
}

#[test]
fn temp_folder_carve_out_for_forge_installer() {
    // The second pattern's negative side: a forge_installer path under Temp
    // must not fire the temp-folder signature.
    let log = "Minecraft folder is:\nC:/Users/x/AppData/Local/Temp\nforge_installer.jar";
    assert!(detect_temp_directories(log).is_none());
}

#[test]
fn temp_folder_near_miss() {
    let log = "Minecraft folder is:\nC:/Users/x/Documents/MultiMC";
    assert!(detect_temp_directories(log).is_none());
}

#[test]
fn system_glfw_fires() {
    let r = using_system_glfw("Using system GLFW.").expect("should fire");
    assert_eq!(r.0, ADVISORY);
    assert!(r.1.contains("GLFW"));
}

#[test]
fn system_glfw_near_miss() {
    assert!(using_system_glfw("Using bundled GLFW.").is_none());
}

#[test]
fn system_openal_fires() {
    let r = using_system_openal("Using system OpenAL.").expect("should fire");
    assert_eq!(r.0, ADVISORY);
    assert!(r.1.contains("OpenAL"));
}

#[test]
fn system_openal_near_miss() {
    assert!(using_system_openal("Using bundled OpenAL.").is_none());
}

#[test]
fn custom_build_fires() {
    let log = "MultiMC version: 0.6.11-custom";
    let r = custom_build(log).expect("should fire");
    assert_eq!(r.0, CRITICAL);
    assert!(r.1.contains("self build"));
}

#[test]
fn custom_build_suppressed_by_official_pattern() {
    // The official pattern is checked first and wins over a custom-looking
    // version string elsewhere in the same log.
    let log = "MultiMC version: 0.6.12-3456\nMultiMC version: 0.6.11-custom";
    assert!(custom_build(log).is_none());
}

#[test]
fn custom_build_near_miss() {
    let log = "MultiMC version: 0.6.12-3456";
    assert!(custom_build(log).is_none());
}

#[test]
fn pirated_build_fires_on_each_variant() {
    for log in ["UltimMC version: 1.0", "injected authlib-injector agent"] {
        let r = pirated_build(log).expect("should fire");
        assert_eq!(r.0, CRITICAL);
        assert!(r.1.contains("pirated"));
    }
}

#[test]
fn pirated_build_near_miss() {
    assert!(pirated_build("MultiMC version: 0.6.12-3456").is_none());
}

#[test]
fn forked_build_fires_on_each_variant() {
    for log in ["PolyMC version: 1.0.4", "ManyMC version: 0.6.13"] {
        let r = forked_build(log).expect("should fire");
        assert_eq!(r.0, CRITICAL);
        assert!(r.1.contains("forked"));
    }
}

#[test]
fn forked_build_near_miss() {
    assert!(forked_build("MultiMC version: 0.6.12-3456").is_none());
}

#[test]
fn m1_wrapper_fires() {
    let log = "launched via /m1-multimc-hack/mcwrap.py";
    let r = m1_wrapper(log).expect("should fire");
    assert_eq!(r.0, CRITICAL);
}

#[test]
fn m1_wrapper_near_miss() {
    assert!(m1_wrapper("launched via mcwrap.py").is_none());
}

#[test]
fn dangling_key_contributes_nothing() {
    // A check wired to a key the registry does not hold reports nothing,
    // even though its signature is present in the log.
    let log = "the signature is right here";
    assert_eq!(
        substring_check(log, "signature", CRITICAL, "key-with-no-entry"),
        None
    );
    // The same trigger with a known key does fire, so the silence above
    // comes from the missing registry entry alone.
    assert!(substring_check(log, "signature", CRITICAL, "out-of-memory").is_some());
}
