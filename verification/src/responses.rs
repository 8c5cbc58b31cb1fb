//! The response registry: the immutable mapping from diagnostic key to
//! remediation text. It is a fixed table, consulted by every check; a key
//! that the table does not hold resolves to nothing, and the check that
//! asked behaves as if its signature had not matched.

use vstd::prelude::*;

use crate::pattern::str_eq;

verus! {

/// The registry as a mathematical mapping: the remediation text that a
/// diagnostic key resolves to, or `None` for a key the table does not hold.
pub open spec fn spec_response(key: Seq<char>) -> Option<Seq<char>> {
    if key == "program-files"@ {
        Some("Your MultiMC installation is in Program Files, where MultiMC doesn't have permission to write.\nYou should move it somewhere else, like your Desktop."@)
    } else if key == "macos-java-too-new"@ {
        Some("You are using too new a Java version. Please follow the steps on this wiki page to install 8u241: https://github.com/MultiMC/MultiMC5/wiki/Java-on-macOS"@)
    } else if key == "id-limit"@ {
        Some("You've exceeded the hardcoded ID Limit. Remove some mods, or install [JustEnoughIDs](https://www.curseforge.com/minecraft/mc-mods/jeid)"@)
    } else if key == "out-of-memory"@ {
        Some("You've run out of memory. You should allocate more, although the exact value depends on how many mods you have installed. [Click this link for a guide.](https://cdn.discordapp.com/attachments/531598137790562305/575376840173027330/unknown.png)"@)
    } else if key == "optifine-and-shadermod"@ {
        Some("You've installed Shaders Mod alongside OptiFine. OptiFine has built-in shader support, so you should remove Shaders Mod"@)
    } else if key == "missing-fabric-api"@ {
        Some("You are missing Fabric API, which is required by a mod. [Download the needed version here](https://www.curseforge.com/minecraft/mc-mods/fabric-api)"@)
    } else if key == "multimc-in-onedrive"@ {
        Some("MultiMC is possibly located in a folder managed by OneDrive, if you already have OneDrive disabled you can ignore this warning.\nOneDrive can mess with your game files while the game is running, and this often leads to crashes.\nYou should move the MultiMC folder to a different folder."@)
    } else if key == "use-java-8"@ {
        Some("The version of Minecraft you are playing does not support using modern versions of Java.\n[Please check our wiki for more information.](https://github.com/MultiMC/Launcher/wiki/Using-the-right-Java#minecraft-116-and-older)"@)
    } else if key == "use-java-17"@ {
        Some("You are playing a version of Minecraft that requires Java 17 or newer, but are using an older Java version.\n[Please check our wiki for more information.](https://github.com/MultiMC/Launcher/wiki/Using-the-right-Java#minecraft-117-and-newer)"@)
    } else if key == "use-java-21"@ {
        Some("You are playing a version of Minecraft that requires Java 21 or newer, but are using an older Java version.\n[Please check our wiki for more information.](https://github.com/MultiMC/Launcher/wiki/Using-the-right-Java#minecraft-210-and-newer)"@)
    } else if key == "apple-silicon-incompatible-forge"@ {
        Some("You seem to be using an Apple M1 Mac with an incompatible version of Forge. Add the following to your launch arguments as a workaround: `-Dfml.earlyprogresswindow=false`"@)
    } else if key == "unsupported-intel-gpu"@ {
        Some("You seem to be using an Intel GPU that is not supported on Windows 10. You will need to install an older version of Java, [see here for help](https://github.com/MultiMC/MultiMC5/wiki/Unsupported-Intel-GPUs)"@)
    } else if key == "32-bit-java"@ {
        Some("You're using 32-bit Java. [See here for help installing the correct version.](https://github.com/MultiMC/MultiMC5/wiki/Using-the-right-Java)"@)
    } else if key == "temp-folder"@ {
        Some("Your MultiMC installation is in a temporary folder. Your operating system will remove it.\nTo prevent data loss, you should move it or extract it somewhere else, like the C: top directory."@)
    } else if key == "winrar-temp"@ {
        Some("Tou did not extract MultiMC to a real folder and are running it from WinRar. Windows will remove it.\nTo prevent data loss, you should extract it somewhere, like the C: top directory."@)
    } else if key == "custom-build"@ {
        Some("You're using a self build version of MultiMC. We only support builds distributed from our website or packages from our wiki. [See here for official builds.](https://multimc.org)\nIf you are building MultiMC as developer to add features, you might want to request access to #dev-talk to discuss the feature."@)
    } else if key == "pirated-build"@ {
        Some("You're using a pirated Launcher. We only support builds distributed from our website or packages from our wiki that only work with a Mojang and Microsoft Account. [See here for official builds.](https://multimc.org)"@)
    } else if key == "forked-build"@ {
        Some("You're using a forked build of MultiMC. We only support builds distributed from our website or packages from our wiki. [See here for official builds.](https://multimc.org)"@)
    } else if key == "m1-python-wrapper"@ {
        Some("You're using MultiMC with the M1 python wrapper. Please do not use this to make MultiMC work on M1. Instead run MultiMC via the Rosetta 2 compatibility layer and with the usage of a x86_64 Java binary."@)
    } else if key == "using-system-openal"@ {
        Some("You seem to be using your systems OpenAL installation. This can cause the instance to crash if not properly setup. In case of a crash, make sure this isn't the cause of it."@)
    } else if key == "using-system-glfw"@ {
        Some("You seem to be using your systems GLFW installation. This can cause the instance to crash if not properly setup. In case of a crash, make sure this isn't the cause of it."@)
    } else {
        None
    }
}

/// Looks a diagnostic key up in the registry.
pub fn response_for(key: &str) -> (r: Option<String>)
    ensures
        r.deep_view() == spec_response(key@),
{
    if str_eq(key, "program-files") {
        Some("Your MultiMC installation is in Program Files, where MultiMC doesn't have permission to write.\nYou should move it somewhere else, like your Desktop.".to_owned())
    } else if str_eq(key, "macos-java-too-new") {
        Some("You are using too new a Java version. Please follow the steps on this wiki page to install 8u241: https://github.com/MultiMC/MultiMC5/wiki/Java-on-macOS".to_owned())
    } else if str_eq(key, "id-limit") {
        Some("You've exceeded the hardcoded ID Limit. Remove some mods, or install [JustEnoughIDs](https://www.curseforge.com/minecraft/mc-mods/jeid)".to_owned())
    } else if str_eq(key, "out-of-memory") {
        Some("You've run out of memory. You should allocate more, although the exact value depends on how many mods you have installed. [Click this link for a guide.](https://cdn.discordapp.com/attachments/531598137790562305/575376840173027330/unknown.png)".to_owned())
    } else if str_eq(key, "optifine-and-shadermod") {
        Some("You've installed Shaders Mod alongside OptiFine. OptiFine has built-in shader support, so you should remove Shaders Mod".to_owned())
    } else if str_eq(key, "missing-fabric-api") {
        Some("You are missing Fabric API, which is required by a mod. [Download the needed version here](https://www.curseforge.com/minecraft/mc-mods/fabric-api)".to_owned())
    } else if str_eq(key, "multimc-in-onedrive") {
        Some("MultiMC is possibly located in a folder managed by OneDrive, if you already have OneDrive disabled you can ignore this warning.\nOneDrive can mess with your game files while the game is running, and this often leads to crashes.\nYou should move the MultiMC folder to a different folder.".to_owned())
    } else if str_eq(key, "use-java-8") {
        Some("The version of Minecraft you are playing does not support using modern versions of Java.\n[Please check our wiki for more information.](https://github.com/MultiMC/Launcher/wiki/Using-the-right-Java#minecraft-116-and-older)".to_owned())
    } else if str_eq(key, "use-java-17") {
        Some("You are playing a version of Minecraft that requires Java 17 or newer, but are using an older Java version.\n[Please check our wiki for more information.](https://github.com/MultiMC/Launcher/wiki/Using-the-right-Java#minecraft-117-and-newer)".to_owned())
    } else if str_eq(key, "use-java-21") {
        Some("You are playing a version of Minecraft that requires Java 21 or newer, but are using an older Java version.\n[Please check our wiki for more information.](https://github.com/MultiMC/Launcher/wiki/Using-the-right-Java#minecraft-210-and-newer)".to_owned())
    } else if str_eq(key, "apple-silicon-incompatible-forge") {
        Some("You seem to be using an Apple M1 Mac with an incompatible version of Forge. Add the following to your launch arguments as a workaround: `-Dfml.earlyprogresswindow=false`".to_owned())
    } else if str_eq(key, "unsupported-intel-gpu") {
        Some("You seem to be using an Intel GPU that is not supported on Windows 10. You will need to install an older version of Java, [see here for help](https://github.com/MultiMC/MultiMC5/wiki/Unsupported-Intel-GPUs)".to_owned())
    } else if str_eq(key, "32-bit-java") {
        Some("You're using 32-bit Java. [See here for help installing the correct version.](https://github.com/MultiMC/MultiMC5/wiki/Using-the-right-Java)".to_owned())
    } else if str_eq(key, "temp-folder") {
        Some("Your MultiMC installation is in a temporary folder. Your operating system will remove it.\nTo prevent data loss, you should move it or extract it somewhere else, like the C: top directory.".to_owned())
    } else if str_eq(key, "winrar-temp") {
        Some("Tou did not extract MultiMC to a real folder and are running it from WinRar. Windows will remove it.\nTo prevent data loss, you should extract it somewhere, like the C: top directory.".to_owned())
    } else if str_eq(key, "custom-build") {
        Some("You're using a self build version of MultiMC. We only support builds distributed from our website or packages from our wiki. [See here for official builds.](https://multimc.org)\nIf you are building MultiMC as developer to add features, you might want to request access to #dev-talk to discuss the feature.".to_owned())
    } else if str_eq(key, "pirated-build") {
        Some("You're using a pirated Launcher. We only support builds distributed from our website or packages from our wiki that only work with a Mojang and Microsoft Account. [See here for official builds.](https://multimc.org)".to_owned())
    } else if str_eq(key, "forked-build") {
        Some("You're using a forked build of MultiMC. We only support builds distributed from our website or packages from our wiki. [See here for official builds.](https://multimc.org)".to_owned())
    } else if str_eq(key, "m1-python-wrapper") {
        Some("You're using MultiMC with the M1 python wrapper. Please do not use this to make MultiMC work on M1. Instead run MultiMC via the Rosetta 2 compatibility layer and with the usage of a x86_64 Java binary.".to_owned())
    } else if str_eq(key, "using-system-openal") {
        Some("You seem to be using your systems OpenAL installation. This can cause the instance to crash if not properly setup. In case of a crash, make sure this isn't the cause of it.".to_owned())
    } else if str_eq(key, "using-system-glfw") {
        Some("You seem to be using your systems GLFW installation. This can cause the instance to crash if not properly setup. In case of a crash, make sure this isn't the cause of it.".to_owned())
    } else {
        None
    }
}

} // verus!
