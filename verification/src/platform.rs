//! Which platform's binaries suit a host.

use vstd::prelude::*;
use crate::error::Error;
use crate::release::Platform;
use crate::text::equal;

verus! {

/// The platform whose binaries suit a host with this operating system and
/// CPU architecture; `None` where no binaries are published for it. Linux
/// is served on four architectures, Windows on `x86_64` alone, and macOS on
/// any architecture by the `x86_64` binaries.
pub open spec fn platform_spec(os: Seq<char>, arch: Seq<char>) -> Option<Platform> {
    if os == "linux"@ {
        if arch == "x86_64"@ {
            Some(Platform::LinuxMusl)
        } else if arch == "armv7"@ {
            Some(Platform::LinuxMuslArmV7)
        } else if arch == "arm"@ {
            Some(Platform::LinuxMuslArm)
        } else if arch == "aarch64"@ {
            Some(Platform::LinuxMuslAarch64)
        } else {
            None
        }
    } else if os == "windows"@ {
        if arch == "x86_64"@ {
            Some(Platform::Windows)
        } else {
            None
        }
    } else if os == "macos"@ {
        Some(Platform::MacOs)
    } else {
        None
    }
}

/// What the error says of a host for which no binaries are published.
pub open spec fn unsupported_message(os: Seq<char>, arch: Seq<char>) -> Seq<char> {
    if os == "linux"@ {
        "We currently do not have binaries for the "@ + os + seq!['/'] + arch + " combination"@
    } else if os == "windows"@ {
        "We currently only have x86_64 binaries available for Windows"@
    } else {
        os + " is not currently supported"@
    }
}

/// Whether `outcome` is what detecting the platform of a host comes to: the
/// platform that suits it, or `PlatformNotSupported` where none does.
pub open spec fn is_platform_of(os: Seq<char>, arch: Seq<char>, outcome: Result<Platform, Error>) -> bool {
    match platform_spec(os, arch) {
        Some(platform) => outcome == Ok::<Platform, Error>(platform),
        None => {
            &&& outcome is Err
            &&& outcome->Err_0 is PlatformNotSupported
            &&& outcome->Err_0->PlatformNotSupported_0@ == unsupported_message(os, arch)
        },
    }
}

/// Detects the platform whose binaries suit a host, from the names of its
/// operating system and CPU architecture.
pub fn platform_for(os: &str, arch: &str) -> (outcome: Result<Platform, Error>)
    ensures
        is_platform_of(os@, arch@, outcome),
{
    if equal(os, "linux") {
        if equal(arch, "x86_64") {
            Ok(Platform::LinuxMusl)
        } else if equal(arch, "armv7") {
            Ok(Platform::LinuxMuslArmV7)
        } else if equal(arch, "arm") {
            Ok(Platform::LinuxMuslArm)
        } else if equal(arch, "aarch64") {
            Ok(Platform::LinuxMuslAarch64)
        } else {
            proof {
                reveal_strlit("/");
            }
            let mut message = String::from_str("We currently do not have binaries for the ");
            message.append(os);
            message.append("/");
            message.append(arch);
            message.append(" combination");
            assert(message@ =~= unsupported_message(os@, arch@));
            Err(Error::PlatformNotSupported(message))
        }
    } else if equal(os, "windows") {
        if equal(arch, "x86_64") {
            Ok(Platform::Windows)
        } else {
            Err(
                Error::PlatformNotSupported(
                    String::from_str(
                        "We currently only have x86_64 binaries available for Windows",
                    ),
                ),
            )
        }
    } else if equal(os, "macos") {
        Ok(Platform::MacOs)
    } else {
        let mut message = String::from_str(os);
        message.append(" is not currently supported");
        assert(message@ =~= unsupported_message(os@, arch@));
        Err(Error::PlatformNotSupported(message))
    }
}

} // verus!
