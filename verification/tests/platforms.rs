use sn_releases::error::Error;
use sn_releases::platform::platform_for;
use sn_releases::{ArchiveType, Platform, ReleaseType};

#[test]
fn linux_is_served_on_four_architectures() {
    assert_eq!(platform_for("linux", "x86_64"), Ok(Platform::LinuxMusl));
    assert_eq!(platform_for("linux", "armv7"), Ok(Platform::LinuxMuslArmV7));
    assert_eq!(platform_for("linux", "arm"), Ok(Platform::LinuxMuslArm));
    assert_eq!(platform_for("linux", "aarch64"), Ok(Platform::LinuxMuslAarch64));
}

#[test]
fn linux_on_another_architecture_is_not_supported() {
    let error = platform_for("linux", "riscv64").unwrap_err();
    assert_eq!(
        error,
        Error::PlatformNotSupported(
            "We currently do not have binaries for the linux/riscv64 combination".to_string()
        )
    );
    assert_eq!(
        error.to_string(),
        "We currently do not have binaries for the linux/riscv64 combination"
    );
    assert!(platform_for("linux", "").is_err());
    assert!(platform_for("linux", "X86_64").is_err());
}

#[test]
fn windows_is_served_on_x86_64_only() {
    assert_eq!(platform_for("windows", "x86_64"), Ok(Platform::Windows));
    for arch in ["aarch64", "x86", "arm", ""] {
        assert_eq!(
            platform_for("windows", arch),
            Err(Error::PlatformNotSupported(
                "We currently only have x86_64 binaries available for Windows".to_string()
            ))
        );
    }
}

#[test]
fn macos_is_served_on_any_architecture() {
    assert_eq!(platform_for("macos", "x86_64"), Ok(Platform::MacOs));
    assert_eq!(platform_for("macos", "aarch64"), Ok(Platform::MacOs));
    assert_eq!(platform_for("macos", "powerpc"), Ok(Platform::MacOs));
}

#[test]
fn another_operating_system_is_not_supported() {
    assert_eq!(
        platform_for("freebsd", "x86_64"),
        Err(Error::PlatformNotSupported("freebsd is not currently supported".to_string()))
    );
    assert_eq!(
        platform_for("", "x86_64"),
        Err(Error::PlatformNotSupported(" is not currently supported".to_string()))
    );
    assert!(platform_for("Linux", "x86_64").is_err());
    assert!(platform_for("linux ", "x86_64").is_err());
}

#[test]
fn platform_triples() {
    assert_eq!(Platform::LinuxMusl.to_string(), "x86_64-unknown-linux-musl");
    assert_eq!(Platform::LinuxMuslAarch64.to_string(), "aarch64-unknown-linux-musl");
    assert_eq!(Platform::LinuxMuslArm.to_string(), "arm-unknown-linux-musleabi");
    assert_eq!(Platform::LinuxMuslArmV7.to_string(), "armv7-unknown-linux-musleabihf");
    assert_eq!(Platform::MacOs.to_string(), "x86_64-apple-darwin");
    assert_eq!(Platform::MacOsAarch64.to_string(), "aarch64-apple-darwin");
    assert_eq!(Platform::Windows.to_string(), "x86_64-pc-windows-msvc");
    assert_eq!(Platform::Windows.triple(), "x86_64-pc-windows-msvc");
}

#[test]
fn release_type_names_and_keys() {
    let expected = [
        (ReleaseType::Faucet, "faucet", "sn_faucet"),
        (ReleaseType::NodeLaunchpad, "node-launchpad", "node-launchpad"),
        (ReleaseType::Safe, "safe", "sn_cli"),
        (ReleaseType::Safenode, "safenode", "sn_node"),
        (ReleaseType::SafenodeManager, "safenode-manager", "sn-node-manager"),
        (ReleaseType::SafenodeManagerDaemon, "safenodemand", "sn-node-manager"),
        (ReleaseType::SafenodeRpcClient, "safenode_rpc_client", "sn_node_rpc_client"),
    ];
    for (release_type, name, key) in expected {
        assert_eq!(release_type.to_string(), name);
        assert_eq!(release_type.name(), name);
        assert_eq!(release_type.resolver_key(), key);
        assert_eq!(release_type.name(), name.to_lowercase());
    }
}

#[test]
fn archive_type_extensions() {
    assert_eq!(ArchiveType::TarGz.to_string(), "tar.gz");
    assert_eq!(ArchiveType::Zip.to_string(), "zip");
    assert_eq!(ArchiveType::Zip.extension(), "zip");
}
