//! The closed sets of artifacts, platforms and archive formats, with the
//! names under which each appears in URLs and release listings.

use vstd::prelude::*;

verus! {

/// A binary that can be released and downloaded.
#[derive(Clone, Copy, Debug, PartialEq, Eq, Hash, Structural)]
pub enum ReleaseType {
    Faucet,
    NodeLaunchpad,
    Safe,
    Safenode,
    SafenodeManager,
    SafenodeManagerDaemon,
    SafenodeRpcClient,
}

impl ReleaseType {
    /// The artifact's name as it appears in archive names and URLs.
    pub open spec fn name_spec(self) -> Seq<char> {
        match self {
            ReleaseType::Faucet => "faucet"@,
            ReleaseType::NodeLaunchpad => "node-launchpad"@,
            ReleaseType::Safe => "safe"@,
            ReleaseType::Safenode => "safenode"@,
            ReleaseType::SafenodeManager => "safenode-manager"@,
            ReleaseType::SafenodeManagerDaemon => "safenodemand"@,
            ReleaseType::SafenodeRpcClient => "safenode_rpc_client"@,
        }
    }

    /// The key under which the artifact is published: the first segment of its
    /// release tags, and its package name in the registry.
    pub open spec fn resolver_key_spec(self) -> Seq<char> {
        match self {
            ReleaseType::Faucet => "sn_faucet"@,
            ReleaseType::NodeLaunchpad => "node-launchpad"@,
            ReleaseType::Safe => "sn_cli"@,
            ReleaseType::Safenode => "sn_node"@,
            ReleaseType::SafenodeManager => "sn-node-manager"@,
            ReleaseType::SafenodeManagerDaemon => "sn-node-manager"@,
            ReleaseType::SafenodeRpcClient => "sn_node_rpc_client"@,
        }
    }

    pub fn name(&self) -> (text: &'static str)
        ensures
            text@ == self.name_spec(),
    {
        match self {
            ReleaseType::Faucet => "faucet",
            ReleaseType::NodeLaunchpad => "node-launchpad",
            ReleaseType::Safe => "safe",
            ReleaseType::Safenode => "safenode",
            ReleaseType::SafenodeManager => "safenode-manager",
            ReleaseType::SafenodeManagerDaemon => "safenodemand",
            ReleaseType::SafenodeRpcClient => "safenode_rpc_client",
        }
    }

    /// The artifact's name, as a text of its own.
    pub fn to_string(&self) -> (text: String)
        ensures
            text@ == self.name_spec(),
    {
        String::from_str(self.name())
    }

    pub fn resolver_key(&self) -> (text: &'static str)
        ensures
            text@ == self.resolver_key_spec(),
    {
        match self {
            ReleaseType::Faucet => "sn_faucet",
            ReleaseType::NodeLaunchpad => "node-launchpad",
            ReleaseType::Safe => "sn_cli",
            ReleaseType::Safenode => "sn_node",
            ReleaseType::SafenodeManager => "sn-node-manager",
            ReleaseType::SafenodeManagerDaemon => "sn-node-manager",
            ReleaseType::SafenodeRpcClient => "sn_node_rpc_client",
        }
    }
}

/// Whether a text is written without upper-case letters.
pub open spec fn is_lower_case(text: Seq<char>) -> bool {
    forall|i: int| 0 <= i < text.len() ==> !('A' <= #[trigger] text[i] <= 'Z')
}

/// The name of every artifact is written in lower case, so it stands in a
/// URL as it is.
pub proof fn lemma_names_are_lower_case(release_type: ReleaseType)
    ensures
        is_lower_case(release_type.name_spec()),
{
    reveal_strlit("faucet");
    reveal_strlit("node-launchpad");
    reveal_strlit("safe");
    reveal_strlit("safenode");
    reveal_strlit("safenode-manager");
    reveal_strlit("safenodemand");
    reveal_strlit("safenode_rpc_client");
}

/// A target operating system and CPU for which binaries are published.
#[derive(Clone, Copy, Debug, PartialEq, Eq, Hash, Structural)]
pub enum Platform {
    LinuxMusl,
    LinuxMuslAarch64,
    LinuxMuslArm,
    LinuxMuslArmV7,
    MacOs,
    MacOsAarch64,
    Windows,
}

impl Platform {
    /// The platform's target triple, used verbatim in download URLs.
    pub open spec fn triple_spec(self) -> Seq<char> {
        match self {
            Platform::LinuxMusl => "x86_64-unknown-linux-musl"@,
            Platform::LinuxMuslAarch64 => "aarch64-unknown-linux-musl"@,
            Platform::LinuxMuslArm => "arm-unknown-linux-musleabi"@,
            Platform::LinuxMuslArmV7 => "armv7-unknown-linux-musleabihf"@,
            Platform::MacOs => "x86_64-apple-darwin"@,
            Platform::MacOsAarch64 => "aarch64-apple-darwin"@,
            Platform::Windows => "x86_64-pc-windows-msvc"@,
        }
    }

    pub fn triple(&self) -> (text: &'static str)
        ensures
            text@ == self.triple_spec(),
    {
        match self {
            Platform::LinuxMusl => "x86_64-unknown-linux-musl",
            Platform::LinuxMuslAarch64 => "aarch64-unknown-linux-musl",
            Platform::LinuxMuslArm => "arm-unknown-linux-musleabi",
            Platform::LinuxMuslArmV7 => "armv7-unknown-linux-musleabihf",
            Platform::MacOs => "x86_64-apple-darwin",
            Platform::MacOsAarch64 => "aarch64-apple-darwin",
            Platform::Windows => "x86_64-pc-windows-msvc",
        }
    }
}

impl Platform {
    /// The platform's target triple, as a text of its own.
    pub fn to_string(&self) -> (text: String)
        ensures
            text@ == self.triple_spec(),
    {
        String::from_str(self.triple())
    }
}

/// The format in which a binary is packed.
#[derive(Clone, Copy, Debug, PartialEq, Eq, Hash, Structural)]
pub enum ArchiveType {
    TarGz,
    Zip,
}

impl ArchiveType {
    /// The file extension of the format, without a leading dot.
    pub open spec fn extension_spec(self) -> Seq<char> {
        match self {
            ArchiveType::TarGz => "tar.gz"@,
            ArchiveType::Zip => "zip"@,
        }
    }

    pub fn extension(&self) -> (text: &'static str)
        ensures
            text@ == self.extension_spec(),
    {
        match self {
            ArchiveType::TarGz => "tar.gz",
            ArchiveType::Zip => "zip",
        }
    }
}

impl ArchiveType {
    /// The file extension of the format, as a text of its own.
    pub fn to_string(&self) -> (text: String)
        ensures
            text@ == self.extension_spec(),
    {
        String::from_str(self.extension())
    }
}

} // verus!
