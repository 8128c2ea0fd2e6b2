//! Where releases are published: the release host, the registry, and the
//! stores that hold the archives of each artifact.

use vstd::prelude::*;
use crate::release::{ArchiveType, Platform, ReleaseType};
use crate::text::{decimal, decimal_spec};
use crate::version::{Version, VersionModel};

verus! {

/// The base URLs under which releases are listed and archives are stored.
#[derive(Clone, Debug, PartialEq, Eq)]
pub struct SafeReleaseRepository {
    pub github_api_base_url: String,
    pub faucet_base_url: String,
    pub node_launchpad_base_url: String,
    pub safe_base_url: String,
    pub safenode_base_url: String,
    pub safenode_manager_base_url: String,
    pub safenode_rpc_client_base_url: String,
}

/// How the latest version of an artifact is to be found.
#[derive(Clone, Debug, PartialEq, Eq)]
pub enum VersionLookup {
    /// The version is known without asking.
    Known(Version),
    /// The registry is to be asked, at this URL.
    Registry(String),
}

/// The name of the archive of an artifact for a version and a platform:
/// `{name}-{version}-{triple}.{extension}`.
pub open spec fn archive_name_spec(
    release_type: ReleaseType,
    version: VersionModel,
    platform: Platform,
    archive_type: ArchiveType,
) -> Seq<char> {
    release_type.name_spec() + seq!['-'] + version.text() + seq!['-'] + platform.triple_spec()
        + seq!['.'] + archive_type.extension_spec()
}

/// The URL of the registry's record of the package of an artifact.
pub open spec fn registry_url_spec(release_type: ReleaseType) -> Seq<char> {
    "https://crates.io/api/v1/crates/"@ + release_type.resolver_key_spec()
}

/// Writes the name of the archive of an artifact for a version and a
/// platform.
pub fn archive_name(
    release_type: &ReleaseType,
    version: &Version,
    platform: &Platform,
    archive_type: &ArchiveType,
) -> (name: String)
    ensures
        name@ == archive_name_spec(*release_type, version@, *platform, *archive_type),
{
    proof {
        reveal_strlit("-");
        reveal_strlit(".");
    }
    let mut name = String::from_str(release_type.name());
    name.append("-");
    name.append(version.to_string().as_str());
    name.append("-");
    name.append(platform.triple());
    name.append(".");
    name.append(archive_type.extension());
    assert(name@ =~= archive_name_spec(*release_type, version@, *platform, *archive_type));
    name
}

/// Writes the URL of the registry's record of the package of an artifact.
pub fn registry_url(release_type: &ReleaseType) -> (url: String)
    ensures
        url@ == registry_url_spec(*release_type),
{
    let mut url = String::from_str("https://crates.io/api/v1/crates/");
    url.append(release_type.resolver_key());
    url
}

/// Plans the search for the latest version of an artifact. The launchpad is
/// not published in the registry: its version is 0.1.0. For every other
/// artifact the registry is asked for the newest version of its package.
pub fn latest_version_lookup(release_type: &ReleaseType) -> (lookup: VersionLookup)
    ensures
        match lookup {
            VersionLookup::Known(version) => *release_type == ReleaseType::NodeLaunchpad
                && version@ == (VersionModel {
                major: 0,
                minor: 1,
                patch: 0,
                pre: Seq::empty(),
                build: Seq::empty(),
            }),
            VersionLookup::Registry(url) => *release_type != ReleaseType::NodeLaunchpad && url@
                == registry_url_spec(*release_type),
        },
{
    match release_type {
        ReleaseType::NodeLaunchpad => VersionLookup::Known(Version::new(0, 1, 0)),
        _ => VersionLookup::Registry(registry_url(release_type)),
    }
}

impl SafeReleaseRepository {
    /// The base URL of the store that holds the archives of an artifact.
    pub open spec fn base_url_spec(self, release_type: ReleaseType) -> Seq<char> {
        match release_type {
            ReleaseType::Faucet => self.faucet_base_url@,
            ReleaseType::NodeLaunchpad => self.node_launchpad_base_url@,
            ReleaseType::Safe => self.safe_base_url@,
            ReleaseType::Safenode => self.safenode_base_url@,
            ReleaseType::SafenodeManager => self.safenode_manager_base_url@,
            ReleaseType::SafenodeManagerDaemon => self.safenode_manager_base_url@,
            ReleaseType::SafenodeRpcClient => self.safenode_rpc_client_base_url@,
        }
    }

    /// The URL at which the archive of an artifact for a version and a
    /// platform is published: the artifact's base URL, a slash, and the
    /// archive's name.
    pub open spec fn distribution_url_spec(
        self,
        release_type: ReleaseType,
        version: VersionModel,
        platform: Platform,
        archive_type: ArchiveType,
    ) -> Seq<char> {
        self.base_url_spec(release_type) + seq!['/'] + archive_name_spec(
            release_type,
            version,
            platform,
            archive_type,
        )
    }

    /// The URL of a page of the release listing of a repository, a hundred
    /// releases to the page.
    pub open spec fn releases_page_url_spec(
        self,
        owner: Seq<char>,
        repository: Seq<char>,
        page: u64,
    ) -> Seq<char> {
        self.github_api_base_url@ + "/repos/"@ + owner + seq!['/'] + repository
            + "/releases?page="@ + decimal_spec(page as nat) + "&per_page=100"@
    }

    /// The URL of the latest release of a repository.
    pub open spec fn latest_release_url_spec(self, owner: Seq<char>, repository: Seq<char>) -> Seq<
        char,
    > {
        self.github_api_base_url@ + "/repos/"@ + owner + seq!['/'] + repository
            + "/releases/latest"@
    }

    /// The repository of the public release host and archive stores.
    pub fn default_config() -> (repository: SafeReleaseRepository)
        ensures
            repository.github_api_base_url@ == "https://api.github.com"@,
            repository.faucet_base_url@ == "https://sn-faucet.s3.eu-west-2.amazonaws.com"@,
            repository.node_launchpad_base_url@
                == "https://node-launchpad.s3.eu-west-2.amazonaws.com"@,
            repository.safe_base_url@ == "https://sn-cli.s3.eu-west-2.amazonaws.com"@,
            repository.safenode_base_url@ == "https://sn-node.s3.eu-west-2.amazonaws.com"@,
            repository.safenode_manager_base_url@
                == "https://sn-node-manager.s3.eu-west-2.amazonaws.com"@,
            repository.safenode_rpc_client_base_url@
                == "https://sn-node-rpc-client.s3.eu-west-2.amazonaws.com"@,
    {
        SafeReleaseRepository {
            github_api_base_url: String::from_str("https://api.github.com"),
            faucet_base_url: String::from_str("https://sn-faucet.s3.eu-west-2.amazonaws.com"),
            node_launchpad_base_url: String::from_str(
                "https://node-launchpad.s3.eu-west-2.amazonaws.com",
            ),
            safe_base_url: String::from_str("https://sn-cli.s3.eu-west-2.amazonaws.com"),
            safenode_base_url: String::from_str("https://sn-node.s3.eu-west-2.amazonaws.com"),
            safenode_manager_base_url: String::from_str(
                "https://sn-node-manager.s3.eu-west-2.amazonaws.com",
            ),
            safenode_rpc_client_base_url: String::from_str(
                "https://sn-node-rpc-client.s3.eu-west-2.amazonaws.com",
            ),
        }
    }

    /// The base URL of the store that holds the archives of an artifact.
    pub fn get_base_url(&self, release_type: &ReleaseType) -> (url: String)
        ensures
            url@ == self.base_url_spec(*release_type),
    {
        match release_type {
            ReleaseType::Faucet => self.faucet_base_url.clone(),
            ReleaseType::NodeLaunchpad => self.node_launchpad_base_url.clone(),
            ReleaseType::Safe => self.safe_base_url.clone(),
            ReleaseType::Safenode => self.safenode_base_url.clone(),
            ReleaseType::SafenodeManager => self.safenode_manager_base_url.clone(),
            ReleaseType::SafenodeManagerDaemon => self.safenode_manager_base_url.clone(),
            ReleaseType::SafenodeRpcClient => self.safenode_rpc_client_base_url.clone(),
        }
    }

    /// Writes the URL at which the archive of an artifact for a version and
    /// a platform is published.
    pub fn distribution_url(
        &self,
        release_type: &ReleaseType,
        version: &Version,
        platform: &Platform,
        archive_type: &ArchiveType,
    ) -> (url: String)
        ensures
            url@ == self.distribution_url_spec(*release_type, version@, *platform, *archive_type),
    {
        proof {
            reveal_strlit("/");
        }
        let mut url = self.get_base_url(release_type);
        url.append("/");
        url.append(archive_name(release_type, version, platform, archive_type).as_str());
        url
    }

    /// Writes the URL of a page of the release listing of a repository.
    pub fn releases_page_url(&self, owner: &str, repository: &str, page: u64) -> (url: String)
        ensures
            url@ == self.releases_page_url_spec(owner@, repository@, page),
    {
        proof {
            reveal_strlit("/");
        }
        let mut url = self.github_api_base_url.clone();
        url.append("/repos/");
        url.append(owner);
        url.append("/");
        url.append(repository);
        url.append("/releases?page=");
        url.append(decimal(page).as_str());
        url.append("&per_page=100");
        url
    }

    /// Writes the URL of the latest release of a repository.
    pub fn latest_release_url(&self, owner: &str, repository: &str) -> (url: String)
        ensures
            url@ == self.latest_release_url_spec(owner@, repository@),
    {
        proof {
            reveal_strlit("/");
        }
        let mut url = self.github_api_base_url.clone();
        url.append("/repos/");
        url.append(owner);
        url.append("/");
        url.append(repository);
        url.append("/releases/latest");
        url
    }
}

} // verus!
