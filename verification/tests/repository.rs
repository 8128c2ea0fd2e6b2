use sn_releases::repository::{archive_name, latest_version_lookup, registry_url, VersionLookup};
use sn_releases::{ArchiveType, Platform, ReleaseType, SafeReleaseRepository, Version};

fn local() -> SafeReleaseRepository {
    SafeReleaseRepository {
        github_api_base_url: "http://localhost:8080".to_string(),
        faucet_base_url: "http://localhost/faucet".to_string(),
        node_launchpad_base_url: "http://localhost/launchpad".to_string(),
        safe_base_url: "http://localhost/safe".to_string(),
        safenode_base_url: "http://localhost/safenode".to_string(),
        safenode_manager_base_url: "http://localhost/manager".to_string(),
        safenode_rpc_client_base_url: "http://localhost/rpc".to_string(),
    }
}

#[test]
fn default_config_points_at_the_public_hosts() {
    let repository = SafeReleaseRepository::default_config();
    assert_eq!(repository.github_api_base_url, "https://api.github.com");
    assert_eq!(repository.faucet_base_url, "https://sn-faucet.s3.eu-west-2.amazonaws.com");
    assert_eq!(
        repository.node_launchpad_base_url,
        "https://node-launchpad.s3.eu-west-2.amazonaws.com"
    );
    assert_eq!(repository.safe_base_url, "https://sn-cli.s3.eu-west-2.amazonaws.com");
    assert_eq!(repository.safenode_base_url, "https://sn-node.s3.eu-west-2.amazonaws.com");
    assert_eq!(
        repository.safenode_manager_base_url,
        "https://sn-node-manager.s3.eu-west-2.amazonaws.com"
    );
    assert_eq!(
        repository.safenode_rpc_client_base_url,
        "https://sn-node-rpc-client.s3.eu-west-2.amazonaws.com"
    );
}

#[test]
fn base_url_goes_by_the_artifact() {
    let repository = local();
    assert_eq!(repository.get_base_url(&ReleaseType::Faucet), "http://localhost/faucet");
    assert_eq!(repository.get_base_url(&ReleaseType::NodeLaunchpad), "http://localhost/launchpad");
    assert_eq!(repository.get_base_url(&ReleaseType::Safe), "http://localhost/safe");
    assert_eq!(repository.get_base_url(&ReleaseType::Safenode), "http://localhost/safenode");
    assert_eq!(repository.get_base_url(&ReleaseType::SafenodeManager), "http://localhost/manager");
    assert_eq!(
        repository.get_base_url(&ReleaseType::SafenodeManagerDaemon),
        "http://localhost/manager"
    );
    assert_eq!(repository.get_base_url(&ReleaseType::SafenodeRpcClient), "http://localhost/rpc");
}

#[test]
fn archive_name_joins_name_version_triple_and_extension() {
    assert_eq!(
        archive_name(
            &ReleaseType::Safe,
            &Version::new(0, 83, 51),
            &Platform::LinuxMusl,
            &ArchiveType::TarGz
        ),
        "safe-0.83.51-x86_64-unknown-linux-musl.tar.gz"
    );
    assert_eq!(
        archive_name(
            &ReleaseType::SafenodeManager,
            &Version::parse("0.11.4-rc.1").unwrap(),
            &Platform::Windows,
            &ArchiveType::Zip
        ),
        "safenode-manager-0.11.4-rc.1-x86_64-pc-windows-msvc.zip"
    );
    assert_eq!(
        archive_name(
            &ReleaseType::SafenodeRpcClient,
            &Version::new(0, 6, 37),
            &Platform::MacOsAarch64,
            &ArchiveType::TarGz
        ),
        "safenode_rpc_client-0.6.37-aarch64-apple-darwin.tar.gz"
    );
}

#[test]
fn distribution_url_is_base_url_slash_archive_name() {
    let repository = local();
    for (release_type, platform, archive_type) in [
        (ReleaseType::Faucet, Platform::LinuxMuslArmV7, ArchiveType::TarGz),
        (ReleaseType::NodeLaunchpad, Platform::MacOs, ArchiveType::TarGz),
        (ReleaseType::SafenodeManagerDaemon, Platform::Windows, ArchiveType::Zip),
    ] {
        let version = Version::new(1, 2, 3);
        assert_eq!(
            repository.distribution_url(&release_type, &version, &platform, &archive_type),
            format!(
                "{}/{}",
                repository.get_base_url(&release_type),
                archive_name(&release_type, &version, &platform, &archive_type)
            )
        );
    }
    assert_eq!(
        repository.distribution_url(
            &ReleaseType::Faucet,
            &Version::new(0, 4, 6),
            &Platform::LinuxMuslAarch64,
            &ArchiveType::TarGz
        ),
        "http://localhost/faucet/faucet-0.4.6-aarch64-unknown-linux-musl.tar.gz"
    );
}

#[test]
fn listing_urls() {
    let repository = SafeReleaseRepository::default_config();
    assert_eq!(
        repository.releases_page_url("maidsafe", "safe_network", 1),
        "https://api.github.com/repos/maidsafe/safe_network/releases?page=1&per_page=100"
    );
    assert_eq!(
        repository.releases_page_url("maidsafe", "safe_network", 12),
        "https://api.github.com/repos/maidsafe/safe_network/releases?page=12&per_page=100"
    );
    assert_eq!(
        repository.latest_release_url("maidsafe", "sn-node-manager"),
        "https://api.github.com/repos/maidsafe/sn-node-manager/releases/latest"
    );
    assert_eq!(
        local().latest_release_url("o", "r"),
        "http://localhost:8080/repos/o/r/releases/latest"
    );
}

#[test]
fn registry_url_names_the_package() {
    assert_eq!(registry_url(&ReleaseType::Safe), "https://crates.io/api/v1/crates/sn_cli");
    assert_eq!(registry_url(&ReleaseType::Safenode), "https://crates.io/api/v1/crates/sn_node");
    assert_eq!(
        registry_url(&ReleaseType::SafenodeManagerDaemon),
        "https://crates.io/api/v1/crates/sn-node-manager"
    );
}

#[test]
fn launchpad_version_is_known_and_the_rest_is_looked_up() {
    assert_eq!(
        latest_version_lookup(&ReleaseType::NodeLaunchpad),
        VersionLookup::Known(Version::new(0, 1, 0))
    );
    for release_type in [
        ReleaseType::Faucet,
        ReleaseType::Safe,
        ReleaseType::Safenode,
        ReleaseType::SafenodeManager,
        ReleaseType::SafenodeManagerDaemon,
        ReleaseType::SafenodeRpcClient,
    ] {
        assert_eq!(
            latest_version_lookup(&release_type),
            VersionLookup::Registry(registry_url(&release_type))
        );
    }
}
