use metl::codec::{load_manifest, save_manifest, ManifestError};
use metl::config::{get_config_path, load_config, ConfigError};
use metl::manifest::{Manifest, Package, PackageManager};

fn sample_manifest() -> Manifest {
    Manifest {
        packages: vec![
            Package { name: "foo".to_string(), version: Some("1.2".to_string()) },
            Package { name: "bar".to_string(), version: None },
        ],
        dotfiles_repo: Some("https://example.com/dotfiles.git".to_string()),
        dotfiles_symlink: true,
        locked_versions: true,
    }
}

#[test]
fn save_manifest_exact_text() {
    let m = Manifest {
        packages: vec![Package { name: "foo".to_string(), version: Some("1.2".to_string()) }],
        dotfiles_repo: Some("url".to_string()),
        dotfiles_symlink: false,
        locked_versions: true,
    };
    let text = save_manifest(&m);
    assert_eq!(
        text,
        "locked_versions = true\ndotfiles_symlink = false\ndotfiles_repo = \"url\"\n\n[[packages]]\nname = \"foo\"\nversion = \"1.2\""
    );
}

#[test]
fn manifest_round_trip() {
    let m = sample_manifest();
    let text = save_manifest(&m);
    let back = load_manifest(&text).expect("round trip must parse");
    assert_eq!(back, m);
}

#[test]
fn manifest_round_trip_empty() {
    let m = Manifest {
        packages: vec![],
        dotfiles_repo: None,
        dotfiles_symlink: false,
        locked_versions: false,
    };
    let text = save_manifest(&m);
    assert_eq!(text, "locked_versions = false\ndotfiles_symlink = false");
    let back = load_manifest(&text).expect("round trip must parse");
    assert_eq!(back, m);
}

#[test]
fn manifest_round_trip_unversioned_packages() {
    let m = Manifest {
        packages: vec![
            Package { name: "zsh".to_string(), version: None },
            Package { name: "ripgrep".to_string(), version: None },
        ],
        dotfiles_repo: None,
        dotfiles_symlink: true,
        locked_versions: false,
    };
    let back = load_manifest(&save_manifest(&m)).expect("round trip must parse");
    assert_eq!(back, m);
}

#[test]
fn load_manifest_minimal() {
    let m = load_manifest("locked_versions = false\ndotfiles_symlink = true").unwrap();
    assert!(m.packages.is_empty());
    assert_eq!(m.dotfiles_repo, None);
    assert!(m.dotfiles_symlink);
    assert!(!m.locked_versions);
}

#[test]
fn load_manifest_rejects_garbage() {
    assert_eq!(load_manifest("garbage"), Err(ManifestError::MalformedContent));
    assert_eq!(load_manifest(""), Err(ManifestError::MalformedContent));
    assert_eq!(
        load_manifest("locked_versions = maybe\ndotfiles_symlink = true"),
        Err(ManifestError::MalformedContent)
    );
}

#[test]
fn load_manifest_rejects_truncated_package_block() {
    let text = "locked_versions = false\ndotfiles_symlink = false\n\n[[packages]]";
    assert_eq!(load_manifest(text), Err(ManifestError::MalformedContent));
}

#[test]
fn load_config_all_fields() {
    let text = "package_manager = \"pacman\"\nlocked_versions = true\ndotfiles_repo = \"repo_url\"\ndotfiles_symlink = true";
    let c = load_config(text).expect("config must parse");
    assert_eq!(c.package_manager, PackageManager::Pacman);
    assert!(c.locked_versions);
    assert_eq!(c.dotfiles_repo, Some("repo_url".to_string()));
    assert!(c.dotfiles_symlink);
}

#[test]
fn load_config_any_order_and_blank_lines() {
    let text = "\ndotfiles_symlink = false\n\npackage_manager = \"yay\"\nlocked_versions = false\n";
    let c = load_config(text).expect("config must parse");
    assert_eq!(c.package_manager, PackageManager::Yay);
    assert!(!c.locked_versions);
    assert_eq!(c.dotfiles_repo, None);
    assert!(!c.dotfiles_symlink);
}

#[test]
fn load_config_rejects_missing_field() {
    let text = "package_manager = \"pacman\"\nlocked_versions = true";
    assert_eq!(load_config(text), Err(ConfigError::MalformedContent));
}

#[test]
fn load_config_rejects_duplicate_field() {
    let text = "package_manager = \"pacman\"\nlocked_versions = true\nlocked_versions = false\ndotfiles_symlink = true";
    assert_eq!(load_config(text), Err(ConfigError::MalformedContent));
}

#[test]
fn load_config_rejects_unknown_manager() {
    let text = "package_manager = \"apt\"\nlocked_versions = true\ndotfiles_symlink = true";
    assert_eq!(load_config(text), Err(ConfigError::MalformedContent));
}

#[test]
fn load_config_rejects_unknown_key() {
    let text = "package_manager = \"pacman\"\nlocked_versions = true\ndotfiles_symlink = true\nmanifest_repo = \"repo_url\"";
    assert_eq!(load_config(text), Err(ConfigError::MalformedContent));
}

#[test]
fn config_path_is_under_home() {
    assert_eq!(get_config_path("/home/someone"), "/home/someone/.config/metl");
}

#[test]
fn manager_names_round_trip() {
    for (manager, name) in [
        (PackageManager::Pacman, "pacman"),
        (PackageManager::Paru, "paru"),
        (PackageManager::Yay, "yay"),
    ] {
        assert_eq!(manager.to_string(), name);
        assert_eq!(PackageManager::from_name(name), Some(manager));
    }
    assert_eq!(PackageManager::from_name("apt"), None);
}
