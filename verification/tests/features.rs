use pjdfstest::config::{CommonFeatureConfig, FeaturesConfig};
use pjdfstest::features::FileSystemFeature;
use pjdfstest::flags::FileFlags;

#[test]
fn feature_names_are_snake_case_keys() {
    assert_eq!(FileSystemFeature::Chflags.name(), "chflags");
    assert_eq!(FileSystemFeature::Nfsv4Acls.name(), "nfsv4_acls");
    assert_eq!(FileSystemFeature::PosixFallocate.name(), "posix_fallocate");
    assert_eq!(FileSystemFeature::RenameCtime.name(), "rename_ctime");
    assert_eq!(FileSystemFeature::StatStBirthtime.name(), "stat_st_birthtime");
    assert_eq!(FileSystemFeature::ChflagsSfSnapshot.name(), "chflags_sf_snapshot");
    assert_eq!(FileSystemFeature::UtimeNow.name(), "utime_now");
    assert_eq!(FileSystemFeature::Utimensat.name(), "utimensat");
}

#[test]
fn all_features_are_listed_once_in_declaration_order() {
    let all = FileSystemFeature::all();
    assert_eq!(
        all,
        vec![
            FileSystemFeature::Chflags,
            FileSystemFeature::Nfsv4Acls,
            FileSystemFeature::PosixFallocate,
            FileSystemFeature::RenameCtime,
            FileSystemFeature::StatStBirthtime,
            FileSystemFeature::ChflagsSfSnapshot,
            FileSystemFeature::UtimeNow,
            FileSystemFeature::Utimensat,
        ]
    );
}

#[test]
fn feature_names_are_pairwise_distinct() {
    let all = FileSystemFeature::all();
    for (i, a) in all.iter().enumerate() {
        for b in all.iter().skip(i + 1) {
            assert_ne!(a.name(), b.name());
        }
    }
}

#[test]
fn feature_from_name_inverts_name() {
    for feature in FileSystemFeature::all() {
        assert_eq!(FileSystemFeature::from_name(feature.name()), Some(feature));
    }
}

#[test]
fn feature_from_name_rejects_unknown_keys() {
    assert_eq!(FileSystemFeature::from_name(""), None);
    assert_eq!(FileSystemFeature::from_name("Chflags"), None);
    assert_eq!(FileSystemFeature::from_name("chflags "), None);
    assert_eq!(FileSystemFeature::from_name("file_flags"), None);
    assert_eq!(FileSystemFeature::from_name("secondary_fs"), None);
}

#[test]
fn flag_names_are_the_system_names() {
    assert_eq!(FileFlags::UfNodump.name(), "UF_NODUMP");
    assert_eq!(FileFlags::UfImmutable.name(), "UF_IMMUTABLE");
    assert_eq!(FileFlags::UfAppend.name(), "UF_APPEND");
    assert_eq!(FileFlags::UfOpaque.name(), "UF_OPAQUE");
    assert_eq!(FileFlags::UfNounlink.name(), "UF_NOUNLINK");
    assert_eq!(FileFlags::SfArchived.name(), "SF_ARCHIVED");
    assert_eq!(FileFlags::SfImmutable.name(), "SF_IMMUTABLE");
    assert_eq!(FileFlags::SfAppend.name(), "SF_APPEND");
    assert_eq!(FileFlags::SfNounlink.name(), "SF_NOUNLINK");
    assert_eq!(FileFlags::SfSnapshot.name(), "SF_SNAPSHOT");
}

#[test]
fn flag_from_name_inverts_name() {
    let all = FileFlags::all();
    assert_eq!(all.len(), 10);
    for flag in all {
        assert_eq!(FileFlags::from_name(flag.name()), Some(flag));
    }
    assert_eq!(FileFlags::from_name("uf_immutable"), None);
    assert_eq!(FileFlags::from_name("IMMUTABLE"), None);
}

#[test]
fn flag_names_are_pairwise_distinct() {
    let all = FileFlags::all();
    for (i, a) in all.iter().enumerate() {
        for b in all.iter().skip(i + 1) {
            assert_ne!(a.name(), b.name());
        }
    }
}

#[test]
fn default_features_config_enables_nothing() {
    let config = FeaturesConfig::default();
    assert!(config.file_flags.is_empty());
    assert_eq!(config.secondary_fs, None);
    assert!(config.fs_features.is_empty());
    assert!(config.enabled_features().is_empty());
}

#[test]
fn enabled_features_are_the_keys_in_order() {
    let config = FeaturesConfig {
        file_flags: vec![FileFlags::UfImmutable],
        secondary_fs: Some("/mnt/other".to_string()),
        fs_features: vec![
            (FileSystemFeature::Utimensat, CommonFeatureConfig {}),
            (FileSystemFeature::Chflags, CommonFeatureConfig::default()),
        ],
    };
    assert_eq!(
        config.enabled_features(),
        vec![FileSystemFeature::Utimensat, FileSystemFeature::Chflags]
    );
}

#[test]
fn default_settings_nap_for_one_second() {
    let settings = pjdfstest::config::SettingsConfig::default();
    assert_eq!(settings.naptime, 1_000_000_000);
    assert_eq!(settings.naptime, pjdfstest::config::DEFAULT_NAPTIME);
    assert!(!settings.allow_remount);
}
