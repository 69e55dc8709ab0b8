use download_manager::config::{
    ConfigError, DownloadManagerConfig, DownloadManagerConfigBuilder,
};

#[test]
fn three_downloads_at_once_by_default() {
    assert_eq!(DownloadManagerConfig::default().max_concurrent(), 3);
    assert_eq!(DownloadManagerConfig::builder().build().max_concurrent(), 3);
}

#[test]
fn builders_can_be_made_by_default_and_copied() {
    let mut builder = DownloadManagerConfigBuilder::default();
    assert_eq!(builder.build().max_concurrent(), 3);
    builder.max_concurrent(8).unwrap();
    let copy = builder.clone();
    builder.max_concurrent(9).unwrap();
    assert_eq!(copy.build().max_concurrent(), 8);
    assert_eq!(builder.build().max_concurrent(), 9);
}

#[test]
fn a_chosen_limit_is_used() {
    let mut builder = DownloadManagerConfig::builder();
    let config = builder.max_concurrent(7).unwrap().build();
    assert_eq!(config.max_concurrent(), 7);
}

#[test]
fn the_last_chosen_limit_counts() {
    let mut builder = DownloadManagerConfig::builder();
    let config = builder.max_concurrent(7).unwrap().max_concurrent(2).unwrap().build();
    assert_eq!(config.max_concurrent(), 2);
}

#[test]
fn a_limit_of_zero_is_refused_and_changes_nothing() {
    let mut builder = DownloadManagerConfig::builder();
    builder.max_concurrent(5).unwrap();
    let refusal = builder.max_concurrent(0).unwrap_err();
    assert_eq!(refusal, ConfigError::ZeroMaxConcurrent);
    assert_eq!(refusal.message(), "Max concurrent downloads must be greater than 0");
    assert_eq!(builder.build().max_concurrent(), 5);
}
