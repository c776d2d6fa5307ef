use raytracer3::config::{Config, ConfigError, DEFAULT_HEIGHT, DEFAULT_SAMPLES, DEFAULT_WIDTH};

#[test]
fn defaults_are_valid() {
    let config = Config::new(DEFAULT_WIDTH, DEFAULT_HEIGHT, DEFAULT_SAMPLES).unwrap();
    assert_eq!(config.width(), 200);
    assert_eq!(config.height(), 100);
    assert_eq!(config.samples(), 100);
}

#[test]
fn parameters_are_kept() {
    let config = Config::new(4, 2, 1).unwrap();
    assert_eq!((config.width(), config.height(), config.samples()), (4, 2, 1));
    let config = Config::new(1, 1_431_655_765, u32::MAX).unwrap();
    assert_eq!((config.width(), config.height(), config.samples()), (1, 1_431_655_765, u32::MAX));
}

#[test]
fn zero_width_is_refused() {
    assert_eq!(Config::new(0, 100, 100), Err(ConfigError::ZeroWidth));
}

#[test]
fn zero_height_is_refused() {
    assert_eq!(Config::new(200, 0, 100), Err(ConfigError::ZeroHeight));
}

#[test]
fn zero_samples_are_refused() {
    assert_eq!(Config::new(200, 100, 0), Err(ConfigError::ZeroSamples));
}

#[test]
fn oversized_images_are_refused() {
    assert_eq!(Config::new(65536, 65536, 1), Err(ConfigError::TooLarge));
    assert_eq!(Config::new(u32::MAX, u32::MAX, 1), Err(ConfigError::TooLarge));
    assert_eq!(Config::new(1_431_655_766, 1, 1), Err(ConfigError::TooLarge));
    assert!(Config::new(1_431_655_765, 1, 1).is_ok());
}

#[test]
fn the_first_fault_is_reported() {
    assert_eq!(Config::new(0, 0, 0), Err(ConfigError::ZeroWidth));
    assert_eq!(Config::new(7, 0, 0), Err(ConfigError::ZeroHeight));
    assert_eq!(Config::new(u32::MAX, u32::MAX, 0), Err(ConfigError::ZeroSamples));
    assert_eq!(Config::new(0, u32::MAX, 5), Err(ConfigError::ZeroWidth));
}
