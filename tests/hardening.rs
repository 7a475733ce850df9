use mimalloc::{select_mode, ConfigError, HardeningMode, ModeOptions};

fn options(secure_1: bool, secure_2: bool, secure_3: bool, secure_full: bool) -> ModeOptions {
    ModeOptions { secure_1, secure_2, secure_3, secure_full }
}

#[test]
fn no_option_selects_standard_mode() {
    assert_eq!(select_mode(&options(false, false, false, false)), Ok(HardeningMode::Standard));
}

#[test]
fn one_option_selects_that_mode() {
    assert_eq!(select_mode(&options(true, false, false, false)), Ok(HardeningMode::Secure1));
    assert_eq!(select_mode(&options(false, true, false, false)), Ok(HardeningMode::Secure2));
    assert_eq!(select_mode(&options(false, false, true, false)), Ok(HardeningMode::Secure3));
    assert_eq!(select_mode(&options(false, false, false, true)), Ok(HardeningMode::SecureFull));
}

#[test]
fn two_options_are_rejected() {
    assert_eq!(select_mode(&options(true, true, false, false)), Err(ConfigError::MultipleModes));
    assert_eq!(select_mode(&options(false, false, true, true)), Err(ConfigError::MultipleModes));
    assert_eq!(select_mode(&options(true, false, false, true)), Err(ConfigError::MultipleModes));
}

#[test]
fn every_option_at_once_is_rejected() {
    assert_eq!(select_mode(&options(true, true, true, true)), Err(ConfigError::MultipleModes));
    assert_eq!(select_mode(&options(true, true, true, false)), Err(ConfigError::MultipleModes));
}
