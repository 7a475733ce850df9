//! The hardening mode that mimalloc is built in, and the rule that at most
//! one of the hardened modes may be chosen.
use vstd::prelude::*;

verus! {

/// How much anti-exploitation work mimalloc does.
#[derive(Clone, Copy, Debug, PartialEq, Eq, Structural)]
pub enum HardeningMode {
    /// mimalloc's standard behaviour.
    Standard,
    /// Hardened, first level.
    Secure1,
    /// Hardened, second level.
    Secure2,
    /// Hardened, third level.
    Secure3,
    /// Every hardening mimalloc offers.
    SecureFull,
}

/// Why a set of build options names no single mode.
#[derive(Clone, Copy, Debug, PartialEq, Eq, Structural)]
pub enum ConfigError {
    /// More than one hardened mode was chosen at once.
    MultipleModes,
}

/// The hardened modes chosen in a build configuration.
#[derive(Clone, Copy, Debug, PartialEq, Eq, Structural)]
pub struct ModeOptions {
    pub secure_1: bool,
    pub secure_2: bool,
    pub secure_3: bool,
    pub secure_full: bool,
}

/// 1 for a chosen option, 0 otherwise.
pub open spec fn chosen(b: bool) -> nat {
    if b {
        1
    } else {
        0
    }
}

/// How many hardened modes `o` chooses.
pub open spec fn chosen_count(o: ModeOptions) -> nat {
    chosen(o.secure_1) + chosen(o.secure_2) + chosen(o.secure_3) + chosen(o.secure_full)
}

/// Turns the chosen options into the one mode they name: the standard mode
/// when none is chosen, the chosen one when there is one, and
/// `ConfigError::MultipleModes` when there are several.
pub fn select_mode(o: &ModeOptions) -> (r: Result<HardeningMode, ConfigError>)
    ensures
        r == Err::<HardeningMode, ConfigError>(ConfigError::MultipleModes) <==> chosen_count(*o) > 1,
        r == Ok::<HardeningMode, ConfigError>(HardeningMode::Standard) <==> chosen_count(*o) == 0,
        r == Ok::<HardeningMode, ConfigError>(HardeningMode::Secure1) <==> chosen_count(*o) == 1 && o.secure_1,
        r == Ok::<HardeningMode, ConfigError>(HardeningMode::Secure2) <==> chosen_count(*o) == 1 && o.secure_2,
        r == Ok::<HardeningMode, ConfigError>(HardeningMode::Secure3) <==> chosen_count(*o) == 1 && o.secure_3,
        r == Ok::<HardeningMode, ConfigError>(HardeningMode::SecureFull) <==> chosen_count(*o) == 1 && o.secure_full,
{
    let mut count: u8 = 0;
    let mut mode = HardeningMode::Standard;
    if o.secure_1 {
        count = count + 1;
        mode = HardeningMode::Secure1;
    }
    if o.secure_2 {
        count = count + 1;
        mode = HardeningMode::Secure2;
    }
    if o.secure_3 {
        count = count + 1;
        mode = HardeningMode::Secure3;
    }
    if o.secure_full {
        count = count + 1;
        mode = HardeningMode::SecureFull;
    }
    if count > 1 {
        Err(ConfigError::MultipleModes)
    } else {
        Ok(mode)
    }
}

} // verus!
