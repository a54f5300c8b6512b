//! Random password generation with guaranteed character-class coverage,
//! and an advisory strength report for the passwords it produces.

use vstd::prelude::*;

pub mod charset;
pub mod config;
pub mod generate;
mod random;
pub mod strength;
pub mod text;

pub use crate::charset::{AssemblyError, CharSetBuilder, CharacterClass};
pub use crate::config::{validate_password_config, ConfigError, PasswordConfig};
pub use crate::generate::{generate_password, GenerationError};
pub use crate::strength::{can_estimate, evaluate_password_strength};
pub use crate::strength::{try_evaluate_password_strength, StrengthLabel, StrengthReport};

verus! {

/// The composition that the five settings describe.
pub open spec fn config_of(
    length: u8,
    upper: bool,
    lower: bool,
    number: bool,
    symbol: bool,
) -> PasswordConfig {
    PasswordConfig {
        length,
        use_upper: upper,
        use_lower: lower,
        use_number: number,
        use_symbol: symbol,
    }
}

/// Generates a password of the given composition and, where the estimator
/// can be asked about a password of that length, estimates its strength:
/// the report is then one that the estimator can give for that password. A
/// composition that breaks a rule is rejected with that rule and yields
/// neither password nor report.
pub fn process_genpass(length: u8, upper: bool, lower: bool, number: bool, symbol: bool) -> (r:
    Result<(String, Option<StrengthReport>), GenerationError>)
    ensures
        match config_of(length, upper, lower, number, symbol).rejection() {
            Some(e) => r == Err::<(String, Option<StrengthReport>), GenerationError>(
                GenerationError::Config(e),
            ),
            None => r matches Ok(out) && crate::generate::is_password_for(
                config_of(length, upper, lower, number, symbol),
                out.0@,
            ) && (out.1 is Some <==> length <= crate::strength::spec_max_estimated_chars()) && (
            out.1 matches Some(report) ==> crate::strength::is_report_for(out.0@, report)),
        },
{
    let config = PasswordConfig {
        length,
        use_upper: upper,
        use_lower: lower,
        use_number: number,
        use_symbol: symbol,
    };
    match validate_password_config(&config) {
        Err(e) => {
            return Err(GenerationError::Config(e));
        },
        Ok(()) => {},
    }
    let password = generate_password(&config)?;
    let report = try_evaluate_password_strength(password.as_str());
    Ok((password, report))
}

} // verus!
