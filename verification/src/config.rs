//! The composition a caller asks for, and the rules that decide whether a
//! password of that composition can exist.

use vstd::prelude::*;
use vstd::string::*;
use crate::text::{decimal, decimal_text};
use crate::charset::{class_of, CharacterClass};

verus! {

/// Longest password that is ever generated.
pub const MAX_PASSWORD_LENGTH: u8 = 128;

/// Desired length and, for each character class, whether it takes part.
#[derive(Clone, Copy, Debug, PartialEq, Eq)]
pub struct PasswordConfig {
    pub length: u8,
    pub use_upper: bool,
    pub use_lower: bool,
    pub use_number: bool,
    pub use_symbol: bool,
}

/// Why a composition cannot produce a password.
#[derive(Clone, Copy, Debug, PartialEq, Eq, Structural)]
pub enum ConfigError {
    /// The requested length is zero.
    EmptyLength,
    /// The requested length is above `MAX_PASSWORD_LENGTH`.
    LengthTooLong,
    /// No character class is selected.
    NoClassSelected,
    /// There are fewer positions than selected classes, so not every class
    /// could be represented.
    LengthBelowClassCount { length: u8, required: u8 },
}

impl ConfigError {
    /// The sentence that tells the caller which rule was broken.
    pub open spec fn spec_message(self) -> Seq<char> {
        match self {
            ConfigError::EmptyLength => "Password length cannot be zero"@,
            ConfigError::LengthTooLong => "Password length cannot exceed 128 characters"@,
            ConfigError::NoClassSelected => "At least one character type must be selected"@,
            ConfigError::LengthBelowClassCount { length, required } => "Password length "@
                + decimal(length as nat) + " is too short for "@ + decimal(required as nat)
                + " required character types"@,
        }
    }

    /// The sentence that tells the caller which rule was broken.
    pub fn message(&self) -> (text: String)
        ensures
            text@ == self.spec_message(),
    {
        match self {
            ConfigError::EmptyLength => String::from_str("Password length cannot be zero"),
            ConfigError::LengthTooLong => String::from_str(
                "Password length cannot exceed 128 characters",
            ),
            ConfigError::NoClassSelected => String::from_str(
                "At least one character type must be selected",
            ),
            ConfigError::LengthBelowClassCount { length, required } => {
                let mut text = String::from_str("Password length ");
                text.append(decimal_text(*length).as_str());
                text.append(" is too short for ");
                text.append(decimal_text(*required).as_str());
                text.append(" required character types");
                text
            },
        }
    }
}

impl PasswordConfig {
    /// Whether class `c` is selected.
    pub open spec fn enabled(self, c: CharacterClass) -> bool {
        match c {
            CharacterClass::Upper => self.use_upper,
            CharacterClass::Lower => self.use_lower,
            CharacterClass::Digit => self.use_number,
            CharacterClass::Symbol => self.use_symbol,
        }
    }

    /// Number of selected classes.
    pub open spec fn class_count(self) -> nat {
        (if self.use_upper { 1nat } else { 0nat })
            + (if self.use_lower { 1nat } else { 0nat })
            + (if self.use_number { 1nat } else { 0nat })
            + (if self.use_symbol { 1nat } else { 0nat })
    }

    /// The selected classes, in the order in which they are pooled.
    pub open spec fn selected(self) -> Seq<CharacterClass> {
        (if self.use_upper { seq![CharacterClass::Upper] } else { seq![] })
            + (if self.use_lower { seq![CharacterClass::Lower] } else { seq![] })
            + (if self.use_number { seq![CharacterClass::Digit] } else { seq![] })
            + (if self.use_symbol { seq![CharacterClass::Symbol] } else { seq![] })
    }

    /// The pools of the selected classes, one after the other.
    pub open spec fn pooled(self) -> Seq<u8> {
        (if self.use_upper { CharacterClass::Upper.spec_pool() } else { seq![] })
            + (if self.use_lower { CharacterClass::Lower.spec_pool() } else { seq![] })
            + (if self.use_number { CharacterClass::Digit.spec_pool() } else { seq![] })
            + (if self.use_symbol { CharacterClass::Symbol.spec_pool() } else { seq![] })
    }

    /// Whether `ch` is a character of a selected class.
    pub open spec fn allows(self, ch: char) -> bool {
        match class_of(ch) {
            Some(c) => self.enabled(c),
            None => false,
        }
    }

    /// The first rule that the composition breaks, if it breaks any.
    pub open spec fn rejection(self) -> Option<ConfigError> {
        if self.length == 0 {
            Some(ConfigError::EmptyLength)
        } else if self.length > MAX_PASSWORD_LENGTH {
            Some(ConfigError::LengthTooLong)
        } else if self.class_count() == 0 {
            Some(ConfigError::NoClassSelected)
        } else if self.length < self.class_count() {
            Some(
                ConfigError::LengthBelowClassCount {
                    length: self.length,
                    required: self.class_count() as u8,
                },
            )
        } else {
            None
        }
    }

    /// A composition from which a password can be generated.
    pub open spec fn is_valid(self) -> bool {
        &&& 1 <= self.length <= MAX_PASSWORD_LENGTH
        &&& 1 <= self.class_count() <= self.length
    }
}

/// Checks a composition against the rules, in the order in which
/// `PasswordConfig::rejection` lists them.
pub fn validate_password_config(config: &PasswordConfig) -> (r: Result<(), ConfigError>)
    ensures
        r is Ok <==> config.is_valid(),
        r == match config.rejection() {
            Some(e) => Err::<(), ConfigError>(e),
            None => Ok(()),
        },
{
    if config.length == 0 {
        return Err(ConfigError::EmptyLength);
    }
    if config.length > MAX_PASSWORD_LENGTH {
        return Err(ConfigError::LengthTooLong);
    }
    if !config.use_upper && !config.use_lower && !config.use_number && !config.use_symbol {
        return Err(ConfigError::NoClassSelected);
    }
    let mut required_types: u8 = 0;
    if config.use_upper {
        required_types += 1;
    }
    if config.use_lower {
        required_types += 1;
    }
    if config.use_number {
        required_types += 1;
    }
    if config.use_symbol {
        required_types += 1;
    }
    if config.length < required_types {
        return Err(
            ConfigError::LengthBelowClassCount { length: config.length, required: required_types },
        );
    }
    Ok(())
}

/// Validation is a function of the composition alone: equal compositions
/// get the same verdict, however often they are checked.
pub proof fn validation_is_repeatable(a: PasswordConfig, b: PasswordConfig)
    requires
        a == b,
    ensures
        a.rejection() == b.rejection(),
        a.is_valid() == b.is_valid(),
        a.is_valid() <==> a.rejection() is None,
{
}

} // verus!
