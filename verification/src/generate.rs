//! Password generation: one representative of every selected class, random
//! fill from the pooled classes, and a random final order.

use vstd::prelude::*;
use vstd::string::*;
use vstd::utf8::{decode_utf8, encode_utf8, is_ascii_chars, valid_utf8};
use vstd::utf8::{encode_utf8_decode_utf8, encode_utf8_valid_utf8, is_ascii_chars_encode_utf8};
use crate::charset::{class_members_are_pooled, class_of, pool_holds_its_class};
use crate::charset::{AssemblyError, CharSetBuilder, CharacterClass};
use crate::config::{validate_password_config, ConfigError, PasswordConfig};
use crate::random::{choose_byte, shuffle_bytes, thread_rng};

verus! {

/// Why no password was generated.
#[derive(Clone, Copy, Debug, PartialEq, Eq, Structural)]
pub enum GenerationError {
    /// The composition was rejected.
    Config(ConfigError),
    /// The selected classes could not be pooled.
    Assembly(AssemblyError),
    /// The generated bytes are not text.
    Encoding,
}

impl GenerationError {
    /// The sentence that tells the caller which step failed: that of the
    /// error inside, or that the bytes are not text.
    pub open spec fn spec_message(self) -> Seq<char> {
        match self {
            GenerationError::Config(e) => e.spec_message(),
            GenerationError::Assembly(e) => e.spec_message(),
            GenerationError::Encoding => "Failed to convert password to string"@,
        }
    }

    /// The sentence that tells the caller which step failed.
    pub fn message(&self) -> (text: String)
        ensures
            text@ == self.spec_message(),
    {
        match self {
            GenerationError::Config(e) => e.message(),
            GenerationError::Assembly(e) => e.message(),
            GenerationError::Encoding => String::from_str("Failed to convert password to string"),
        }
    }
}

/// `required` holds one byte for each selected class, in the order of the
/// classes, each taken from the pool of its class.
pub open spec fn represents(config: PasswordConfig, required: Seq<u8>) -> bool {
    &&& required.len() == config.selected().len()
    &&& forall|j: int|
        0 <= j < required.len() ==> (#[trigger] config.selected()[j]).spec_pool().contains(
            required[j],
        )
}

/// `bytes` is some arrangement of `required` together with
/// `length - required.len()` further bytes, each of which stands in `pool`.
pub open spec fn composed_of(bytes: Seq<u8>, pool: Seq<u8>, required: Seq<u8>, length: nat) -> bool {
    exists|fill: Seq<u8>|
        {
            &&& required.len() + fill.len() == length
            &&& forall|j: int| 0 <= j < fill.len() ==> pool.contains(#[trigger] fill[j])
            &&& bytes.to_multiset() == (required + fill).to_multiset()
        }
}

/// The text that ASCII bytes spell.
pub open spec fn ascii_text(bytes: Seq<u8>) -> Seq<char> {
    Seq::new(bytes.len(), |i: int| bytes[i] as char)
}

/// What makes `s` a password for `config`: the requested length, only
/// characters of selected classes, and at least one character of each
/// selected class.
pub open spec fn is_password_for(config: PasswordConfig, s: Seq<char>) -> bool {
    &&& s.len() == config.length
    &&& forall|i: int| 0 <= i < s.len() ==> config.allows(#[trigger] s[i])
    &&& forall|c: CharacterClass|
        config.enabled(c) ==> exists|i: int| 0 <= i < s.len() && class_of(#[trigger] s[i]) == Some(c)
}

/// `std::string::FromUtf8Error`, carried through as an opaque value.
#[verifier::external_type_specification]
#[verifier::external_body]
pub struct ExFromUtf8Error(std::string::FromUtf8Error);

/// `String::from_utf8`. Claimed: the conversion succeeds exactly on bytes
/// that are valid UTF-8, and the string then holds the characters that the
/// bytes encode.
pub assume_specification[ String::from_utf8 ](vec: Vec<u8>) -> (r: Result<
    String,
    std::string::FromUtf8Error,
>)
    ensures
        r is Ok <==> valid_utf8(vec@),
        r matches Ok(s) ==> s@ == decode_utf8(vec@),
;

/// Pools the selected classes in the order upper, lower, digit, symbol, and
/// draws one representative of each.
pub fn assemble_charset(config: &PasswordConfig) -> (r: Result<(Vec<u8>, Vec<u8>), AssemblyError>)
    ensures
        r matches Ok(sets) && sets.0@ == config.pooled() && represents(*config, sets.1@)
            && sets.1@.len() == config.class_count(),
{
    let upper = CharacterClass::Upper.pool();
    let lower = CharacterClass::Lower.pool();
    let digit = CharacterClass::Digit.pool();
    let symbol = CharacterClass::Symbol.pool();
    proof {
        pool_holds_its_class(CharacterClass::Upper);
        pool_holds_its_class(CharacterClass::Lower);
        pool_holds_its_class(CharacterClass::Digit);
        pool_holds_its_class(CharacterClass::Symbol);
    }
    let mut builder = CharSetBuilder::new();
    builder.add_charset(upper.as_slice(), config.use_upper)?;
    builder.add_charset(lower.as_slice(), config.use_lower)?;
    builder.add_charset(digit.as_slice(), config.use_number)?;
    builder.add_charset(symbol.as_slice(), config.use_symbol)?;
    let sets = builder.build();
    proof {
        assert(sets.0@ =~= config.pooled());
        assert(sets.1@.len() == config.selected().len());
        assert(represents(*config, sets.1@));
        selected_lists_enabled(*config);
    }
    Ok(sets)
}

/// Starts from `required`, appends bytes drawn from `pool` until `length`
/// bytes are there, and shuffles the whole.
pub fn compose_password(pool: &[u8], required: Vec<u8>, length: usize) -> (bytes: Vec<u8>)
    requires
        pool@.len() > 0,
        required@.len() <= length,
    ensures
        bytes@.len() == length,
        composed_of(bytes@, pool@, required@, length as nat),
{
    let mut rng = thread_rng();
    let mut password_chars = required;
    let ghost seeded = password_chars@;
    while password_chars.len() < length
        invariant
            pool@.len() > 0,
            seeded.len() <= password_chars@.len() <= length,
            password_chars@.subrange(0, seeded.len() as int) == seeded,
            forall|j: int|
                seeded.len() <= j < password_chars@.len() ==> pool@.contains(
                    #[trigger] password_chars@[j],
                ),
        decreases length - password_chars@.len(),
    {
        let ghost before = password_chars@;
        match choose_byte(pool, &mut rng) {
            Some(b) => password_chars.push(b),
            None => vstd::pervasive::unreached(),
        }
        assert(password_chars@.subrange(0, seeded.len() as int) =~= before.subrange(
            0,
            seeded.len() as int,
        ));
    }
    let ghost filled = password_chars@;
    shuffle_bytes(&mut password_chars, &mut rng);
    proof {
        let fill = filled.subrange(seeded.len() as int, filled.len() as int);
        assert(filled =~= seeded + fill);
        filled.to_multiset_ensures();
        password_chars@.to_multiset_ensures();
    }
    password_chars
}

/// ASCII bytes are valid UTF-8 and spell one character each.
pub proof fn ascii_bytes_are_text(bytes: Seq<u8>)
    requires
        forall|i: int| 0 <= i < bytes.len() ==> bytes[i] < 128,
    ensures
        valid_utf8(bytes),
        decode_utf8(bytes) == ascii_text(bytes),
{
    let chars = ascii_text(bytes);
    assert(is_ascii_chars(chars));
    is_ascii_chars_encode_utf8(chars);
    assert(encode_utf8(chars) =~= bytes);
    encode_utf8_valid_utf8(chars);
    encode_utf8_decode_utf8(chars);
}

/// Each byte of the pooled classes is a character of a selected class.
pub proof fn pooled_bytes_are_allowed(config: PasswordConfig, x: u8)
    requires
        config.pooled().contains(x),
    ensures
        config.allows(x as char),
        x < 128,
{
    pool_holds_its_class(CharacterClass::Upper);
    pool_holds_its_class(CharacterClass::Lower);
    pool_holds_its_class(CharacterClass::Digit);
    pool_holds_its_class(CharacterClass::Symbol);
}

/// The selected classes are exactly the enabled ones, each listed once.
pub proof fn selected_lists_enabled(config: PasswordConfig)
    ensures
        config.selected().len() == config.class_count(),
        forall|j: int|
            0 <= j < config.selected().len() ==> config.enabled(#[trigger] config.selected()[j]),
        forall|c: CharacterClass|
            config.enabled(c) ==> exists|j: int|
                0 <= j < config.selected().len() && #[trigger] config.selected()[j] == c,
{
    let s = config.selected();
    assert forall|c: CharacterClass| config.enabled(c) implies exists|j: int|
        0 <= j < s.len() && #[trigger] s[j] == c by {
        let u: int = if config.use_upper { 1 } else { 0 };
        let l: int = if config.use_lower { 1 } else { 0 };
        let d: int = if config.use_number { 1 } else { 0 };
        let j = match c {
            CharacterClass::Upper => 0,
            CharacterClass::Lower => u,
            CharacterClass::Digit => u + l,
            CharacterClass::Symbol => u + l + d,
        };
        assert(s[j] == c);
    }
}

/// Whatever is composed from the pooled classes and one representative of
/// each selected class spells a password for the composition.
pub proof fn composed_bytes_spell_password(
    config: PasswordConfig,
    bytes: Seq<u8>,
    required: Seq<u8>,
)
    requires
        config.is_valid(),
        represents(config, required),
        bytes.len() == config.length,
        composed_of(bytes, config.pooled(), required, config.length as nat),
    ensures
        forall|i: int| 0 <= i < bytes.len() ==> bytes[i] < 128,
        is_password_for(config, ascii_text(bytes)),
{
    let fill = choose|fill: Seq<u8>|
        {
            &&& required.len() + fill.len() == config.length as nat
            &&& forall|j: int| 0 <= j < fill.len() ==> config.pooled().contains(#[trigger] fill[j])
            &&& bytes.to_multiset() == (required + fill).to_multiset()
        };
    let whole = required + fill;
    let text = ascii_text(bytes);
    selected_lists_enabled(config);
    bytes.to_multiset_ensures();
    whole.to_multiset_ensures();
    assert forall|k: int| 0 <= k < whole.len() implies config.allows(#[trigger] whole[k] as char)
        && whole[k] < 128 by {
        if k < required.len() {
            let c = config.selected()[k];
            assert(c.spec_pool().contains(required[k]));
            pool_holds_its_class(c);
        } else {
            assert(whole[k] == fill[k - required.len()]);
            pooled_bytes_are_allowed(config, whole[k]);
        }
    }
    assert forall|i: int| 0 <= i < bytes.len() implies #[trigger] bytes[i] < 128 && config.allows(
        text[i],
    ) by {
        assert(bytes.contains(bytes[i]));
        assert(whole.to_multiset().count(bytes[i]) > 0);
        assert(whole.contains(bytes[i]));
    }
    assert forall|c: CharacterClass| config.enabled(c) implies exists|i: int|
        0 <= i < text.len() && class_of(#[trigger] text[i]) == Some(c) by {
        let j = choose|j: int| 0 <= j < config.selected().len() && #[trigger] config.selected()[j] == c;
        assert(c.spec_pool().contains(required[j]));
        pool_holds_its_class(c);
        assert(whole[j] == required[j]);
        assert(whole.contains(required[j]));
        assert(bytes.to_multiset().count(required[j]) > 0);
        assert(bytes.contains(required[j]));
        let i = choose|i: int| 0 <= i < bytes.len() && bytes[i] == required[j];
        assert(class_of(text[i]) == Some(c));
    }
}

/// A password for a composition holds a byte from the pool of every
/// selected class, and none from the pool of a class that is not selected.
pub proof fn password_matches_pools(config: PasswordConfig, s: Seq<char>, c: CharacterClass)
    requires
        is_password_for(config, s),
    ensures
        config.enabled(c) ==> exists|i: int|
            0 <= i < s.len() && c.spec_pool().contains(#[trigger] s[i] as u8),
        !config.enabled(c) ==> forall|i: int|
            0 <= i < s.len() ==> !c.spec_pool().contains(#[trigger] s[i] as u8),
{
    if config.enabled(c) {
        let i = choose|i: int| 0 <= i < s.len() && class_of(#[trigger] s[i]) == Some(c);
        class_members_are_pooled(s[i], c);
    } else {
        assert forall|i: int| 0 <= i < s.len() implies !c.spec_pool().contains(
            #[trigger] s[i] as u8,
        ) by {
            assert(config.allows(s[i]));
            if c.spec_pool().contains(s[i] as u8) {
                pool_holds_its_class(c);
                class_members_are_pooled(s[i], class_of(s[i]).unwrap());
            }
        }
    }
}

/// Generates a password for `config`: rejects a composition that breaks a
/// rule, and otherwise returns a password of the requested length that holds
/// a character of every selected class and of no other.
pub fn generate_password(config: &PasswordConfig) -> (r: Result<String, GenerationError>)
    ensures
        match config.rejection() {
            Some(e) => r == Err::<String, GenerationError>(GenerationError::Config(e)),
            None => r matches Ok(s) && is_password_for(*config, s@),
        },
{
    match validate_password_config(config) {
        Err(e) => {
            return Err(GenerationError::Config(e));
        },
        Ok(()) => {},
    }
    let (available_chars, required_chars) = match assemble_charset(config) {
        Ok(sets) => sets,
        Err(e) => {
            return Err(GenerationError::Assembly(e));
        },
    };
    let ghost required = required_chars@;
    proof {
        selected_lists_enabled(*config);
        pooled_nonempty(*config);
    }
    let password_chars = compose_password(
        available_chars.as_slice(),
        required_chars,
        config.length as usize,
    );
    proof {
        composed_bytes_spell_password(*config, password_chars@, required);
        ascii_bytes_are_text(password_chars@);
    }
    match String::from_utf8(password_chars) {
        Ok(s) => Ok(s),
        Err(_) => Err(GenerationError::Encoding),
    }
}

/// With a class selected, the pooled classes hold a byte.
pub proof fn pooled_nonempty(config: PasswordConfig)
    requires
        config.class_count() > 0,
    ensures
        config.pooled().len() > 0,
{
    pool_holds_its_class(CharacterClass::Upper);
    pool_holds_its_class(CharacterClass::Lower);
    pool_holds_its_class(CharacterClass::Digit);
    pool_holds_its_class(CharacterClass::Symbol);
}

} // verus!
