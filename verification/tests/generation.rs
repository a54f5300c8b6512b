use rcli::generate::{assemble_charset, compose_password};
use rcli::strength::max_estimated_chars;
use rcli::{generate_password, process_genpass};
use rcli::{AssemblyError, CharSetBuilder, CharacterClass, PasswordConfig};

const UPPER: &[u8] = b"ABCDEFGHJKLMNPQRSTUVWXYZ";
const LOWER: &[u8] = b"abcdefghijkmnopqrstuvwxyz";
const NUMBER: &[u8] = b"123456789";
const SYMBOL: &[u8] = b"!@#$%^&*_";

fn config_from_bits(length: u8, bits: u8) -> PasswordConfig {
    PasswordConfig {
        length,
        use_upper: bits & 1 != 0,
        use_lower: bits & 2 != 0,
        use_number: bits & 4 != 0,
        use_symbol: bits & 8 != 0,
    }
}

fn count_in(password: &str, pool: &[u8]) -> usize {
    password.bytes().filter(|b| pool.contains(b)).count()
}

fn check_password(c: &PasswordConfig, password: &str) {
    assert_eq!(password.len(), c.length as usize);
    let classes = [
        (c.use_upper, UPPER),
        (c.use_lower, LOWER),
        (c.use_number, NUMBER),
        (c.use_symbol, SYMBOL),
    ];
    let mut covered = 0;
    for (enabled, pool) in classes {
        let n = count_in(password, pool);
        if enabled {
            assert!(n >= 1, "class missing in {password}");
        } else {
            assert_eq!(n, 0, "class not asked for in {password}");
        }
        covered += n;
    }
    assert_eq!(covered, password.len());
}

#[test]
fn pools_are_the_unambiguous_characters() {
    assert_eq!(CharacterClass::Upper.pool(), UPPER.to_vec());
    assert_eq!(CharacterClass::Lower.pool(), LOWER.to_vec());
    assert_eq!(CharacterClass::Digit.pool(), NUMBER.to_vec());
    assert_eq!(CharacterClass::Symbol.pool(), SYMBOL.to_vec());
}

#[test]
fn pools_do_not_overlap() {
    let pools = [UPPER, LOWER, NUMBER, SYMBOL];
    for (i, a) in pools.iter().enumerate() {
        for (j, b) in pools.iter().enumerate() {
            if i != j {
                assert!(a.iter().all(|x| !b.contains(x)));
            }
        }
    }
    for ambiguous in [b'I', b'O', b'l', b'0'] {
        assert!(pools.iter().all(|p| !p.contains(&ambiguous)));
    }
}

#[test]
fn new_builder_is_empty() {
    let (chars, required) = CharSetBuilder::new().build();
    assert!(chars.is_empty());
    assert!(required.is_empty());
}

#[test]
fn disabled_class_changes_nothing() {
    let mut b = CharSetBuilder::new();
    assert_eq!(b.add_charset(UPPER, false), Ok(()));
    assert_eq!(b.add_charset(&[], false), Ok(()));
    let (chars, required) = b.build();
    assert!(chars.is_empty());
    assert!(required.is_empty());
}

#[test]
fn enabled_empty_class_is_an_error() {
    let mut b = CharSetBuilder::new();
    assert_eq!(b.add_charset(NUMBER, true), Ok(()));
    assert_eq!(b.add_charset(&[], true), Err(AssemblyError::EmptyPool));
    let (chars, required) = b.build();
    assert_eq!(chars, NUMBER.to_vec());
    assert_eq!(required.len(), 1);
}

#[test]
fn enabled_class_is_pooled_and_represented() {
    let mut b = CharSetBuilder::new();
    assert_eq!(b.add_charset(LOWER, true), Ok(()));
    assert_eq!(b.add_charset(UPPER, false), Ok(()));
    assert_eq!(b.add_charset(SYMBOL, true), Ok(()));
    let (chars, required) = b.build();
    assert_eq!(chars, [LOWER, SYMBOL].concat());
    assert_eq!(required.len(), 2);
    assert!(LOWER.contains(&required[0]));
    assert!(SYMBOL.contains(&required[1]));
}

#[test]
fn representative_is_drawn_not_fixed() {
    let mut seen = Vec::new();
    for _ in 0..400 {
        let mut b = CharSetBuilder::new();
        assert_eq!(b.add_charset(LOWER, true), Ok(()));
        let (_, required) = b.build();
        if !seen.contains(&required[0]) {
            seen.push(required[0]);
        }
    }
    assert!(seen.len() > 1);
}

#[test]
fn assembly_follows_class_order() {
    for bits in 0..16u8 {
        let c = config_from_bits(20, bits);
        let (pool, required) = assemble_charset(&c).unwrap();
        let mut expected_pool = Vec::new();
        let mut expected_classes = Vec::new();
        for (enabled, chars) in [
            (c.use_upper, UPPER),
            (c.use_lower, LOWER),
            (c.use_number, NUMBER),
            (c.use_symbol, SYMBOL),
        ] {
            if enabled {
                expected_pool.extend_from_slice(chars);
                expected_classes.push(chars);
            }
        }
        assert_eq!(pool, expected_pool);
        assert_eq!(required.len(), expected_classes.len());
        for (r, chars) in required.iter().zip(expected_classes) {
            assert!(chars.contains(r));
        }
    }
}

#[test]
fn composition_keeps_required_and_fills_from_pool() {
    for _ in 0..100 {
        let bytes = compose_password(b"ab", vec![b'X', b'Y'], 10);
        assert_eq!(bytes.len(), 10);
        assert_eq!(bytes.iter().filter(|&&b| b == b'X').count(), 1);
        assert_eq!(bytes.iter().filter(|&&b| b == b'Y').count(), 1);
        assert_eq!(bytes.iter().filter(|&&b| b == b'a' || b == b'b').count(), 8);
    }
    assert_eq!(compose_password(b"ab", vec![b'X'], 1), vec![b'X']);
    assert_eq!(compose_password(b"z", vec![], 3), vec![b'z', b'z', b'z']);
}

#[test]
fn composition_moves_the_required_bytes() {
    let mut moved = false;
    for _ in 0..200 {
        let bytes = compose_password(b"ab", vec![b'X', b'Y'], 10);
        if bytes[0] != b'X' || bytes[1] != b'Y' {
            moved = true;
        }
    }
    assert!(moved);
}

#[test]
fn three_classes_eight_characters() {
    let c = PasswordConfig {
        length: 8,
        use_upper: true,
        use_lower: true,
        use_number: true,
        use_symbol: false,
    };
    for _ in 0..200 {
        let password = generate_password(&c).unwrap();
        assert_eq!(password.len(), 8);
        assert!(count_in(&password, UPPER) >= 1);
        assert!(count_in(&password, LOWER) >= 1);
        assert!(count_in(&password, NUMBER) >= 1);
        assert_eq!(count_in(&password, SYMBOL), 0);
    }
}

#[test]
fn every_valid_config_gets_its_length_and_classes() {
    for bits in 1..16u8 {
        let classes = bits.count_ones() as u8;
        for length in classes..=128 {
            let c = config_from_bits(length, bits);
            let password = generate_password(&c).unwrap();
            check_password(&c, &password);
        }
    }
}

#[test]
fn length_equal_to_class_count_holds_one_of_each() {
    let c = config_from_bits(4, 15);
    for _ in 0..200 {
        let password = generate_password(&c).unwrap();
        assert_eq!(count_in(&password, UPPER), 1);
        assert_eq!(count_in(&password, LOWER), 1);
        assert_eq!(count_in(&password, NUMBER), 1);
        assert_eq!(count_in(&password, SYMBOL), 1);
    }
}

#[test]
fn representatives_do_not_stay_in_front() {
    let c = config_from_bits(4, 15);
    let mut not_upper_first = false;
    for _ in 0..200 {
        let password = generate_password(&c).unwrap();
        if !UPPER.contains(&password.as_bytes()[0]) {
            not_upper_first = true;
        }
    }
    assert!(not_upper_first);
}

#[test]
fn lowercase_only_many_runs() {
    let c = config_from_bits(20, 2);
    let mut counts = [0usize; 256];
    let mut previous = String::new();
    let mut changed = false;
    for _ in 0..10_000 {
        let password = generate_password(&c).unwrap();
        assert_eq!(password.len(), 20);
        assert_eq!(count_in(&password, LOWER), 20);
        for b in password.bytes() {
            counts[b as usize] += 1;
        }
        if password != previous {
            changed = true;
        }
        previous = password;
    }
    assert!(changed);
    // 200,000 draws over 25 characters: 8,000 each on average.
    for &b in LOWER {
        assert!(counts[b as usize] > 6_000, "{} is rare", b as char);
        assert!(counts[b as usize] < 10_000, "{} dominates", b as char);
    }
}

#[test]
fn genpass_returns_password_and_report() {
    let (password, report) = process_genpass(12, true, true, true, true).unwrap();
    check_password(&config_from_bits(12, 15), &password);
    let report = report.unwrap();
    assert!(report.score <= 4);
    if report.score <= 2 {
        assert_eq!(
            report.suggestions[0],
            "Add another word or two. Uncommon words are better."
        );
    } else {
        assert!(report.warning.is_none());
        assert!(report.suggestions.is_empty());
    }
}

#[test]
fn genpass_reports_fit_their_passwords() {
    for length in [2u8, 3, 4, 6, 8, 12] {
        let (password, report) = process_genpass(length, false, true, true, false).unwrap();
        assert_eq!(password.len(), length as usize);
        let report = report.unwrap();
        if report.score <= 2 {
            assert!(!report.suggestions.is_empty());
            assert_eq!(
                report.suggestions[0],
                "Add another word or two. Uncommon words are better."
            );
        } else {
            assert!(report.warning.is_none());
            assert!(report.suggestions.is_empty());
        }
    }
}

#[test]
fn genpass_reports_up_to_the_estimated_length() {
    let limit = max_estimated_chars();
    for length in 1..=128u8 {
        let (password, report) = process_genpass(length, false, true, false, false).unwrap();
        assert_eq!(password.len(), length as usize);
        assert_eq!(report.is_some(), length as usize <= limit);
    }
}

#[test]
fn genpass_gives_long_passwords_without_report() {
    for length in [21u8, 35, 128] {
        let (password, report) = process_genpass(length, true, true, true, true).unwrap();
        check_password(&config_from_bits(length, 15), &password);
        assert!(report.is_none());
    }
}
