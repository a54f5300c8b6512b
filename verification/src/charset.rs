//! The four character classes, their pools, and the builder that pools the
//! selected classes and picks one representative of each.

use vstd::prelude::*;
use vstd::string::*;
use crate::random::{choose_byte, thread_rng};

verus! {

/// A category of password characters.
#[derive(Clone, Copy, Debug, PartialEq, Eq, Structural)]
pub enum CharacterClass {
    Upper,
    Lower,
    Digit,
    Symbol,
}

/// The class that a character belongs to, if it may stand in a password at
/// all. Glyphs that are easily mistaken for one another (`I`, `O`, `l`, `0`)
/// belong to no class.
pub open spec fn class_of(ch: char) -> Option<CharacterClass> {
    if 'A' <= ch <= 'Z' && ch != 'I' && ch != 'O' {
        Some(CharacterClass::Upper)
    } else if 'a' <= ch <= 'z' && ch != 'l' {
        Some(CharacterClass::Lower)
    } else if '1' <= ch <= '9' {
        Some(CharacterClass::Digit)
    } else if ch == '!' || ch == '@' || ch == '#' || ch == '$' || ch == '%' || ch == '^' || ch == '&'
        || ch == '*' || ch == '_' {
        Some(CharacterClass::Symbol)
    } else {
        None
    }
}

impl CharacterClass {
    /// The characters of the class, as bytes, in the order in which they are
    /// pooled.
    pub open spec fn spec_pool(self) -> Seq<u8> {
        match self {
            CharacterClass::Upper => seq![
                'A' as u8, 'B' as u8, 'C' as u8, 'D' as u8, 'E' as u8, 'F' as u8, 'G' as u8, 'H' as u8,
                'J' as u8, 'K' as u8, 'L' as u8, 'M' as u8, 'N' as u8, 'P' as u8, 'Q' as u8, 'R' as u8,
                'S' as u8, 'T' as u8, 'U' as u8, 'V' as u8, 'W' as u8, 'X' as u8, 'Y' as u8, 'Z' as u8,
            ],
            CharacterClass::Lower => seq![
                'a' as u8, 'b' as u8, 'c' as u8, 'd' as u8, 'e' as u8, 'f' as u8, 'g' as u8, 'h' as u8,
                'i' as u8, 'j' as u8, 'k' as u8, 'm' as u8, 'n' as u8, 'o' as u8, 'p' as u8, 'q' as u8,
                'r' as u8, 's' as u8, 't' as u8, 'u' as u8, 'v' as u8, 'w' as u8, 'x' as u8, 'y' as u8,
                'z' as u8,
            ],
            CharacterClass::Digit => seq![
                '1' as u8, '2' as u8, '3' as u8, '4' as u8, '5' as u8, '6' as u8, '7' as u8, '8' as u8,
                '9' as u8,
            ],
            CharacterClass::Symbol => seq![
                '!' as u8, '@' as u8, '#' as u8, '$' as u8, '%' as u8, '^' as u8, '&' as u8, '*' as u8,
                '_' as u8,
            ],
        }
    }

    /// The pool of the class.
    pub fn pool(self) -> (v: Vec<u8>)
        ensures
            v@ == self.spec_pool(),
    {
        let v = match self {
            CharacterClass::Upper => vec![
                'A' as u8, 'B' as u8, 'C' as u8, 'D' as u8, 'E' as u8, 'F' as u8, 'G' as u8, 'H' as u8,
                'J' as u8, 'K' as u8, 'L' as u8, 'M' as u8, 'N' as u8, 'P' as u8, 'Q' as u8, 'R' as u8,
                'S' as u8, 'T' as u8, 'U' as u8, 'V' as u8, 'W' as u8, 'X' as u8, 'Y' as u8, 'Z' as u8,
            ],
            CharacterClass::Lower => vec![
                'a' as u8, 'b' as u8, 'c' as u8, 'd' as u8, 'e' as u8, 'f' as u8, 'g' as u8, 'h' as u8,
                'i' as u8, 'j' as u8, 'k' as u8, 'm' as u8, 'n' as u8, 'o' as u8, 'p' as u8, 'q' as u8,
                'r' as u8, 's' as u8, 't' as u8, 'u' as u8, 'v' as u8, 'w' as u8, 'x' as u8, 'y' as u8,
                'z' as u8,
            ],
            CharacterClass::Digit => vec![
                '1' as u8, '2' as u8, '3' as u8, '4' as u8, '5' as u8, '6' as u8, '7' as u8, '8' as u8,
                '9' as u8,
            ],
            CharacterClass::Symbol => vec![
                '!' as u8, '@' as u8, '#' as u8, '$' as u8, '%' as u8, '^' as u8, '&' as u8, '*' as u8,
                '_' as u8,
            ],
        };
        assert(v@ =~= self.spec_pool());
        v
    }
}

/// Why the selected classes could not be pooled.
#[derive(Clone, Copy, Debug, PartialEq, Eq, Structural)]
pub enum AssemblyError {
    /// A selected class has no characters.
    EmptyPool,
}

impl AssemblyError {
    /// The sentence that tells the caller what went wrong.
    pub open spec fn spec_message(self) -> Seq<char> {
        "Character set cannot be empty"@
    }

    /// The sentence that tells the caller what went wrong.
    pub fn message(&self) -> (text: String)
        ensures
            text@ == self.spec_message(),
    {
        String::from_str("Character set cannot be empty")
    }
}

/// Collects the characters of the selected classes and, for each class that
/// is added, one representative drawn from it.
pub struct CharSetBuilder {
    chars: Vec<u8>,
    required_chars: Vec<u8>,
}

impl CharSetBuilder {
    /// All characters added so far, class after class.
    pub closed spec fn pooled(&self) -> Seq<u8> {
        self.chars@
    }

    /// The representatives drawn so far, one for each class added.
    pub closed spec fn required(&self) -> Seq<u8> {
        self.required_chars@
    }

    /// `self` is `before` after one more class with the characters
    /// `charset`: the characters are appended to the pool, and one of them
    /// is appended to the representatives.
    pub open spec fn extends(&self, before: &Self, charset: Seq<u8>) -> bool {
        &&& self.pooled() == before.pooled() + charset
        &&& self.required().len() == before.required().len() + 1
        &&& self.required().drop_last() == before.required()
        &&& charset.contains(self.required().last())
    }

    /// A builder to which no class has been added.
    pub fn new() -> (b: Self)
        ensures
            b.pooled() == Seq::<u8>::empty(),
            b.required() == Seq::<u8>::empty(),
    {
        Self { chars: Vec::new(), required_chars: Vec::new() }
    }

    /// Adds a class with the characters `charset` if it is `enabled`, and
    /// leaves the builder as it is otherwise. An enabled class without
    /// characters is an error and changes nothing.
    pub fn add_charset(&mut self, charset: &[u8], enabled: bool) -> (r: Result<(), AssemblyError>)
        ensures
            r is Err <==> enabled && charset@.len() == 0,
            r is Err ==> r == Err::<(), AssemblyError>(AssemblyError::EmptyPool),
            enabled && charset@.len() > 0 ==> final(self).extends(old(self), charset@),
            !(enabled && charset@.len() > 0) ==> final(self).pooled() == old(self).pooled()
                && final(self).required() == old(self).required(),
    {
        if !enabled {
            return Ok(());
        }
        if charset.len() == 0 {
            return Err(AssemblyError::EmptyPool);
        }
        let mut rng = thread_rng();
        match choose_byte(charset, &mut rng) {
            Some(b) => {
                self.chars.extend_from_slice(charset);
                self.required_chars.push(b);
                assert(self.chars@ =~= old(self).chars@ + charset@);
                assert(self.required_chars@.drop_last() =~= old(self).required_chars@);
                Ok(())
            },
            None => Err(AssemblyError::EmptyPool),
        }
    }

    /// The pooled characters and the representatives, in that order.
    pub fn build(self) -> (r: (Vec<u8>, Vec<u8>))
        ensures
            r.0@ == self.pooled(),
            r.1@ == self.required(),
    {
        (self.chars, self.required_chars)
    }
}

/// Every byte of a class's pool is a character of that class, and the pool
/// is not empty.
pub proof fn pool_holds_its_class(c: CharacterClass)
    ensures
        c.spec_pool().len() > 0,
        forall|i: int|
            0 <= i < c.spec_pool().len() ==> class_of(#[trigger] c.spec_pool()[i] as char)
                == Some(c),
{
}

/// Where a character of a class stands in the pool of its class.
pub open spec fn pool_index(ch: char) -> int {
    if 'A' <= ch <= 'H' {
        ch as int - 'A' as int
    } else if 'J' <= ch <= 'N' {
        ch as int - 'A' as int - 1
    } else if 'P' <= ch <= 'Z' {
        ch as int - 'A' as int - 2
    } else if 'a' <= ch <= 'k' {
        ch as int - 'a' as int
    } else if 'm' <= ch <= 'z' {
        ch as int - 'a' as int - 1
    } else if '1' <= ch <= '9' {
        ch as int - '1' as int
    } else if ch == '!' {
        0
    } else if ch == '@' {
        1
    } else if ch == '#' {
        2
    } else if ch == '$' {
        3
    } else if ch == '%' {
        4
    } else if ch == '^' {
        5
    } else if ch == '&' {
        6
    } else if ch == '*' {
        7
    } else {
        8
    }
}

/// Every character of a class stands in the pool of that class: the pools
/// leave out no character that `class_of` admits.
pub proof fn class_members_are_pooled(ch: char, c: CharacterClass)
    requires
        class_of(ch) == Some(c),
    ensures
        (ch as u8) as char == ch,
        c.spec_pool().contains(ch as u8),
{
    let i = pool_index(ch);
    assert(0 <= i < c.spec_pool().len());
    assert(c.spec_pool()[i] == ch as u8);
}

/// No byte stands in the pools of two classes.
pub proof fn pools_are_disjoint(a: CharacterClass, b: CharacterClass, x: u8)
    requires
        a.spec_pool().contains(x),
        b.spec_pool().contains(x),
    ensures
        a == b,
{
    pool_holds_its_class(a);
    pool_holds_its_class(b);
}

} // verus!
