//! Random display names: an adjective, a noun, and a number if wanted.

use vstd::prelude::*;
use vstd::string::*;
use crate::random::{pick, rand_num, thread_rng};

verus! {

/// A naming strategy for the [`Generator`].
#[derive(Clone, Copy, Debug, PartialEq, Eq, Structural)]
pub enum Name {
    /// A plain name of the form `ADJECTIVE-NOUN`.
    Plain,
    /// A name with a number of four digits appended, of the form
    /// `ADJECTIVE-NOUN-NUMBER`.
    Numbered,
}

impl Default for Name {
    fn default() -> (naming: Self)
        ensures
            naming == Name::Plain,
    {
        Name::Plain
    }
}

/// The character of a decimal digit.
pub open spec fn digit(value: int) -> char {
    if value == 0 {
        '0'
    } else if value == 1 {
        '1'
    } else if value == 2 {
        '2'
    } else if value == 3 {
        '3'
    } else if value == 4 {
        '4'
    } else if value == 5 {
        '5'
    } else if value == 6 {
        '6'
    } else if value == 7 {
        '7'
    } else if value == 8 {
        '8'
    } else {
        '9'
    }
}

/// A number in decimal digits, filled up with leading zeros to four digits.
/// A number from 10000 on has five.
pub open spec fn four_digits(number: int) -> Seq<char> {
    let low = seq![
        digit(number / 1000 % 10),
        digit(number / 100 % 10),
        digit(number / 10 % 10),
        digit(number % 10),
    ];
    if number < 10000 {
        low
    } else {
        seq![digit(number / 10000)] + low
    }
}

/// The name made of an adjective and a noun, and of the number where the
/// strategy asks for one.
pub open spec fn composed(adjective: Seq<char>, noun: Seq<char>, naming: Name, number: int) -> Seq<
    char,
> {
    match naming {
        Name::Plain => adjective + "-"@ + noun,
        Name::Numbered => adjective + "-"@ + noun + "-"@ + four_digits(number),
    }
}

/// The character of a decimal digit.
fn digit_char(value: u16) -> (c: char)
    requires
        value < 10,
    ensures
        c == digit(value as int),
{
    if value == 0 {
        '0'
    } else if value == 1 {
        '1'
    } else if value == 2 {
        '2'
    } else if value == 3 {
        '3'
    } else if value == 4 {
        '4'
    } else if value == 5 {
        '5'
    } else if value == 6 {
        '6'
    } else if value == 7 {
        '7'
    } else if value == 8 {
        '8'
    } else {
        '9'
    }
}

/// The name made of an adjective and a noun, and of the number where the
/// strategy asks for one.
pub fn compose(adjective: &str, noun: &str, naming: Name, number: u16) -> (name: String)
    ensures
        name@ == composed(adjective@, noun@, naming, number as int),
{
    let mut name = String::from_str(adjective);
    name.append("-");
    name.append(noun);
    match naming {
        Name::Plain => {},
        Name::Numbered => {
            name.append("-");
            if number >= 10000 {
                name.push(digit_char(number / 10000));
            }
            name.push(digit_char(number / 1000 % 10));
            name.push(digit_char(number / 100 % 10));
            name.push(digit_char(number / 10 % 10));
            name.push(digit_char(number % 10));
        },
    }
    name
}

/// A random name generator which combines an adjective, a noun, and an
/// optional number.
pub struct Generator<'a> {
    adjectives: Vec<&'a str>,
    nouns: Vec<&'a str>,
    naming: Name,
    rng: rand::rngs::ThreadRng,
}

/// The mathematical value of a [`Generator`]: what it chooses from, and how
/// it names.
pub struct GeneratorView {
    pub adjectives: Seq<Seq<char>>,
    pub nouns: Seq<Seq<char>>,
    pub naming: Name,
}

/// The characters of each word of a list.
pub open spec fn words(list: Seq<&str>) -> Seq<Seq<char>> {
    list.map_values(|word: &str| word@)
}

impl<'a> View for Generator<'a> {
    type V = GeneratorView;

    closed spec fn view(&self) -> GeneratorView {
        GeneratorView {
            adjectives: words(self.adjectives@),
            nouns: words(self.nouns@),
            naming: self.naming,
        }
    }
}

impl<'a> Generator<'a> {
    /// A generator that chooses from the given adjectives and nouns.
    pub fn new(adjectives: Vec<&'a str>, nouns: Vec<&'a str>, naming: Name) -> (generator: Self)
        ensures
            generator@ == (GeneratorView {
                adjectives: words(adjectives@),
                nouns: words(nouns@),
                naming,
            }),
    {
        Generator { adjectives, nouns, naming, rng: thread_rng() }
    }

    /// The next name: one of the adjectives and one of the nouns, chosen at
    /// random, and for a numbered name a random number from 1 to 9999.
    /// There is no name when there is no adjective or no noun to choose.
    pub fn next(&mut self) -> (name: Option<String>)
        ensures
            final(self)@ == old(self)@,
            match name {
                None => old(self)@.adjectives.len() == 0 || old(self)@.nouns.len() == 0,
                Some(name) => exists|adjective: Seq<char>, noun: Seq<char>, number: int|
                    {
                        &&& old(self)@.adjectives.contains(adjective)
                        &&& old(self)@.nouns.contains(noun)
                        &&& 1 <= number < 10000
                        &&& name@ == #[trigger] composed(
                            adjective,
                            noun,
                            old(self)@.naming,
                            number,
                        )
                    },
            },
    {
        let adjective = match pick(&self.adjectives, &mut self.rng) {
            Some(adjective) => adjective,
            None => {
                return None;
            },
        };
        let noun = match pick(&self.nouns, &mut self.rng) {
            Some(noun) => noun,
            None => {
                return None;
            },
        };
        let number: u16 = rand_num(&mut self.rng);
        let name = compose(adjective, noun, self.naming, number);
        proof {
            let i = choose|i: int| 0 <= i < self.adjectives@.len() && self.adjectives@[i] == adjective;
            assert(words(self.adjectives@)[i] == adjective@);
            let j = choose|j: int| 0 <= j < self.nouns@.len() && self.nouns@[j] == noun;
            assert(words(self.nouns@)[j] == noun@);
        }
        Some(name)
    }
}

} // verus!
