//! The nine abstract symbols of a seed and their assignment to digits.

use rand::rngs::ThreadRng;
use vstd::prelude::*;
use crate::grid::is_digit;
use crate::random::{is_permutation, random_permutation};

verus! {

/// One of the nine abstract symbols that a seed is written in.
#[derive(Copy, Clone, Debug, PartialEq, Eq, PartialOrd, Ord, Hash, Structural)]
pub enum Token {
    A,
    B,
    C,
    D,
    E,
    F,
    G,
    H,
    I,
}

/// The character that marks an unsolved cell.
pub const BLANK: char = '-';

impl Token {
    /// The position of the symbol in alphabetical order, from 0 to 8.
    pub open spec fn index(self) -> int {
        match self {
            Token::A => 0,
            Token::B => 1,
            Token::C => 2,
            Token::D => 3,
            Token::E => 4,
            Token::F => 5,
            Token::G => 6,
            Token::H => 7,
            Token::I => 8,
        }
    }

    /// The lowercase letter that stands for the symbol in a seed string.
    pub open spec fn letter(self) -> char {
        match self {
            Token::A => 'a',
            Token::B => 'b',
            Token::C => 'c',
            Token::D => 'd',
            Token::E => 'e',
            Token::F => 'f',
            Token::G => 'g',
            Token::H => 'h',
            Token::I => 'i',
        }
    }

    /// The position of the symbol in alphabetical order.
    pub fn ordinal(self) -> (k: usize)
        ensures
            k == self.index(),
            k < 9,
    {
        match self {
            Token::A => 0,
            Token::B => 1,
            Token::C => 2,
            Token::D => 3,
            Token::E => 4,
            Token::F => 5,
            Token::G => 6,
            Token::H => 7,
            Token::I => 8,
        }
    }
}

/// Whether `c` is one of the letters `a` to `i`, which stand for the symbols.
pub open spec fn is_letter(c: char) -> bool {
    'a' <= c <= 'i'
}

/// The symbol that a seed character stands for, if it is one of the nine
/// letters: the symbol whose place in the alphabet is that of the letter.
pub open spec fn token_of(c: char) -> Option<Token> {
    if is_letter(c) {
        Some(token_at(c as int - 'a' as int))
    } else {
        None
    }
}

/// A character stands for a symbol exactly if it is the letter of that symbol.
pub proof fn lemma_letters_are_tokens(c: char)
    ensures
        is_letter(c) <==> token_of(c) is Some,
        forall|t: Token| token_of(c) == Some(t) <==> t.letter() == c,
{
}

/// Reads a seed character: one of the letters `a` to `i` is a symbol, anything
/// else (the blank marker in particular) is none.
pub fn char_to_token(c: char) -> (token: Option<Token>)
    ensures
        token == token_of(c),
        match token {
            Some(t) => t.letter() == c,
            None => forall|t: Token| t.letter() != c,
        },
{
    let token = match c {
        'a' => Some(Token::A),
        'b' => Some(Token::B),
        'c' => Some(Token::C),
        'd' => Some(Token::D),
        'e' => Some(Token::E),
        'f' => Some(Token::F),
        'g' => Some(Token::G),
        'h' => Some(Token::H),
        'i' => Some(Token::I),
        _ => None,
    };
    token
}

/// The digit with the given rank: `1` for rank 0, up to `9` for rank 8.
pub open spec fn digit_of_rank(rank: int) -> char {
    if rank == 0 {
        '1'
    } else if rank == 1 {
        '2'
    } else if rank == 2 {
        '3'
    } else if rank == 3 {
        '4'
    } else if rank == 4 {
        '5'
    } else if rank == 5 {
        '6'
    } else if rank == 6 {
        '7'
    } else if rank == 7 {
        '8'
    } else {
        '9'
    }
}

/// An assignment of a character to each of the nine symbols. `digits[k]` is
/// what the symbol with ordinal `k` is written as.
#[derive(Copy, Clone, Debug, PartialEq, Eq)]
pub struct TokenMap {
    pub digits: [char; 9],
}

impl TokenMap {
    /// What `token` is written as.
    pub open spec fn digit(self, token: Token) -> char {
        self.digits[token.index()]
    }

    /// Whether some symbol is written as `d`.
    pub open spec fn writes(self, d: char) -> bool {
        exists|t: Token| self.digit(t) == d
    }

    /// Whether the assignment is a bijection from the nine symbols onto the
    /// nine digits: every symbol is written as a digit, no two symbols as the
    /// same, and every digit is in use.
    pub open spec fn is_bijection(self) -> bool {
        &&& forall|t: Token| is_digit(#[trigger] self.digit(t))
        &&& forall|t: Token, u: Token| #[trigger]
            self.digit(t) == #[trigger] self.digit(u) ==> t == u
        &&& forall|d: char| is_digit(d) ==> #[trigger] self.writes(d)
    }

    /// What a seed character becomes: a symbol becomes what it is written as,
    /// anything else becomes the blank marker.
    pub open spec fn substitute(self, c: char) -> char {
        match token_of(c) {
            Some(t) => self.digit(t),
            None => BLANK,
        }
    }

    /// What `token` is written as.
    pub fn get(&self, token: Token) -> (d: char)
        ensures
            d == self.digit(token),
    {
        self.digits[token.ordinal()]
    }

    /// The assignment that writes the symbol with ordinal `k` as the digit with
    /// rank `ranks[k]`.
    pub fn from_ranks(ranks: &[usize]) -> (token_map: TokenMap)
        requires
            ranks@.len() == 9,
            forall|k: int| 0 <= k < 9 ==> #[trigger] ranks@[k] < 9,
        ensures
            forall|t: Token| #[trigger]
                token_map.digit(t) == digit_of_rank(ranks@[t.index()] as int),
            is_permutation(ranks@) ==> token_map.is_bijection(),
    {
        let by_rank = ['1', '2', '3', '4', '5', '6', '7', '8', '9'];
        let mut digits = ['1';9];
        let mut k: usize = 0;
        while k < 9
            invariant
                k <= 9,
                ranks@.len() == 9,
                forall|i: int| 0 <= i < 9 ==> #[trigger] ranks@[i] < 9,
                forall|i: int| 0 <= i < 9 ==> #[trigger] by_rank[i] == digit_of_rank(i),
                forall|i: int| 0 <= i < k ==> #[trigger] digits[i] == digit_of_rank(
                    ranks@[i] as int,
                ),
            decreases 9 - k,
        {
            digits[k] = by_rank[ranks[k]];
            k += 1;
        }
        let token_map = TokenMap { digits };
        proof {
            if is_permutation(ranks@) {
                lemma_ranks_give_bijection(token_map, ranks@);
            }
        }
        token_map
    }
}

/// The token with the given ordinal.
pub open spec fn token_at(k: int) -> Token {
    if k == 0 {
        Token::A
    } else if k == 1 {
        Token::B
    } else if k == 2 {
        Token::C
    } else if k == 3 {
        Token::D
    } else if k == 4 {
        Token::E
    } else if k == 5 {
        Token::F
    } else if k == 6 {
        Token::G
    } else if k == 7 {
        Token::H
    } else {
        Token::I
    }
}

/// Ranks that are a permutation give a bijection.
pub proof fn lemma_ranks_give_bijection(token_map: TokenMap, ranks: Seq<usize>)
    requires
        ranks.len() == 9,
        is_permutation(ranks),
        forall|t: Token| #[trigger] token_map.digit(t) == digit_of_rank(ranks[t.index()] as int),
    ensures
        token_map.is_bijection(),
{
    assert forall|t: Token, u: Token| #[trigger]
        token_map.digit(t) == #[trigger] token_map.digit(u) implies t == u by {
        assert(ranks[t.index()] == ranks[u.index()]);
        assert(t.index() == u.index());
    }
    assert forall|d: char| is_digit(d) implies #[trigger] token_map.writes(d) by {
        let rank = (d as int - '1' as int) as usize;
        assert(digit_of_rank(rank as int) == d);
        assert(ranks.contains(rank));
        let k = choose|k: int| 0 <= k < 9 && ranks[k] == rank;
        assert(token_at(k).index() == k);
        assert(token_map.digit(token_at(k)) == d);
    }
}

/// A random bijection from the nine symbols onto the nine digits, each
/// bijection with the same chance.
pub fn get_token_map(rng: &mut ThreadRng) -> (token_map: TokenMap)
    ensures
        token_map.is_bijection(),
{
    let ranks = random_permutation(rng, 9);
    TokenMap::from_ranks(ranks.as_slice())
}

/// Writes every character of a seed string as the token map says: a symbol as
/// its digit, anything else as the blank marker.
pub fn replace_tokens(sequence: &str, token_map: &TokenMap) -> (replaced: Vec<char>)
    ensures
        replaced@.len() == sequence@.len(),
        forall|i: int|
            0 <= i < sequence@.len() ==> #[trigger] replaced@[i] == token_map.substitute(
                sequence@[i],
            ),
{
    let mut replaced: Vec<char> = Vec::new();
    for c in it: sequence.chars()
        invariant
            it.seq() == sequence@,
            replaced@.len() == it.index(),
            forall|i: int|
                0 <= i < replaced@.len() ==> #[trigger] replaced@[i] == token_map.substitute(
                    sequence@[i],
                ),
    {
        let written = match char_to_token(c) {
            Some(token) => token_map.get(token),
            None => BLANK,
        };
        replaced.push(written);
    }
    replaced
}

} // verus!
