use sudokugen::token::{char_to_token, get_token_map, replace_tokens, Token, TokenMap, BLANK};

fn tokens() -> [Token; 9] {
    [
        Token::A,
        Token::B,
        Token::C,
        Token::D,
        Token::E,
        Token::F,
        Token::G,
        Token::H,
        Token::I,
    ]
}

#[test]
fn letters_are_tokens() {
    assert_eq!(char_to_token('a'), Some(Token::A));
    assert_eq!(char_to_token('b'), Some(Token::B));
    assert_eq!(char_to_token('c'), Some(Token::C));
    assert_eq!(char_to_token('d'), Some(Token::D));
    assert_eq!(char_to_token('e'), Some(Token::E));
    assert_eq!(char_to_token('f'), Some(Token::F));
    assert_eq!(char_to_token('g'), Some(Token::G));
    assert_eq!(char_to_token('h'), Some(Token::H));
    assert_eq!(char_to_token('i'), Some(Token::I));
}

#[test]
fn other_characters_are_no_tokens() {
    assert_eq!(char_to_token('-'), None);
    assert_eq!(char_to_token('j'), None);
    assert_eq!(char_to_token('A'), None);
    assert_eq!(char_to_token('1'), None);
    assert_eq!(char_to_token('`'), None);
    assert_eq!(char_to_token('é'), None);
}

#[test]
fn ordinals_follow_the_alphabet() {
    for (k, token) in tokens().iter().enumerate() {
        assert_eq!(token.ordinal(), k);
    }
}

#[test]
fn blank_marker_is_a_hyphen() {
    assert_eq!(BLANK, '-');
}

#[test]
fn identity_ranks_give_the_digits_in_order() {
    let identity = TokenMap::from_ranks(&[0, 1, 2, 3, 4, 5, 6, 7, 8]);
    assert_eq!(identity.digits, ['1', '2', '3', '4', '5', '6', '7', '8', '9']);
    assert_eq!(identity.get(Token::A), '1');
    assert_eq!(identity.get(Token::E), '5');
    assert_eq!(identity.get(Token::I), '9');
}

#[test]
fn ranks_choose_the_digits() {
    let token_map = TokenMap::from_ranks(&[8, 0, 7, 1, 6, 2, 5, 3, 4]);
    assert_eq!(token_map.digits, ['9', '1', '8', '2', '7', '3', '6', '4', '5']);
    assert_eq!(token_map.get(Token::B), '1');
    assert_eq!(token_map.get(Token::G), '6');
}

#[test]
fn random_token_map_is_a_bijection_onto_the_digits() {
    let mut rng = rand::thread_rng();
    for _ in 0..100 {
        let token_map = get_token_map(&mut rng);
        let mut written: Vec<char> = tokens().iter().map(|t| token_map.get(*t)).collect();
        written.sort();
        assert_eq!(written, vec!['1', '2', '3', '4', '5', '6', '7', '8', '9']);
    }
}

#[test]
fn random_token_map_varies() {
    let mut rng = rand::thread_rng();
    let first = get_token_map(&mut rng);
    let mut differs = false;
    for _ in 0..20 {
        if get_token_map(&mut rng) != first {
            differs = true;
        }
    }
    assert!(differs);
}

#[test]
fn replace_tokens_writes_symbols_and_keeps_blanks() {
    let token_map = TokenMap::from_ranks(&[8, 7, 6, 5, 4, 3, 2, 1, 0]);
    assert_eq!(
        replace_tokens("a-bi--e", &token_map),
        vec!['9', '-', '8', '1', '-', '-', '5']
    );
    assert_eq!(replace_tokens("", &token_map), Vec::<char>::new());
}

#[test]
fn replace_tokens_blanks_what_is_no_symbol() {
    let token_map = TokenMap::from_ranks(&[0, 1, 2, 3, 4, 5, 6, 7, 8]);
    assert_eq!(
        replace_tokens("xa7éi", &token_map),
        vec!['-', '1', '-', '-', '9']
    );
}
