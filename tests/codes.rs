use morse_decoder::code_table::{decode, encode, LONGEST_CODE};
use morse_decoder::symbol::{classify, render, Symbol};

fn parse(glyphs: &str) -> Vec<Symbol> {
    glyphs
        .chars()
        .map(|g| if g == '•' { Symbol::Dot } else { Symbol::Dash })
        .collect()
}

const TABLE: [(char, &str); 54] = [
    ('A', "•-"), ('B', "-•••"), ('C', "-•-•"), ('D', "-••"), ('E', "•"), ('F', "••-•"),
    ('G', "--•"), ('H', "••••"), ('I', "••"), ('J', "•---"), ('K', "-•-"), ('L', "•-••"),
    ('M', "--"), ('N', "-•"), ('O', "---"), ('P', "•--•"), ('Q', "--•-"), ('R', "•-•"),
    ('S', "•••"), ('T', "-"), ('U', "••-"), ('V', "•••-"), ('W', "•--"), ('X', "-••-"),
    ('Y', "-•--"), ('Z', "--••"), ('0', "-----"), ('1', "•----"), ('2', "••---"),
    ('3', "•••--"), ('4', "••••-"), ('5', "•••••"), ('6', "-••••"), ('7', "--•••"),
    ('8', "---••"), ('9', "----•"), ('.', "•-•-•-"), (',', "--••--"), ('?', "••--••"),
    ('\'', "•----•"), ('/', "-••-•"), ('!', "-•-•--"), ('(', "-•--•"), (')', "-•--•-"),
    ('&', "•-•••"), (':', "---•••"), (';', "-•-•-•"), ('=', "-•••-"), ('+', "•-•-•"),
    ('-', "-••••-"), ('_', "••--•-"), ('"', "•-••-•"), ('$', "•••-••-"), ('@', "•--•-•"),
];

#[test]
fn short_press_is_dot() {
    assert_eq!(classify(0, 150_000), Symbol::Dot);
    assert_eq!(classify(100_000, 150_000), Symbol::Dot);
    assert_eq!(classify(149_999, 150_000), Symbol::Dot);
}

#[test]
fn threshold_press_is_dash() {
    assert_eq!(classify(150_000, 150_000), Symbol::Dash);
    assert_eq!(classify(200_000, 150_000), Symbol::Dash);
    assert_eq!(classify(u64::MAX, 150_000), Symbol::Dash);
}

#[test]
fn glyphs_render_in_order() {
    let s = vec![Symbol::Dot, Symbol::Dash, Symbol::Dot];
    assert_eq!(render(&s), vec!['•', '-', '•']);
    assert_eq!(render(&Vec::new()), Vec::<char>::new());
}

#[test]
fn every_entry_decodes() {
    for (c, code) in TABLE.iter() {
        assert_eq!(decode(&parse(code)), Some(*c), "code {}", code);
    }
}

#[test]
fn every_entry_encodes() {
    for (c, code) in TABLE.iter() {
        assert_eq!(encode(*c), Some(parse(code)), "char {}", c);
    }
}

#[test]
fn encode_then_decode_gives_char_back() {
    for (c, _) in TABLE.iter() {
        let code = encode(*c).unwrap();
        assert!(code.len() <= LONGEST_CODE);
        assert_eq!(decode(&code), Some(*c));
    }
}

#[test]
fn codes_are_pairwise_distinct() {
    for (i, (_, a)) in TABLE.iter().enumerate() {
        for (_, b) in TABLE.iter().skip(i + 1) {
            assert_ne!(a, b);
        }
    }
}

#[test]
fn unknown_sequences_decode_to_none() {
    assert_eq!(decode(&Vec::new()), None);
    assert_eq!(decode(&parse("-------")), None);
    assert_eq!(decode(&parse("••••••")), None);
    assert_eq!(decode(&parse("•-•-•-•-")), None);
}

#[test]
fn chars_outside_table_do_not_encode() {
    assert_eq!(encode('a'), None);
    assert_eq!(encode(' '), None);
    assert_eq!(encode('#'), None);
    assert_eq!(encode('é'), None);
}

#[test]
fn symbol_glyphs() {
    assert_eq!(Symbol::Dot.glyph(), '•');
    assert_eq!(Symbol::Dash.glyph(), '-');
}
