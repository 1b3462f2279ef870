use vstd::arithmetic::power2::{lemma2_to64, lemma_pow2_strictly_increases, lemma_pow2_unfold, pow2};
use vstd::prelude::*;

use crate::symbol::Symbol;

verus! {

/// The longest code in the table has this many symbols.
pub const LONGEST_CODE: usize = 7;

/// One more than the largest node that a code of at most `LONGEST_CODE`
/// symbols can reach.
pub const NODE_LIMIT: u64 = 256;

/// The branch that a symbol takes in the code tree: 0 for a dot, 1 for a dash.
pub open spec fn branch_of(s: Symbol) -> nat {
    match s {
        Symbol::Dot => 0,
        Symbol::Dash => 1,
    }
}

/// The node that `s` reaches in the code tree. The root, the empty sequence,
/// is node 1; a dot leads from node `n` to `2n`, a dash to `2n + 1`. Written
/// in binary, a node is a leading 1 followed by one bit per symbol.
pub open spec fn node_of(s: Seq<Symbol>) -> nat
    decreases s.len(),
{
    if s.len() == 0 {
        1
    } else {
        2 * node_of(s.drop_last()) + branch_of(s.last())
    }
}

/// The path from the root to node `n`, for `n >= 1`.
pub open spec fn symbols_of(n: nat) -> Seq<Symbol>
    decreases n,
{
    if n <= 1 {
        Seq::empty()
    } else {
        symbols_of(n / 2).push(if n % 2 == 0 { Symbol::Dot } else { Symbol::Dash })
    }
}

/// The code table: the character at each node of the code tree, if any.
/// After the leading 1, each 0 is a dot and each 1 a dash.
pub open spec fn char_of_node(n: u64) -> Option<char> {
    match n {
        0b1_01 => Some('A'),
        0b1_1000 => Some('B'),
        0b1_1010 => Some('C'),
        0b1_100 => Some('D'),
        0b1_0 => Some('E'),
        0b1_0010 => Some('F'),
        0b1_110 => Some('G'),
        0b1_0000 => Some('H'),
        0b1_00 => Some('I'),
        0b1_0111 => Some('J'),
        0b1_101 => Some('K'),
        0b1_0100 => Some('L'),
        0b1_11 => Some('M'),
        0b1_10 => Some('N'),
        0b1_111 => Some('O'),
        0b1_0110 => Some('P'),
        0b1_1101 => Some('Q'),
        0b1_010 => Some('R'),
        0b1_000 => Some('S'),
        0b1_1 => Some('T'),
        0b1_001 => Some('U'),
        0b1_0001 => Some('V'),
        0b1_011 => Some('W'),
        0b1_1001 => Some('X'),
        0b1_1011 => Some('Y'),
        0b1_1100 => Some('Z'),
        0b1_11111 => Some('0'),
        0b1_01111 => Some('1'),
        0b1_00111 => Some('2'),
        0b1_00011 => Some('3'),
        0b1_00001 => Some('4'),
        0b1_00000 => Some('5'),
        0b1_10000 => Some('6'),
        0b1_11000 => Some('7'),
        0b1_11100 => Some('8'),
        0b1_11110 => Some('9'),
        0b1_010101 => Some('.'),
        0b1_110011 => Some(','),
        0b1_001100 => Some('?'),
        0b1_011110 => Some('\''),
        0b1_10010 => Some('/'),
        0b1_101011 => Some('!'),
        0b1_10110 => Some('('),
        0b1_101101 => Some(')'),
        0b1_01000 => Some('&'),
        0b1_111000 => Some(':'),
        0b1_101010 => Some(';'),
        0b1_10001 => Some('='),
        0b1_01010 => Some('+'),
        0b1_100001 => Some('-'),
        0b1_001101 => Some('_'),
        0b1_010010 => Some('"'),
        0b1_0001001 => Some('$'),
        0b1_011010 => Some('@'),
        _ => None,
    }
}

/// What a finished symbol sequence decodes to, if it is the code of a
/// character.
pub open spec fn decoded(s: Seq<Symbol>) -> Option<char> {
    if node_of(s) < NODE_LIMIT {
        char_of_node(node_of(s) as u64)
    } else {
        None
    }
}

/// Whether `c` has an entry in the code table.
pub open spec fn in_table(c: char) -> bool {
    exists|n: u64| char_of_node(n) == Some(c)
}

/// The code of `c`, if the table has it.
pub open spec fn code_of(c: char) -> Option<Seq<Symbol>> {
    if in_table(c) {
        Some(symbols_of((choose|n: u64| char_of_node(n) == Some(c)) as nat))
    } else {
        None
    }
}

/// Every entry of the table lies at a node below `NODE_LIMIT`, that is, at
/// most `LONGEST_CODE` symbols deep.
pub proof fn lemma_table_nodes(n: u64)
    requires
        char_of_node(n) is Some,
    ensures
        1 <= n < NODE_LIMIT,
{
}

/// The table holds each character at one node only.
pub proof fn lemma_table_chars_distinct(n1: u64, n2: u64)
    requires
        char_of_node(n1) is Some,
        n1 != n2,
    ensures
        char_of_node(n1) != char_of_node(n2),
{
}

/// The path to a node leads back to it.
pub proof fn lemma_node_of_symbols(n: nat)
    requires
        n >= 1,
    ensures
        node_of(symbols_of(n)) == n,
    decreases n,
{
    if n > 1 {
        lemma_node_of_symbols(n / 2);
        let s = symbols_of(n);
        assert(s.drop_last() == symbols_of(n / 2));
    }
}

/// A sequence is the path to its own node.
pub proof fn lemma_symbols_of_node(s: Seq<Symbol>)
    ensures
        symbols_of(node_of(s)) == s,
    decreases s.len(),
{
    if s.len() > 0 {
        lemma_node_of_positive(s.drop_last());
        lemma_symbols_of_node(s.drop_last());
        let n = node_of(s);
        assert(n / 2 == node_of(s.drop_last()));
        assert(s == s.drop_last().push(s.last()));
    }
}

/// Every node is at least 1.
pub proof fn lemma_node_of_positive(s: Seq<Symbol>)
    ensures
        node_of(s) >= 1,
    decreases s.len(),
{
    if s.len() > 0 {
        lemma_node_of_positive(s.drop_last());
    }
}

/// A sequence of `k` symbols reaches a node in `[2^k, 2^(k+1))`.
pub proof fn lemma_node_bounds(s: Seq<Symbol>)
    ensures
        pow2(s.len()) <= node_of(s) < pow2(s.len() + 1),
    decreases s.len(),
{
    lemma_pow2_unfold(s.len() + 1);
    if s.len() > 0 {
        lemma_node_bounds(s.drop_last());
        lemma_pow2_unfold(s.len());
    } else {
        lemma2_to64();
    }
}

/// Decoding the code of a character gives that character back.
pub proof fn lemma_round_trip(c: char)
    requires
        in_table(c),
    ensures
        code_of(c) is Some,
        decoded(code_of(c)->0) == Some(c),
{
    let n = choose|n: u64| char_of_node(n) == Some(c);
    lemma_table_nodes(n);
    lemma_node_of_symbols(n as nat);
}

/// No two distinct entries of the table share a code or a character, so a
/// finished sequence decodes to at most one character.
pub proof fn lemma_codes_distinct(c1: char, c2: char)
    requires
        in_table(c1),
        in_table(c2),
        c1 != c2,
    ensures
        code_of(c1) != code_of(c2),
{
    lemma_round_trip(c1);
    lemma_round_trip(c2);
}

/// The character at node `n` of the code table.
fn char_at_node(n: u64) -> (r: Option<char>)
    ensures
        r == char_of_node(n),
{
    match n {
        0b1_01 => Some('A'),
        0b1_1000 => Some('B'),
        0b1_1010 => Some('C'),
        0b1_100 => Some('D'),
        0b1_0 => Some('E'),
        0b1_0010 => Some('F'),
        0b1_110 => Some('G'),
        0b1_0000 => Some('H'),
        0b1_00 => Some('I'),
        0b1_0111 => Some('J'),
        0b1_101 => Some('K'),
        0b1_0100 => Some('L'),
        0b1_11 => Some('M'),
        0b1_10 => Some('N'),
        0b1_111 => Some('O'),
        0b1_0110 => Some('P'),
        0b1_1101 => Some('Q'),
        0b1_010 => Some('R'),
        0b1_000 => Some('S'),
        0b1_1 => Some('T'),
        0b1_001 => Some('U'),
        0b1_0001 => Some('V'),
        0b1_011 => Some('W'),
        0b1_1001 => Some('X'),
        0b1_1011 => Some('Y'),
        0b1_1100 => Some('Z'),
        0b1_11111 => Some('0'),
        0b1_01111 => Some('1'),
        0b1_00111 => Some('2'),
        0b1_00011 => Some('3'),
        0b1_00001 => Some('4'),
        0b1_00000 => Some('5'),
        0b1_10000 => Some('6'),
        0b1_11000 => Some('7'),
        0b1_11100 => Some('8'),
        0b1_11110 => Some('9'),
        0b1_010101 => Some('.'),
        0b1_110011 => Some(','),
        0b1_001100 => Some('?'),
        0b1_011110 => Some('\''),
        0b1_10010 => Some('/'),
        0b1_101011 => Some('!'),
        0b1_10110 => Some('('),
        0b1_101101 => Some(')'),
        0b1_01000 => Some('&'),
        0b1_111000 => Some(':'),
        0b1_101010 => Some(';'),
        0b1_10001 => Some('='),
        0b1_01010 => Some('+'),
        0b1_100001 => Some('-'),
        0b1_001101 => Some('_'),
        0b1_010010 => Some('"'),
        0b1_0001001 => Some('$'),
        0b1_011010 => Some('@'),
        _ => None,
    }
}

/// Looks a finished symbol sequence up in the code table.
pub fn decode(symbols: &Vec<Symbol>) -> (r: Option<char>)
    ensures
        r == decoded(symbols@),
{
    if symbols.len() > LONGEST_CODE {
        proof {
            lemma_node_bounds(symbols@);
            lemma2_to64();
            if symbols@.len() > 8 {
                lemma_pow2_strictly_increases(8, symbols@.len());
            }
        }
        return None;
    }
    let mut n: u64 = 1;
    let mut i: usize = 0;
    while i < symbols.len()
        invariant
            i <= symbols.len() <= LONGEST_CODE,
            n == node_of(symbols@.subrange(0, i as int)),
        decreases symbols.len() - i,
    {
        proof {
            lemma_node_bounds(symbols@.subrange(0, i as int));
            lemma2_to64();
            if i < 6 {
                lemma_pow2_strictly_increases((i + 1) as nat, 7);
            }
            assert(symbols@.subrange(0, i + 1).drop_last() == symbols@.subrange(0, i as int));
        }
        n = match symbols[i] {
            Symbol::Dot => 2 * n,
            Symbol::Dash => 2 * n + 1,
        };
        i = i + 1;
    }
    assert(symbols@.subrange(0, i as int) == symbols@);
    char_at_node(n)
}

/// Appends the path to node `n` to `out`.
fn push_path(n: u64, out: &mut Vec<Symbol>)
    requires
        n >= 1,
    ensures
        final(out)@ == old(out)@ + symbols_of(n as nat),
    decreases n,
{
    if n > 1 {
        push_path(n / 2, out);
        if n % 2 == 0 {
            out.push(Symbol::Dot);
        } else {
            out.push(Symbol::Dash);
        }
    }
}

/// The code of `c`, if the table has an entry for it.
pub fn encode(c: char) -> (r: Option<Vec<Symbol>>)
    ensures
        r is Some <==> in_table(c),
        r matches Some(v) ==> code_of(c) == Some(v@),
{
    let mut n: u64 = 1;
    while n < NODE_LIMIT
        invariant
            1 <= n <= NODE_LIMIT,
            forall|m: u64| 1 <= m < n ==> char_of_node(m) != Some(c),
        decreases NODE_LIMIT - n,
    {
        if let Some(x) = char_at_node(n) {
            if x == c {
                proof {
                    let m = choose|m: u64| char_of_node(m) == Some(c);
                    if m != n {
                        lemma_table_chars_distinct(n, m);
                    }
                }
                let mut v: Vec<Symbol> = Vec::new();
                push_path(n, &mut v);
                assert(v@ == symbols_of(n as nat));
                return Some(v);
            }
        }
        n = n + 1;
    }
    proof {
        if in_table(c) {
            let m = choose|m: u64| char_of_node(m) == Some(c);
            lemma_table_nodes(m);
        }
    }
    None
}

} // verus!
