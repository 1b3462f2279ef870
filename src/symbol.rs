use vstd::prelude::*;

verus! {

/// One element of a Morse code: a short or a long press.
#[derive(Clone, Copy, Debug, PartialEq, Eq, Structural)]
pub enum Symbol {
    Dot,
    Dash,
}

/// The symbol that a press lasting `elapsed` stands for: strictly below
/// `threshold` it is a dot, from `threshold` on a dash.
pub open spec fn symbol_for(elapsed: u64, threshold: u64) -> Symbol {
    if elapsed < threshold {
        Symbol::Dot
    } else {
        Symbol::Dash
    }
}

/// The character shown for a symbol.
pub open spec fn glyph_of(s: Symbol) -> char {
    match s {
        Symbol::Dot => '•',
        Symbol::Dash => '-',
    }
}

/// Classifies a press of `elapsed` microseconds against `threshold`.
pub fn classify(elapsed: u64, threshold: u64) -> (r: Symbol)
    ensures
        r == symbol_for(elapsed, threshold),
        elapsed < threshold ==> r == Symbol::Dot,
        elapsed >= threshold ==> r == Symbol::Dash,
{
    if elapsed < threshold {
        Symbol::Dot
    } else {
        Symbol::Dash
    }
}

impl Symbol {
    /// The display character of this symbol: `•` for a dot, `-` for a dash.
    pub fn glyph(&self) -> (r: char)
        ensures
            r == glyph_of(*self),
    {
        match self {
            Symbol::Dot => '•',
            Symbol::Dash => '-',
        }
    }
}

/// Renders a sequence of symbols as their glyphs, one character each.
pub open spec fn glyphs_of(s: Seq<Symbol>) -> Seq<char> {
    s.map_values(|x: Symbol| glyph_of(x))
}

/// The glyphs of `symbols`, in order.
pub fn render(symbols: &Vec<Symbol>) -> (r: Vec<char>)
    ensures
        r@ == glyphs_of(symbols@),
{
    let mut out: Vec<char> = Vec::new();
    let mut i: usize = 0;
    while i < symbols.len()
        invariant
            i <= symbols.len(),
            out@ == glyphs_of(symbols@.subrange(0, i as int)),
        decreases symbols.len() - i,
    {
        out.push(symbols[i].glyph());
        i = i + 1;
        assert(symbols@.subrange(0, i as int) == symbols@.subrange(0, i - 1).push(symbols@[i - 1]));
    }
    assert(symbols@.subrange(0, i as int) == symbols@);
    out
}

} // verus!
