//! The operators and punctuation marks.

use vstd::prelude::*;
use crate::text::chars_of;

verus! {

/// An operator or punctuation mark of one code point.
#[derive(Clone, Copy, Debug, PartialEq, Eq, Hash, Structural)]
pub enum Symbol {
    Ampersand,
    Asterisk,
    Backslash,
    Caret,
    Colon,
    Comma,
    Dot,
    DoubleQuote,
    Equal,
    Exclamation,
    GreaterThan,
    LessThan,
    Minus,
    ParenthesisLeft,
    ParenthesisRight,
    Percent,
    Pipe,
    Plus,
    Question,
    Semicolon,
    SingleQuote,
    Slash,
    SquareBracketLeft,
    SquareBracketRight,
    Tilde,
    CurlyBracketLeft,
    CurlyBracketRight,
}

/// An operator of two code points.
#[derive(Clone, Copy, Debug, PartialEq, Eq, Hash, Structural)]
pub enum DoubleSymbol {
    DoubleAmpersand,
    DoubleMinus,
    DoublePipe,
    DoublePlus,
    Pointer,
    DoubleGreaterThan,
    DoubleLessThan,
    LessThanEqual,
    GreaterThanEqual,
    DoubleEqual,
    ExclamationEqual,
    PlusEqual,
    MinusEqual,
    AsteriskEqual,
    SlashEqual,
    PercentEqual,
    AmpersandEqual,
    CaretEqual,
    PipeEqual,
}

/// An operator of three code points.
#[derive(Clone, Copy, Debug, PartialEq, Eq, Hash, Structural)]
pub enum TripleSymbol {
    LeftShiftEqual,
    RightShiftEqual,
}

/// Another name for the marks of one code point.
pub type SingleOperator = Symbol;

/// Another name for the operators of two code points.
pub type DoubleOperator = DoubleSymbol;

/// Another name for the operators of three code points.
pub type TripleOperator = TripleSymbol;

/// An operator of more than one code point.
#[derive(Clone, Copy, Debug, PartialEq, Eq, Hash, Structural)]
pub enum CompoundSymbol {
    Double(DoubleSymbol),
    Triple(TripleSymbol),
}

/// The mark that `c` is, if it is one.
pub open spec fn symbol_of(c: char) -> Option<Symbol> {
    if c == '&' {
        Some(Symbol::Ampersand)
    } else if c == '*' {
        Some(Symbol::Asterisk)
    } else if c == '\\' {
        Some(Symbol::Backslash)
    } else if c == '^' {
        Some(Symbol::Caret)
    } else if c == ':' {
        Some(Symbol::Colon)
    } else if c == ',' {
        Some(Symbol::Comma)
    } else if c == '.' {
        Some(Symbol::Dot)
    } else if c == '"' {
        Some(Symbol::DoubleQuote)
    } else if c == '=' {
        Some(Symbol::Equal)
    } else if c == '!' {
        Some(Symbol::Exclamation)
    } else if c == '>' {
        Some(Symbol::GreaterThan)
    } else if c == '<' {
        Some(Symbol::LessThan)
    } else if c == '-' {
        Some(Symbol::Minus)
    } else if c == '(' {
        Some(Symbol::ParenthesisLeft)
    } else if c == ')' {
        Some(Symbol::ParenthesisRight)
    } else if c == '%' {
        Some(Symbol::Percent)
    } else if c == '|' {
        Some(Symbol::Pipe)
    } else if c == '+' {
        Some(Symbol::Plus)
    } else if c == '?' {
        Some(Symbol::Question)
    } else if c == ';' {
        Some(Symbol::Semicolon)
    } else if c == '\'' {
        Some(Symbol::SingleQuote)
    } else if c == '/' {
        Some(Symbol::Slash)
    } else if c == '[' {
        Some(Symbol::SquareBracketLeft)
    } else if c == ']' {
        Some(Symbol::SquareBracketRight)
    } else if c == '~' {
        Some(Symbol::Tilde)
    } else if c == '{' {
        Some(Symbol::CurlyBracketLeft)
    } else if c == '}' {
        Some(Symbol::CurlyBracketRight)
    } else {
        None
    }
}

/// The operator that `a` followed by `b` is, if they make one.
pub open spec fn double_symbol_of(a: char, b: char) -> Option<DoubleSymbol> {
    if a == '&' && b == '&' {
        Some(DoubleSymbol::DoubleAmpersand)
    } else if a == '-' && b == '-' {
        Some(DoubleSymbol::DoubleMinus)
    } else if a == '|' && b == '|' {
        Some(DoubleSymbol::DoublePipe)
    } else if a == '+' && b == '+' {
        Some(DoubleSymbol::DoublePlus)
    } else if a == '-' && b == '>' {
        Some(DoubleSymbol::Pointer)
    } else if a == '>' && b == '>' {
        Some(DoubleSymbol::DoubleGreaterThan)
    } else if a == '<' && b == '<' {
        Some(DoubleSymbol::DoubleLessThan)
    } else if a == '<' && b == '=' {
        Some(DoubleSymbol::LessThanEqual)
    } else if a == '>' && b == '=' {
        Some(DoubleSymbol::GreaterThanEqual)
    } else if a == '=' && b == '=' {
        Some(DoubleSymbol::DoubleEqual)
    } else if a == '!' && b == '=' {
        Some(DoubleSymbol::ExclamationEqual)
    } else if a == '+' && b == '=' {
        Some(DoubleSymbol::PlusEqual)
    } else if a == '-' && b == '=' {
        Some(DoubleSymbol::MinusEqual)
    } else if a == '*' && b == '=' {
        Some(DoubleSymbol::AsteriskEqual)
    } else if a == '/' && b == '=' {
        Some(DoubleSymbol::SlashEqual)
    } else if a == '%' && b == '=' {
        Some(DoubleSymbol::PercentEqual)
    } else if a == '&' && b == '=' {
        Some(DoubleSymbol::AmpersandEqual)
    } else if a == '^' && b == '=' {
        Some(DoubleSymbol::CaretEqual)
    } else if a == '|' && b == '=' {
        Some(DoubleSymbol::PipeEqual)
    } else {
        None
    }
}

/// The operator that `a`, `b` and `c` in a row are, if they make one.
pub open spec fn triple_symbol_of(a: char, b: char, c: char) -> Option<TripleSymbol> {
    if a == '<' && b == '<' && c == '=' {
        Some(TripleSymbol::LeftShiftEqual)
    } else if a == '>' && b == '>' && c == '=' {
        Some(TripleSymbol::RightShiftEqual)
    } else {
        None
    }
}

/// The operator of two or three code points that `text` spells, if it
/// spells one.
pub open spec fn compound_symbol_of(text: Seq<char>) -> Option<CompoundSymbol> {
    if text.len() == 2 && double_symbol_of(text[0], text[1]) is Some {
        Some(CompoundSymbol::Double(double_symbol_of(text[0], text[1])->0))
    } else if text.len() == 3 && triple_symbol_of(text[0], text[1], text[2]) is Some {
        Some(CompoundSymbol::Triple(triple_symbol_of(text[0], text[1], text[2])->0))
    } else {
        None
    }
}

/// Whether `text` is the spelling of an operator or punctuation mark, of
/// any length.
pub open spec fn is_operator_spelling(text: Seq<char>) -> bool {
    (text.len() == 1 && symbol_of(text[0]) is Some) || compound_symbol_of(text) is Some
}

impl Symbol {
    /// The code point that the mark is written with.
    pub open spec fn spelling(self) -> char {
        match self {
            Symbol::Ampersand => '&',
            Symbol::Asterisk => '*',
            Symbol::Backslash => '\\',
            Symbol::Caret => '^',
            Symbol::Colon => ':',
            Symbol::Comma => ',',
            Symbol::Dot => '.',
            Symbol::DoubleQuote => '"',
            Symbol::Equal => '=',
            Symbol::Exclamation => '!',
            Symbol::GreaterThan => '>',
            Symbol::LessThan => '<',
            Symbol::Minus => '-',
            Symbol::ParenthesisLeft => '(',
            Symbol::ParenthesisRight => ')',
            Symbol::Percent => '%',
            Symbol::Pipe => '|',
            Symbol::Plus => '+',
            Symbol::Question => '?',
            Symbol::Semicolon => ';',
            Symbol::SingleQuote => '\'',
            Symbol::Slash => '/',
            Symbol::SquareBracketLeft => '[',
            Symbol::SquareBracketRight => ']',
            Symbol::Tilde => '~',
            Symbol::CurlyBracketLeft => '{',
            Symbol::CurlyBracketRight => '}',
        }
    }

    /// The code point that the mark is written with.
    pub fn to_char(&self) -> (c: char)
        ensures
            c == self.spelling(),
            symbol_of(c) == Some(*self),
    {
        match self {
            Symbol::Ampersand => '&',
            Symbol::Asterisk => '*',
            Symbol::Backslash => '\\',
            Symbol::Caret => '^',
            Symbol::Colon => ':',
            Symbol::Comma => ',',
            Symbol::Dot => '.',
            Symbol::DoubleQuote => '"',
            Symbol::Equal => '=',
            Symbol::Exclamation => '!',
            Symbol::GreaterThan => '>',
            Symbol::LessThan => '<',
            Symbol::Minus => '-',
            Symbol::ParenthesisLeft => '(',
            Symbol::ParenthesisRight => ')',
            Symbol::Percent => '%',
            Symbol::Pipe => '|',
            Symbol::Plus => '+',
            Symbol::Question => '?',
            Symbol::Semicolon => ';',
            Symbol::SingleQuote => '\'',
            Symbol::Slash => '/',
            Symbol::SquareBracketLeft => '[',
            Symbol::SquareBracketRight => ']',
            Symbol::Tilde => '~',
            Symbol::CurlyBracketLeft => '{',
            Symbol::CurlyBracketRight => '}',
        }
    }

    /// The mark that `c` is, if it is one.
    pub fn from_char(c: char) -> (r: Option<Symbol>)
        ensures
            r == symbol_of(c),
    {
        if c == '&' {
            Some(Symbol::Ampersand)
        } else if c == '*' {
            Some(Symbol::Asterisk)
        } else if c == '\\' {
            Some(Symbol::Backslash)
        } else if c == '^' {
            Some(Symbol::Caret)
        } else if c == ':' {
            Some(Symbol::Colon)
        } else if c == ',' {
            Some(Symbol::Comma)
        } else if c == '.' {
            Some(Symbol::Dot)
        } else if c == '"' {
            Some(Symbol::DoubleQuote)
        } else if c == '=' {
            Some(Symbol::Equal)
        } else if c == '!' {
            Some(Symbol::Exclamation)
        } else if c == '>' {
            Some(Symbol::GreaterThan)
        } else if c == '<' {
            Some(Symbol::LessThan)
        } else if c == '-' {
            Some(Symbol::Minus)
        } else if c == '(' {
            Some(Symbol::ParenthesisLeft)
        } else if c == ')' {
            Some(Symbol::ParenthesisRight)
        } else if c == '%' {
            Some(Symbol::Percent)
        } else if c == '|' {
            Some(Symbol::Pipe)
        } else if c == '+' {
            Some(Symbol::Plus)
        } else if c == '?' {
            Some(Symbol::Question)
        } else if c == ';' {
            Some(Symbol::Semicolon)
        } else if c == '\'' {
            Some(Symbol::SingleQuote)
        } else if c == '/' {
            Some(Symbol::Slash)
        } else if c == '[' {
            Some(Symbol::SquareBracketLeft)
        } else if c == ']' {
            Some(Symbol::SquareBracketRight)
        } else if c == '~' {
            Some(Symbol::Tilde)
        } else if c == '{' {
            Some(Symbol::CurlyBracketLeft)
        } else if c == '}' {
            Some(Symbol::CurlyBracketRight)
        } else {
            None
        }
    }
}

impl DoubleSymbol {
    /// The two code points that the operator is written with.
    pub open spec fn spelling(self) -> Seq<char> {
        match self {
            DoubleSymbol::DoubleAmpersand => seq!['&', '&'],
            DoubleSymbol::DoubleMinus => seq!['-', '-'],
            DoubleSymbol::DoublePipe => seq!['|', '|'],
            DoubleSymbol::DoublePlus => seq!['+', '+'],
            DoubleSymbol::Pointer => seq!['-', '>'],
            DoubleSymbol::DoubleGreaterThan => seq!['>', '>'],
            DoubleSymbol::DoubleLessThan => seq!['<', '<'],
            DoubleSymbol::LessThanEqual => seq!['<', '='],
            DoubleSymbol::GreaterThanEqual => seq!['>', '='],
            DoubleSymbol::DoubleEqual => seq!['=', '='],
            DoubleSymbol::ExclamationEqual => seq!['!', '='],
            DoubleSymbol::PlusEqual => seq!['+', '='],
            DoubleSymbol::MinusEqual => seq!['-', '='],
            DoubleSymbol::AsteriskEqual => seq!['*', '='],
            DoubleSymbol::SlashEqual => seq!['/', '='],
            DoubleSymbol::PercentEqual => seq!['%', '='],
            DoubleSymbol::AmpersandEqual => seq!['&', '='],
            DoubleSymbol::CaretEqual => seq!['^', '='],
            DoubleSymbol::PipeEqual => seq!['|', '='],
        }
    }

    /// The operator that `a` followed by `b` is, if they make one.
    pub fn from_chars(a: char, b: char) -> (r: Option<DoubleSymbol>)
        ensures
            r == double_symbol_of(a, b),
    {
        if a == '&' && b == '&' {
            Some(DoubleSymbol::DoubleAmpersand)
        } else if a == '-' && b == '-' {
            Some(DoubleSymbol::DoubleMinus)
        } else if a == '|' && b == '|' {
            Some(DoubleSymbol::DoublePipe)
        } else if a == '+' && b == '+' {
            Some(DoubleSymbol::DoublePlus)
        } else if a == '-' && b == '>' {
            Some(DoubleSymbol::Pointer)
        } else if a == '>' && b == '>' {
            Some(DoubleSymbol::DoubleGreaterThan)
        } else if a == '<' && b == '<' {
            Some(DoubleSymbol::DoubleLessThan)
        } else if a == '<' && b == '=' {
            Some(DoubleSymbol::LessThanEqual)
        } else if a == '>' && b == '=' {
            Some(DoubleSymbol::GreaterThanEqual)
        } else if a == '=' && b == '=' {
            Some(DoubleSymbol::DoubleEqual)
        } else if a == '!' && b == '=' {
            Some(DoubleSymbol::ExclamationEqual)
        } else if a == '+' && b == '=' {
            Some(DoubleSymbol::PlusEqual)
        } else if a == '-' && b == '=' {
            Some(DoubleSymbol::MinusEqual)
        } else if a == '*' && b == '=' {
            Some(DoubleSymbol::AsteriskEqual)
        } else if a == '/' && b == '=' {
            Some(DoubleSymbol::SlashEqual)
        } else if a == '%' && b == '=' {
            Some(DoubleSymbol::PercentEqual)
        } else if a == '&' && b == '=' {
            Some(DoubleSymbol::AmpersandEqual)
        } else if a == '^' && b == '=' {
            Some(DoubleSymbol::CaretEqual)
        } else if a == '|' && b == '=' {
            Some(DoubleSymbol::PipeEqual)
        } else {
            None
        }
    }
}

impl TripleSymbol {
    /// The three code points that the operator is written with.
    pub open spec fn spelling(self) -> Seq<char> {
        match self {
            TripleSymbol::LeftShiftEqual => seq!['<', '<', '='],
            TripleSymbol::RightShiftEqual => seq!['>', '>', '='],
        }
    }

    /// The operator that `a`, `b` and `c` in a row are, if they make one.
    pub fn from_chars(a: char, b: char, c: char) -> (r: Option<TripleSymbol>)
        ensures
            r == triple_symbol_of(a, b, c),
    {
        if a == '<' && b == '<' && c == '=' {
            Some(TripleSymbol::LeftShiftEqual)
        } else if a == '>' && b == '>' && c == '=' {
            Some(TripleSymbol::RightShiftEqual)
        } else {
            None
        }
    }
}

impl CompoundSymbol {
    /// The code points that the operator is written with.
    pub open spec fn spelling(self) -> Seq<char> {
        match self {
            CompoundSymbol::Double(d) => d.spelling(),
            CompoundSymbol::Triple(t) => t.spelling(),
        }
    }

    /// The operator of two or three code points that `text` spells, if it
    /// spells one.
    pub fn from_str(text: &str) -> (r: Option<CompoundSymbol>)
        ensures
            r == compound_symbol_of(text@),
    {
        let chars = chars_of(text);
        if chars.len() == 2 {
            match DoubleSymbol::from_chars(chars[0], chars[1]) {
                Some(d) => Some(CompoundSymbol::Double(d)),
                None => None,
            }
        } else if chars.len() == 3 {
            match TripleSymbol::from_chars(chars[0], chars[1], chars[2]) {
                Some(t) => Some(CompoundSymbol::Triple(t)),
                None => None,
            }
        } else {
            None
        }
    }
}

/// Whether `c` is an operator or punctuation mark.
pub fn is_symbol(c: char) -> (b: bool)
    ensures
        b == symbol_of(c) is Some,
{
    Symbol::from_char(c).is_some()
}

/// Each mark is found again from the code point it is written with.
pub proof fn lemma_symbol_of_spelling(s: Symbol)
    ensures
        symbol_of(s.spelling()) == Some(s),
{
}

/// Each compound operator is found again from its spelling, and a text that
/// spells a compound operator is that operator's spelling.
pub proof fn lemma_compound_symbol_spelling(text: Seq<char>, op: CompoundSymbol)
    ensures
        compound_symbol_of(op.spelling()) == Some(op),
        compound_symbol_of(text) == Some(op) ==> text == op.spelling(),
{
}

} // verus!
