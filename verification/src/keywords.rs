//! The reserved words of the language.

use vstd::prelude::*;
use crate::chars::{is_ident_continue, is_ident_start};
use crate::text::{chars_match, chars_of};

verus! {

/// A reserved word.
#[allow(non_camel_case_types)]
#[derive(Clone, Copy, Debug, PartialEq, Eq, Hash, Structural)]
pub enum Keyword {
    Alignas,
    Alignof,
    Auto,
    Bool,
    Break,
    Case,
    Char,
    Const,
    Constexpr,
    Continue,
    Default,
    Do,
    Double,
    Else,
    Enum,
    Extern,
    False,
    Float,
    For,
    Goto,
    If,
    Inline,
    Int,
    Long,
    Nullptr,
    Register,
    Restrict,
    Return,
    Short,
    Signed,
    Sizeof,
    Static,
    StaticAssert,
    Struct,
    Switch,
    ThreadLocal,
    True,
    Typedef,
    Typeof,
    TypeofUnqual,
    Union,
    Unsigned,
    Void,
    Volatile,
    While,
    _Atomic,
    _BitInt,
    _Complex,
    _Decimal128,
    _Decimal32,
    _Decimal64,
    _Generic,
    _Imaginary,
}

/// The reserved word that `text` spells, if it spells one.
pub open spec fn keyword_of(text: Seq<char>) -> Option<Keyword> {
    if text == "alignas"@ {
        Some(Keyword::Alignas)
    } else if text == "alignof"@ {
        Some(Keyword::Alignof)
    } else if text == "auto"@ {
        Some(Keyword::Auto)
    } else if text == "bool"@ {
        Some(Keyword::Bool)
    } else if text == "break"@ {
        Some(Keyword::Break)
    } else if text == "case"@ {
        Some(Keyword::Case)
    } else if text == "char"@ {
        Some(Keyword::Char)
    } else if text == "const"@ {
        Some(Keyword::Const)
    } else if text == "constexpr"@ {
        Some(Keyword::Constexpr)
    } else if text == "continue"@ {
        Some(Keyword::Continue)
    } else if text == "default"@ {
        Some(Keyword::Default)
    } else if text == "do"@ {
        Some(Keyword::Do)
    } else if text == "double"@ {
        Some(Keyword::Double)
    } else if text == "else"@ {
        Some(Keyword::Else)
    } else if text == "enum"@ {
        Some(Keyword::Enum)
    } else if text == "extern"@ {
        Some(Keyword::Extern)
    } else if text == "false"@ {
        Some(Keyword::False)
    } else if text == "float"@ {
        Some(Keyword::Float)
    } else if text == "for"@ {
        Some(Keyword::For)
    } else if text == "goto"@ {
        Some(Keyword::Goto)
    } else if text == "if"@ {
        Some(Keyword::If)
    } else if text == "inline"@ {
        Some(Keyword::Inline)
    } else if text == "int"@ {
        Some(Keyword::Int)
    } else if text == "long"@ {
        Some(Keyword::Long)
    } else if text == "nullptr"@ {
        Some(Keyword::Nullptr)
    } else if text == "register"@ {
        Some(Keyword::Register)
    } else if text == "restrict"@ {
        Some(Keyword::Restrict)
    } else if text == "return"@ {
        Some(Keyword::Return)
    } else if text == "short"@ {
        Some(Keyword::Short)
    } else if text == "signed"@ {
        Some(Keyword::Signed)
    } else if text == "sizeof"@ {
        Some(Keyword::Sizeof)
    } else if text == "static"@ {
        Some(Keyword::Static)
    } else if text == "static_assert"@ {
        Some(Keyword::StaticAssert)
    } else if text == "struct"@ {
        Some(Keyword::Struct)
    } else if text == "switch"@ {
        Some(Keyword::Switch)
    } else if text == "thread_local"@ {
        Some(Keyword::ThreadLocal)
    } else if text == "true"@ {
        Some(Keyword::True)
    } else if text == "typedef"@ {
        Some(Keyword::Typedef)
    } else if text == "typeof"@ {
        Some(Keyword::Typeof)
    } else if text == "typeof_unqual"@ {
        Some(Keyword::TypeofUnqual)
    } else if text == "union"@ {
        Some(Keyword::Union)
    } else if text == "unsigned"@ {
        Some(Keyword::Unsigned)
    } else if text == "void"@ {
        Some(Keyword::Void)
    } else if text == "volatile"@ {
        Some(Keyword::Volatile)
    } else if text == "while"@ {
        Some(Keyword::While)
    } else if text == "_Atomic"@ {
        Some(Keyword::_Atomic)
    } else if text == "_BitInt"@ {
        Some(Keyword::_BitInt)
    } else if text == "_Complex"@ {
        Some(Keyword::_Complex)
    } else if text == "_Decimal128"@ {
        Some(Keyword::_Decimal128)
    } else if text == "_Decimal32"@ {
        Some(Keyword::_Decimal32)
    } else if text == "_Decimal64"@ {
        Some(Keyword::_Decimal64)
    } else if text == "_Generic"@ {
        Some(Keyword::_Generic)
    } else if text == "_Imaginary"@ {
        Some(Keyword::_Imaginary)
    } else {
        None
    }
}

/// Whether `text` has the shape of an identifier: a letter or `_`, then
/// letters, digits and `_`.
pub open spec fn is_identifier(text: Seq<char>) -> bool {
    &&& text.len() > 0
    &&& is_ident_start(text[0])
    &&& forall|k: int| 0 <= k < text.len() ==> is_ident_continue(#[trigger] text[k])
}

impl Keyword {
    /// How the word is written.
    pub open spec fn spelling(self) -> Seq<char> {
        match self {
            Keyword::Alignas => "alignas"@,
            Keyword::Alignof => "alignof"@,
            Keyword::Auto => "auto"@,
            Keyword::Bool => "bool"@,
            Keyword::Break => "break"@,
            Keyword::Case => "case"@,
            Keyword::Char => "char"@,
            Keyword::Const => "const"@,
            Keyword::Constexpr => "constexpr"@,
            Keyword::Continue => "continue"@,
            Keyword::Default => "default"@,
            Keyword::Do => "do"@,
            Keyword::Double => "double"@,
            Keyword::Else => "else"@,
            Keyword::Enum => "enum"@,
            Keyword::Extern => "extern"@,
            Keyword::False => "false"@,
            Keyword::Float => "float"@,
            Keyword::For => "for"@,
            Keyword::Goto => "goto"@,
            Keyword::If => "if"@,
            Keyword::Inline => "inline"@,
            Keyword::Int => "int"@,
            Keyword::Long => "long"@,
            Keyword::Nullptr => "nullptr"@,
            Keyword::Register => "register"@,
            Keyword::Restrict => "restrict"@,
            Keyword::Return => "return"@,
            Keyword::Short => "short"@,
            Keyword::Signed => "signed"@,
            Keyword::Sizeof => "sizeof"@,
            Keyword::Static => "static"@,
            Keyword::StaticAssert => "static_assert"@,
            Keyword::Struct => "struct"@,
            Keyword::Switch => "switch"@,
            Keyword::ThreadLocal => "thread_local"@,
            Keyword::True => "true"@,
            Keyword::Typedef => "typedef"@,
            Keyword::Typeof => "typeof"@,
            Keyword::TypeofUnqual => "typeof_unqual"@,
            Keyword::Union => "union"@,
            Keyword::Unsigned => "unsigned"@,
            Keyword::Void => "void"@,
            Keyword::Volatile => "volatile"@,
            Keyword::While => "while"@,
            Keyword::_Atomic => "_Atomic"@,
            Keyword::_BitInt => "_BitInt"@,
            Keyword::_Complex => "_Complex"@,
            Keyword::_Decimal128 => "_Decimal128"@,
            Keyword::_Decimal32 => "_Decimal32"@,
            Keyword::_Decimal64 => "_Decimal64"@,
            Keyword::_Generic => "_Generic"@,
            Keyword::_Imaginary => "_Imaginary"@,
        }
    }

    /// How the word is written.
    pub fn as_str(&self) -> (s: &'static str)
        ensures
            s@ == self.spelling(),
    {
        match self {
            Keyword::Alignas => "alignas",
            Keyword::Alignof => "alignof",
            Keyword::Auto => "auto",
            Keyword::Bool => "bool",
            Keyword::Break => "break",
            Keyword::Case => "case",
            Keyword::Char => "char",
            Keyword::Const => "const",
            Keyword::Constexpr => "constexpr",
            Keyword::Continue => "continue",
            Keyword::Default => "default",
            Keyword::Do => "do",
            Keyword::Double => "double",
            Keyword::Else => "else",
            Keyword::Enum => "enum",
            Keyword::Extern => "extern",
            Keyword::False => "false",
            Keyword::Float => "float",
            Keyword::For => "for",
            Keyword::Goto => "goto",
            Keyword::If => "if",
            Keyword::Inline => "inline",
            Keyword::Int => "int",
            Keyword::Long => "long",
            Keyword::Nullptr => "nullptr",
            Keyword::Register => "register",
            Keyword::Restrict => "restrict",
            Keyword::Return => "return",
            Keyword::Short => "short",
            Keyword::Signed => "signed",
            Keyword::Sizeof => "sizeof",
            Keyword::Static => "static",
            Keyword::StaticAssert => "static_assert",
            Keyword::Struct => "struct",
            Keyword::Switch => "switch",
            Keyword::ThreadLocal => "thread_local",
            Keyword::True => "true",
            Keyword::Typedef => "typedef",
            Keyword::Typeof => "typeof",
            Keyword::TypeofUnqual => "typeof_unqual",
            Keyword::Union => "union",
            Keyword::Unsigned => "unsigned",
            Keyword::Void => "void",
            Keyword::Volatile => "volatile",
            Keyword::While => "while",
            Keyword::_Atomic => "_Atomic",
            Keyword::_BitInt => "_BitInt",
            Keyword::_Complex => "_Complex",
            Keyword::_Decimal128 => "_Decimal128",
            Keyword::_Decimal32 => "_Decimal32",
            Keyword::_Decimal64 => "_Decimal64",
            Keyword::_Generic => "_Generic",
            Keyword::_Imaginary => "_Imaginary",
        }
    }

    /// The reserved word that `s` spells; an error if it spells none.
    pub fn from_str(s: &str) -> (r: Result<Keyword, ()>)
        ensures
            r == match keyword_of(s@) {
                Some(k) => Ok::<Keyword, ()>(k),
                None => Err::<Keyword, ()>(()),
            },
    {
        let text = chars_of(s);
        if chars_match(&text, "alignas") {
            Ok(Keyword::Alignas)
        } else if chars_match(&text, "alignof") {
            Ok(Keyword::Alignof)
        } else if chars_match(&text, "auto") {
            Ok(Keyword::Auto)
        } else if chars_match(&text, "bool") {
            Ok(Keyword::Bool)
        } else if chars_match(&text, "break") {
            Ok(Keyword::Break)
        } else if chars_match(&text, "case") {
            Ok(Keyword::Case)
        } else if chars_match(&text, "char") {
            Ok(Keyword::Char)
        } else if chars_match(&text, "const") {
            Ok(Keyword::Const)
        } else if chars_match(&text, "constexpr") {
            Ok(Keyword::Constexpr)
        } else if chars_match(&text, "continue") {
            Ok(Keyword::Continue)
        } else if chars_match(&text, "default") {
            Ok(Keyword::Default)
        } else if chars_match(&text, "do") {
            Ok(Keyword::Do)
        } else if chars_match(&text, "double") {
            Ok(Keyword::Double)
        } else if chars_match(&text, "else") {
            Ok(Keyword::Else)
        } else if chars_match(&text, "enum") {
            Ok(Keyword::Enum)
        } else if chars_match(&text, "extern") {
            Ok(Keyword::Extern)
        } else if chars_match(&text, "false") {
            Ok(Keyword::False)
        } else if chars_match(&text, "float") {
            Ok(Keyword::Float)
        } else if chars_match(&text, "for") {
            Ok(Keyword::For)
        } else if chars_match(&text, "goto") {
            Ok(Keyword::Goto)
        } else if chars_match(&text, "if") {
            Ok(Keyword::If)
        } else if chars_match(&text, "inline") {
            Ok(Keyword::Inline)
        } else if chars_match(&text, "int") {
            Ok(Keyword::Int)
        } else if chars_match(&text, "long") {
            Ok(Keyword::Long)
        } else if chars_match(&text, "nullptr") {
            Ok(Keyword::Nullptr)
        } else if chars_match(&text, "register") {
            Ok(Keyword::Register)
        } else if chars_match(&text, "restrict") {
            Ok(Keyword::Restrict)
        } else if chars_match(&text, "return") {
            Ok(Keyword::Return)
        } else if chars_match(&text, "short") {
            Ok(Keyword::Short)
        } else if chars_match(&text, "signed") {
            Ok(Keyword::Signed)
        } else if chars_match(&text, "sizeof") {
            Ok(Keyword::Sizeof)
        } else if chars_match(&text, "static") {
            Ok(Keyword::Static)
        } else if chars_match(&text, "static_assert") {
            Ok(Keyword::StaticAssert)
        } else if chars_match(&text, "struct") {
            Ok(Keyword::Struct)
        } else if chars_match(&text, "switch") {
            Ok(Keyword::Switch)
        } else if chars_match(&text, "thread_local") {
            Ok(Keyword::ThreadLocal)
        } else if chars_match(&text, "true") {
            Ok(Keyword::True)
        } else if chars_match(&text, "typedef") {
            Ok(Keyword::Typedef)
        } else if chars_match(&text, "typeof") {
            Ok(Keyword::Typeof)
        } else if chars_match(&text, "typeof_unqual") {
            Ok(Keyword::TypeofUnqual)
        } else if chars_match(&text, "union") {
            Ok(Keyword::Union)
        } else if chars_match(&text, "unsigned") {
            Ok(Keyword::Unsigned)
        } else if chars_match(&text, "void") {
            Ok(Keyword::Void)
        } else if chars_match(&text, "volatile") {
            Ok(Keyword::Volatile)
        } else if chars_match(&text, "while") {
            Ok(Keyword::While)
        } else if chars_match(&text, "_Atomic") {
            Ok(Keyword::_Atomic)
        } else if chars_match(&text, "_BitInt") {
            Ok(Keyword::_BitInt)
        } else if chars_match(&text, "_Complex") {
            Ok(Keyword::_Complex)
        } else if chars_match(&text, "_Decimal128") {
            Ok(Keyword::_Decimal128)
        } else if chars_match(&text, "_Decimal32") {
            Ok(Keyword::_Decimal32)
        } else if chars_match(&text, "_Decimal64") {
            Ok(Keyword::_Decimal64)
        } else if chars_match(&text, "_Generic") {
            Ok(Keyword::_Generic)
        } else if chars_match(&text, "_Imaginary") {
            Ok(Keyword::_Imaginary)
        } else {
            Err(())
        }
    }
}

impl std::str::FromStr for Keyword {
    type Err = ();

    /// The reserved word that `s` spells; an error if it spells none.
    fn from_str(s: &str) -> (r: Result<Keyword, ()>)
        ensures
            r == match keyword_of(s@) {
                Some(k) => Ok::<Keyword, ()>(k),
                None => Err::<Keyword, ()>(()),
            },
    {
        Keyword::from_str(s)
    }
}

/// Makes known what each reserved word is spelled with.
pub proof fn lemma_reveal_spellings()
    ensures
        Keyword::Alignas.spelling() == seq!['a', 'l', 'i', 'g', 'n', 'a', 's'],
        Keyword::Alignof.spelling() == seq!['a', 'l', 'i', 'g', 'n', 'o', 'f'],
        Keyword::Auto.spelling() == seq!['a', 'u', 't', 'o'],
        Keyword::Bool.spelling() == seq!['b', 'o', 'o', 'l'],
        Keyword::Break.spelling() == seq!['b', 'r', 'e', 'a', 'k'],
        Keyword::Case.spelling() == seq!['c', 'a', 's', 'e'],
        Keyword::Char.spelling() == seq!['c', 'h', 'a', 'r'],
        Keyword::Const.spelling() == seq!['c', 'o', 'n', 's', 't'],
        Keyword::Constexpr.spelling() == seq!['c', 'o', 'n', 's', 't', 'e', 'x', 'p', 'r'],
        Keyword::Continue.spelling() == seq!['c', 'o', 'n', 't', 'i', 'n', 'u', 'e'],
        Keyword::Default.spelling() == seq!['d', 'e', 'f', 'a', 'u', 'l', 't'],
        Keyword::Do.spelling() == seq!['d', 'o'],
        Keyword::Double.spelling() == seq!['d', 'o', 'u', 'b', 'l', 'e'],
        Keyword::Else.spelling() == seq!['e', 'l', 's', 'e'],
        Keyword::Enum.spelling() == seq!['e', 'n', 'u', 'm'],
        Keyword::Extern.spelling() == seq!['e', 'x', 't', 'e', 'r', 'n'],
        Keyword::False.spelling() == seq!['f', 'a', 'l', 's', 'e'],
        Keyword::Float.spelling() == seq!['f', 'l', 'o', 'a', 't'],
        Keyword::For.spelling() == seq!['f', 'o', 'r'],
        Keyword::Goto.spelling() == seq!['g', 'o', 't', 'o'],
        Keyword::If.spelling() == seq!['i', 'f'],
        Keyword::Inline.spelling() == seq!['i', 'n', 'l', 'i', 'n', 'e'],
        Keyword::Int.spelling() == seq!['i', 'n', 't'],
        Keyword::Long.spelling() == seq!['l', 'o', 'n', 'g'],
        Keyword::Nullptr.spelling() == seq!['n', 'u', 'l', 'l', 'p', 't', 'r'],
        Keyword::Register.spelling() == seq!['r', 'e', 'g', 'i', 's', 't', 'e', 'r'],
        Keyword::Restrict.spelling() == seq!['r', 'e', 's', 't', 'r', 'i', 'c', 't'],
        Keyword::Return.spelling() == seq!['r', 'e', 't', 'u', 'r', 'n'],
        Keyword::Short.spelling() == seq!['s', 'h', 'o', 'r', 't'],
        Keyword::Signed.spelling() == seq!['s', 'i', 'g', 'n', 'e', 'd'],
        Keyword::Sizeof.spelling() == seq!['s', 'i', 'z', 'e', 'o', 'f'],
        Keyword::Static.spelling() == seq!['s', 't', 'a', 't', 'i', 'c'],
        Keyword::StaticAssert.spelling() == seq![
            's', 't', 'a', 't', 'i', 'c', '_', 'a', 's', 's', 'e', 'r', 't',
        ],
        Keyword::Struct.spelling() == seq!['s', 't', 'r', 'u', 'c', 't'],
        Keyword::Switch.spelling() == seq!['s', 'w', 'i', 't', 'c', 'h'],
        Keyword::ThreadLocal.spelling() == seq![
            't', 'h', 'r', 'e', 'a', 'd', '_', 'l', 'o', 'c', 'a', 'l',
        ],
        Keyword::True.spelling() == seq!['t', 'r', 'u', 'e'],
        Keyword::Typedef.spelling() == seq!['t', 'y', 'p', 'e', 'd', 'e', 'f'],
        Keyword::Typeof.spelling() == seq!['t', 'y', 'p', 'e', 'o', 'f'],
        Keyword::TypeofUnqual.spelling() == seq![
            't', 'y', 'p', 'e', 'o', 'f', '_', 'u', 'n', 'q', 'u', 'a', 'l',
        ],
        Keyword::Union.spelling() == seq!['u', 'n', 'i', 'o', 'n'],
        Keyword::Unsigned.spelling() == seq!['u', 'n', 's', 'i', 'g', 'n', 'e', 'd'],
        Keyword::Void.spelling() == seq!['v', 'o', 'i', 'd'],
        Keyword::Volatile.spelling() == seq!['v', 'o', 'l', 'a', 't', 'i', 'l', 'e'],
        Keyword::While.spelling() == seq!['w', 'h', 'i', 'l', 'e'],
        Keyword::_Atomic.spelling() == seq!['_', 'A', 't', 'o', 'm', 'i', 'c'],
        Keyword::_BitInt.spelling() == seq!['_', 'B', 'i', 't', 'I', 'n', 't'],
        Keyword::_Complex.spelling() == seq!['_', 'C', 'o', 'm', 'p', 'l', 'e', 'x'],
        Keyword::_Decimal128.spelling() == seq![
            '_', 'D', 'e', 'c', 'i', 'm', 'a', 'l', '1', '2', '8',
        ],
        Keyword::_Decimal32.spelling() == seq!['_', 'D', 'e', 'c', 'i', 'm', 'a', 'l', '3', '2'],
        Keyword::_Decimal64.spelling() == seq!['_', 'D', 'e', 'c', 'i', 'm', 'a', 'l', '6', '4'],
        Keyword::_Generic.spelling() == seq!['_', 'G', 'e', 'n', 'e', 'r', 'i', 'c'],
        Keyword::_Imaginary.spelling() == seq!['_', 'I', 'm', 'a', 'g', 'i', 'n', 'a', 'r', 'y'],
{
    reveal_strlit("alignas");
    assert("alignas"@ =~= seq!['a', 'l', 'i', 'g', 'n', 'a', 's']);
    reveal_strlit("alignof");
    assert("alignof"@ =~= seq!['a', 'l', 'i', 'g', 'n', 'o', 'f']);
    reveal_strlit("auto");
    assert("auto"@ =~= seq!['a', 'u', 't', 'o']);
    reveal_strlit("bool");
    assert("bool"@ =~= seq!['b', 'o', 'o', 'l']);
    reveal_strlit("break");
    assert("break"@ =~= seq!['b', 'r', 'e', 'a', 'k']);
    reveal_strlit("case");
    assert("case"@ =~= seq!['c', 'a', 's', 'e']);
    reveal_strlit("char");
    assert("char"@ =~= seq!['c', 'h', 'a', 'r']);
    reveal_strlit("const");
    assert("const"@ =~= seq!['c', 'o', 'n', 's', 't']);
    reveal_strlit("constexpr");
    assert("constexpr"@ =~= seq!['c', 'o', 'n', 's', 't', 'e', 'x', 'p', 'r']);
    reveal_strlit("continue");
    assert("continue"@ =~= seq!['c', 'o', 'n', 't', 'i', 'n', 'u', 'e']);
    reveal_strlit("default");
    assert("default"@ =~= seq!['d', 'e', 'f', 'a', 'u', 'l', 't']);
    reveal_strlit("do");
    assert("do"@ =~= seq!['d', 'o']);
    reveal_strlit("double");
    assert("double"@ =~= seq!['d', 'o', 'u', 'b', 'l', 'e']);
    reveal_strlit("else");
    assert("else"@ =~= seq!['e', 'l', 's', 'e']);
    reveal_strlit("enum");
    assert("enum"@ =~= seq!['e', 'n', 'u', 'm']);
    reveal_strlit("extern");
    assert("extern"@ =~= seq!['e', 'x', 't', 'e', 'r', 'n']);
    reveal_strlit("false");
    assert("false"@ =~= seq!['f', 'a', 'l', 's', 'e']);
    reveal_strlit("float");
    assert("float"@ =~= seq!['f', 'l', 'o', 'a', 't']);
    reveal_strlit("for");
    assert("for"@ =~= seq!['f', 'o', 'r']);
    reveal_strlit("goto");
    assert("goto"@ =~= seq!['g', 'o', 't', 'o']);
    reveal_strlit("if");
    assert("if"@ =~= seq!['i', 'f']);
    reveal_strlit("inline");
    assert("inline"@ =~= seq!['i', 'n', 'l', 'i', 'n', 'e']);
    reveal_strlit("int");
    assert("int"@ =~= seq!['i', 'n', 't']);
    reveal_strlit("long");
    assert("long"@ =~= seq!['l', 'o', 'n', 'g']);
    reveal_strlit("nullptr");
    assert("nullptr"@ =~= seq!['n', 'u', 'l', 'l', 'p', 't', 'r']);
    reveal_strlit("register");
    assert("register"@ =~= seq!['r', 'e', 'g', 'i', 's', 't', 'e', 'r']);
    reveal_strlit("restrict");
    assert("restrict"@ =~= seq!['r', 'e', 's', 't', 'r', 'i', 'c', 't']);
    reveal_strlit("return");
    assert("return"@ =~= seq!['r', 'e', 't', 'u', 'r', 'n']);
    reveal_strlit("short");
    assert("short"@ =~= seq!['s', 'h', 'o', 'r', 't']);
    reveal_strlit("signed");
    assert("signed"@ =~= seq!['s', 'i', 'g', 'n', 'e', 'd']);
    reveal_strlit("sizeof");
    assert("sizeof"@ =~= seq!['s', 'i', 'z', 'e', 'o', 'f']);
    reveal_strlit("static");
    assert("static"@ =~= seq!['s', 't', 'a', 't', 'i', 'c']);
    reveal_strlit("static_assert");
    assert("static_assert"@ =~= seq![
        's', 't', 'a', 't', 'i', 'c', '_', 'a', 's', 's', 'e', 'r', 't',
    ]);
    reveal_strlit("struct");
    assert("struct"@ =~= seq!['s', 't', 'r', 'u', 'c', 't']);
    reveal_strlit("switch");
    assert("switch"@ =~= seq!['s', 'w', 'i', 't', 'c', 'h']);
    reveal_strlit("thread_local");
    assert("thread_local"@ =~= seq!['t', 'h', 'r', 'e', 'a', 'd', '_', 'l', 'o', 'c', 'a', 'l']);
    reveal_strlit("true");
    assert("true"@ =~= seq!['t', 'r', 'u', 'e']);
    reveal_strlit("typedef");
    assert("typedef"@ =~= seq!['t', 'y', 'p', 'e', 'd', 'e', 'f']);
    reveal_strlit("typeof");
    assert("typeof"@ =~= seq!['t', 'y', 'p', 'e', 'o', 'f']);
    reveal_strlit("typeof_unqual");
    assert("typeof_unqual"@ =~= seq![
        't', 'y', 'p', 'e', 'o', 'f', '_', 'u', 'n', 'q', 'u', 'a', 'l',
    ]);
    reveal_strlit("union");
    assert("union"@ =~= seq!['u', 'n', 'i', 'o', 'n']);
    reveal_strlit("unsigned");
    assert("unsigned"@ =~= seq!['u', 'n', 's', 'i', 'g', 'n', 'e', 'd']);
    reveal_strlit("void");
    assert("void"@ =~= seq!['v', 'o', 'i', 'd']);
    reveal_strlit("volatile");
    assert("volatile"@ =~= seq!['v', 'o', 'l', 'a', 't', 'i', 'l', 'e']);
    reveal_strlit("while");
    assert("while"@ =~= seq!['w', 'h', 'i', 'l', 'e']);
    reveal_strlit("_Atomic");
    assert("_Atomic"@ =~= seq!['_', 'A', 't', 'o', 'm', 'i', 'c']);
    reveal_strlit("_BitInt");
    assert("_BitInt"@ =~= seq!['_', 'B', 'i', 't', 'I', 'n', 't']);
    reveal_strlit("_Complex");
    assert("_Complex"@ =~= seq!['_', 'C', 'o', 'm', 'p', 'l', 'e', 'x']);
    reveal_strlit("_Decimal128");
    assert("_Decimal128"@ =~= seq!['_', 'D', 'e', 'c', 'i', 'm', 'a', 'l', '1', '2', '8']);
    reveal_strlit("_Decimal32");
    assert("_Decimal32"@ =~= seq!['_', 'D', 'e', 'c', 'i', 'm', 'a', 'l', '3', '2']);
    reveal_strlit("_Decimal64");
    assert("_Decimal64"@ =~= seq!['_', 'D', 'e', 'c', 'i', 'm', 'a', 'l', '6', '4']);
    reveal_strlit("_Generic");
    assert("_Generic"@ =~= seq!['_', 'G', 'e', 'n', 'e', 'r', 'i', 'c']);
    reveal_strlit("_Imaginary");
    assert("_Imaginary"@ =~= seq!['_', 'I', 'm', 'a', 'g', 'i', 'n', 'a', 'r', 'y']);
}

/// Every reserved word has the shape of an identifier.
pub proof fn lemma_spelling_is_identifier(k: Keyword)
    ensures
        is_identifier(k.spelling()),
{
    lemma_reveal_spellings();
}

/// The spelling of a reserved word spells that word and no other.
pub proof fn lemma_keyword_of_spelling(k: Keyword)
    ensures
        keyword_of(k.spelling()) == Some(k),
{
    lemma_reveal_spellings();
    assert(Keyword::Alignas.spelling().len() == 7);
    assert(Keyword::Alignof.spelling().len() == 7);
    assert(Keyword::Auto.spelling().len() == 4);
    assert(Keyword::Bool.spelling().len() == 4);
    assert(Keyword::Break.spelling().len() == 5);
    assert(Keyword::Case.spelling().len() == 4);
    assert(Keyword::Char.spelling().len() == 4);
    assert(Keyword::Const.spelling().len() == 5);
    assert(Keyword::Constexpr.spelling().len() == 9);
    assert(Keyword::Continue.spelling().len() == 8);
    assert(Keyword::Default.spelling().len() == 7);
    assert(Keyword::Do.spelling().len() == 2);
    assert(Keyword::Double.spelling().len() == 6);
    assert(Keyword::Else.spelling().len() == 4);
    assert(Keyword::Enum.spelling().len() == 4);
    assert(Keyword::Extern.spelling().len() == 6);
    assert(Keyword::False.spelling().len() == 5);
    assert(Keyword::Float.spelling().len() == 5);
    assert(Keyword::For.spelling().len() == 3);
    assert(Keyword::Goto.spelling().len() == 4);
    assert(Keyword::If.spelling().len() == 2);
    assert(Keyword::Inline.spelling().len() == 6);
    assert(Keyword::Int.spelling().len() == 3);
    assert(Keyword::Long.spelling().len() == 4);
    assert(Keyword::Nullptr.spelling().len() == 7);
    assert(Keyword::Register.spelling().len() == 8);
    assert(Keyword::Restrict.spelling().len() == 8);
    assert(Keyword::Return.spelling().len() == 6);
    assert(Keyword::Short.spelling().len() == 5);
    assert(Keyword::Signed.spelling().len() == 6);
    assert(Keyword::Sizeof.spelling().len() == 6);
    assert(Keyword::Static.spelling().len() == 6);
    assert(Keyword::StaticAssert.spelling().len() == 13);
    assert(Keyword::Struct.spelling().len() == 6);
    assert(Keyword::Switch.spelling().len() == 6);
    assert(Keyword::ThreadLocal.spelling().len() == 12);
    assert(Keyword::True.spelling().len() == 4);
    assert(Keyword::Typedef.spelling().len() == 7);
    assert(Keyword::Typeof.spelling().len() == 6);
    assert(Keyword::TypeofUnqual.spelling().len() == 13);
    assert(Keyword::Union.spelling().len() == 5);
    assert(Keyword::Unsigned.spelling().len() == 8);
    assert(Keyword::Void.spelling().len() == 4);
    assert(Keyword::Volatile.spelling().len() == 8);
    assert(Keyword::While.spelling().len() == 5);
    assert(Keyword::_Atomic.spelling().len() == 7);
    assert(Keyword::_BitInt.spelling().len() == 7);
    assert(Keyword::_Complex.spelling().len() == 8);
    assert(Keyword::_Decimal128.spelling().len() == 11);
    assert(Keyword::_Decimal32.spelling().len() == 10);
    assert(Keyword::_Decimal64.spelling().len() == 10);
    assert(Keyword::_Generic.spelling().len() == 8);
    assert(Keyword::_Imaginary.spelling().len() == 10);
}

/// A text that spells a reserved word is that word's spelling.
pub proof fn lemma_keyword_of_is_spelling(text: Seq<char>)
    ensures
        keyword_of(text) matches Some(k) ==> k.spelling() == text,
{
}

} // verus!
