//! Tokens, and the chain that the tokenizer appends them to.

use vstd::prelude::*;
use crate::text::str_equal;

verus! {

/// The four classes of tokens.
#[derive(Clone, Copy, Debug, PartialEq, Eq, Structural)]
pub enum TokenKind {
    Keyword,
    Operator,
    Literal,
    Identifier,
}

/// The class of a token together with its text.
#[derive(Clone, Debug, PartialEq, Eq)]
pub enum TokenType {
    Keyword(String),
    Operator(String),
    Literal(String),
    Identifier(String),
}

/// The mathematical value of an emitted token: class, text, and the line
/// on which it began.
pub struct Lexeme {
    pub kind: TokenKind,
    pub text: Seq<char>,
    pub line: int,
}

impl TokenType {
    /// The class.
    pub open spec fn kind(&self) -> TokenKind {
        match self {
            TokenType::Keyword(_) => TokenKind::Keyword,
            TokenType::Operator(_) => TokenKind::Operator,
            TokenType::Literal(_) => TokenKind::Literal,
            TokenType::Identifier(_) => TokenKind::Identifier,
        }
    }

    /// The text.
    pub open spec fn text(&self) -> Seq<char> {
        match self {
            TokenType::Keyword(s) => s@,
            TokenType::Operator(s) => s@,
            TokenType::Literal(s) => s@,
            TokenType::Identifier(s) => s@,
        }
    }

    /// The class.
    pub fn token_kind(&self) -> (k: TokenKind)
        ensures
            k == self.kind(),
    {
        match self {
            TokenType::Keyword(_) => TokenKind::Keyword,
            TokenType::Operator(_) => TokenKind::Operator,
            TokenType::Literal(_) => TokenKind::Literal,
            TokenType::Identifier(_) => TokenKind::Identifier,
        }
    }

    /// The text.
    pub fn value(&self) -> (s: &str)
        ensures
            s@ == self.text(),
    {
        match self {
            TokenType::Keyword(s) => s.as_str(),
            TokenType::Operator(s) => s.as_str(),
            TokenType::Literal(s) => s.as_str(),
            TokenType::Identifier(s) => s.as_str(),
        }
    }

    /// The text.
    pub fn get_string(&self) -> (s: &str)
        ensures
            s@ == self.text(),
    {
        self.value()
    }

    /// Whether this is the operator spelled `s`.
    pub fn is(&self, s: &str) -> (b: bool)
        ensures
            b == (self.kind() == TokenKind::Operator && self.text() == s@),
    {
        match self {
            TokenType::Operator(op) => str_equal(op.as_str(), s),
            _ => false,
        }
    }

    /// The class and the text as one string: the name of the class, and the
    /// text in round brackets.
    pub open spec fn display_text(&self) -> Seq<char> {
        (match self {
            TokenType::Keyword(_) => "Keyword("@,
            TokenType::Operator(_) => "Operator("@,
            TokenType::Literal(_) => "Literal("@,
            TokenType::Identifier(_) => "Identifier("@,
        }) + self.text() + ")"@
    }

    /// The class and the text as one string.
    pub fn to_text(&self) -> (s: String)
        ensures
            s@ == self.display_text(),
    {
        let mut s = match self {
            TokenType::Keyword(_) => "Keyword(".to_string(),
            TokenType::Operator(_) => "Operator(".to_string(),
            TokenType::Literal(_) => "Literal(".to_string(),
            TokenType::Identifier(_) => "Identifier(".to_string(),
        };
        s.append(self.value());
        s.append(")");
        s
    }
}

/// One token of the chain. `next` and `prev` are the places of its
/// neighbours in the chain's store.
#[derive(Clone, Debug, PartialEq, Eq)]
pub struct Token {
    pub token_type: Option<TokenType>,
    pub line: usize,
    pub next: Option<usize>,
    pub prev: Option<usize>,
}

/// A chain of tokens in the order in which they were emitted. The tokens
/// live in one store and name each other by their place in it; the first
/// place holds the head, which is there, still empty, before anything is
/// emitted.
#[derive(Clone, Debug, PartialEq, Eq)]
pub struct TokenStream {
    pub tokens: Vec<Token>,
}

impl Token {
    /// Whether the token has been given its class and text.
    pub open spec fn is_set(&self) -> bool {
        self.token_type is Some
    }

    /// The value of a token that has been set.
    pub open spec fn lexeme(&self) -> Lexeme {
        Lexeme {
            kind: self.token_type->0.kind(),
            text: self.token_type->0.text(),
            line: self.line as int,
        }
    }

    /// An empty token with no neighbours.
    pub fn init() -> (t: Token)
        ensures
            t.token_type is None,
            t.line == 0,
            t.next is None,
            t.prev is None,
    {
        Token { token_type: None, line: 0, next: None, prev: None }
    }

    /// A token with the given class, text and line, and no neighbours.
    pub fn new(token_type: TokenType, line: usize) -> (t: Token)
        ensures
            t.token_type == Some(token_type),
            t.line == line,
            t.next is None,
            t.prev is None,
    {
        Token { token_type: Some(token_type), line, next: None, prev: None }
    }

    /// The text of the token, if it has been set.
    pub fn get_string(&self) -> (s: Option<&str>)
        ensures
            self.is_set() ==> s is Some && s->0@ == self.token_type->0.text(),
            !self.is_set() ==> s is None,
    {
        match &self.token_type {
            Some(t) => Some(t.get_string()),
            None => None,
        }
    }

    /// Emits a token at the end of the chain, where `cursor` stands. The
    /// empty head is filled in place; after that each token goes to a new
    /// place behind the cursor. Gives the new cursor.
    pub fn set(
        stream: &mut TokenStream,
        cursor: usize,
        token_type: TokenType,
        line: usize,
    ) -> (next: usize)
        requires
            old(stream).wf(),
            cursor == old(stream).cursor(),
        ensures
            final(stream).wf(),
            next == final(stream).cursor(),
            final(stream).lexemes() == old(stream).lexemes().push(
                Lexeme { kind: token_type.kind(), text: token_type.text(), line: line as int },
            ),
            old(stream).is_empty() ==> next == cursor && final(stream).tokens.len() == old(
                stream,
            ).tokens.len(),
            !old(stream).is_empty() ==> next == cursor + 1 && final(stream).tokens.len() == old(
                stream,
            ).tokens.len() + 1,
            !old(stream).is_empty() ==> final(stream).tokens[cursor as int].next == Some(next)
                && final(stream).tokens[next as int].prev == Some(cursor),
            final(stream).tokens[next as int].token_type == Some(token_type),
            final(stream).tokens[next as int].line == line,
            final(stream).tokens[next as int].next is None,
            forall|i: int|
                0 <= i < old(stream).tokens.len() && old(stream).tokens[i].is_set() ==> {
                    &&& (#[trigger] final(stream).tokens[i]).token_type == old(
                        stream,
                    ).tokens[i].token_type
                    &&& final(stream).tokens[i].line == old(stream).tokens[i].line
                    &&& final(stream).tokens[i].prev == old(stream).tokens[i].prev
                    &&& i != cursor ==> final(stream).tokens[i].next == old(stream).tokens[i].next
                },
    {
        let mut last = stream.tokens.pop().unwrap();
        if last.token_type.is_none() {
            last.token_type = Some(token_type);
            last.line = line;
            stream.tokens.push(last);
            cursor
        } else {
            last.next = Some(cursor + 1);
            stream.tokens.push(last);
            stream.tokens.push(
                Token { token_type: Some(token_type), line, next: None, prev: Some(cursor) },
            );
            cursor + 1
        }
    }

    /// The place of the token after the one at `cursor`.
    pub fn next_token(stream: &TokenStream, cursor: usize) -> (next: usize)
        requires
            stream.wf(),
            cursor < stream.tokens.len(),
            stream.tokens[cursor as int].next is Some,
        ensures
            Some(next) == stream.tokens[cursor as int].next,
            next == cursor + 1,
            next < stream.tokens.len(),
    {
        match stream.tokens[cursor].next {
            Some(n) => n,
            None => cursor,
        }
    }
}

impl TokenStream {
    /// What holds of every chain: the head is at the first place and has no
    /// predecessor, each token's neighbours are the places before and after
    /// its own, the last token has no successor, and only the head of a
    /// chain into which nothing was emitted is empty.
    pub open spec fn wf(&self) -> bool {
        &&& self.tokens.len() >= 1
        &&& forall|i: int|
            0 <= i < self.tokens.len() ==> {
                &&& (#[trigger] self.tokens[i]).prev == (if i == 0 {
                    None
                } else {
                    Some((i - 1) as usize)
                })
                &&& self.tokens[i].next == (if i + 1 < self.tokens.len() {
                    Some((i + 1) as usize)
                } else {
                    None
                })
                &&& (i > 0 ==> self.tokens[i].is_set())
            }
        &&& (self.tokens.len() > 1 ==> self.tokens[0].is_set())
    }

    /// Whether nothing has been emitted into the chain.
    pub open spec fn is_empty(&self) -> bool {
        !self.tokens[0].is_set()
    }

    /// The place of the last token: where the next one will be linked.
    pub open spec fn cursor(&self) -> int {
        self.tokens.len() - 1
    }

    /// The emitted tokens, in order.
    pub open spec fn lexemes(&self) -> Seq<Lexeme> {
        if self.is_empty() {
            Seq::empty()
        } else {
            Seq::new(self.tokens.len() as nat, |i: int| self.tokens[i].lexeme())
        }
    }

    /// A chain that holds only its empty head.
    pub fn new() -> (stream: TokenStream)
        ensures
            stream.wf(),
            stream.is_empty(),
            stream.tokens.len() == 1,
            stream.lexemes() == Seq::<Lexeme>::empty(),
    {
        let mut tokens: Vec<Token> = Vec::new();
        tokens.push(Token::init());
        TokenStream { tokens }
    }

    /// Whether this is a chain as `wf` describes it.
    pub fn is_well_formed(&self) -> (b: bool)
        ensures
            b == self.wf(),
    {
        let n = self.tokens.len();
        if n == 0 {
            return false;
        }
        let mut i: usize = 0;
        while i < n
            invariant
                i <= n,
                n == self.tokens.len(),
                forall|k: int|
                    0 <= k < i ==> {
                        &&& (#[trigger] self.tokens[k]).prev == (if k == 0 {
                            None
                        } else {
                            Some((k - 1) as usize)
                        })
                        &&& self.tokens[k].next == (if k + 1 < n {
                            Some((k + 1) as usize)
                        } else {
                            None
                        })
                        &&& (k > 0 ==> self.tokens[k].is_set())
                    },
            decreases n - i,
        {
            let token = &self.tokens[i];
            let prev_fits = match token.prev {
                Some(p) => i > 0 && p == i - 1,
                None => i == 0,
            };
            let next_fits = match token.next {
                Some(q) => i + 1 < n && q == i + 1,
                None => i + 1 == n,
            };
            if !prev_fits || !next_fits || (i > 0 && token.token_type.is_none()) {
                return false;
            }
            i = i + 1;
        }
        n == 1 || self.tokens[0].token_type.is_some()
    }

    /// The place of the head.
    pub fn head(&self) -> (i: usize)
        ensures
            i == 0,
    {
        0
    }

    /// The place of the last token.
    pub fn tail(&self) -> (i: usize)
        requires
            self.wf(),
        ensures
            i == self.cursor(),
    {
        self.tokens.len() - 1
    }

    /// How many tokens have been emitted.
    pub fn count(&self) -> (n: usize)
        requires
            self.wf(),
        ensures
            n == self.lexemes().len(),
    {
        if self.tokens[0].token_type.is_none() {
            0
        } else {
            self.tokens.len()
        }
    }

    /// The token at place `i`.
    pub fn get(&self, i: usize) -> (t: &Token)
        requires
            i < self.tokens.len(),
        ensures
            *t == self.tokens[i as int],
    {
        &self.tokens[i]
    }
}

} // verus!
