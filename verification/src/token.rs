use vstd::prelude::*;
use crate::bytes::copy_bytes;
use crate::opcode::Opcode;

verus! {

/// An integer operand, with what it stands for: a plain number or an address.
#[derive(Clone, Copy, Debug, PartialEq, Eq, Hash, Structural)]
pub enum ImmediateValue {
    Int(i64),
    Addr(i64),
}

impl ImmediateValue {
    /// The number, whatever it stands for.
    pub open spec fn spec_value(self) -> i64 {
        match self {
            ImmediateValue::Int(v) => v,
            ImmediateValue::Addr(v) => v,
        }
    }

    /// The number, whatever it stands for.
    #[verifier::when_used_as_spec(spec_value)]
    pub fn value(self) -> (v: i64)
        ensures
            v == self.spec_value(),
    {
        match self {
            ImmediateValue::Int(v) => v,
            ImmediateValue::Addr(v) => v,
        }
    }
}

/// A lexical token. The last field of every variant is the 1-based source line.
#[derive(Debug, PartialEq, Eq)]
pub enum Token {
    /// `.name`, for every name but the three below; the dot is not part of the name.
    Directive(Vec<u8>, usize),
    /// `.rodata`
    Rodata(usize),
    /// `.globl`
    Global(usize),
    /// `.extern`
    Extern(usize),
    /// A name that defines or refers to a label.
    Label(Vec<u8>, usize),
    /// A name in a stream built by hand; the lexer produces none.
    Identifier(Vec<u8>, usize),
    Opcode(Opcode, usize),
    /// `r0` to `r10`, by index.
    Register(u8, usize),
    ImmediateValue(ImmediateValue, usize),
    /// The bytes between two double quotes.
    StringLiteral(Vec<u8>, usize),
    /// The bytes between `[` and `]`, such as `r3+8`.
    Expression(Vec<u8>, usize),
    Comma(usize),
    Colon(usize),
    LeftBracket(usize),
    RightBracket(usize),
    /// One of `+ - * /`, as its byte.
    BinaryOp(u8, usize),
}

/// What a token is, with byte strings as sequences.
pub enum TokenView {
    Directive(Seq<u8>, usize),
    Rodata(usize),
    Global(usize),
    Extern(usize),
    Label(Seq<u8>, usize),
    Identifier(Seq<u8>, usize),
    Opcode(Opcode, usize),
    Register(u8, usize),
    ImmediateValue(ImmediateValue, usize),
    StringLiteral(Seq<u8>, usize),
    Expression(Seq<u8>, usize),
    Comma(usize),
    Colon(usize),
    LeftBracket(usize),
    RightBracket(usize),
    BinaryOp(u8, usize),
}

impl TokenView {
    /// The source line of the token.
    pub open spec fn line(self) -> usize {
        match self {
            TokenView::Directive(_, l) => l,
            TokenView::Rodata(l) => l,
            TokenView::Global(l) => l,
            TokenView::Extern(l) => l,
            TokenView::Label(_, l) => l,
            TokenView::Identifier(_, l) => l,
            TokenView::Opcode(_, l) => l,
            TokenView::Register(_, l) => l,
            TokenView::ImmediateValue(_, l) => l,
            TokenView::StringLiteral(_, l) => l,
            TokenView::Expression(_, l) => l,
            TokenView::Comma(l) => l,
            TokenView::Colon(l) => l,
            TokenView::LeftBracket(l) => l,
            TokenView::RightBracket(l) => l,
            TokenView::BinaryOp(_, l) => l,
        }
    }
}

impl View for Token {
    type V = TokenView;

    open spec fn view(&self) -> TokenView {
        match *self {
            Token::Directive(n, l) => TokenView::Directive(n@, l),
            Token::Rodata(l) => TokenView::Rodata(l),
            Token::Global(l) => TokenView::Global(l),
            Token::Extern(l) => TokenView::Extern(l),
            Token::Label(n, l) => TokenView::Label(n@, l),
            Token::Identifier(n, l) => TokenView::Identifier(n@, l),
            Token::Opcode(o, l) => TokenView::Opcode(o, l),
            Token::Register(r, l) => TokenView::Register(r, l),
            Token::ImmediateValue(v, l) => TokenView::ImmediateValue(v, l),
            Token::StringLiteral(s, l) => TokenView::StringLiteral(s@, l),
            Token::Expression(e, l) => TokenView::Expression(e@, l),
            Token::Comma(l) => TokenView::Comma(l),
            Token::Colon(l) => TokenView::Colon(l),
            Token::LeftBracket(l) => TokenView::LeftBracket(l),
            Token::RightBracket(l) => TokenView::RightBracket(l),
            Token::BinaryOp(o, l) => TokenView::BinaryOp(o, l),
        }
    }
}

impl Clone for Token {
    fn clone(&self) -> (t: Token)
        ensures
            t@ == self@,
    {
        match self {
            Token::Directive(n, l) => Token::Directive(copy_bytes(n.as_slice()), *l),
            Token::Rodata(l) => Token::Rodata(*l),
            Token::Global(l) => Token::Global(*l),
            Token::Extern(l) => Token::Extern(*l),
            Token::Label(n, l) => Token::Label(copy_bytes(n.as_slice()), *l),
            Token::Identifier(n, l) => Token::Identifier(copy_bytes(n.as_slice()), *l),
            Token::Opcode(o, l) => Token::Opcode(*o, *l),
            Token::Register(r, l) => Token::Register(*r, *l),
            Token::ImmediateValue(v, l) => Token::ImmediateValue(*v, *l),
            Token::StringLiteral(s, l) => Token::StringLiteral(copy_bytes(s.as_slice()), *l),
            Token::Expression(e, l) => Token::Expression(copy_bytes(e.as_slice()), *l),
            Token::Comma(l) => Token::Comma(*l),
            Token::Colon(l) => Token::Colon(*l),
            Token::LeftBracket(l) => Token::LeftBracket(*l),
            Token::RightBracket(l) => Token::RightBracket(*l),
            Token::BinaryOp(o, l) => Token::BinaryOp(*o, *l),
        }
    }
}

impl Token {
    /// The source line of the token.
    pub fn line(&self) -> (l: usize)
        ensures
            l == self@.line(),
    {
        match self {
            Token::Directive(_, l) => *l,
            Token::Rodata(l) => *l,
            Token::Global(l) => *l,
            Token::Extern(l) => *l,
            Token::Label(_, l) => *l,
            Token::Identifier(_, l) => *l,
            Token::Opcode(_, l) => *l,
            Token::Register(_, l) => *l,
            Token::ImmediateValue(_, l) => *l,
            Token::StringLiteral(_, l) => *l,
            Token::Expression(_, l) => *l,
            Token::Comma(l) => *l,
            Token::Colon(l) => *l,
            Token::LeftBracket(l) => *l,
            Token::RightBracket(l) => *l,
            Token::BinaryOp(_, l) => *l,
        }
    }
}

/// The views of a sequence of tokens.
pub open spec fn tokens_view(tokens: Seq<Token>) -> Seq<TokenView> {
    tokens.map_values(|t: Token| t@)
}

/// A copy of a token list.
pub fn clone_tokens(tokens: &Vec<Token>) -> (r: Vec<Token>)
    ensures
        tokens_view(r@) == tokens_view(tokens@),
{
    let mut r: Vec<Token> = Vec::new();
    let mut i: usize = 0;
    while i < tokens.len()
        invariant
            i <= tokens.len(),
            r.len() == i,
            forall|j: int| 0 <= j < i ==> r@[j]@ == tokens@[j]@,
        decreases tokens.len() - i,
    {
        r.push(tokens[i].clone());
        i += 1;
    }
    assert(tokens_view(r@) =~= tokens_view(tokens@));
    r
}

} // verus!
