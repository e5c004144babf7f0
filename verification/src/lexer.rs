use vstd::prelude::*;
use vstd::string::*;
use crate::bytes::{bytes_eq, copy_bytes};
use crate::error::LexError;
use crate::opcode::Opcode;
use crate::scan::{
    ByteClass, COLON, COMMA, DIGIT_0, DOT, HASH, LEFT_BRACKET, LINE_FEED, LOWER_R, LOWER_X, MINUS,
    PLUS, QUOTE, RIGHT_BRACKET, SEMICOLON, SLASH, STAR, UNDERSCORE, UPPER_X, in_byte_class,
    is_digit, is_in_byte_class, is_letter, lemma_span_end, number_value, parse_number, scan,
    span_end,
};
use crate::token::{ImmediateValue, Token, TokenView, tokens_view};

verus! {

/// What the lexer makes of the text at one position: a token or nothing,
/// the position after it, and the line that position is on.
pub struct LexStep {
    pub token: Option<TokenView>,
    pub next: int,
    pub line: usize,
}

/// The line after `line`.
pub open spec fn next_line(line: usize) -> usize {
    if line < usize::MAX {
        (line + 1) as usize
    } else {
        line
    }
}

/// The register that a name stands for: `r` and a number up to 10.
pub open spec fn register_named(name: Seq<u8>) -> Option<u8> {
    if name.len() >= 2 && name[0] == LOWER_R && span_end(name, 1, ByteClass::Digit) == name.len()
        && number_value(name.subrange(1, name.len() as int), 10) <= 10 {
        Some(number_value(name.subrange(1, name.len() as int), 10) as u8)
    } else {
        None
    }
}

/// The token that a word is which no colon follows: a register, a
/// mnemonic, or else a label.
pub open spec fn word_token(name: Seq<u8>, line: usize) -> TokenView {
    match register_named(name) {
        Some(r) => TokenView::Register(r, line),
        None => match Opcode::named(name) {
            Some(o) => TokenView::Opcode(o, line),
            None => TokenView::Label(name, line),
        },
    }
}

/// The token that a dot and a name are.
pub open spec fn directive_token(name: Seq<u8>, line: usize) -> TokenView {
    if name == "rodata".spec_bytes() {
        TokenView::Rodata(line)
    } else if name == "globl".spec_bytes() {
        TokenView::Global(line)
    } else if name == "extern".spec_bytes() {
        TokenView::Extern(line)
    } else {
        TokenView::Directive(name, line)
    }
}

/// Whether a number starts at `pos`: a digit, or a sign with a digit behind it.
pub open spec fn starts_number(src: Seq<u8>, pos: int) -> bool {
    is_digit(src[pos]) || ((src[pos] == MINUS || src[pos] == PLUS) && pos + 1 < src.len()
        && is_digit(src[pos + 1]))
}

/// The number at `pos`: decimal digits give a plain number, `0x` and
/// hexadecimal digits an address; a sign may stand before either. A number
/// that does not fit in 64 bits with its sign, and `0x` without a digit, are
/// errors.
pub open spec fn number_step(src: Seq<u8>, pos: int, line: usize) -> Result<LexStep, LexError> {
    let negative = src[pos] == MINUS;
    let start = if is_digit(src[pos]) {
        pos
    } else {
        pos + 1
    };
    let hex = src[start] == DIGIT_0 && start + 1 < src.len() && (src[start + 1] == LOWER_X || src[start
        + 1] == UPPER_X);
    let first = if hex {
        start + 2
    } else {
        start
    };
    let end = span_end(
        src,
        first,
        if hex {
            ByteClass::HexDigit
        } else {
            ByteClass::Digit
        },
    );
    let magnitude = number_value(
        src.subrange(first, end),
        if hex {
            16
        } else {
            10
        },
    );
    let limit: nat = if negative {
        0x8000_0000_0000_0000
    } else {
        0x7fff_ffff_ffff_ffff
    };
    if end == first || magnitude > limit {
        Err(LexError::InvalidNumber { line })
    } else {
        let value = (if negative {
            -(magnitude as int)
        } else {
            magnitude as int
        }) as i64;
        Ok(
            LexStep {
                token: Some(
                    TokenView::ImmediateValue(
                        if hex {
                            ImmediateValue::Addr(value)
                        } else {
                            ImmediateValue::Int(value)
                        },
                        line,
                    ),
                ),
                next: end,
                line,
            },
        )
    }
}

/// What the lexer makes of the text at `pos`.
///
/// A line feed ends the line. Blanks and semicolons separate tokens. `#` and
/// `//` start a comment that runs to the end of the line. A comma, a colon
/// and a closing bracket are tokens of their own; an opening bracket is one
/// too unless its line holds the closing one, and then what stands between
/// the two is an expression. A double quote starts a string literal, which
/// its line has to end. A dot and a name are a directive. A number is an
/// immediate; an arithmetic sign that starts no number is an operator. A
/// word with a colon behind it is a label; without one it is a register, a
/// mnemonic, or else a label. Every other byte is an error.
pub open spec fn lex_step(src: Seq<u8>, pos: int, line: usize) -> Result<LexStep, LexError>
    recommends
        0 <= pos < src.len(),
{
    let b = src[pos];
    let after = pos + 1;
    if b == LINE_FEED {
        Ok(LexStep { token: None, next: after, line: next_line(line) })
    } else if in_byte_class(ByteClass::Blank, b) || b == SEMICOLON {
        Ok(LexStep { token: None, next: after, line })
    } else if b == HASH || (b == SLASH && after < src.len() && src[after] == SLASH) {
        Ok(LexStep { token: None, next: span_end(src, pos, ByteClass::Line), line })
    } else if b == COMMA {
        Ok(LexStep { token: Some(TokenView::Comma(line)), next: after, line })
    } else if b == COLON {
        Ok(LexStep { token: Some(TokenView::Colon(line)), next: after, line })
    } else if b == RIGHT_BRACKET {
        Ok(LexStep { token: Some(TokenView::RightBracket(line)), next: after, line })
    } else if b == LEFT_BRACKET {
        let end = span_end(src, after, ByteClass::Bracketed);
        if end < src.len() && src[end] == RIGHT_BRACKET {
            Ok(
                LexStep {
                    token: Some(TokenView::Expression(src.subrange(after, end), line)),
                    next: end + 1,
                    line,
                },
            )
        } else {
            Ok(LexStep { token: Some(TokenView::LeftBracket(line)), next: after, line })
        }
    } else if b == QUOTE {
        let end = span_end(src, after, ByteClass::Quoted);
        if end < src.len() && src[end] == QUOTE {
            Ok(
                LexStep {
                    token: Some(TokenView::StringLiteral(src.subrange(after, end), line)),
                    next: end + 1,
                    line,
                },
            )
        } else {
            Err(LexError::UnterminatedString { line })
        }
    } else if b == DOT {
        let end = span_end(src, after, ByteClass::Name);
        if end == after {
            Err(LexError::UnexpectedCharacter { byte: b, line })
        } else {
            Ok(
                LexStep {
                    token: Some(directive_token(src.subrange(after, end), line)),
                    next: end,
                    line,
                },
            )
        }
    } else if starts_number(src, pos) {
        number_step(src, pos, line)
    } else if b == PLUS || b == MINUS || b == STAR || b == SLASH {
        Ok(LexStep { token: Some(TokenView::BinaryOp(b, line)), next: after, line })
    } else if is_letter(b) || b == UNDERSCORE {
        let end = span_end(src, pos, ByteClass::Name);
        let name = src.subrange(pos, end);
        if end < src.len() && src[end] == COLON {
            Ok(LexStep { token: Some(TokenView::Label(name, line)), next: end + 1, line })
        } else {
            Ok(LexStep { token: Some(word_token(name, line)), next: end, line })
        }
    } else {
        Err(LexError::UnexpectedCharacter { byte: b, line })
    }
}

/// A step takes at least one byte and stays within the text.
pub proof fn lemma_lex_step_advances(src: Seq<u8>, pos: int, line: usize)
    requires
        0 <= pos < src.len(),
        lex_step(src, pos, line) is Ok,
    ensures
        pos < lex_step(src, pos, line)->Ok_0.next <= src.len(),
{
    lemma_span_end(src, pos, ByteClass::Line);
    lemma_span_end(src, pos, ByteClass::Name);
    lemma_span_end(src, pos + 1, ByteClass::Bracketed);
    lemma_span_end(src, pos + 1, ByteClass::Quoted);
    lemma_span_end(src, pos + 1, ByteClass::Name);
    if starts_number(src, pos) {
        let start = if is_digit(src[pos]) {
            pos
        } else {
            pos + 1
        };
        lemma_span_end(src, start, ByteClass::Digit);
        if start + 2 <= src.len() {
            lemma_span_end(src, start + 2, ByteClass::HexDigit);
        }
    }
}

/// The tokens of the text from `pos` on, which is on `line`.
pub open spec fn lex_from(src: Seq<u8>, pos: int, line: usize) -> Result<Seq<TokenView>, LexError>
    decreases src.len() - pos,
{
    if pos < 0 || pos >= src.len() {
        Ok(Seq::empty())
    } else {
        match lex_step(src, pos, line) {
            Err(e) => Err(e),
            Ok(step) => {
                proof {
                    lemma_lex_step_advances(src, pos, line);
                }
                match lex_from(src, step.next, step.line) {
                    Err(e) => Err(e),
                    Ok(rest) => Ok(
                        match step.token {
                            Some(t) => seq![t] + rest,
                            None => rest,
                        },
                    ),
                }
            },
        }
    }
}

/// The tokens of a source text, each with the line it is on, counted from 1.
pub open spec fn lex(src: Seq<u8>) -> Result<Seq<TokenView>, LexError> {
    lex_from(src, 0, 1)
}

/// The tokens `done` and then those that `rest` gives.
pub open spec fn and_then(done: Seq<TokenView>, rest: Result<Seq<TokenView>, LexError>) -> Result<
    Seq<TokenView>,
    LexError,
> {
    match rest {
        Ok(tokens) => Ok(done + tokens),
        Err(e) => Err(e),
    }
}

/// The view of the token that a step found, if it found one.
pub open spec fn found_view(token: Option<Token>) -> Option<TokenView> {
    match token {
        Some(t) => Some(t@),
        None => None,
    }
}

fn register_of_name(name: &[u8]) -> (r: Option<u8>)
    ensures
        r == register_named(name@),
{
    if name.len() < 2 || name[0] != LOWER_R {
        return None;
    }
    let end = scan(name, 1, ByteClass::Digit);
    if end != name.len() {
        return None;
    }
    proof {
        lemma_span_end(name@, 1, ByteClass::Digit);
    }
    match parse_number(name, 1, end, 10, 10) {
        Some(v) => Some(v as u8),
        None => None,
    }
}

fn word(name: Vec<u8>, line: usize) -> (t: Token)
    ensures
        t@ == word_token(name@, line),
{
    match register_of_name(name.as_slice()) {
        Some(r) => Token::Register(r, line),
        None => match Opcode::from_mnemonic(name.as_slice()) {
            Some(o) => Token::Opcode(o, line),
            None => Token::Label(name, line),
        },
    }
}

fn directive(name: Vec<u8>, line: usize) -> (t: Token)
    ensures
        t@ == directive_token(name@, line),
{
    if bytes_eq(name.as_slice(), "rodata".as_bytes()) {
        Token::Rodata(line)
    } else if bytes_eq(name.as_slice(), "globl".as_bytes()) {
        Token::Global(line)
    } else if bytes_eq(name.as_slice(), "extern".as_bytes()) {
        Token::Extern(line)
    } else {
        Token::Directive(name, line)
    }
}

/// The bytes of `src` from `from` to `to`.
fn slice_of(src: &[u8], from: usize, to: usize) -> (r: Vec<u8>)
    requires
        from <= to <= src.len(),
    ensures
        r@ == src@.subrange(from as int, to as int),
{
    copy_bytes(vstd::slice::slice_subrange(src, from, to))
}

fn number(src: &[u8], pos: usize, line: usize) -> (r: Result<(Token, usize), LexError>)
    requires
        pos < src.len(),
        starts_number(src@, pos as int),
    ensures
        match r {
            Ok((t, next)) => number_step(src@, pos as int, line) == Ok::<LexStep, LexError>(
                LexStep { token: Some(t@), next: next as int, line },
            ) && pos < next <= src.len(),
            Err(e) => number_step(src@, pos as int, line) == Err::<LexStep, LexError>(e),
        },
{
    let n = src.len();
    let negative = src[pos] == MINUS;
    let start: usize = if is_in_byte_class(ByteClass::Digit, src[pos]) {
        pos
    } else {
        pos + 1
    };
    let hex = src[start] == DIGIT_0 && start + 1 < n && (src[start + 1] == LOWER_X || src[start + 1]
        == UPPER_X);
    let first: usize = if hex {
        start + 2
    } else {
        start
    };
    let class = if hex {
        ByteClass::HexDigit
    } else {
        ByteClass::Digit
    };
    let end = scan(src, first, class);
    if end == first {
        return Err(LexError::InvalidNumber { line });
    }
    proof {
        lemma_span_end(src@, first as int, class);
    }
    let limit: u64 = if negative {
        0x8000_0000_0000_0000
    } else {
        0x7fff_ffff_ffff_ffff
    };
    let radix: u64 = if hex {
        16
    } else {
        10
    };
    let magnitude = match parse_number(src, first, end, radix, limit) {
        Some(m) => m,
        None => {
            return Err(LexError::InvalidNumber { line });
        },
    };
    let value: i64 = if negative {
        if magnitude == 0x8000_0000_0000_0000 {
            -0x8000_0000_0000_0000
        } else {
            -(magnitude as i64)
        }
    } else {
        magnitude as i64
    };
    let immediate = if hex {
        ImmediateValue::Addr(value)
    } else {
        ImmediateValue::Int(value)
    };
    Ok((Token::ImmediateValue(immediate, line), end))
}

/// What the lexer makes of the text at `pos`.
#[verifier::rlimit(50)]
fn step(src: &[u8], pos: usize, line: usize) -> (r: Result<(Option<Token>, usize, usize), LexError>)
    requires
        pos < src.len(),
    ensures
        match r {
            Ok((token, next, after)) => lex_step(src@, pos as int, line) == Ok::<
                LexStep,
                LexError,
            >(LexStep { token: found_view(token), next: next as int, line: after })
                && pos < next <= src.len(),
            Err(e) => lex_step(src@, pos as int, line) == Err::<LexStep, LexError>(e),
        },
{
    let n = src.len();
    let b = src[pos];
    let after: usize = pos + 1;
    if b == LINE_FEED {
        let following: usize = if line < usize::MAX {
            line + 1
        } else {
            line
        };
        Ok((None, after, following))
    } else if is_in_byte_class(ByteClass::Blank, b) || b == SEMICOLON {
        Ok((None, after, line))
    } else if b == HASH || (b == SLASH && after < n && src[after] == SLASH) {
        let end = scan(src, pos, ByteClass::Line);
        proof {
            lemma_span_end(src@, pos as int, ByteClass::Line);
            assert(span_end(src@, pos as int, ByteClass::Line) == span_end(
                src@,
                pos + 1,
                ByteClass::Line,
            ));
            lemma_span_end(src@, pos + 1, ByteClass::Line);
        }
        Ok((None, end, line))
    } else if b == COMMA {
        Ok((Some(Token::Comma(line)), after, line))
    } else if b == COLON {
        Ok((Some(Token::Colon(line)), after, line))
    } else if b == RIGHT_BRACKET {
        Ok((Some(Token::RightBracket(line)), after, line))
    } else if b == LEFT_BRACKET {
        let end = scan(src, after, ByteClass::Bracketed);
        if end < n && src[end] == RIGHT_BRACKET {
            Ok((Some(Token::Expression(slice_of(src, after, end), line)), end + 1, line))
        } else {
            Ok((Some(Token::LeftBracket(line)), after, line))
        }
    } else if b == QUOTE {
        let end = scan(src, after, ByteClass::Quoted);
        if end < n && src[end] == QUOTE {
            Ok((Some(Token::StringLiteral(slice_of(src, after, end), line)), end + 1, line))
        } else {
            Err(LexError::UnterminatedString { line })
        }
    } else if b == DOT {
        let end = scan(src, after, ByteClass::Name);
        if end == after {
            Err(LexError::UnexpectedCharacter { byte: b, line })
        } else {
            Ok((Some(directive(slice_of(src, after, end), line)), end, line))
        }
    } else if is_in_byte_class(ByteClass::Digit, b) || ((b == MINUS || b == PLUS) && after < n
        && is_in_byte_class(ByteClass::Digit, src[after])) {
        match number(src, pos, line) {
            Ok((t, next)) => Ok((Some(t), next, line)),
            Err(e) => Err(e),
        }
    } else if b == PLUS || b == MINUS || b == STAR || b == SLASH {
        Ok((Some(Token::BinaryOp(b, line)), after, line))
    } else if is_in_byte_class(ByteClass::Name, b) && !is_in_byte_class(ByteClass::Digit, b) {
        let end = scan(src, pos, ByteClass::Name);
        proof {
            assert(span_end(src@, pos as int, ByteClass::Name) == span_end(
                src@,
                pos + 1,
                ByteClass::Name,
            ));
            lemma_span_end(src@, pos + 1, ByteClass::Name);
        }
        let name = slice_of(src, pos, end);
        if end < n && src[end] == COLON {
            Ok((Some(Token::Label(name, line)), end + 1, line))
        } else {
            Ok((Some(word(name, line)), end, line))
        }
    } else {
        Err(LexError::UnexpectedCharacter { byte: b, line })
    }
}

/// The tokens of a byte string.
pub fn tokenize_bytes(src: &[u8]) -> (r: Result<Vec<Token>, LexError>)
    ensures
        match r {
            Ok(tokens) => lex(src@) == Ok::<Seq<TokenView>, LexError>(tokens_view(tokens@)),
            Err(e) => lex(src@) == Err::<Seq<TokenView>, LexError>(e),
        },
{
    let mut tokens: Vec<Token> = Vec::new();
    let mut pos: usize = 0;
    let mut line: usize = 1;
    assert(tokens_view(tokens@) =~= Seq::<TokenView>::empty());
    assert(and_then(Seq::empty(), lex_from(src@, 0, 1)) == lex(src@)) by {
        match lex_from(src@, 0, 1) {
            Ok(all) => {
                assert(Seq::<TokenView>::empty() + all =~= all);
            },
            Err(_) => {},
        }
    }
    while pos < src.len()
        invariant
            pos <= src.len(),
            lex(src@) == and_then(tokens_view(tokens@), lex_from(src@, pos as int, line)),
        decreases src.len() - pos,
    {
        let ghost done = tokens_view(tokens@);
        match step(src, pos, line) {
            Err(e) => {
                return Err(e);
            },
            Ok((token, next, following)) => {
                let ghost found = found_view(token);
                proof {
                    match lex_from(src@, next as int, following) {
                        Ok(rest) => {
                            if found is Some {
                                assert(done + (seq![found->0] + rest) =~= done.push(found->0)
                                    + rest);
                            }
                        },
                        Err(_) => {},
                    }
                }
                match token {
                    Some(t) => {
                        tokens.push(t);
                        assert(tokens_view(tokens@) =~= done.push(t@));
                    },
                    None => {},
                }
                pos = next;
                line = following;
            },
        }
    }
    assert(tokens_view(tokens@) + Seq::<TokenView>::empty() =~= tokens_view(tokens@));
    Ok(tokens)
}

/// The tokens of a source text, each with the line it is on.
pub fn tokenize(source: &str) -> (r: Result<Vec<Token>, LexError>)
    ensures
        match r {
            Ok(tokens) => lex(source.spec_bytes()) == Ok::<Seq<TokenView>, LexError>(
                tokens_view(tokens@),
            ),
            Err(e) => lex(source.spec_bytes()) == Err::<Seq<TokenView>, LexError>(e),
        },
{
    tokenize_bytes(source.as_bytes())
}


/// Whether the lines of `tokens` start at `line` or behind it and never go back.
pub open spec fn lines_ascend(tokens: Seq<TokenView>, line: usize) -> bool {
    forall|i: int, j: int|
        0 <= i <= j < tokens.len() ==> line <= (#[trigger] tokens[i]).line() <= (
        #[trigger] tokens[j]).line()
}

proof fn lemma_lex_from_lines(src: Seq<u8>, pos: int, line: usize)
    requires
        lex_from(src, pos, line) is Ok,
    ensures
        lines_ascend(lex_from(src, pos, line)->Ok_0, line),
    decreases src.len() - pos,
{
    if 0 <= pos < src.len() {
        let step = lex_step(src, pos, line)->Ok_0;
        lemma_lex_step_advances(src, pos, line);
        lemma_lex_from_lines(src, step.next, step.line);
        let rest = lex_from(src, step.next, step.line)->Ok_0;
        let all = lex_from(src, pos, line)->Ok_0;
        assert(step.line >= line);
        assert(step.token matches Some(t) ==> t.line() == line);
        assert forall|i: int, j: int| 0 <= i <= j < all.len() implies line <= (#[trigger] all[i]).line()
            <= (#[trigger] all[j]).line() by {
            if step.token is Some {
                if i > 0 {
                    assert(all[i] == rest[i - 1]);
                    assert(all[j] == rest[j - 1]);
                } else if j > 0 {
                    assert(all[j] == rest[j - 1]);
                    assert(rest[j - 1].line() >= step.line) by {
                        assert(lines_ascend(rest, step.line));
                    }
                }
            }
        }
    }
}

/// Every token of a source text has a line, counted from 1, and the tokens
/// come in the order of their lines.
pub proof fn lemma_lex_lines(src: Seq<u8>)
    requires
        lex(src) is Ok,
    ensures
        lines_ascend(lex(src)->Ok_0, 1),
{
    lemma_lex_from_lines(src, 0, 1);
}

} // verus!
