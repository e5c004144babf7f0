use vstd::prelude::*;

verus! {

/// The bytes that the lexer knows by name.
pub const TAB: u8 = 0x09;

pub const LINE_FEED: u8 = 0x0a;

pub const CARRIAGE_RETURN: u8 = 0x0d;

pub const SPACE: u8 = 0x20;

pub const QUOTE: u8 = 0x22;

pub const HASH: u8 = 0x23;

pub const STAR: u8 = 0x2a;

pub const PLUS: u8 = 0x2b;

pub const COMMA: u8 = 0x2c;

pub const MINUS: u8 = 0x2d;

pub const DOT: u8 = 0x2e;

pub const SLASH: u8 = 0x2f;

pub const DIGIT_0: u8 = 0x30;

pub const DIGIT_9: u8 = 0x39;

pub const COLON: u8 = 0x3a;

pub const SEMICOLON: u8 = 0x3b;

pub const UPPER_A: u8 = 0x41;

pub const UPPER_F: u8 = 0x46;

pub const UPPER_X: u8 = 0x58;

pub const UPPER_Z: u8 = 0x5a;

pub const LEFT_BRACKET: u8 = 0x5b;

pub const RIGHT_BRACKET: u8 = 0x5d;

pub const UNDERSCORE: u8 = 0x5f;

pub const LOWER_A: u8 = 0x61;

pub const LOWER_F: u8 = 0x66;

pub const LOWER_R: u8 = 0x72;

pub const LOWER_X: u8 = 0x78;

pub const LOWER_Z: u8 = 0x7a;

/// Kinds of byte that a scanner takes as many of as follow.
#[derive(Clone, Copy, Debug, PartialEq, Eq, Structural)]
pub enum ByteClass {
    /// Space, tab and carriage return.
    Blank,
    /// `0` to `9`.
    Digit,
    /// `0` to `9`, `a` to `f`, `A` to `F`.
    HexDigit,
    /// Letters, digits and the underscore.
    Name,
    /// Every byte but the line feed.
    Line,
    /// Every byte but the line feed and the double quote.
    Quoted,
    /// Every byte but the line feed and the closing bracket.
    Bracketed,
}

/// `0` to `9`.
pub open spec fn is_digit(b: u8) -> bool {
    DIGIT_0 <= b <= DIGIT_9
}

/// `A` to `Z` and `a` to `z`.
pub open spec fn is_letter(b: u8) -> bool {
    UPPER_A <= b <= UPPER_Z || LOWER_A <= b <= LOWER_Z
}

/// Whether a byte is of a class.
pub open spec fn in_byte_class(class: ByteClass, b: u8) -> bool {
    match class {
        ByteClass::Blank => b == SPACE || b == TAB || b == CARRIAGE_RETURN,
        ByteClass::Digit => is_digit(b),
        ByteClass::HexDigit => is_digit(b) || UPPER_A <= b <= UPPER_F || LOWER_A <= b <= LOWER_F,
        ByteClass::Name => is_digit(b) || is_letter(b) || b == UNDERSCORE,
        ByteClass::Line => b != LINE_FEED,
        ByteClass::Quoted => b != LINE_FEED && b != QUOTE,
        ByteClass::Bracketed => b != LINE_FEED && b != RIGHT_BRACKET,
    }
}

/// Whether a byte is of a class.
pub fn is_in_byte_class(class: ByteClass, b: u8) -> (r: bool)
    ensures
        r == in_byte_class(class, b),
{
    match class {
        ByteClass::Blank => b == SPACE || b == TAB || b == CARRIAGE_RETURN,
        ByteClass::Digit => DIGIT_0 <= b && b <= DIGIT_9,
        ByteClass::HexDigit => (DIGIT_0 <= b && b <= DIGIT_9) || (UPPER_A <= b && b <= UPPER_F)
            || (LOWER_A <= b && b <= LOWER_F),
        ByteClass::Name => (DIGIT_0 <= b && b <= DIGIT_9) || (UPPER_A <= b && b <= UPPER_Z) || (
        LOWER_A <= b && b <= LOWER_Z) || b == UNDERSCORE,
        ByteClass::Line => b != LINE_FEED,
        ByteClass::Quoted => b != LINE_FEED && b != QUOTE,
        ByteClass::Bracketed => b != LINE_FEED && b != RIGHT_BRACKET,
    }
}

/// The first position from `pos` on that holds no byte of `class`.
pub open spec fn span_end(s: Seq<u8>, pos: int, class: ByteClass) -> int
    decreases s.len() - pos,
{
    if 0 <= pos < s.len() && in_byte_class(class, s[pos]) {
        span_end(s, pos + 1, class)
    } else {
        pos
    }
}

/// A span ends at or behind its start, within the text; it holds only
/// bytes of its class, and what follows it is none.
pub proof fn lemma_span_end(s: Seq<u8>, pos: int, class: ByteClass)
    requires
        0 <= pos <= s.len(),
    ensures
        pos <= span_end(s, pos, class) <= s.len(),
        forall|i: int| pos <= i < span_end(s, pos, class) ==> in_byte_class(class, #[trigger] s[i]),
        span_end(s, pos, class) < s.len() ==> !in_byte_class(class, s[span_end(s, pos, class)]),
    decreases s.len() - pos,
{
    if pos < s.len() && in_byte_class(class, s[pos]) {
        lemma_span_end(s, pos + 1, class);
    }
}

/// Steps over the bytes of `class` from `pos` on.
pub fn scan(s: &[u8], pos: usize, class: ByteClass) -> (end: usize)
    requires
        pos <= s.len(),
    ensures
        end == span_end(s@, pos as int, class),
        pos <= end <= s.len(),
{
    let mut end: usize = pos;
    while end < s.len() && is_in_byte_class(class, s[end])
        invariant
            pos <= end <= s.len(),
            span_end(s@, end as int, class) == span_end(s@, pos as int, class),
        decreases s.len() - end,
    {
        end += 1;
    }
    end
}

/// The value of a hexadecimal digit, of a decimal digit in particular.
pub open spec fn digit_value(b: u8) -> nat {
    if is_digit(b) {
        (b - DIGIT_0) as nat
    } else if UPPER_A <= b <= UPPER_F {
        (b - UPPER_A + 10) as nat
    } else {
        (b - LOWER_A + 10) as nat
    }
}

/// The number that `digits` spell in base `radix`.
pub open spec fn number_value(digits: Seq<u8>, radix: nat) -> nat
    decreases digits.len(),
{
    if digits.len() == 0 {
        0
    } else {
        number_value(digits.drop_last(), radix) * radix + digit_value(digits.last())
    }
}

proof fn lemma_number_value_prefix(digits: Seq<u8>, radix: nat, i: int)
    requires
        0 <= i <= digits.len(),
        radix >= 1,
    ensures
        number_value(digits.take(i), radix) <= number_value(digits, radix),
    decreases digits.len(),
{
    if i == digits.len() {
        assert(digits.take(i) =~= digits);
    } else {
        assert(digits.drop_last().take(i) =~= digits.take(i));
        lemma_number_value_prefix(digits.drop_last(), radix, i);
        let shorter = number_value(digits.drop_last(), radix);
        assert(shorter * radix >= shorter) by (nonlinear_arith)
            requires
                radix >= 1,
                shorter >= 0,
        ;
    }
}

fn digit_of(b: u8) -> (v: u64)
    requires
        in_byte_class(ByteClass::HexDigit, b),
    ensures
        v == digit_value(b),
        v < 16,
        is_digit(b) ==> v < 10,
{
    if DIGIT_0 <= b && b <= DIGIT_9 {
        (b - DIGIT_0) as u64
    } else if UPPER_A <= b && b <= UPPER_F {
        (b - UPPER_A + 10) as u64
    } else {
        (b - LOWER_A + 10) as u64
    }
}

/// The number that the digits of `s` from `from` to `to` spell in base
/// `radix`, unless it is above `max`.
pub fn parse_number(s: &[u8], from: usize, to: usize, radix: u64, max: u64) -> (r: Option<u64>)
    requires
        from <= to <= s.len(),
        radix == 10 || radix == 16,
        forall|i: int|
            from <= i < to ==> in_byte_class(
                if radix == 10 {
                    ByteClass::Digit
                } else {
                    ByteClass::HexDigit
                },
                #[trigger] s@[i],
            ),
    ensures
        r == (if number_value(s@.subrange(from as int, to as int), radix as nat) <= max {
            Some(number_value(s@.subrange(from as int, to as int), radix as nat) as u64)
        } else {
            None
        }),
{
    let ghost digits = s@.subrange(from as int, to as int);
    let mut value: u64 = 0;
    let mut i: usize = from;
    assert(digits.take(0) =~= Seq::<u8>::empty());
    while i < to
        invariant
            from <= i <= to <= s.len(),
            radix == 10 || radix == 16,
            digits == s@.subrange(from as int, to as int),
            forall|i: int|
                from <= i < to ==> in_byte_class(
                    if radix == 10 {
                        ByteClass::Digit
                    } else {
                        ByteClass::HexDigit
                    },
                    #[trigger] s@[i],
                ),
            value == number_value(digits.take(i - from), radix as nat),
            value <= max,
        decreases to - i,
    {
        let d = digit_of(s[i]);
        proof {
            assert(digits.take(i + 1 - from).drop_last() =~= digits.take(i - from));
            assert(digits.take(i + 1 - from).last() == s@[i as int]);
            lemma_number_value_prefix(digits, radix as nat, i + 1 - from);
        }
        if d > max || value > (max - d) / radix {
            proof {
                let v = value as int;
                let m = max as int;
                let dd = d as int;
                let r = radix as int;
                assert(v * r + dd > m) by (nonlinear_arith)
                    requires
                        dd > m || v > (m - dd) / r,
                        r == 10 || r == 16,
                        v >= 0,
                        dd >= 0,
                        m >= 0,
                ;
            }
            return None;
        }
        proof {
            let v = value as int;
            let m = max as int;
            let dd = d as int;
            let r = radix as int;
            assert(v * r + dd <= m) by (nonlinear_arith)
                requires
                    dd <= m,
                    v <= (m - dd) / r,
                    r == 10 || r == 16,
                    v >= 0,
                    dd >= 0,
            ;
        }
        value = value * radix + d;
        i += 1;
    }
    assert(digits.take(to - from) =~= digits);
    Some(value)
}

} // verus!
