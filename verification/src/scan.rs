//! Which texts are read as the arguments of an annotation: identifiers,
//! `:`, `=`, `,`, spaces, parentheses, decimal integers and string literals.

use vstd::prelude::*;
use vstd::string::*;

verus! {

/// How deep parentheses may nest in a text that is read.
pub const MAX_DEPTH: usize = 16;

/// The largest code of a character.
pub const MAX_CODE: u32 = 0x10_ffff;

/// Where a scan stands after a character.
#[derive(Clone, Copy, Debug, PartialEq, Eq, Structural)]
pub enum Mode {
    /// After a space, a punctuation mark or a parenthesis, or at the start.
    Gap,
    /// Inside an identifier.
    Word,
    /// Inside a decimal integer.
    Number,
    /// Inside a string literal.
    Text,
    /// After a backslash inside a string literal.
    Escape,
    /// After `\x`: the first of two hexadecimal digits is due.
    Hex,
    /// After `\x` and one digit: the second hexadecimal digit is due.
    HexLow,
    /// After `\u`: the opening brace is due.
    Brace,
    /// Between the braces of `\u{..}`.
    Code,
    /// After the closing quote of a string literal.
    Closed,
    /// After a character that has no place where it stands.
    Refused,
}

/// Where a scan stands, how many parentheses are open and, between the
/// braces of `\u{..}`, how many digits were read and the code they give.
#[derive(Clone, Copy, Debug, PartialEq, Eq, Structural)]
pub struct Scan {
    pub mode: Mode,
    pub depth: usize,
    pub digits: usize,
    pub code: u32,
}

/// A scan in the mode `mode` with `depth` open parentheses.
pub open spec fn at(mode: Mode, depth: usize) -> Scan {
    Scan { mode, depth, digits: 0, code: 0 }
}

/// Whether `c` is an ASCII letter.
pub open spec fn is_letter(c: char) -> bool {
    ('a' <= c && c <= 'z') || ('A' <= c && c <= 'Z')
}

/// Whether `c` is a decimal digit.
pub open spec fn is_digit(c: char) -> bool {
    '0' <= c && c <= '9'
}

/// The value of `c` as a hexadecimal digit, if it is one.
pub open spec fn hex_value(c: char) -> Option<u32> {
    if '0' <= c && c <= '9' {
        Some((c as u32 - '0' as u32) as u32)
    } else if 'a' <= c && c <= 'f' {
        Some((c as u32 - 'a' as u32 + 10) as u32)
    } else if 'A' <= c && c <= 'F' {
        Some((c as u32 - 'A' as u32 + 10) as u32)
    } else {
        None
    }
}

/// Whether `c` alone may follow a backslash inside a string literal.
pub open spec fn is_escaped(c: char) -> bool {
    c == 'n' || c == 'r' || c == 't' || c == '\\' || c == '0' || c == '\'' || c == '"'
}

/// Whether `code` is the code of a character: none above [`MAX_CODE`] and
/// none of the surrogates is.
pub open spec fn is_scalar(code: u32) -> bool {
    code < 0xd800 || (0xdfff < code && code <= MAX_CODE)
}

/// Where a scan that stood at `before` stands after the character `c`.
///
/// Inside a string literal a quote closes it and no character below the
/// space may stand. A backslash must be followed by one of `n r t \ 0 ' "`,
/// by `x` and two hexadecimal digits that give at most `7f`, or by `u` and,
/// in braces, one to six hexadecimal digits that give the code of a
/// character. Outside, an identifier starts with a letter and goes on with
/// letters, digits and `_`; an integer is made of decimal digits alone; a
/// string literal and an integer start only after a gap, so that nothing
/// stands directly before them, and nothing but a gap follows them; the
/// other characters are the space, `:`, `=`, `,` and parentheses, which may
/// nest up to [`MAX_DEPTH`].
pub open spec fn step(before: Scan, c: char) -> Scan {
    let depth = before.depth;
    let refused = at(Mode::Refused, depth);
    match before.mode {
        Mode::Refused => refused,
        Mode::Text => {
            if c == '"' {
                at(Mode::Closed, depth)
            } else if c == '\\' {
                at(Mode::Escape, depth)
            } else if ' ' > c {
                refused
            } else {
                at(Mode::Text, depth)
            }
        },
        Mode::Escape => {
            if is_escaped(c) {
                at(Mode::Text, depth)
            } else if c == 'x' {
                at(Mode::Hex, depth)
            } else if c == 'u' {
                at(Mode::Brace, depth)
            } else {
                refused
            }
        },
        Mode::Hex => {
            if '0' <= c && c <= '7' {
                at(Mode::HexLow, depth)
            } else {
                refused
            }
        },
        Mode::HexLow => {
            if hex_value(c) is Some {
                at(Mode::Text, depth)
            } else {
                refused
            }
        },
        Mode::Brace => {
            if c == '{' {
                at(Mode::Code, depth)
            } else {
                refused
            }
        },
        Mode::Code => {
            if c == '}' {
                if before.digits > 0 && is_scalar(before.code) {
                    at(Mode::Text, depth)
                } else {
                    refused
                }
            } else if hex_value(c) is Some && before.digits < 6 && before.code <= MAX_CODE {
                Scan {
                    mode: Mode::Code,
                    depth,
                    digits: (before.digits + 1) as usize,
                    code: (before.code * 16 + hex_value(c).unwrap()) as u32,
                }
            } else {
                refused
            }
        },
        Mode::Gap | Mode::Word | Mode::Number | Mode::Closed => {
            if is_letter(c) {
                if before.mode == Mode::Gap || before.mode == Mode::Word {
                    at(Mode::Word, depth)
                } else {
                    refused
                }
            } else if is_digit(c) {
                if before.mode == Mode::Word {
                    at(Mode::Word, depth)
                } else if before.mode == Mode::Gap || before.mode == Mode::Number {
                    at(Mode::Number, depth)
                } else {
                    refused
                }
            } else if c == '_' {
                if before.mode == Mode::Word {
                    at(Mode::Word, depth)
                } else {
                    refused
                }
            } else if c == '"' {
                if before.mode == Mode::Gap {
                    at(Mode::Text, depth)
                } else {
                    refused
                }
            } else if c == ' ' || c == ':' || c == '=' || c == ',' {
                at(Mode::Gap, depth)
            } else if c == '(' {
                if depth < MAX_DEPTH {
                    at(Mode::Gap, (depth + 1) as usize)
                } else {
                    refused
                }
            } else if c == ')' {
                if depth > 0 {
                    at(Mode::Gap, (depth - 1) as usize)
                } else {
                    refused
                }
            } else {
                refused
            }
        },
    }
}

/// Where a scan stands after the characters of `text`.
pub open spec fn scanned(text: Seq<char>) -> Scan
    decreases text.len(),
{
    if text.len() == 0 {
        at(Mode::Gap, 0)
    } else {
        step(scanned(text.drop_last()), text.last())
    }
}

/// Whether a scan may end where it stands: outside a string literal, with
/// no parenthesis open.
pub open spec fn is_end(end: Scan) -> bool {
    (end.mode == Mode::Gap || end.mode == Mode::Word || end.mode == Mode::Number || end.mode
        == Mode::Closed) && end.depth == 0
}

/// Whether `text` is read: no character was refused, no string literal and
/// no parenthesis is left open.
pub open spec fn readable(text: Seq<char>) -> bool {
    is_end(scanned(text))
}

/// The value of `c` as a hexadecimal digit, if it is one.
pub fn hex_digit(c: char) -> (r: Option<u32>)
    ensures
        r == hex_value(c),
        r matches Some(d) ==> d < 16,
{
    if '0' <= c && c <= '9' {
        Some(c as u32 - '0' as u32)
    } else if 'a' <= c && c <= 'f' {
        Some(c as u32 - 'a' as u32 + 10)
    } else if 'A' <= c && c <= 'F' {
        Some(c as u32 - 'A' as u32 + 10)
    } else {
        None
    }
}

/// A scan in the mode `mode` with `depth` open parentheses.
fn scan_at(mode: Mode, depth: usize) -> (r: Scan)
    ensures
        r == at(mode, depth),
{
    Scan { mode, depth, digits: 0, code: 0 }
}

/// Where a scan that stood at `before` stands after the character `c`.
pub fn step_over(before: Scan, c: char) -> (after: Scan)
    ensures
        after == step(before, c),
{
    let depth = before.depth;
    let refused = scan_at(Mode::Refused, depth);
    match before.mode {
        Mode::Refused => refused,
        Mode::Text => {
            if c == '"' {
                scan_at(Mode::Closed, depth)
            } else if c == '\\' {
                scan_at(Mode::Escape, depth)
            } else if ' ' > c {
                refused
            } else {
                scan_at(Mode::Text, depth)
            }
        },
        Mode::Escape => {
            if c == 'n' || c == 'r' || c == 't' || c == '\\' || c == '0' || c == '\'' || c == '"' {
                scan_at(Mode::Text, depth)
            } else if c == 'x' {
                scan_at(Mode::Hex, depth)
            } else if c == 'u' {
                scan_at(Mode::Brace, depth)
            } else {
                refused
            }
        },
        Mode::Hex => {
            if '0' <= c && c <= '7' {
                scan_at(Mode::HexLow, depth)
            } else {
                refused
            }
        },
        Mode::HexLow => {
            if hex_digit(c).is_some() {
                scan_at(Mode::Text, depth)
            } else {
                refused
            }
        },
        Mode::Brace => {
            if c == '{' {
                scan_at(Mode::Code, depth)
            } else {
                refused
            }
        },
        Mode::Code => {
            if c == '}' {
                let code = before.code;
                if before.digits > 0 && (code < 0xd800 || (0xdfff < code && code <= MAX_CODE)) {
                    scan_at(Mode::Text, depth)
                } else {
                    refused
                }
            } else {
                match hex_digit(c) {
                    Some(d) => {
                        if before.digits < 6 && before.code <= MAX_CODE {
                            Scan {
                                mode: Mode::Code,
                                depth,
                                digits: before.digits + 1,
                                code: before.code * 16 + d,
                            }
                        } else {
                            refused
                        }
                    },
                    None => refused,
                }
            }
        },
        Mode::Gap | Mode::Word | Mode::Number | Mode::Closed => {
            if ('a' <= c && c <= 'z') || ('A' <= c && c <= 'Z') {
                if before.mode == Mode::Gap || before.mode == Mode::Word {
                    scan_at(Mode::Word, depth)
                } else {
                    refused
                }
            } else if '0' <= c && c <= '9' {
                if before.mode == Mode::Word {
                    scan_at(Mode::Word, depth)
                } else if before.mode == Mode::Gap || before.mode == Mode::Number {
                    scan_at(Mode::Number, depth)
                } else {
                    refused
                }
            } else if c == '_' {
                if before.mode == Mode::Word {
                    scan_at(Mode::Word, depth)
                } else {
                    refused
                }
            } else if c == '"' {
                if before.mode == Mode::Gap {
                    scan_at(Mode::Text, depth)
                } else {
                    refused
                }
            } else if c == ' ' || c == ':' || c == '=' || c == ',' {
                scan_at(Mode::Gap, depth)
            } else if c == '(' {
                if depth < MAX_DEPTH {
                    scan_at(Mode::Gap, depth + 1)
                } else {
                    refused
                }
            } else if c == ')' {
                if depth > 0 {
                    scan_at(Mode::Gap, depth - 1)
                } else {
                    refused
                }
            } else {
                refused
            }
        },
    }
}

/// Whether `text` is read.
pub fn is_readable(text: &str) -> (r: bool)
    ensures
        r == readable(text@),
{
    let n = text.unicode_len();
    let mut scan = scan_at(Mode::Gap, 0);
    let mut i: usize = 0;
    assert(text@.take(0) == Seq::<char>::empty());
    while i < n
        invariant
            i <= n,
            n == text@.len(),
            scan == scanned(text@.take(i as int)),
        decreases n - i,
    {
        proof {
            assert(text@.take(i + 1).drop_last() == text@.take(i as int));
            assert(text@.take(i + 1).last() == text@[i as int]);
        }
        scan = step_over(scan, text.get_char(i));
        i = i + 1;
    }
    assert(text@.take(i as int) == text@);
    (scan.mode == Mode::Gap || scan.mode == Mode::Word || scan.mode == Mode::Number || scan.mode
        == Mode::Closed) && scan.depth == 0
}

} // verus!
