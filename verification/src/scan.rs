//! Character-class scanning primitives shared by the parser: whitespace
//! skipping, identifier and string-literal scanning, hexadecimal literals,
//! and line numbering.
use vstd::prelude::*;
use crate::syntax_tree::{ParseContext, ParseError, ParseErrorType, ParseErrorTypeView,
    ParseErrorView};

verus! {

/// Appends a character to a string.  Relies on `String::push` of std: the
/// string afterwards is the old string with the character at its end.
pub assume_specification [ String::push ](s: &mut String, ch: char)
    ensures
        final(s)@ == old(s)@.push(ch),
;

/// Whether `c` may appear in an identifier: letters, digits, `_` and `-`.
pub open spec fn is_identifier_char(c: char) -> bool {
    ('a' <= c && c <= 'z') || ('A' <= c && c <= 'Z') || ('0' <= c && c <= '9') || c == '_' || c
        == '-'
}

/// Whether `c` is insignificant between constructs: space, newline or tab.
pub open spec fn is_whitespace_char(c: char) -> bool {
    c == ' ' || c == '\n' || c == '\t'
}

/// Executable test matching `is_identifier_char`.
pub fn identifier_char(c: char) -> (r: bool)
    ensures
        r == is_identifier_char(c),
{
    ('a' <= c && c <= 'z') || ('A' <= c && c <= 'Z') || ('0' <= c && c <= '9') || c == '_' || c
        == '-'
}

/// Executable test matching `is_whitespace_char`.
pub fn whitespace_char(c: char) -> (r: bool)
    ensures
        r == is_whitespace_char(c),
{
    c == ' ' || c == '\n' || c == '\t'
}

/// The position of the first character at or after `i` that is not
/// whitespace; the length of `s` when every remaining character is
/// whitespace.  Positions outside `s` are returned unchanged.
pub open spec fn spec_skip_whitespace(s: Seq<char>, i: int) -> int
    decreases s.len() - i,
{
    if !(0 <= i < s.len()) {
        i
    } else if is_whitespace_char(s[i]) {
        spec_skip_whitespace(s, i + 1)
    } else {
        i
    }
}

/// Every position of `s` from `i` (inclusive) up to the skip result is
/// whitespace, and the result lies between `i` and the length of `s`.
pub proof fn lemma_skip_whitespace(s: Seq<char>, i: int)
    requires
        0 <= i <= s.len(),
    ensures
        i <= spec_skip_whitespace(s, i) <= s.len(),
        forall|j: int| i <= j < spec_skip_whitespace(s, i) ==> is_whitespace_char(#[trigger] s[j]),
        spec_skip_whitespace(s, i) < s.len() ==> !is_whitespace_char(s[spec_skip_whitespace(s, i)]),
    decreases s.len() - i,
{
    if i < s.len() && is_whitespace_char(s[i]) {
        lemma_skip_whitespace(s, i + 1);
    }
}

/// Iterates through `source` beginning at `start` until it finds a character
/// that is not whitespace.  When the end of the text is reached first, the
/// result depends on `eof_error_parse_context_opt`: with a context an
/// `UnfinishedNode` error is reported, without one the end position is
/// returned as it stands.
pub fn skip_whitespace(
    source: &Vec<char>,
    start: usize,
    eof_error_parse_context_opt: Option<ParseContext>,
) -> (r: Result<usize, ParseError>)
    ensures
        ({
            let j = spec_skip_whitespace(source@, start as int);
            match r {
                Ok(p) => p == j && (j < source@.len() || eof_error_parse_context_opt is None),
                Err(e) => j >= source@.len() && eof_error_parse_context_opt is Some && e@ == (
                ParseErrorView {
                    begin: start as int,
                    end: j,
                    type_: ParseErrorTypeView::UnfinishedNode(
                        eof_error_parse_context_opt->Some_0,
                    ),
                }),
            }
        }),
{
    let mut i: usize = start;
    while i < source.len()
        invariant
            start <= i,
            i <= source@.len() || i == start,
            spec_skip_whitespace(source@, start as int) == spec_skip_whitespace(source@, i as int),
        decreases source@.len() - i,
    {
        if !whitespace_char(source[i]) {
            return Ok(i);
        }
        i += 1;
    }
    match eof_error_parse_context_opt {
        Some(eof_error_parse_context) => Err(
            ParseError::new(
                start,
                i,
                ParseErrorType::UnfinishedNode(eof_error_parse_context),
                None,
            ),
        ),
        None => Ok(i),
    }
}

/// The position of the first character at or after `i` that is not an
/// identifier character; the length of `s` when every remaining character
/// belongs to an identifier.  Positions outside `s` are returned unchanged.
pub open spec fn spec_identifier_end(s: Seq<char>, i: int) -> int
    decreases s.len() - i,
{
    if !(0 <= i < s.len()) {
        i
    } else if is_identifier_char(s[i]) {
        spec_identifier_end(s, i + 1)
    } else {
        i
    }
}

/// The identifier scan stays inside the text and covers exactly the leading
/// identifier characters.
pub proof fn lemma_identifier_end(s: Seq<char>, i: int)
    requires
        0 <= i <= s.len(),
    ensures
        i <= spec_identifier_end(s, i) <= s.len(),
        forall|j: int| i <= j < spec_identifier_end(s, i) ==> is_identifier_char(#[trigger] s[j]),
        spec_identifier_end(s, i) < s.len() ==> !is_identifier_char(s[spec_identifier_end(s, i)]),
    decreases s.len() - i,
{
    if i < s.len() && is_identifier_char(s[i]) {
        lemma_identifier_end(s, i + 1);
    }
}

/// Scans through `source` beginning at `start` until it finds a character
/// that is not an identifier character, and returns the scanned text with
/// the position after it.  When the end of the text is reached first, the
/// result depends on `eof_error_parse_context_opt` as in `skip_whitespace`.
pub fn parse_identifier(
    source: &Vec<char>,
    start: usize,
    eof_error_parse_context_opt: Option<ParseContext>,
) -> (r: Result<(String, usize), ParseError>)
    requires
        start <= source@.len(),
    ensures
        ({
            let j = spec_identifier_end(source@, start as int);
            match r {
                Ok(p) => p.1 == j && p.0@ == source@.subrange(start as int, j) && (j
                    < source@.len() || eof_error_parse_context_opt is None),
                Err(e) => j >= source@.len() && eof_error_parse_context_opt is Some && e@ == (
                ParseErrorView {
                    begin: start as int,
                    end: j,
                    type_: ParseErrorTypeView::UnfinishedNode(
                        eof_error_parse_context_opt->Some_0,
                    ),
                }),
            }
        }),
{
    proof {
        lemma_identifier_end(source@, start as int);
    }
    let mut out = String::new();
    let mut i: usize = start;
    while i < source.len()
        invariant
            start <= i <= source@.len(),
            spec_identifier_end(source@, start as int) == spec_identifier_end(source@, i as int),
            out@ == source@.subrange(start as int, i as int),
        decreases source@.len() - i,
    {
        if !identifier_char(source[i]) {
            proof {
                assert(out@ =~= source@.subrange(
                    start as int,
                    spec_identifier_end(source@, start as int),
                ));
            }
            return Ok((out, i));
        }
        out.push(source[i]);
        proof {
            assert(out@ =~= source@.subrange(start as int, i + 1 as int));
        }
        i += 1;
    }
    match eof_error_parse_context_opt {
        Some(eof_error_parse_context) => Err(
            ParseError::new(
                start,
                i,
                ParseErrorType::UnfinishedNode(eof_error_parse_context),
                None,
            ),
        ),
        None => {
            proof {
                assert(out@ =~= source@.subrange(
                    start as int,
                    spec_identifier_end(source@, start as int),
                ));
            }
            Ok((out, i))
        },
    }
}

/// Generic scanning: reads characters from `start` forward while `f` accepts
/// them, and returns the scanned text with the position of the first refusal.
/// When the end of the text is reached first, the result depends on
/// `eof_error_parse_context_opt` as in `skip_whitespace`.  Only the forward
/// direction is supported: a backward scan would step below position zero
/// whenever `f` accepts the whole prefix.
pub fn parse_until_false<F: Fn(&char) -> bool>(
    source: &Vec<char>,
    start: usize,
    f: F,
    eof_error_parse_context_opt: Option<ParseContext>,
    forwards: bool,
) -> (r: Result<(String, usize), ParseError>)
    requires
        start <= source@.len(),
        forwards,
        forall|c: &char| #[trigger] f.requires((c,)),
    ensures
        match r {
            Ok(p) => {
                &&& start <= p.1 <= source@.len()
                &&& p.0@ == source@.subrange(start as int, p.1 as int)
                &&& forall|j: int| start <= j < p.1 ==> f.ensures((&source@[j],), true)
                &&& (p.1 < source@.len() ==> f.ensures((&source@[p.1 as int],), false))
                &&& (p.1 == source@.len() ==> eof_error_parse_context_opt is None)
            },
            Err(e) => {
                &&& eof_error_parse_context_opt is Some
                &&& e@ == (ParseErrorView {
                    begin: start as int,
                    end: source@.len() as int,
                    type_: ParseErrorTypeView::UnfinishedNode(
                        eof_error_parse_context_opt->Some_0,
                    ),
                })
                &&& forall|j: int| start <= j < source@.len() ==> f.ensures((&source@[j],), true)
            },
        },
{
    let mut i: usize = start;
    let mut out = String::new();
    while i < source.len()
        invariant
            start <= i <= source@.len(),
            out@ == source@.subrange(start as int, i as int),
            forall|j: int| start <= j < i ==> f.ensures((&source@[j],), true),
            forall|c: &char| #[trigger] f.requires((c,)),
        decreases source@.len() - i,
    {
        if !f(&source[i]) {
            return Ok((out, i));
        }
        out.push(source[i]);
        proof {
            assert(out@ =~= source@.subrange(start as int, i + 1 as int));
        }
        i += 1;
    }
    match eof_error_parse_context_opt {
        Some(eof_error_parse_context) => Err(
            ParseError::new(
                start,
                i,
                ParseErrorType::UnfinishedNode(eof_error_parse_context),
                None,
            ),
        ),
        None => Ok((out, i)),
    }
}

/// The substitution for a backslash escape: the escapes `\\`, `\'`, `\"`,
/// `\n` and `\t` are recognized, everything else is refused.
pub open spec fn spec_escape_substitution(c: char) -> Option<char> {
    if c == '\\' {
        Some('\\')
    } else if c == '\'' {
        Some('\'')
    } else if c == '"' {
        Some('"')
    } else if c == 'n' {
        Some('\n')
    } else if c == 't' {
        Some('\t')
    } else {
        None
    }
}

/// Executable escape substitution matching `spec_escape_substitution`.
pub fn escape_substitution(char_: char) -> (r: Option<char>)
    ensures
        r == spec_escape_substitution(char_),
{
    match char_ {
        '\\' => Some('\\'),
        '\'' => Some('\''),
        '"' => Some('"'),
        'n' => Some('\n'),
        't' => Some('\t'),
        _ => None,
    }
}

/// The outcome of scanning a string literal from position `i`: the decoded
/// text and the position just after the closing quote, or the parse error
/// with its source range.
pub open spec fn spec_parse_string_literal(s: Seq<char>, start: int, i: int, acc: Seq<char>) -> Result<
    (Seq<char>, int),
    ParseErrorView,
>
    decreases s.len() - i,
{
    if !(0 <= i < s.len()) {
        Err(
            ParseErrorView {
                begin: start,
                end: i,
                type_: ParseErrorTypeView::UnfinishedNode(ParseContext::StringLiteral),
            },
        )
    } else if s[i] == '"' {
        Ok((acc, i + 1))
    } else if s[i] == '\\' {
        if i == s.len() - 1 {
            Err(
                ParseErrorView {
                    begin: i,
                    end: i + 1,
                    type_: ParseErrorTypeView::StringEscapeEOF,
                },
            )
        } else {
            match spec_escape_substitution(s[i + 1]) {
                Some(c) => spec_parse_string_literal(s, start, i + 2, acc.push(c)),
                None => Err(
                    ParseErrorView {
                        begin: i,
                        end: i + 1,
                        type_: ParseErrorTypeView::StringInvalidEscapeSequence(s[i + 1]),
                    },
                ),
            }
        }
    } else {
        spec_parse_string_literal(s, start, i + 1, acc.push(s[i]))
    }
}

/// Scans a string literal.  `start` is the first character of the string,
/// after the opening quote mark.  Returns the decoded text and the position
/// just after the closing quote; recognizes the escape substitutions of
/// `escape_substitution`.
pub fn parse_string_literal(source: &Vec<char>, start: usize) -> (r: Result<
    (String, usize),
    ParseError,
>)
    requires
        start <= source@.len(),
    ensures
        ({
            let sp = spec_parse_string_literal(source@, start as int, start as int, Seq::empty());
            match r {
                Ok(p) => sp is Ok && p.0@ == sp->Ok_0.0 && p.1 as int == sp->Ok_0.1,
                Err(e) => sp is Err && e@ == sp->Err_0,
            }
        }),
{
    let mut i: usize = start;
    let mut out = String::new();
    while i < source.len()
        invariant
            start <= i <= source@.len(),
            spec_parse_string_literal(source@, start as int, start as int, Seq::empty())
                == spec_parse_string_literal(source@, start as int, i as int, out@),
        decreases source@.len() - i,
    {
        let mut char_ = source[i];
        // Check for end of string
        if char_ == '"' {
            return Ok((out, i + 1));
        }
        // Check for escape substitution
        if char_ == '\\' {
            // Check that this isn't the last character
            if i == source.len() - 1 {
                return Err(ParseError::new(i, i + 1, ParseErrorType::StringEscapeEOF, None));
            }
            // Check for substitution
            match escape_substitution(source[i + 1]) {
                Some(substituted_char) => {
                    char_ = substituted_char;
                },
                None => {
                    return Err(
                        ParseError::new(
                            i,
                            i + 1,
                            ParseErrorType::StringInvalidEscapeSequence(source[i + 1]),
                            None,
                        ),
                    );
                },
            }
            i += 1;  // Extra incrementation
        }
        out.push(char_);
        i += 1;
    }
    // The loop ended without the closing quote
    Err(
        ParseError::new(
            start,
            i,
            ParseErrorType::UnfinishedNode(ParseContext::StringLiteral),
            None,
        ),
    )
}

/// A successful string-literal scan moves forward and stays inside the text.
pub proof fn lemma_string_literal_bounds(s: Seq<char>, start: int, i: int, acc: Seq<char>)
    requires
        0 <= i <= s.len(),
    ensures
        spec_parse_string_literal(s, start, i, acc) matches Ok(p) ==> i + 1 <= p.1 <= s.len(),
    decreases s.len() - i,
{
    if 0 <= i < s.len() {
        if s[i] == '"' {
        } else if s[i] == '\\' {
            if i < s.len() - 1 {
                match spec_escape_substitution(s[i + 1]) {
                    Some(c) => lemma_string_literal_bounds(s, start, i + 2, acc.push(c)),
                    None => {},
                }
            }
        } else {
            lemma_string_literal_bounds(s, start, i + 1, acc.push(s[i]));
        }
    }
}

/// The number of the line holding position `i`, starting at 1: one more than
/// the count of newline characters before `i`.
pub open spec fn spec_line_n(s: Seq<char>, i: int) -> int
    decreases i,
{
    if i <= 0 {
        1
    } else {
        spec_line_n(s, i - 1) + if s[i - 1] == '\n' {
            1int
        } else {
            0int
        }
    }
}

/// Gets the 1-indexed line number of position `i`.
pub fn line_n_from_index(source: &Vec<char>, i: usize) -> (r: usize)
    requires
        i <= source@.len(),
        i < usize::MAX,
    ensures
        r as int == spec_line_n(source@, i as int),
{
    proof {
        lemma_line_n_bound(source@, i as int);
    }
    let mut count: usize = 1;
    let mut j: usize = 0;
    while j < i
        invariant
            0 <= j <= i <= source@.len(),
            i < usize::MAX,
            count as int == spec_line_n(source@, j as int),
            count as int <= j + 1,
        decreases i - j,
    {
        proof {
            lemma_line_n_bound(source@, j + 1 as int);
        }
        if source[j] == '\n' {
            count += 1;
        }
        j += 1;
    }
    count
}

/// What can go wrong while decoding a run of hexadecimal digits.
#[derive(Clone, Copy, Debug, PartialEq, Eq)]
pub enum HexDecodeError {
    /// A character outside `0-9`, `a-f` and `A-F`, with its position.
    InvalidHexCharacter { c: char, index: usize },
    /// Two digits make one byte, so the digit count must be even.
    OddLength,
    /// Reported by decoders into fixed-size buffers; never by `hex_decode`.
    InvalidStringLength,
}

/// Whether `c` is a hexadecimal digit of either case.
pub open spec fn is_hex_digit(c: char) -> bool {
    ('0' <= c && c <= '9') || ('a' <= c && c <= 'f') || ('A' <= c && c <= 'F')
}

/// The numeric value of a hexadecimal digit.
pub open spec fn hex_digit_val(c: char) -> int {
    if '0' <= c && c <= '9' {
        (c as int) - 48
    } else if 'a' <= c && c <= 'f' {
        (c as int) - 97 + 10
    } else if 'A' <= c && c <= 'F' {
        (c as int) - 65 + 10
    } else {
        0
    }
}

/// Whether `s` is a well-formed run of hexadecimal digits: even length,
/// digits only.
pub open spec fn spec_hex_ok(s: Seq<char>) -> bool {
    s.len() % 2 == 0 && (forall|i: int| 0 <= i < s.len() ==> is_hex_digit(#[trigger] s[i]))
}

/// The bytes a well-formed run of hexadecimal digits stands for, two digits
/// to a byte, high digit first.
pub open spec fn spec_hex_bytes(s: Seq<char>) -> Seq<u8> {
    Seq::new(
        (s.len() / 2) as nat,
        |i: int| (hex_digit_val(s[2 * i]) * 16 + hex_digit_val(s[2 * i + 1])) as u8,
    )
}

/// The first position at or after `i` holding a character that is not a
/// hexadecimal digit; the length of `s` when there is none.
pub open spec fn spec_hex_bad_at(s: Seq<char>, i: int) -> int
    decreases s.len() - i,
{
    if !(0 <= i < s.len()) {
        i
    } else if is_hex_digit(s[i]) {
        spec_hex_bad_at(s, i + 1)
    } else {
        i
    }
}

/// Decodes a run of hexadecimal digits into bytes.  Relies on `hex::decode`:
/// pairs of digits of either case become bytes, high digit first; an odd
/// digit count is refused as `OddLength` before any digit is looked at, and
/// otherwise the first character outside `0-9a-fA-F` is reported with its
/// position.
#[verifier::external_body]
pub fn hex_decode(s: &str) -> (r: Result<Vec<u8>, HexDecodeError>)
    requires
        s.is_ascii(),
    ensures
        r is Ok <==> spec_hex_ok(s@),
        r is Ok ==> r->Ok_0@ == spec_hex_bytes(s@),
        r is Err ==> r->Err_0 == (if s@.len() % 2 != 0 {
            HexDecodeError::OddLength
        } else {
            (HexDecodeError::InvalidHexCharacter {
                c: s@[spec_hex_bad_at(s@, 0)],
                index: spec_hex_bad_at(s@, 0) as usize,
            })
        }),
{
    match hex::decode(s) {
        Ok(v) => Ok(v),
        Err(hex::FromHexError::InvalidHexCharacter { c, index }) => Err(
            HexDecodeError::InvalidHexCharacter { c, index },
        ),
        Err(hex::FromHexError::OddLength) => Err(HexDecodeError::OddLength),
        Err(hex::FromHexError::InvalidStringLength) => Err(HexDecodeError::InvalidStringLength),
    }
}

/// A short description of a hexadecimal decode error, for error messages.
pub fn hex_error_message(e: &HexDecodeError) -> String {
    match e {
        HexDecodeError::InvalidHexCharacter { .. } => String::from_str(
            "invalid character in hexadecimal literal",
        ),
        HexDecodeError::OddLength => String::from_str("odd number of hexadecimal digits"),
        HexDecodeError::InvalidStringLength => String::from_str("invalid hexadecimal length"),
    }
}

/// The outcome of looking for a `0x`-prefixed hexadecimal literal at `start`:
/// nothing when the prefix is absent, else the decoded bytes, the bit size
/// (four per digit, reduced modulo 256), and the position after the digits,
/// or the parse error.
pub open spec fn spec_check_bit_string(s: Seq<char>, start: int, ctx: Option<ParseContext>) -> Option<
    Result<(Seq<u8>, u8, int), ParseErrorView>,
> {
    if start + 1 < s.len() && s[start] == '0' && s[start + 1] == 'x' {
        let j = spec_identifier_end(s, start + 2);
        let ident = s.subrange(start + 2, j);
        if j >= s.len() && ctx is Some {
            Some(
                Err(
                    ParseErrorView {
                        begin: start + 2,
                        end: j,
                        type_: ParseErrorTypeView::UnfinishedNode(ctx->Some_0),
                    },
                ),
            )
        } else if !spec_hex_ok(ident) {
            Some(
                Err(
                    ParseErrorView {
                        begin: start,
                        end: j,
                        type_: ParseErrorTypeView::HexParseError,
                    },
                ),
            )
        } else {
            Some(Ok((spec_hex_bytes(ident), ((ident.len() * 4) % 256) as u8, j)))
        }
    } else {
        None
    }
}

/// Looks for `0xHH..` at `start`.  When the two-character prefix is absent
/// the result is `None`; otherwise the digits after the prefix are decoded
/// as `spec_check_bit_string` says, giving the bytes, the bit size and the
/// position after the digits (exclusive).
pub fn check_for_and_parse_bit_string(
    source: &Vec<char>,
    start: usize,
    eof_error_parse_context_opt: Option<ParseContext>,
) -> (r: Option<Result<(Vec<u8>, u8, usize), ParseError>>)
    requires
        start <= source@.len(),
    ensures
        ({
            let sp = spec_check_bit_string(source@, start as int, eof_error_parse_context_opt);
            match r {
                None => sp is None,
                Some(Ok(p)) => sp matches Some(Ok(q)) && p.0@ == q.0 && p.1 == q.1 && p.2 as int
                    == q.2,
                Some(Err(e)) => sp matches Some(Err(q)) && e@ == q,
            }
        }),
{
    if source.len() - start > 1 && source[start] == '0' {
        if source[start + 1] == 'x' {
            match parse_identifier(source, start + 2, eof_error_parse_context_opt) {
                Ok((raw_s, new_i)) => {
                    proof {
                        lemma_identifier_end(source@, start + 2 as int);
                        assert(raw_s.is_ascii());
                    }
                    let hex_result = hex_decode(raw_s.as_str());
                    match hex_result {
                        Ok(hex_bytes) => {
                            let n_digits: usize = raw_s.as_str().unicode_len();
                            let n_bits: usize = (n_digits % 64) * 4;
                            proof {
                                lemma_mul4_mod(raw_s@.len() as int, 64);
                            }
                            Some(Ok((hex_bytes, #[verifier::truncate] (n_bits as u8), new_i)))
                        },
                        Err(e) => Some(
                            Err(
                                ParseError::new(
                                    start,
                                    new_i,
                                    ParseErrorType::HexParseError,
                                    Some(hex_error_message(&e)),
                                ),
                            ),
                        ),
                    }
                },
                Err(e) => Some(Err(e)),
            }
        } else {
            None
        }
    } else {
        None
    }
}

/// Reducing a digit count modulo `m` before multiplying by four agrees with
/// multiplying first and reducing modulo `4 * m`.
pub proof fn lemma_mul4_mod(l: int, m: int)
    requires
        0 <= l,
        0 < m,
    ensures
        ((l % m) * 4) % (4 * m) == (l * 4) % (4 * m),
        0 <= (l % m) * 4 < 4 * m,
{
    let q = l / m;
    let r = l % m;
    vstd::arithmetic::div_mod::lemma_fundamental_div_mod(l, m);
    vstd::arithmetic::div_mod::lemma_mod_bound(l, m);
    assert(l * 4 == q * (4 * m) + r * 4) by (nonlinear_arith)
        requires
            l == q * m + r,
    ;
    vstd::arithmetic::div_mod::lemma_fundamental_div_mod_converse(l * 4, 4 * m, q, r * 4);
    assert((r * 4) % (4 * m) == r * 4) by (nonlinear_arith)
        requires
            0 <= r < m,
            0 < m,
    ;
}

/// The hexadecimal scan stays inside the text and stops at the first
/// character that is not a digit.
pub proof fn lemma_hex_bad_at(s: Seq<char>, i: int)
    requires
        0 <= i <= s.len(),
    ensures
        i <= spec_hex_bad_at(s, i) <= s.len(),
        forall|j: int| i <= j < spec_hex_bad_at(s, i) ==> is_hex_digit(#[trigger] s[j]),
        spec_hex_bad_at(s, i) < s.len() ==> !is_hex_digit(s[spec_hex_bad_at(s, i)]),
    decreases s.len() - i,
{
    if i < s.len() && is_hex_digit(s[i]) {
        lemma_hex_bad_at(s, i + 1);
    }
}

/// Executable test matching `is_hex_digit`.
pub fn hex_digit_char(c: char) -> (r: bool)
    ensures
        r == is_hex_digit(c),
{
    ('0' <= c && c <= '9') || ('a' <= c && c <= 'f') || ('A' <= c && c <= 'F')
}

/// The numeric value of a hexadecimal digit, matching `hex_digit_val`.
pub fn hex_digit_value(c: char) -> (r: u8)
    requires
        is_hex_digit(c),
    ensures
        r as int == hex_digit_val(c),
        r < 16,
{
    let u: u32 = c as u32;
    if '0' <= c && c <= '9' {
        (u - 48) as u8
    } else if 'a' <= c && c <= 'f' {
        (u - 87) as u8
    } else {
        (u - 55) as u8
    }
}

/// Compares two texts character by character.
pub fn str_eq(a: &str, b: &str) -> (r: bool)
    ensures
        r == (a@ == b@),
{
    let la: usize = a.unicode_len();
    let lb: usize = b.unicode_len();
    if la != lb {
        proof {
            assert(a@.len() != b@.len());
        }
        return false;
    }
    let mut i: usize = 0;
    while i < la
        invariant
            la == a@.len(),
            lb == b@.len(),
            la == lb,
            0 <= i <= la,
            forall|j: int| 0 <= j < i ==> a@[j] == b@[j],
        decreases la - i,
    {
        if a.get_char(i) != b.get_char(i) {
            return false;
        }
        i += 1;
    }
    proof {
        assert(a@ =~= b@);
    }
    true
}

/// The decimal digit character for a value below ten.
pub open spec fn spec_decimal_digit(d: int) -> char {
    if d == 0 {
        '0'
    } else if d == 1 {
        '1'
    } else if d == 2 {
        '2'
    } else if d == 3 {
        '3'
    } else if d == 4 {
        '4'
    } else if d == 5 {
        '5'
    } else if d == 6 {
        '6'
    } else if d == 7 {
        '7'
    } else if d == 8 {
        '8'
    } else {
        '9'
    }
}

/// The decimal digits of a nonnegative number, most significant first.
pub open spec fn spec_decimal(n: int) -> Seq<char>
    decreases n,
{
    if n < 10 {
        seq![spec_decimal_digit(n)]
    } else {
        spec_decimal(n / 10).push(spec_decimal_digit(n % 10))
    }
}

/// Writes a number in decimal.
pub fn usize_to_string(n: usize) -> (r: String)
    ensures
        r@ == spec_decimal(n as int),
    decreases n,
{
    let d: usize = n % 10;
    let c: char = match d {
        0 => '0',
        1 => '1',
        2 => '2',
        3 => '3',
        4 => '4',
        5 => '5',
        6 => '6',
        7 => '7',
        8 => '8',
        _ => '9',
    };
    if n < 10 {
        let mut out = String::new();
        out.push(c);
        proof {
            assert(out@ =~= spec_decimal(n as int));
        }
        out
    } else {
        let mut out = usize_to_string(n / 10);
        out.push(c);
        out
    }
}

/// A line number never exceeds one more than the position.
proof fn lemma_line_n_bound(s: Seq<char>, i: int)
    requires
        0 <= i,
    ensures
        spec_line_n(s, i) <= i + 1,
        1 <= spec_line_n(s, i),
    decreases i,
{
    if i > 0 {
        lemma_line_n_bound(s, i - 1);
    }
}

} // verus!
