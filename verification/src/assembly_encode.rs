//! Translating token lines directly to machine code, the last step in assembly.
use vstd::prelude::*;
use crate::scan::{HexDecodeError, is_hex_digit, hex_digit_val, spec_hex_ok, spec_hex_bytes,
    spec_hex_bad_at, hex_digit_char, hex_digit_value, lemma_hex_bad_at, lemma_mul4_mod, str_eq};

verus! {

/// One "unit" of the assembly vocabulary: the name of an opcode or of a device
/// that reads or writes the bus, together with its numeric id.
#[derive(Debug, PartialEq, Eq)]
pub struct AssemblyWord<const BIT_SIZE: u8> {
    /// May be represented by fewer than 8 bits.
    pub id_: u8,
    /// Name of this word in an assembly program.
    pub name: String,
}

/// Mathematical image of an `AssemblyWord`.
pub struct AssemblyWordView {
    pub id_: u8,
    pub name: Seq<char>,
}

impl<const BIT_SIZE: u8> View for AssemblyWord<BIT_SIZE> {
    type V = AssemblyWordView;

    open spec fn view(&self) -> AssemblyWordView {
        AssemblyWordView { id_: self.id_, name: self.name@ }
    }
}

impl<const BIT_SIZE: u8> DeepView for AssemblyWord<BIT_SIZE> {
    type V = AssemblyWordView;

    open spec fn deep_view(&self) -> AssemblyWordView {
        self.view()
    }
}

/// The grammatical role a 4-bit assembly word may stand in.
#[derive(Clone, Copy, Debug, PartialEq, Eq)]
pub enum Assembler4BitWordContext {
    Opcode,
    AluOpcode,
    ToBus,
    FromBus,
}

/// The four name tables of the assembly vocabulary: opcodes, ALU opcodes,
/// to-bus addresses and from-bus addresses, each mapping a mnemonic to a
/// 4-bit id.
pub struct AssemblerConfig {
    pub opcodes: Vec<AssemblyWord<4>>,
    pub alu_opcodes: Vec<AssemblyWord<4>>,
    pub to_bus: Vec<AssemblyWord<4>>,
    pub from_bus: Vec<AssemblyWord<4>>,
}

/// Mathematical image of an `AssemblerConfig`.
pub struct AssemblerConfigView {
    pub opcodes: Seq<AssemblyWordView>,
    pub alu_opcodes: Seq<AssemblyWordView>,
    pub to_bus: Seq<AssemblyWordView>,
    pub from_bus: Seq<AssemblyWordView>,
}

impl View for AssemblerConfig {
    type V = AssemblerConfigView;

    open spec fn view(&self) -> AssemblerConfigView {
        AssemblerConfigView {
            opcodes: self.opcodes.deep_view(),
            alu_opcodes: self.alu_opcodes.deep_view(),
            to_bus: self.to_bus.deep_view(),
            from_bus: self.from_bus.deep_view(),
        }
    }
}

/// A lexical unit of the assembly syntax: either a hexadecimal literal or a
/// plain assembly word.
#[derive(Debug, PartialEq, Eq)]
pub enum TokenEnum {
    /// Hexadecimal literal.
    Literal {
        /// The parsed byte.
        n: u8,
        /// Four times the number of hex digits in the raw text; not the
        /// minimal width of `n`.
        bit_size: u8,
    },
    /// Regular assembly word.
    AssemblyWord(String),
}

/// Mathematical image of a `TokenEnum`.
pub enum TokenEnumView {
    Literal { n: u8, bit_size: u8 },
    AssemblyWord(Seq<char>),
}

impl View for TokenEnum {
    type V = TokenEnumView;

    open spec fn view(&self) -> TokenEnumView {
        match self {
            TokenEnum::Literal { n, bit_size } => TokenEnumView::Literal {
                n: *n,
                bit_size: *bit_size,
            },
            TokenEnum::AssemblyWord(s) => TokenEnumView::AssemblyWord(s@),
        }
    }
}

/// A token together with the raw source text it came from.
#[derive(Debug, PartialEq, Eq)]
pub struct Token {
    pub enum_: TokenEnum,
    pub raw: String,
}

/// Mathematical image of a `Token`.
pub struct TokenView {
    pub enum_: TokenEnumView,
    pub raw: Seq<char>,
}

impl View for Token {
    type V = TokenView;

    open spec fn view(&self) -> TokenView {
        TokenView { enum_: self.enum_@, raw: self.raw@ }
    }
}

impl DeepView for Token {
    type V = TokenView;

    open spec fn deep_view(&self) -> TokenView {
        self.view()
    }
}

impl Token {
    pub fn new(enum_: TokenEnum, raw: String) -> (r: Self)
        ensures
            r@.enum_ == enum_@,
            r@.raw == raw@,
    {
        Self { enum_, raw }
    }
}

impl<const BIT_SIZE: u8> Clone for AssemblyWord<BIT_SIZE> {
    fn clone(&self) -> (r: Self)
        ensures
            r == *self,
    {
        Self { id_: self.id_, name: self.name.clone() }
    }
}

impl Clone for TokenEnum {
    fn clone(&self) -> (r: Self)
        ensures
            r == *self,
    {
        match self {
            TokenEnum::Literal { n, bit_size } => TokenEnum::Literal {
                n: *n,
                bit_size: *bit_size,
            },
            TokenEnum::AssemblyWord(s) => TokenEnum::AssemblyWord(s.clone()),
        }
    }
}

impl Clone for Token {
    fn clone(&self) -> (r: Self)
        ensures
            r == *self,
    {
        Self { enum_: self.enum_.clone(), raw: self.raw.clone() }
    }
}

/// The code point of `c` with an upper-case ASCII letter folded to lower
/// case.
pub open spec fn lower_code(c: char) -> int {
    if 'A' <= c && c <= 'Z' {
        (c as int) + 32
    } else {
        c as int
    }
}

/// Whether two texts are equal after folding upper-case ASCII letters to
/// lower case.
pub open spec fn eq_ignore_case(a: Seq<char>, b: Seq<char>) -> bool {
    a.len() == b.len() && (forall|i: int|
        0 <= i < a.len() ==> lower_code(#[trigger] a[i]) == lower_code(#[trigger] b[i]))
}

/// Compares two texts, folding upper-case ASCII letters to lower case.
pub fn str_eq_ignore_case(a: &str, b: &str) -> (r: bool)
    ensures
        r == eq_ignore_case(a@, b@),
{
    let la: usize = a.unicode_len();
    let lb: usize = b.unicode_len();
    if la != lb {
        return false;
    }
    let mut i: usize = 0;
    while i < la
        invariant
            la == a@.len(),
            lb == b@.len(),
            la == lb,
            0 <= i <= la,
            forall|j: int| 0 <= j < i ==> lower_code(#[trigger] a@[j]) == lower_code(b@[j]),
        decreases la - i,
    {
        let ca: char = a.get_char(i);
        let cb: char = b.get_char(i);
        let fa: u32 = if 'A' <= ca && ca <= 'Z' {
            ca as u32 + 32
        } else {
            ca as u32
        };
        let fb: u32 = if 'A' <= cb && cb <= 'Z' {
            cb as u32 + 32
        } else {
            cb as u32
        };
        if fa != fb {
            return false;
        }
        i += 1;
    }
    true
}

/// The first word of `words`, looking from position `i` on, whose name
/// equals `raw` up to ASCII case; nothing when no name matches.
pub open spec fn spec_find_word_from(
    words: Seq<AssemblyWordView>,
    raw: Seq<char>,
    i: int,
) -> Option<AssemblyWordView>
    decreases words.len() - i,
{
    if !(0 <= i < words.len()) {
        None
    } else if eq_ignore_case(words[i].name, raw) {
        Some(words[i])
    } else {
        spec_find_word_from(words, raw, i + 1)
    }
}

/// The first word of `words` whose name equals `raw` up to ASCII case.
pub open spec fn spec_find_word(words: Seq<AssemblyWordView>, raw: Seq<char>) -> Option<
    AssemblyWordView,
> {
    spec_find_word_from(words, raw, 0)
}

/// The table of `config` that belongs to `word_type`.
pub open spec fn spec_table(config: AssemblerConfigView, word_type: Assembler4BitWordContext) -> Seq<
    AssemblyWordView,
> {
    match word_type {
        Assembler4BitWordContext::Opcode => config.opcodes,
        Assembler4BitWordContext::AluOpcode => config.alu_opcodes,
        Assembler4BitWordContext::ToBus => config.to_bus,
        Assembler4BitWordContext::FromBus => config.from_bus,
    }
}

impl AssemblerConfig {
    /// Looks `raw` up, case-insensitively, in the table for `word_type`.
    pub fn encode_4_bit_word(&self, word_type: Assembler4BitWordContext, raw: &str) -> (r: Option<
        AssemblyWord<4>,
    >)
        ensures
            match r {
                Some(w) => spec_find_word(spec_table(self@, word_type), raw@) == Some(w@),
                None => spec_find_word(spec_table(self@, word_type), raw@) is None,
            },
    {
        self.encode_generic_4_bit_word(
            match word_type {
                Assembler4BitWordContext::Opcode => &self.opcodes,
                Assembler4BitWordContext::AluOpcode => &self.alu_opcodes,
                Assembler4BitWordContext::ToBus => &self.to_bus,
                Assembler4BitWordContext::FromBus => &self.from_bus,
            },
            raw,
        )
    }

    /// Looks `raw` up, case-insensitively, in one table.
    fn encode_generic_4_bit_word(&self, words: &Vec<AssemblyWord<4>>, raw: &str) -> (r: Option<
        AssemblyWord<4>,
    >)
        ensures
            match r {
                Some(w) => spec_find_word(words.deep_view(), raw@) == Some(w@),
                None => spec_find_word(words.deep_view(), raw@) is None,
            },
    {
        let ghost ws = words.deep_view();
        let mut k: usize = 0;
        while k < words.len()
            invariant
                0 <= k <= words@.len(),
                ws == words.deep_view(),
                ws.len() == words@.len(),
                forall|j: int| 0 <= j < ws.len() ==> ws[j] == #[trigger] words@[j]@,
                spec_find_word_from(ws, raw@, 0) == spec_find_word_from(ws, raw@, k as int),
            decreases words@.len() - k,
        {
            let word_config = &words[k];
            if str_eq_ignore_case(word_config.name.as_str(), raw) {
                return Some(word_config.clone());
            }
            k += 1;
        }
        None
    }

    /// Resolves a token that must be an assembly word of the table for
    /// `correct_context`; a literal token or an unknown name is refused as
    /// `TokenWordInWrongContext`.
    pub fn get_4_bit_assembly_word(&self, token: &Token, correct_context: Assembler4BitWordContext)
        -> (r: Result<AssemblyWord<4>, AssemblyEncodeErrorEnum>)
        ensures
            match r {
                Ok(w) => spec_get_4_bit_word(self@, token@, correct_context) == Ok::<
                    AssemblyWordView,
                    AssemblyEncodeErrorEnumView,
                >(w@),
                Err(e) => spec_get_4_bit_word(self@, token@, correct_context) == Err::<
                    AssemblyWordView,
                    AssemblyEncodeErrorEnumView,
                >(e@),
            },
    {
        if let TokenEnum::AssemblyWord(word_raw) = &token.enum_ {
            match self.encode_4_bit_word(correct_context, word_raw.as_str()) {
                Some(word) => Ok(word),
                None => Err(
                    AssemblyEncodeErrorEnum::TokenWordInWrongContext {
                        token_raw: token.raw.clone(),
                        correct_context,
                    },
                ),
            }
        } else {
            // The token is not an assembly word
            Err(
                AssemblyEncodeErrorEnum::TokenWordInWrongContext {
                    token_raw: token.raw.clone(),
                    correct_context,
                },
            )
        }
    }
}

/// The outcome `get_4_bit_assembly_word` owes: the first case-insensitive
/// match in the table for `correct_context`, or `TokenWordInWrongContext`
/// when the token is a literal or no name matches.
pub open spec fn spec_get_4_bit_word(
    config: AssemblerConfigView,
    token: TokenView,
    correct_context: Assembler4BitWordContext,
) -> Result<AssemblyWordView, AssemblyEncodeErrorEnumView> {
    match token.enum_ {
        TokenEnumView::AssemblyWord(word_raw) => match spec_find_word(
            spec_table(config, correct_context),
            word_raw,
        ) {
            Some(w) => Ok(w),
            None => Err(
                (AssemblyEncodeErrorEnumView::TokenWordInWrongContext {
                    token_raw: token.raw,
                    correct_context,
                }),
            ),
        },
        TokenEnumView::Literal { .. } => Err(
            (AssemblyEncodeErrorEnumView::TokenWordInWrongContext {
                token_raw: token.raw,
                correct_context,
            }),
        ),
    }
}

/// The token a piece of raw text stands for: a `0x`-prefixed text must be a
/// run of hexadecimal digits (an odd count or a stray character is refused,
/// then any count other than two digits), everything else is a plain
/// assembly word.
pub open spec fn spec_token_decode(s: Seq<char>) -> Result<
    TokenEnumView,
    AssemblyEncodeErrorEnumView,
> {
    if s.len() >= 2 && s[0] == '0' && s[1] == 'x' {
        let digits = s.subrange(2, s.len() as int);
        if digits.len() % 2 != 0 {
            Err(AssemblyEncodeErrorEnumView::HexLiteralInvalid(HexDecodeError::OddLength))
        } else if !spec_hex_ok(digits) {
            Err(
                AssemblyEncodeErrorEnumView::HexLiteralInvalid(
                    (HexDecodeError::InvalidHexCharacter {
                        c: digits[spec_hex_bad_at(digits, 0)],
                        index: spec_hex_bad_at(digits, 0) as usize,
                    }),
                ),
            )
        } else if digits.len() != 2 {
            Err(
                (AssemblyEncodeErrorEnumView::HexLiteralWrongLength {
                    correct_len_bits: 8,
                    actual_len_bits: ((digits.len() * 4) % 0x100000000) as u32,
                }),
            )
        } else {
            Ok(TokenEnumView::Literal { n: spec_hex_bytes(digits)[0], bit_size: 8 })
        }
    } else {
        Ok(TokenEnumView::AssemblyWord(s))
    }
}

impl TokenEnum {
    /// Decodes one piece of raw text as `spec_token_decode` says.
    pub fn decode(in_: &str) -> (r: Result<Self, AssemblyEncodeErrorEnum>)
        ensures
            match r {
                Ok(t) => spec_token_decode(in_@) == Ok::<TokenEnumView,
                    AssemblyEncodeErrorEnumView>(t@),
                Err(e) => spec_token_decode(in_@) == Err::<TokenEnumView,
                    AssemblyEncodeErrorEnumView>(e@),
            },
    {
        let n: usize = in_.unicode_len();
        if n >= 2 && in_.get_char(0) == '0' && in_.get_char(1) == 'x' {
            let ghost digits = in_@.subrange(2, in_@.len() as int);
            let dlen: usize = n - 2;
            if dlen % 2 != 0 {
                return Err(AssemblyEncodeErrorEnum::HexLiteralInvalid(HexDecodeError::OddLength));
            }
            let mut k: usize = 0;
            while k < dlen
                invariant
                    n == in_@.len(),
                    n >= 2,
                    in_@[0] == '0',
                    in_@[1] == 'x',
                    dlen == n - 2,
                    dlen % 2 == 0,
                    digits == in_@.subrange(2, in_@.len() as int),
                    0 <= k <= dlen,
                    forall|j: int| 0 <= j < k ==> is_hex_digit(#[trigger] digits[j]),
                decreases dlen - k,
            {
                let c: char = in_.get_char(2 + k);
                assert(c == digits[k as int]);
                if !hex_digit_char(c) {
                    proof {
                        assert(digits.len() == dlen as int);
                        assert(digits.len() % 2 == 0);
                        lemma_hex_bad_at(digits, 0);
                        let bad = spec_hex_bad_at(digits, 0);
                        assert(0 <= k < digits.len() && !is_hex_digit(digits[k as int]));
                        assert(!spec_hex_ok(digits));
                        if bad < k as int {
                            assert(is_hex_digit(digits[bad]));
                        }
                        assert(bad == k as int);
                    }
                    return Err(
                        AssemblyEncodeErrorEnum::HexLiteralInvalid(
                            HexDecodeError::InvalidHexCharacter { c, index: k },
                        ),
                    );
                }
                k += 1;
            }
            if dlen != 2 {
                let actual: u32 = ((dlen % 0x40000000) * 4) as u32;
                proof {
                    lemma_mul4_mod(dlen as int, 0x40000000);
                }
                return Err(
                    AssemblyEncodeErrorEnum::HexLiteralWrongLength {
                        correct_len_bits: 8,
                        actual_len_bits: actual,
                    },
                );
            }
            let hi: u8 = hex_digit_value(in_.get_char(2));
            let lo: u8 = hex_digit_value(in_.get_char(3));
            assert(spec_hex_bytes(digits).len() == 1);
            Ok(TokenEnum::Literal { n: hi * 16 + lo, bit_size: 8 })
        } else {
            Ok(TokenEnum::AssemblyWord(in_.to_owned()))
        }
    }
}

impl Token {
    /// Decodes one piece of raw text, keeping the text beside the token.
    pub fn decode(in_: &str) -> (r: Result<Self, AssemblyEncodeErrorEnum>)
        ensures
            match r {
                Ok(t) => spec_token_decode(in_@) == Ok::<TokenEnumView,
                    AssemblyEncodeErrorEnumView>(t@.enum_) && t@.raw == in_@,
                Err(e) => spec_token_decode(in_@) == Err::<TokenEnumView,
                    AssemblyEncodeErrorEnumView>(e@),
            },
    {
        match TokenEnum::decode(in_) {
            Ok(enum_) => Ok(Self { enum_, raw: in_.to_owned() }),
            Err(e) => Err(e),
        }
    }
}

/// What can go wrong while encoding one token line.
#[derive(Debug)]
pub enum AssemblyEncodeErrorEnum {
    HexLiteralInvalid(HexDecodeError),
    HexLiteralWrongLength { correct_len_bits: u32, actual_len_bits: u32 },
    InvalidToken(String),
    IncorrectNumberOfTokensForOpcode { opcode: AssemblyWord<4>, n_tokens_in_line: usize },
    TokenWordInWrongContext { token_raw: String, correct_context: Assembler4BitWordContext },
    LiteralTokenInWrongContext { token: Token },
    UnspecifiedAluOpcode,
}

/// Mathematical image of an `AssemblyEncodeErrorEnum`.
pub enum AssemblyEncodeErrorEnumView {
    HexLiteralInvalid(HexDecodeError),
    HexLiteralWrongLength { correct_len_bits: u32, actual_len_bits: u32 },
    InvalidToken(Seq<char>),
    IncorrectNumberOfTokensForOpcode { opcode: AssemblyWordView, n_tokens_in_line: int },
    TokenWordInWrongContext { token_raw: Seq<char>, correct_context: Assembler4BitWordContext },
    LiteralTokenInWrongContext { token: TokenView },
    UnspecifiedAluOpcode,
}

/// The instruction word a `move` line encodes to: three tokens without an
/// explicit ALU opcode (which then defaults to zero) or four with one, then
/// a to-bus name and a from-bus name; the word packs the opcode in bits
/// 0-3, the ALU opcode in bits 4-7, the to-bus id in bits 8-11 and the
/// from-bus id in bits 12-15.
pub open spec fn spec_assemble_move(
    line: Seq<TokenView>,
    config: AssemblerConfigView,
    opcode: AssemblyWordView,
    base: u16,
) -> Result<u16, AssemblyEncodeErrorEnumView> {
    if line.len() == 3 || line.len() == 4 {
        let alu_result: Result<u8, AssemblyEncodeErrorEnumView> = if line.len() == 4 {
            match spec_get_4_bit_word(config, line[1], Assembler4BitWordContext::AluOpcode) {
                Ok(w) => Ok(w.id_),
                Err(e) => Err(e),
            }
        } else {
            Ok(0u8)
        };
        match alu_result {
            Err(e) => Err(e),
            Ok(alu_opcode) => {
                let write_addr_token = if line.len() == 4 {
                    line[2]
                } else {
                    line[1]
                };
                let read_addr_token = if line.len() == 4 {
                    line[3]
                } else {
                    line[2]
                };
                match spec_get_4_bit_word(config, write_addr_token, Assembler4BitWordContext::ToBus) {
                    Err(e) => Err(e),
                    Ok(ww) => match spec_get_4_bit_word(
                        config,
                        read_addr_token,
                        Assembler4BitWordContext::FromBus,
                    ) {
                        Err(e) => Err(e),
                        Ok(rw) => Ok(
                            base | ((alu_opcode << 4) as u16) | (((ww.id_ | ((rw.id_ << 4)
                                & 0xF0u8)) as u16) << 8),
                        ),
                    },
                }
            },
        }
    } else {
        Err(
            (AssemblyEncodeErrorEnumView::IncorrectNumberOfTokensForOpcode {
                opcode,
                n_tokens_in_line: line.len() as int,
            }),
        )
    }
}

/// The instruction word a `write` line encodes to: exactly three tokens,
/// the second an 8-bit literal, the third a from-bus name; the word packs
/// the opcode in bits 0-3, the literal in bits 4-11 and the from-bus id in
/// bits 12-15.
pub open spec fn spec_assemble_write(
    line: Seq<TokenView>,
    config: AssemblerConfigView,
    opcode: AssemblyWordView,
    base: u16,
) -> Result<u16, AssemblyEncodeErrorEnumView> {
    if line.len() != 3 {
        Err(
            (AssemblyEncodeErrorEnumView::IncorrectNumberOfTokensForOpcode {
                opcode,
                n_tokens_in_line: line.len() as int,
            }),
        )
    } else {
        match line[1].enum_ {
            TokenEnumView::Literal { n, bit_size } => {
                if bit_size == 8 {
                    match spec_get_4_bit_word(config, line[2], Assembler4BitWordContext::FromBus) {
                        Err(e) => Err(e),
                        Ok(rw) => Ok(
                            base | ((n as u16) << 4) | ((rw.id_ as u16) << 12),
                        ),
                    }
                } else {
                    Err(
                        (AssemblyEncodeErrorEnumView::HexLiteralWrongLength {
                            correct_len_bits: 8,
                            actual_len_bits: bit_size as u32,
                        }),
                    )
                }
            },
            TokenEnumView::AssemblyWord(..) => Err(
                (AssemblyEncodeErrorEnumView::LiteralTokenInWrongContext { token: line[1] }),
            ),
        }
    }
}

/// The instruction word a token line encodes to.  The first token must name
/// an opcode; a `move` or `write` opcode then reads its operands as
/// `spec_assemble_move` and `spec_assemble_write` say, and every other
/// opcode takes no operands and encodes to its own id.
pub open spec fn spec_assemble_instruction(
    line: Seq<TokenView>,
    config: AssemblerConfigView,
) -> Result<u16, AssemblyEncodeErrorEnumView>
    recommends
        line.len() >= 1,
{
    match line[0].enum_ {
        TokenEnumView::AssemblyWord(word) => match spec_find_word(config.opcodes, word) {
            None => Err(AssemblyEncodeErrorEnumView::InvalidToken(line[0].raw)),
            Some(opcode) => {
                let base = (opcode.id_ & 0x0Fu8) as u16;
                if opcode.name == "move"@ {
                    spec_assemble_move(line, config, opcode, base)
                } else if opcode.name == "write"@ {
                    spec_assemble_write(line, config, opcode, base)
                } else {
                    Ok(base)
                }
            },
        },
        TokenEnumView::Literal { .. } => Err(
            AssemblyEncodeErrorEnumView::InvalidToken(line[0].raw),
        ),
    }
}

/// Takes an instruction as a line of tokens and encodes it into one 16-bit
/// instruction word, exactly as `spec_assemble_instruction` says.  The
/// second component of an error is an optional human-readable hint.
pub fn assemble_instruction(line: &Vec<Token>, config: &AssemblerConfig) -> (r: Result<
    u16,
    (AssemblyEncodeErrorEnum, Option<String>),
>)
    requires
        line@.len() >= 1,
    ensures
        match r {
            Ok(w) => spec_assemble_instruction(line.deep_view(), config@) == Ok::<u16,
                AssemblyEncodeErrorEnumView>(w),
            Err(e) => spec_assemble_instruction(line.deep_view(), config@) == Err::<u16,
                AssemblyEncodeErrorEnumView>(e.0@),
        },
{
    proof {
        assert(forall|i: int|
            0 <= i < line@.len() ==> line.deep_view()[i] == #[trigger] line@[i]@);
    }
    // Opcode
    let opcode: AssemblyWord<4> = if let TokenEnum::AssemblyWord(word) = &line[0].enum_ {
        match config.encode_4_bit_word(Assembler4BitWordContext::Opcode, word.as_str()) {
            Some(opc) => opc,
            None => {
                return Err((AssemblyEncodeErrorEnum::InvalidToken(line[0].raw.clone()), None));
            },
        }
    } else {
        // The first token in the line is not an assembly word
        return Err((AssemblyEncodeErrorEnum::InvalidToken(line[0].raw.clone()), None));
    };
    let mut instruction: u16 = (opcode.id_ & 0x0Fu8) as u16;
    // Anything after it
    if str_eq(opcode.name.as_str(), "move") {
        // ALU opcode
        let alu_opcode_included = match line.len() {
            3 => false,  // MOVE <source> <destination>
            4 => true,  // MOVE <ALU opcode> <source> <destination>
            n => {
                return Err(
                    (
                        AssemblyEncodeErrorEnum::IncorrectNumberOfTokensForOpcode {
                            opcode,
                            n_tokens_in_line: n,
                        },
                        Some(String::from_str("There must be either 3 or 4 tokens in a `MOVE` line")),
                    ),
                );
            },
        };
        let alu_opcode: u8 = if alu_opcode_included {
            match config.get_4_bit_assembly_word(&line[1], Assembler4BitWordContext::AluOpcode) {
                Ok(word) => word.id_,
                Err(err_enum) => {
                    return Err((err_enum, None));
                },
            }
        } else {
            // Default ALU opcode
            0x00
        };
        // From and to address
        let (write_addr_token, read_addr_token): (&Token, &Token) = if alu_opcode_included {
            (&line[2], &line[3])
        } else {
            (&line[1], &line[2])
        };
        let write_addr: u8 = match config.get_4_bit_assembly_word(
            write_addr_token,
            Assembler4BitWordContext::ToBus,
        ) {
            Ok(word) => word.id_,
            Err(err_enum) => {
                return Err((err_enum, None));
            },
        };
        let read_addr: u8 = match config.get_4_bit_assembly_word(
            read_addr_token,
            Assembler4BitWordContext::FromBus,
        ) {
            Ok(word) => word.id_,
            Err(err_enum) => {
                return Err((err_enum, None));
            },
        };
        // Add to instruction
        instruction = instruction | ((alu_opcode << 4) as u16) | (((write_addr | ((read_addr << 4)
            & 0xF0u8)) as u16) << 8);
    } else if str_eq(opcode.name.as_str(), "write") {
        // Check the number of tokens
        if line.len() != 3 {
            return Err(
                (
                    AssemblyEncodeErrorEnum::IncorrectNumberOfTokensForOpcode {
                        opcode,
                        n_tokens_in_line: line.len(),
                    },
                    None,
                ),
            );
        }
        // Bits 4 - 11: raw hex value
        let write_value_token = &line[1];
        let write_value: u8 = if let TokenEnum::Literal { n, bit_size } = &write_value_token.enum_ {
            if *bit_size == 8 {
                *n
            } else {
                return Err(
                    (
                        AssemblyEncodeErrorEnum::HexLiteralWrongLength {
                            correct_len_bits: 8,
                            actual_len_bits: *bit_size as u32,
                        },
                        None,
                    ),
                );
            }
        } else {
            return Err(
                (
                    AssemblyEncodeErrorEnum::LiteralTokenInWrongContext {
                        token: write_value_token.clone(),
                    },
                    None,
                ),
            );
        };
        // Bus read address
        let read_addr_token = &line[2];
        let read_addr: u8 = match config.get_4_bit_assembly_word(
            read_addr_token,
            Assembler4BitWordContext::FromBus,
        ) {
            Ok(word) => word.id_,
            Err(err_enum) => {
                return Err((err_enum, None));
            },
        };
        // Add to instruction
        instruction = instruction | ((write_value as u16) << 4) | ((read_addr as u16) << 12);
    }
    // All other instructions require nothing besides the opcode
    Ok(instruction)
}

impl View for AssemblyEncodeErrorEnum {
    type V = AssemblyEncodeErrorEnumView;

    open spec fn view(&self) -> AssemblyEncodeErrorEnumView {
        match self {
            AssemblyEncodeErrorEnum::HexLiteralInvalid(e) => {
                AssemblyEncodeErrorEnumView::HexLiteralInvalid(*e)
            },
            AssemblyEncodeErrorEnum::HexLiteralWrongLength { correct_len_bits, actual_len_bits } => {
                AssemblyEncodeErrorEnumView::HexLiteralWrongLength {
                    correct_len_bits: *correct_len_bits,
                    actual_len_bits: *actual_len_bits,
                }
            },
            AssemblyEncodeErrorEnum::InvalidToken(s) => AssemblyEncodeErrorEnumView::InvalidToken(
                s@,
            ),
            AssemblyEncodeErrorEnum::IncorrectNumberOfTokensForOpcode {
                opcode,
                n_tokens_in_line,
            } => {
                AssemblyEncodeErrorEnumView::IncorrectNumberOfTokensForOpcode {
                    opcode: opcode@,
                    n_tokens_in_line: *n_tokens_in_line as int,
                }
            },
            AssemblyEncodeErrorEnum::TokenWordInWrongContext { token_raw, correct_context } => {
                AssemblyEncodeErrorEnumView::TokenWordInWrongContext {
                    token_raw: token_raw@,
                    correct_context: *correct_context,
                }
            },
            AssemblyEncodeErrorEnum::LiteralTokenInWrongContext { token } => {
                AssemblyEncodeErrorEnumView::LiteralTokenInWrongContext { token: token@ }
            },
            AssemblyEncodeErrorEnum::UnspecifiedAluOpcode => {
                AssemblyEncodeErrorEnumView::UnspecifiedAluOpcode
            },
        }
    }
}

} // verus!

