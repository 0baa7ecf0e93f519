//! The syntax tree built from assembly source text, and the parse errors.
use vstd::prelude::*;
use crate::assembly_encode::{Token, TokenEnum, TokenEnumView, TokenView};
use crate::macros::{Macro, MacroView, spec_parse_macro};
use crate::scan::{check_for_and_parse_bit_string, identifier_char, is_identifier_char,
    parse_identifier, parse_string_literal, skip_whitespace, spec_check_bit_string,
    spec_identifier_end, spec_parse_string_literal, spec_skip_whitespace, lemma_skip_whitespace};
use crate::{COMMENT_BEGIN, MACRO_BEGIN};

verus! {

/// The kind of a syntax tree node.
#[derive(Debug, PartialEq, Eq)]
pub enum SyntaxTreeNodeType {
    /// The root node always has this type.
    Program,
    Macro(Macro),
    Instruction,
    InstructionToken(Token),
    Comment,
    StringLiteral(String),
}

/// Mathematical image of a `SyntaxTreeNodeType`.
pub enum SyntaxTreeNodeTypeView {
    Program,
    Macro(MacroView),
    Instruction,
    InstructionToken(TokenView),
    Comment,
    StringLiteral(Seq<char>),
}

impl View for SyntaxTreeNodeType {
    type V = SyntaxTreeNodeTypeView;

    open spec fn view(&self) -> SyntaxTreeNodeTypeView {
        match self {
            SyntaxTreeNodeType::Program => SyntaxTreeNodeTypeView::Program,
            SyntaxTreeNodeType::Macro(m) => SyntaxTreeNodeTypeView::Macro(m@),
            SyntaxTreeNodeType::Instruction => SyntaxTreeNodeTypeView::Instruction,
            SyntaxTreeNodeType::InstructionToken(t) => SyntaxTreeNodeTypeView::InstructionToken(
                t@,
            ),
            SyntaxTreeNodeType::Comment => SyntaxTreeNodeTypeView::Comment,
            SyntaxTreeNodeType::StringLiteral(s) => SyntaxTreeNodeTypeView::StringLiteral(s@),
        }
    }
}

impl Clone for SyntaxTreeNodeType {
    fn clone(&self) -> (r: Self)
        ensures
            r@ == self@,
    {
        match self {
            SyntaxTreeNodeType::Program => SyntaxTreeNodeType::Program,
            SyntaxTreeNodeType::Macro(m) => SyntaxTreeNodeType::Macro(m.clone()),
            SyntaxTreeNodeType::Instruction => SyntaxTreeNodeType::Instruction,
            SyntaxTreeNodeType::InstructionToken(t) => SyntaxTreeNodeType::InstructionToken(
                t.clone(),
            ),
            SyntaxTreeNodeType::Comment => SyntaxTreeNodeType::Comment,
            SyntaxTreeNodeType::StringLiteral(s) => SyntaxTreeNodeType::StringLiteral(s.clone()),
        }
    }
}

/// The grammatical context the parser is working in; used both to drive
/// parsing and to report where an error happened.
#[derive(Clone, Copy, Debug, PartialEq, Eq)]
pub enum ParseContext {
    Program,
    Macro,
    Instruction,
    InstructionToken,
    Comment,
    StringLiteral,
}

/// A node of the syntax tree: its kind, the source range it covers, and its
/// ordered children.
#[derive(Debug, PartialEq, Eq)]
pub struct SyntaxTreeNode {
    pub type_: SyntaxTreeNodeType,
    /// Inclusive.
    pub begin: usize,
    /// Exclusive.
    pub end: usize,
    pub children: Vec<Self>,
}

/// Mathematical image of a `SyntaxTreeNode`.
pub struct SyntaxTreeNodeView {
    pub type_: SyntaxTreeNodeTypeView,
    pub begin: int,
    pub end: int,
    pub children: Seq<SyntaxTreeNodeView>,
}

/// Mathematical image of a `SyntaxTreeNode`, applied recursively to the
/// children.
pub open spec fn node_view(n: SyntaxTreeNode) -> SyntaxTreeNodeView
    decreases n,
{
    SyntaxTreeNodeView {
        type_: n.type_@,
        begin: n.begin as int,
        end: n.end as int,
        children: Seq::new(
            n.children@.len(),
            |i: int|
                if 0 <= i < n.children@.len() {
                    node_view(n.children@[i])
                } else {
                    arbitrary()
                },
        ),
    }
}

impl View for SyntaxTreeNode {
    type V = SyntaxTreeNodeView;

    #[verifier::inline]
    open spec fn view(&self) -> SyntaxTreeNodeView {
        node_view(*self)
    }
}

impl SyntaxTreeNode {
    /// Plain constructor.
    pub fn new(type_: SyntaxTreeNodeType, begin: usize, end: usize, children: Vec<Self>) -> (r:
        Self)
        ensures
            r@.type_ == type_@,
            r@.begin == begin as int,
            r@.end == end as int,
            r@.children == children.deep_view(),
    {
        let r = Self { type_, begin, end, children };
        proof {
            assert forall|i: int| 0 <= i < r.children@.len() implies r@.children[i]
                == r.children.deep_view()[i] by {
                assert(r@.children[i] == r.children@[i]@);
                assert(r.children.deep_view()[i] == r.children@[i].deep_view());
            }
            assert(r@.children =~= r.children.deep_view());
        }
        r
    }
}

impl DeepView for SyntaxTreeNode {
    type V = SyntaxTreeNodeView;

    open spec fn deep_view(&self) -> SyntaxTreeNodeView {
        self.view()
    }
}

/// What went wrong during parsing.
#[derive(Clone, Debug, PartialEq, Eq)]
pub enum ParseErrorType {
    InvalidCharacterInContext(char, ParseContext),
    UnfinishedNode(ParseContext),
    MissingMacroIdentifier,
    StringInvalidEscapeSequence(char),
    StringEscapeEOF,
    HexParseError,
    InvalidMacroIdentifier(String),
    MacroWrongNumArgs { actual: usize, correct: usize },
}

/// Mathematical image of a `ParseErrorType`.
pub enum ParseErrorTypeView {
    InvalidCharacterInContext(char, ParseContext),
    UnfinishedNode(ParseContext),
    MissingMacroIdentifier,
    StringInvalidEscapeSequence(char),
    StringEscapeEOF,
    HexParseError,
    InvalidMacroIdentifier(Seq<char>),
    MacroWrongNumArgs { actual: int, correct: int },
}

impl View for ParseErrorType {
    type V = ParseErrorTypeView;

    open spec fn view(&self) -> ParseErrorTypeView {
        match self {
            ParseErrorType::InvalidCharacterInContext(c, ctx) => {
                ParseErrorTypeView::InvalidCharacterInContext(*c, *ctx)
            },
            ParseErrorType::UnfinishedNode(ctx) => ParseErrorTypeView::UnfinishedNode(*ctx),
            ParseErrorType::MissingMacroIdentifier => ParseErrorTypeView::MissingMacroIdentifier,
            ParseErrorType::StringInvalidEscapeSequence(c) => {
                ParseErrorTypeView::StringInvalidEscapeSequence(*c)
            },
            ParseErrorType::StringEscapeEOF => ParseErrorTypeView::StringEscapeEOF,
            ParseErrorType::HexParseError => ParseErrorTypeView::HexParseError,
            ParseErrorType::InvalidMacroIdentifier(s) => {
                ParseErrorTypeView::InvalidMacroIdentifier(s@)
            },
            ParseErrorType::MacroWrongNumArgs { actual, correct } => {
                ParseErrorTypeView::MacroWrongNumArgs {
                    actual: *actual as int,
                    correct: *correct as int,
                }
            },
        }
    }
}

/// A parse error: the source range it covers, its kind, and an optional
/// human-readable hint.
#[derive(Clone, Debug, PartialEq, Eq)]
pub struct ParseError {
    pub begin: usize,
    pub end: usize,
    pub type_: ParseErrorType,
    pub message: Option<String>,
}

/// Mathematical image of a `ParseError`: the range and the kind.  The
/// optional hint is presentation only and is not part of the image.
pub struct ParseErrorView {
    pub begin: int,
    pub end: int,
    pub type_: ParseErrorTypeView,
}

impl View for ParseError {
    type V = ParseErrorView;

    open spec fn view(&self) -> ParseErrorView {
        ParseErrorView { begin: self.begin as int, end: self.end as int, type_: self.type_@ }
    }
}

impl ParseError {
    /// Plain constructor.
    pub fn new(begin: usize, end: usize, type_: ParseErrorType, message: Option<String>) -> (r:
        Self)
        ensures
            r@.begin == begin as int,
            r@.end == end as int,
            r@.type_ == type_@,
    {
        Self { begin, end, type_, message }
    }
}

/// The position of the first newline at or after `i`; the length of `s` when
/// the rest of the text holds none.  Positions outside `s` are returned
/// unchanged.
pub open spec fn spec_comment_end(s: Seq<char>, i: int) -> int
    decreases s.len() - i,
{
    if !(0 <= i < s.len()) {
        i
    } else if s[i] == '\n' {
        i
    } else {
        spec_comment_end(s, i + 1)
    }
}

/// The comment scan stays inside the text and stops at the first newline.
pub proof fn lemma_comment_end(s: Seq<char>, i: int)
    requires
        0 <= i <= s.len(),
    ensures
        i <= spec_comment_end(s, i) <= s.len(),
    decreases s.len() - i,
{
    if i < s.len() && s[i] != '\n' {
        lemma_comment_end(s, i + 1);
    }
}

/// The token read at `start`: its text is the run of identifier characters
/// there, reinterpreted as a byte literal when it has the `0x` form.  A
/// literal without digits and a malformed literal are refused.
pub open spec fn spec_parse_instruction_token(s: Seq<char>, start: int) -> Result<
    SyntaxTreeNodeView,
    ParseErrorView,
> {
    let j = spec_identifier_end(s, start);
    if j >= s.len() {
        Err(
            ParseErrorView {
                begin: start,
                end: j,
                type_: ParseErrorTypeView::UnfinishedNode(ParseContext::InstructionToken),
            },
        )
    } else {
        let raw = s.subrange(start, j);
        match spec_check_bit_string(s, start, Some(ParseContext::InstructionToken)) {
            Some(Err(e)) => Err(e),
            Some(Ok((bytes, bit_size, _))) => {
                if bytes.len() == 0 {
                    Err(
                        ParseErrorView {
                            begin: start,
                            end: j,
                            type_: ParseErrorTypeView::HexParseError,
                        },
                    )
                } else {
                    Ok(
                        (SyntaxTreeNodeView {
                            type_: SyntaxTreeNodeTypeView::InstructionToken(
                                TokenView {
                                    enum_: (TokenEnumView::Literal { n: bytes[0], bit_size }),
                                    raw,
                                },
                            ),
                            begin: start,
                            end: j,
                            children: Seq::empty(),
                        }),
                    )
                }
            },
            None => Ok(
                (SyntaxTreeNodeView {
                    type_: SyntaxTreeNodeTypeView::InstructionToken(
                        TokenView { enum_: TokenEnumView::AssemblyWord(raw), raw },
                    ),
                    begin: start,
                    end: j,
                    children: Seq::empty(),
                }),
            ),
        }
    }
}

/// The tokens of one instruction, read from `i` through the terminating
/// semicolon: identifier-character runs separated by single spaces, each one
/// a token, ending at `;`.
pub open spec fn spec_parse_instruction_items(s: Seq<char>, i: int) -> Result<
    (Seq<SyntaxTreeNodeView>, int),
    ParseErrorView,
>
    decreases s.len() - i,
{
    if i >= s.len() {
        Ok((Seq::empty(), i))
    } else {
        let iw = spec_skip_whitespace(s, i);
        if iw >= s.len() {
            Err(
                ParseErrorView {
                    begin: i,
                    end: iw,
                    type_: ParseErrorTypeView::UnfinishedNode(ParseContext::Instruction),
                },
            )
        } else if !is_identifier_char(s[iw]) {
            Err(
                ParseErrorView {
                    begin: iw,
                    end: iw + 1,
                    type_: ParseErrorTypeView::InvalidCharacterInContext(
                        s[iw],
                        ParseContext::Instruction,
                    ),
                },
            )
        } else {
            match spec_parse_instruction_token(s, iw) {
                Err(e) => Err(e),
                Ok(node) => {
                    let j = node.end;
                    if j >= s.len() {
                        Err(
                            ParseErrorView {
                                begin: j,
                                end: j,
                                type_: ParseErrorTypeView::UnfinishedNode(
                                    ParseContext::Instruction,
                                ),
                            },
                        )
                    } else if s[j] == ';' {
                        Ok((seq![node], j + 1))
                    } else if s[j] != ' ' {
                        Err(
                            ParseErrorView {
                                begin: j,
                                end: j + 1,
                                type_: ParseErrorTypeView::InvalidCharacterInContext(
                                    s[j],
                                    ParseContext::Instruction,
                                ),
                            },
                        )
                    } else if j <= i {
                        Err(
                            ParseErrorView {
                                begin: j,
                                end: j,
                                type_: ParseErrorTypeView::UnfinishedNode(
                                    ParseContext::Instruction,
                                ),
                            },
                        )
                    } else {
                        match spec_parse_instruction_items(s, j) {
                            Err(e) => Err(e),
                            Ok((rest, end)) => Ok((seq![node] + rest, end)),
                        }
                    }
                },
            }
        }
    }
}

/// The top-level constructs read from `i` to the end of the text: an
/// identifier character begins an instruction, `@` a macro, `#` a comment;
/// a bare `;` is an empty statement; anything else is refused.
pub open spec fn spec_parse_program_items(s: Seq<char>, i: int) -> Result<
    (Seq<SyntaxTreeNodeView>, int),
    ParseErrorView,
>
    decreases s.len() - i,
{
    if i >= s.len() {
        Ok((Seq::empty(), i))
    } else {
        let iw = spec_skip_whitespace(s, i);
        if iw >= s.len() {
            Ok((Seq::empty(), iw))
        } else {
            let c = s[iw];
            if is_identifier_char(c) {
                match spec_parse_instruction_items(s, iw) {
                    Err(e) => Err(e),
                    Ok((children, j)) => {
                        let node = SyntaxTreeNodeView {
                            type_: SyntaxTreeNodeTypeView::Instruction,
                            begin: iw,
                            end: j,
                            children,
                        };
                        if j <= i || j > s.len() {
                            Err(
                                ParseErrorView {
                                    begin: j,
                                    end: j,
                                    type_: ParseErrorTypeView::UnfinishedNode(
                                        ParseContext::Program,
                                    ),
                                },
                            )
                        } else {
                            match spec_parse_program_items(s, j) {
                                Err(e) => Err(e),
                                Ok((rest, end)) => Ok((seq![node] + rest, end)),
                            }
                        }
                    },
                }
            } else if c == MACRO_BEGIN {
                match spec_parse_macro(s, iw + 1) {
                    Err(e) => Err(e),
                    Ok((mv, j)) => {
                        let node = SyntaxTreeNodeView {
                            type_: SyntaxTreeNodeTypeView::Macro(mv),
                            begin: iw + 1,
                            end: j,
                            children: Seq::empty(),
                        };
                        if j <= i || j > s.len() {
                            Err(
                                ParseErrorView {
                                    begin: j,
                                    end: j,
                                    type_: ParseErrorTypeView::UnfinishedNode(
                                        ParseContext::Program,
                                    ),
                                },
                            )
                        } else {
                            match spec_parse_program_items(s, j) {
                                Err(e) => Err(e),
                                Ok((rest, end)) => Ok((seq![node] + rest, end)),
                            }
                        }
                    },
                }
            } else if c == COMMENT_BEGIN {
                let j = spec_comment_end(s, iw + 1);
                let node = SyntaxTreeNodeView {
                    type_: SyntaxTreeNodeTypeView::Comment,
                    begin: iw + 1,
                    end: j,
                    children: Seq::empty(),
                };
                if j <= i || j > s.len() {
                    Err(
                        ParseErrorView {
                            begin: j,
                            end: j,
                            type_: ParseErrorTypeView::UnfinishedNode(ParseContext::Program),
                        },
                    )
                } else {
                    match spec_parse_program_items(s, j) {
                        Err(e) => Err(e),
                        Ok((rest, end)) => Ok((seq![node] + rest, end)),
                    }
                }
            } else if c != ';' {
                Err(
                    ParseErrorView {
                        begin: iw,
                        end: iw + 1,
                        type_: ParseErrorTypeView::InvalidCharacterInContext(
                            c,
                            ParseContext::Program,
                        ),
                    },
                )
            } else {
                if iw + 1 <= i {
                    Err(
                        ParseErrorView {
                            begin: iw,
                            end: iw + 1,
                            type_: ParseErrorTypeView::UnfinishedNode(ParseContext::Program),
                        },
                    )
                } else {
                    spec_parse_program_items(s, iw + 1)
                }
            }
        }
    }
}

/// What parsing in context `ctx` at `start` yields: the node read there, or
/// the parse error.
pub open spec fn spec_parse_context(ctx: ParseContext, s: Seq<char>, start: int) -> Result<
    SyntaxTreeNodeView,
    ParseErrorView,
> {
    match ctx {
        ParseContext::Program => match spec_parse_program_items(s, start) {
            Err(e) => Err(e),
            Ok((children, end)) => Ok(
                (SyntaxTreeNodeView {
                    type_: SyntaxTreeNodeTypeView::Program,
                    begin: start,
                    end,
                    children,
                }),
            ),
        },
        ParseContext::Macro => match spec_parse_macro(s, start) {
            Err(e) => Err(e),
            Ok((mv, end)) => Ok(
                (SyntaxTreeNodeView {
                    type_: SyntaxTreeNodeTypeView::Macro(mv),
                    begin: start,
                    end,
                    children: Seq::empty(),
                }),
            ),
        },
        ParseContext::Instruction => match spec_parse_instruction_items(s, start) {
            Err(e) => Err(e),
            Ok((children, end)) => Ok(
                (SyntaxTreeNodeView {
                    type_: SyntaxTreeNodeTypeView::Instruction,
                    begin: start,
                    end,
                    children,
                }),
            ),
        },
        ParseContext::InstructionToken => spec_parse_instruction_token(s, start),
        ParseContext::Comment => Ok(
            (SyntaxTreeNodeView {
                type_: SyntaxTreeNodeTypeView::Comment,
                begin: start,
                end: spec_comment_end(s, start),
                children: Seq::empty(),
            }),
        ),
        ParseContext::StringLiteral => match spec_parse_string_literal(
            s,
            start,
            start,
            Seq::empty(),
        ) {
            Err(e) => Err(e),
            Ok((text, end)) => Ok(
                (SyntaxTreeNodeView {
                    type_: SyntaxTreeNodeTypeView::StringLiteral(text),
                    begin: start,
                    end,
                    children: Seq::empty(),
                }),
            ),
        },
    }
}

/// Reads one token node at `start`, as `spec_parse_instruction_token` says.
fn parse_instruction_token_node(source: &Vec<char>, start: usize) -> (r: Result<
    SyntaxTreeNode,
    ParseError,
>)
    requires
        start <= source@.len(),
    ensures
        match r {
            Ok(node) => spec_parse_instruction_token(source@, start as int) matches Ok(q) && node@
                == q && node.end as int == q.end && node.end < source@.len(),
            Err(e) => spec_parse_instruction_token(source@, start as int) matches Err(q) && e@
                == q,
        },
{
    let (assembly_word, new_i) = match parse_identifier(
        source,
        start,
        Some(ParseContext::InstructionToken),
    ) {
        Ok(p) => p,
        Err(e) => {
            return Err(e);
        },
    };
    let token: Token = match check_for_and_parse_bit_string(
        source,
        start,
        Some(ParseContext::InstructionToken),
    ) {
        Some(result_) => {
            let (bytes_vec, bit_size, _) = match result_ {
                Ok(p) => p,
                Err(e) => {
                    return Err(e);
                },
            };
            if bytes_vec.len() == 0 {
                // A bare `0x` holds no digits at all
                return Err(
                    ParseError::new(start, new_i, ParseErrorType::HexParseError, None),
                );
            }
            Token { enum_: (TokenEnum::Literal { n: bytes_vec[0], bit_size }), raw: assembly_word }
        },
        None => Token {
            enum_: TokenEnum::AssemblyWord(assembly_word.clone()),
            raw: assembly_word,
        },
    };
    let node = SyntaxTreeNode::new(
        SyntaxTreeNodeType::InstructionToken(token),
        start,
        new_i,
        Vec::new(),
    );
    proof {
        assert(node@.children =~= Seq::<SyntaxTreeNodeView>::empty());
    }
    Ok(node)
}

/// Reads the token nodes of one instruction from `i` through its semicolon,
/// as `spec_parse_instruction_items` says.
fn parse_instruction_items(source: &Vec<char>, i: usize) -> (r: Result<
    (Vec<SyntaxTreeNode>, usize),
    ParseError,
>)
    requires
        i <= source@.len(),
    ensures
        match r {
            Ok(p) => spec_parse_instruction_items(source@, i as int) matches Ok(q) && p.0.deep_view()
                == q.0 && p.1 as int == q.1 && p.1 <= source@.len(),
            Err(e) => spec_parse_instruction_items(source@, i as int) matches Err(q) && e@ == q,
        },
    decreases source@.len() - i,
{
    let source_len: usize = source.len();
    if i >= source_len {
        let empty_vec: Vec<SyntaxTreeNode> = Vec::new();
        proof {
            assert(empty_vec.deep_view() =~= Seq::<SyntaxTreeNodeView>::empty());
        }
        return Ok((empty_vec, i));
    }
    proof {
        lemma_skip_whitespace(source@, i as int);
    }
    let iw: usize = match skip_whitespace(source, i, Some(ParseContext::Instruction)) {
        Ok(p) => p,
        Err(e) => {
            return Err(e);
        },
    };
    if !identifier_char(source[iw]) {
        return Err(
            ParseError::new(
                iw,
                iw + 1,
                ParseErrorType::InvalidCharacterInContext(source[iw], ParseContext::Instruction),
                None,
            ),
        );
    }
    let token_node = match parse_instruction_token_node(source, iw) {
        Ok(n) => n,
        Err(e) => {
            return Err(e);
        },
    };
    let j: usize = token_node.end;
    if j >= source_len {
        return Err(
            ParseError::new(j, j, ParseErrorType::UnfinishedNode(ParseContext::Instruction), None),
        );
    }
    let cj: char = source[j];
    if cj == ';' {
        let mut v: Vec<SyntaxTreeNode> = Vec::new();
        v.push(token_node);
        proof {
            assert(v.deep_view() =~= seq![
                spec_parse_instruction_token(source@, iw as int)->Ok_0,
            ]);
        }
        return Ok((v, j + 1));
    }
    if cj != ' ' {
        return Err(
            ParseError::new(
                j,
                j + 1,
                ParseErrorType::InvalidCharacterInContext(cj, ParseContext::Instruction),
                None,
            ),
        );
    }
    if j <= i {
        return Err(
            ParseError::new(j, j, ParseErrorType::UnfinishedNode(ParseContext::Instruction), None),
        );
    }
    let (mut rest, end) = match parse_instruction_items(source, j) {
        Ok(p) => p,
        Err(e) => {
            return Err(e);
        },
    };
    let ghost rest_view = rest.deep_view();
    rest.insert(0, token_node);
    proof {
        assert(rest.deep_view() =~= seq![
            spec_parse_instruction_token(source@, iw as int)->Ok_0,
        ] + rest_view);
    }
    Ok((rest, end))
}

/// Reads the top-level constructs from `i` to the end of the text, as
/// `spec_parse_program_items` says.
fn parse_program_items(source: &Vec<char>, i: usize) -> (r: Result<
    (Vec<SyntaxTreeNode>, usize),
    ParseError,
>)
    requires
        i <= source@.len(),
    ensures
        match r {
            Ok(p) => spec_parse_program_items(source@, i as int) matches Ok(q) && p.0.deep_view()
                == q.0 && p.1 as int == q.1 && p.1 <= source@.len(),
            Err(e) => spec_parse_program_items(source@, i as int) matches Err(q) && e@ == q,
        },
    decreases source@.len() - i,
{
    let source_len: usize = source.len();
    if i >= source_len {
        let empty_vec: Vec<SyntaxTreeNode> = Vec::new();
        proof {
            assert(empty_vec.deep_view() =~= Seq::<SyntaxTreeNodeView>::empty());
        }
        return Ok((empty_vec, i));
    }
    proof {
        lemma_skip_whitespace(source@, i as int);
    }
    let iw: usize = match skip_whitespace(source, i, None) {
        Ok(p) => p,
        Err(e) => {
            return Err(e);
        },
    };
    if iw >= source_len {
        let empty_vec: Vec<SyntaxTreeNode> = Vec::new();
        proof {
            assert(empty_vec.deep_view() =~= Seq::<SyntaxTreeNodeView>::empty());
        }
        return Ok((empty_vec, iw));
    }
    let c: char = source[iw];
    if identifier_char(c) {
        // An identifier begins an instruction
        let (children, j) = match parse_instruction_items(source, iw) {
            Ok(p) => p,
            Err(e) => {
                return Err(e);
            },
        };
        let node = SyntaxTreeNode::new(SyntaxTreeNodeType::Instruction, iw, j, children);
        if j <= i {
            return Err(
                ParseError::new(j, j, ParseErrorType::UnfinishedNode(ParseContext::Program), None),
            );
        }
        let (mut rest, end) = match parse_program_items(source, j) {
            Ok(p) => p,
            Err(e) => {
                return Err(e);
            },
        };
        let ghost rest_view = rest.deep_view();
        let ghost node_view = node@;
        rest.insert(0, node);
        proof {
            assert(rest.deep_view() =~= seq![node_view] + rest_view);
        }
        Ok((rest, end))
    } else if c == MACRO_BEGIN {
        let (macro_, j) = match Macro::parse(source, iw + 1) {
            Ok(p) => p,
            Err(e) => {
                return Err(e);
            },
        };
        let node = SyntaxTreeNode::new(
            SyntaxTreeNodeType::Macro(macro_),
            iw + 1,
            j,
            Vec::new(),
        );
        proof {
            assert(node@.children =~= Seq::<SyntaxTreeNodeView>::empty());
        }
        if j <= i {
            return Err(
                ParseError::new(j, j, ParseErrorType::UnfinishedNode(ParseContext::Program), None),
            );
        }
        let (mut rest, end) = match parse_program_items(source, j) {
            Ok(p) => p,
            Err(e) => {
                return Err(e);
            },
        };
        let ghost rest_view = rest.deep_view();
        let ghost node_view = node@;
        rest.insert(0, node);
        proof {
            assert(rest.deep_view() =~= seq![node_view] + rest_view);
        }
        Ok((rest, end))
    } else if c == COMMENT_BEGIN {
        let j: usize = comment_end(source, iw + 1);
        let node = SyntaxTreeNode::new(SyntaxTreeNodeType::Comment, iw + 1, j, Vec::new());
        proof {
            assert(node@.children =~= Seq::<SyntaxTreeNodeView>::empty());
        }
        if j <= i {
            return Err(
                ParseError::new(j, j, ParseErrorType::UnfinishedNode(ParseContext::Program), None),
            );
        }
        let (mut rest, end) = match parse_program_items(source, j) {
            Ok(p) => p,
            Err(e) => {
                return Err(e);
            },
        };
        let ghost rest_view = rest.deep_view();
        let ghost node_view = node@;
        rest.insert(0, node);
        proof {
            assert(rest.deep_view() =~= seq![node_view] + rest_view);
        }
        Ok((rest, end))
    } else if c != ';' {
        Err(
            ParseError::new(
                iw,
                iw + 1,
                ParseErrorType::InvalidCharacterInContext(c, ParseContext::Program),
                Some(String::from_str("Expected \";\"")),
            ),
        )
    } else {
        if iw + 1 <= i {
            return Err(
                ParseError::new(
                    iw,
                    iw + 1,
                    ParseErrorType::UnfinishedNode(ParseContext::Program),
                    None,
                ),
            );
        }
        // Skip the semicolon of an empty statement
        parse_program_items(source, iw + 1)
    }
}

/// Scans a comment body: everything from `start` up to the next newline,
/// which is left unconsumed.
fn comment_end(source: &Vec<char>, start: usize) -> (r: usize)
    requires
        start <= source@.len(),
    ensures
        r as int == spec_comment_end(source@, start as int),
        start <= r <= source@.len(),
{
    proof {
        lemma_comment_end(source@, start as int);
    }
    let mut i: usize = start;
    while i < source.len()
        invariant
            start <= i <= source@.len(),
            spec_comment_end(source@, start as int) == spec_comment_end(source@, i as int),
        decreases source@.len() - i,
    {
        if source[i] == '\n' {
            return i;
        }
        i += 1;
    }
    i
}

impl ParseContext {
    /// Parses one construct of this grammatical context at `start`, as
    /// `spec_parse_context` says: the whole program for `Program`, a macro
    /// for `Macro` (with `start` just after the `@`), an instruction through
    /// its semicolon, a single token, a comment body, or a string literal
    /// body.
    pub fn parse(&self, source: &Vec<char>, start: usize) -> (r: Result<SyntaxTreeNode, ParseError>)
        requires
            start <= source@.len(),
        ensures
            match r {
                Ok(node) => spec_parse_context(*self, source@, start as int) matches Ok(q) && node@
                    == q,
                Err(e) => spec_parse_context(*self, source@, start as int) matches Err(q) && e@
                    == q,
            },
    {
        match self {
            Self::Program => {
                let (children, end) = match parse_program_items(source, start) {
                    Ok(p) => p,
                    Err(e) => {
                        return Err(e);
                    },
                };
                Ok(SyntaxTreeNode::new(SyntaxTreeNodeType::Program, start, end, children))
            },
            Self::Macro => {
                let (macro_, end) = match Macro::parse(source, start) {
                    Ok(p) => p,
                    Err(e) => {
                        return Err(e);
                    },
                };
                let node = SyntaxTreeNode::new(
                    SyntaxTreeNodeType::Macro(macro_),
                    start,
                    end,
                    Vec::new(),
                );
                proof {
                    assert(node@.children =~= Seq::<SyntaxTreeNodeView>::empty());
                }
                Ok(node)
            },
            Self::Instruction => {
                let (children, end) = match parse_instruction_items(source, start) {
                    Ok(p) => p,
                    Err(e) => {
                        return Err(e);
                    },
                };
                Ok(SyntaxTreeNode::new(SyntaxTreeNodeType::Instruction, start, end, children))
            },
            Self::InstructionToken => parse_instruction_token_node(source, start),
            Self::Comment => {
                let end: usize = comment_end(source, start);
                let node = SyntaxTreeNode::new(
                    SyntaxTreeNodeType::Comment,
                    start,
                    end,
                    Vec::new(),
                );
                proof {
                    assert(node@.children =~= Seq::<SyntaxTreeNodeView>::empty());
                }
                Ok(node)
            },
            Self::StringLiteral => {
                let (parsed_string, end) = match parse_string_literal(source, start) {
                    Ok(p) => p,
                    Err(e) => {
                        return Err(e);
                    },
                };
                let node = SyntaxTreeNode::new(
                    SyntaxTreeNodeType::StringLiteral(parsed_string),
                    start,
                    end,
                    Vec::new(),
                );
                proof {
                    assert(node@.children =~= Seq::<SyntaxTreeNodeView>::empty());
                }
                Ok(node)
            },
        }
    }
}

impl SyntaxTreeNode {
    /// Parses whole source text into a `Program` root node; a wrapper for
    /// `ParseContext::parse`.
    pub fn build_tree(source: &Vec<char>) -> (r: Result<Self, ParseError>)
        ensures
            match r {
                Ok(node) => spec_parse_context(ParseContext::Program, source@, 0) matches Ok(q)
                    && node@ == q,
                Err(e) => spec_parse_context(ParseContext::Program, source@, 0) matches Err(q)
                    && e@ == q,
            },
    {
        ParseContext::Program.parse(source, 0)
    }
}

} // verus!
