//! Source-level macros: `@name(args)` forms and their fixed vocabulary.
use vstd::prelude::*;
use crate::scan::{identifier_char, is_identifier_char, parse_identifier, parse_string_literal,
    skip_whitespace, spec_identifier_end, spec_parse_string_literal, spec_skip_whitespace, str_eq,
    lemma_identifier_end, lemma_skip_whitespace, lemma_string_literal_bounds};
use crate::syntax_tree::{ParseContext, ParseError, ParseErrorType, ParseErrorTypeView,
    ParseErrorView};

verus! {

/// The fixed macro vocabulary.
#[derive(Clone, Copy, Debug, PartialEq, Eq)]
pub enum MacroEnum {
    /// Defines a named label at the current address; consumes no code space.
    Anchor,
    /// Subroutine call to an anchor: two address loads plus `call`.
    Call,
    /// Unconditional jump to an anchor: two address loads plus `goto`.
    Goto,
    /// Conditional jump on the decision latch: two address loads plus `goto-if`.
    GotoIf,
    /// Writes a string into general memory, one write per character, then
    /// pushes the two size bytes onto the stack.
    WriteString,
    /// Pushes the two bytes of a resolved anchor address onto the stack.
    PushAnchorAddress,
}

/// An argument given to a macro inside the parentheses.
#[derive(Debug, PartialEq, Eq)]
pub enum MacroArgument {
    Identifier(String),
    StringLiteral(String),
}

/// Mathematical image of a `MacroArgument`.
pub enum MacroArgumentView {
    Identifier(Seq<char>),
    StringLiteral(Seq<char>),
}

impl View for MacroArgument {
    type V = MacroArgumentView;

    open spec fn view(&self) -> MacroArgumentView {
        match self {
            MacroArgument::Identifier(s) => MacroArgumentView::Identifier(s@),
            MacroArgument::StringLiteral(s) => MacroArgumentView::StringLiteral(s@),
        }
    }
}

impl MacroArgument {
    /// The text carried by the argument, whichever kind it is.
    pub fn to_string(&self) -> (r: String)
        ensures
            r@ == self@.text(),
    {
        match self {
            Self::Identifier(s) => s.clone(),
            Self::StringLiteral(s) => s.clone(),
        }
    }
}

impl MacroArgumentView {
    /// The text carried by the argument, whichever kind it is.
    pub open spec fn text(self) -> Seq<char> {
        match self {
            MacroArgumentView::Identifier(s) => s,
            MacroArgumentView::StringLiteral(s) => s,
        }
    }
}

/// A parsed macro: its kind and its argument list, whose length has already
/// been validated against the kind.
#[derive(Debug, PartialEq, Eq)]
pub struct Macro {
    pub type_: MacroEnum,
    /// Arguments given to the macro inside the parentheses.
    pub args: Vec<MacroArgument>,
}

/// Mathematical image of a `Macro`.
pub struct MacroView {
    pub type_: MacroEnum,
    pub args: Seq<MacroArgumentView>,
}

impl View for Macro {
    type V = MacroView;

    open spec fn view(&self) -> MacroView {
        MacroView { type_: self.type_, args: self.args.deep_view() }
    }
}

impl DeepView for MacroArgument {
    type V = MacroArgumentView;

    open spec fn deep_view(&self) -> MacroArgumentView {
        self.view()
    }
}

impl Clone for MacroArgument {
    fn clone(&self) -> (r: Self)
        ensures
            r == *self,
    {
        match self {
            MacroArgument::Identifier(s) => MacroArgument::Identifier(s.clone()),
            MacroArgument::StringLiteral(s) => MacroArgument::StringLiteral(s.clone()),
        }
    }
}

impl Clone for Macro {
    fn clone(&self) -> (r: Self)
        ensures
            r@ == self@,
            r.type_ == self.type_,
            r.args@ == self.args@,
    {
        let mut args: Vec<MacroArgument> = Vec::new();
        let mut i: usize = 0;
        while i < self.args.len()
            invariant
                0 <= i <= self.args@.len(),
                args@.len() == i,
                forall|j: int| 0 <= j < i ==> args@[j] == self.args@[j],
            decreases self.args@.len() - i,
        {
            args.push(self.args[i].clone());
            i += 1;
        }
        proof {
            assert(args@ =~= self.args@);
        }
        let r = Self { type_: self.type_, args };
        proof {
            assert(r@.args =~= self@.args);
        }
        r
    }
}

/// The macro kind a name stands for, or nothing for an unknown name.
pub open spec fn spec_match_identifier(name: Seq<char>) -> Option<MacroEnum> {
    if name == "anchor"@ {
        Some(MacroEnum::Anchor)
    } else if name == "call"@ {
        Some(MacroEnum::Call)
    } else if name == "goto"@ {
        Some(MacroEnum::Goto)
    } else if name == "goto_if"@ {
        Some(MacroEnum::GotoIf)
    } else if name == "write_string"@ {
        Some(MacroEnum::WriteString)
    } else if name == "push_anchor_address"@ {
        Some(MacroEnum::PushAnchorAddress)
    } else {
        None
    }
}

impl MacroEnum {
    /// How many arguments each macro kind takes.
    pub open spec fn spec_num_args(self) -> usize {
        1
    }

    /// How many arguments each macro kind takes.
    pub fn num_args(&self) -> (r: usize)
        ensures
            r == self.spec_num_args(),
    {
        match self {
            Self::Anchor => 1,
            Self::Call => 1,
            Self::Goto => 1,
            Self::GotoIf => 1,
            Self::WriteString => 1,
            Self::PushAnchorAddress => 1,
        }
    }

    /// Matches a name against the macro vocabulary, as
    /// `spec_match_identifier` says; an unknown name is refused as
    /// `InvalidMacroIdentifier` over the given source range.
    pub fn match_identifier(id: &str, source_start: usize, source_end: usize) -> (r: Result<
        Self,
        ParseError,
    >)
        ensures
            match r {
                Ok(m) => spec_match_identifier(id@) == Some(m),
                Err(e) => spec_match_identifier(id@) is None && e@ == (ParseErrorView {
                    begin: source_start as int,
                    end: source_end as int,
                    type_: ParseErrorTypeView::InvalidMacroIdentifier(id@),
                }),
            },
    {
        if str_eq(id, "anchor") {
            Ok(Self::Anchor)
        } else if str_eq(id, "call") {
            Ok(Self::Call)
        } else if str_eq(id, "goto") {
            Ok(Self::Goto)
        } else if str_eq(id, "goto_if") {
            Ok(Self::GotoIf)
        } else if str_eq(id, "write_string") {
            Ok(Self::WriteString)
        } else if str_eq(id, "push_anchor_address") {
            Ok(Self::PushAnchorAddress)
        } else {
            Err(
                ParseError::new(
                    source_start,
                    source_end,
                    ParseErrorType::InvalidMacroIdentifier(id.to_owned()),
                    None,
                ),
            )
        }
    }
}

/// Whether the first argument has the kind its macro demands: a string
/// write takes a string literal, every other macro takes an identifier.
pub open spec fn spec_arg_type_ok(kind: MacroEnum, args: Seq<MacroArgumentView>) -> bool {
    match kind {
        MacroEnum::WriteString => args[0] is StringLiteral,
        _ => args[0] is Identifier,
    }
}

impl MacroEnum {
    /// Checks the kind of the first argument against the macro kind, as
    /// `spec_arg_type_ok` says.  The number of arguments is assumed to have
    /// been checked already.
    pub fn args_correct_type(&self, args: &Vec<MacroArgument>) -> (r: Result<
        (),
        crate::program_skeleton::ProgramSkeletonBuildError,
    >)
        requires
            args@.len() >= 1,
        ensures
            match r {
                Ok(..) => spec_arg_type_ok(*self, args.deep_view()),
                Err(e) => !spec_arg_type_ok(*self, args.deep_view()) && e@
                    == crate::program_skeleton::ProgramSkeletonBuildErrorView::MacroArgumentWrongType(
                    args.deep_view()[0],
                ),
            },
    {
        proof {
            assert(args.deep_view()[0] == args@[0]@);
        }
        match self {
            Self::WriteString => match &args[0] {
                MacroArgument::StringLiteral(..) => Ok(()),
                invalid => Err(
                    crate::program_skeleton::ProgramSkeletonBuildError::MacroArgumentWrongType(
                        invalid.clone(),
                    ),
                ),
            },
            _ => match &args[0] {
                MacroArgument::Identifier(..) => Ok(()),
                invalid => Err(
                    crate::program_skeleton::ProgramSkeletonBuildError::MacroArgumentWrongType(
                        invalid.clone(),
                    ),
                ),
            },
        }
    }
}

/// How many instruction words a macro stands for: an anchor takes no code
/// space, the three jump forms take two address loads and one jump word, an
/// address push takes two loads, and a string write takes one write per
/// character plus the two size pushes.
pub open spec fn spec_macro_footprint(m: MacroView) -> int {
    match m.type_ {
        MacroEnum::Anchor => 0,
        MacroEnum::Call => 3,
        MacroEnum::Goto => 3,
        MacroEnum::GotoIf => 3,
        MacroEnum::PushAnchorAddress => 2,
        MacroEnum::WriteString => m.args[0].text().len() as int + 2,
    }
}

impl Macro {
    /// The argument list has the length its kind demands.
    pub open spec fn args_wf(self) -> bool {
        self@.args.len() == self@.type_.spec_num_args()
    }

    /// The number of instruction words this macro stands for, as
    /// `spec_macro_footprint` says.
    pub fn instructions_represented(&self) -> (r: usize)
        requires
            self.args_wf(),
            spec_macro_footprint(self@) <= usize::MAX,
        ensures
            r as int == spec_macro_footprint(self@),
    {
        match self.type_ {
            MacroEnum::Anchor => 0,
            MacroEnum::Call => 3,
            MacroEnum::Goto => 3,
            MacroEnum::GotoIf => 3,
            MacroEnum::PushAnchorAddress => 2,
            MacroEnum::WriteString => {
                let text = match &self.args[0] {
                    MacroArgument::Identifier(s) => s,
                    MacroArgument::StringLiteral(s) => s,
                };
                text.as_str().unicode_len() + 2
            },
        }
    }
}

/// The argument list read from `i` (just after the opening parenthesis or a
/// comma) up to and including the closing parenthesis: each argument is a
/// quoted string or an identifier, arguments are separated by commas, and
/// the position after the closing parenthesis comes back with them.
pub open spec fn spec_macro_args(s: Seq<char>, i: int) -> Result<
    (Seq<MacroArgumentView>, int),
    ParseErrorView,
>
    decreases s.len() - i,
{
    let iw = spec_skip_whitespace(s, i);
    if iw >= s.len() {
        Err(
            ParseErrorView {
                begin: i,
                end: iw,
                type_: ParseErrorTypeView::UnfinishedNode(ParseContext::Macro),
            },
        )
    } else {
        let c = s[iw];
        let arg_step: Result<(Option<MacroArgumentView>, int), ParseErrorView> = if c == '"' {
            match spec_parse_string_literal(s, iw + 1, iw + 1, Seq::empty()) {
                Ok(p) => Ok((Some(MacroArgumentView::StringLiteral(p.0)), p.1)),
                Err(e) => Err(e),
            }
        } else if is_identifier_char(c) {
            let j = spec_identifier_end(s, iw);
            if j >= s.len() {
                Err(
                    ParseErrorView {
                        begin: iw,
                        end: j,
                        type_: ParseErrorTypeView::UnfinishedNode(ParseContext::Macro),
                    },
                )
            } else {
                Ok((Some(MacroArgumentView::Identifier(s.subrange(iw, j))), j))
            }
        } else {
            Ok((None, iw))
        };
        match arg_step {
            Err(e) => Err(e),
            Ok((arg_opt, i2)) => {
                let i3 = spec_skip_whitespace(s, i2);
                if i3 >= s.len() {
                    Err(
                        ParseErrorView {
                            begin: i2,
                            end: i3,
                            type_: ParseErrorTypeView::UnfinishedNode(ParseContext::Macro),
                        },
                    )
                } else if s[i3] == ')' {
                    Ok(
                        (
                            match arg_opt {
                                Some(a) => seq![a],
                                None => Seq::empty(),
                            },
                            i3 + 1,
                        ),
                    )
                } else if s[i3] != ',' {
                    Err(
                        ParseErrorView {
                            begin: i3,
                            end: i3 + 1,
                            type_: ParseErrorTypeView::InvalidCharacterInContext(
                                s[i3],
                                ParseContext::Macro,
                            ),
                        },
                    )
                } else if i3 + 1 <= i {
                    Err(
                        ParseErrorView {
                            begin: i3,
                            end: i3 + 1,
                            type_: ParseErrorTypeView::UnfinishedNode(ParseContext::Macro),
                        },
                    )
                } else {
                    match spec_macro_args(s, i3 + 1) {
                        Err(e) => Err(e),
                        Ok((rest, end)) => Ok(
                            (
                                match arg_opt {
                                    Some(a) => seq![a] + rest,
                                    None => rest,
                                },
                                end,
                            ),
                        ),
                    }
                }
            },
        }
    }
}

/// Reads a comma-separated macro argument list beginning at `start` (just
/// after the opening parenthesis), through the closing parenthesis, as
/// `spec_macro_args` says.
fn parse_macro_args(source: &Vec<char>, start: usize) -> (r: Result<
    (Vec<MacroArgument>, usize),
    ParseError,
>)
    requires
        start <= source@.len(),
    ensures
        match r {
            Ok(p) => spec_macro_args(source@, start as int) matches Ok(q) && p.0.deep_view() == q.0
                && p.1 as int == q.1 && p.1 <= source@.len(),
            Err(e) => spec_macro_args(source@, start as int) matches Err(q) && e@ == q,
        },
    decreases source@.len() - start,
{
    proof {
        lemma_skip_whitespace(source@, start as int);
    }
    let source_len: usize = source.len();
    let i: usize = match skip_whitespace(source, start, Some(ParseContext::Macro)) {
        Ok(p) => p,
        Err(e) => {
            return Err(e);
        },
    };
    assert(i < source_len);
    let c: char = source[i];
    // A quoted string or an identifier begins an argument; anything else
    // leaves this argument slot empty
    let (arg_opt, i2): (Option<MacroArgument>, usize) = if c == '"' {
        proof {
            lemma_string_literal_bounds(source@, i + 1 as int, i + 1 as int, Seq::empty());
        }
        match parse_string_literal(source, i + 1) {
            Ok((string_arg, end)) => (Some(MacroArgument::StringLiteral(string_arg)), end),
            Err(e) => {
                return Err(e);
            },
        }
    } else if identifier_char(c) {
        proof {
            lemma_identifier_end(source@, i as int);
        }
        match parse_identifier(source, i, Some(ParseContext::Macro)) {
            Ok((arg, new_i)) => (Some(MacroArgument::Identifier(arg)), new_i),
            Err(e) => {
                return Err(e);
            },
        }
    } else {
        (None, i)
    };
    proof {
        lemma_skip_whitespace(source@, i2 as int);
    }
    let i3: usize = match skip_whitespace(source, i2, Some(ParseContext::Macro)) {
        Ok(p) => p,
        Err(e) => {
            return Err(e);
        },
    };
    assert(i3 < source_len);
    let c2: char = source[i3];
    if c2 == ')' {
        let mut v: Vec<MacroArgument> = Vec::new();
        match arg_opt {
            Some(a) => {
                v.push(a);
            },
            None => {},
        }
        proof {
            assert(v.deep_view() =~= spec_macro_args(source@, start as int)->Ok_0.0);
        }
        return Ok((v, i3 + 1));
    }
    if c2 != ',' {
        return Err(
            ParseError::new(
                i3,
                i3 + 1,
                ParseErrorType::InvalidCharacterInContext(c2, ParseContext::Macro),
                Some(String::from_str("Expected \",\"")),
            ),
        );
    }
    // Consume the comma and read the remaining arguments
    let (rest, end) = match parse_macro_args(source, i3 + 1) {
        Ok(p) => p,
        Err(e) => {
            return Err(e);
        },
    };
    match arg_opt {
        Some(a) => {
            let mut v: Vec<MacroArgument> = Vec::new();
            v.push(a);
            let mut k: usize = 0;
            let rest_len: usize = rest.len();
            while k < rest_len
                invariant
                    0 <= k <= rest_len,
                    rest_len == rest@.len(),
                    v@.len() == k + 1,
                    forall|j: int| 0 <= j < rest@.len() ==> rest.deep_view()[j] == #[trigger] rest@[j]@,
                    forall|j: int| 1 <= j <= k ==> v@[j] == rest@[j - 1],
                    v@[0] == a,
                decreases rest_len - k,
            {
                v.push(rest[k].clone());
                k += 1;
            }
            proof {
                assert(v.deep_view() =~= seq![a@] + rest.deep_view());
            }
            Ok((v, end))
        },
        None => Ok((rest, end)),
    }
}

/// The macro read from `start` (just after the `@`): its name, then a
/// parenthesized argument list, matched against the vocabulary and its
/// argument count.
pub open spec fn spec_parse_macro(s: Seq<char>, start: int) -> Result<
    (MacroView, int),
    ParseErrorView,
> {
    let j = spec_identifier_end(s, start);
    if j >= s.len() {
        Err(
            ParseErrorView {
                begin: start,
                end: j,
                type_: ParseErrorTypeView::UnfinishedNode(ParseContext::Macro),
            },
        )
    } else {
        let name = s.subrange(start, j);
        let iw = spec_skip_whitespace(s, j);
        if iw >= s.len() {
            Err(
                ParseErrorView {
                    begin: j,
                    end: iw,
                    type_: ParseErrorTypeView::UnfinishedNode(ParseContext::Macro),
                },
            )
        } else if s[iw] != '(' {
            Err(
                ParseErrorView {
                    begin: iw,
                    end: iw + 1,
                    type_: ParseErrorTypeView::InvalidCharacterInContext(
                        s[iw],
                        ParseContext::Macro,
                    ),
                },
            )
        } else {
            match spec_macro_args(s, iw + 1) {
                Err(e) => Err(e),
                Ok((args, end)) => match spec_match_identifier(name) {
                    None => Err(
                        ParseErrorView {
                            begin: start,
                            end,
                            type_: ParseErrorTypeView::InvalidMacroIdentifier(name),
                        },
                    ),
                    Some(kind) => {
                        if args.len() != kind.spec_num_args() {
                            Err(
                                ParseErrorView {
                                    begin: start,
                                    end,
                                    type_: ParseErrorTypeView::MacroWrongNumArgs {
                                        actual: args.len() as int,
                                        correct: kind.spec_num_args() as int,
                                    },
                                },
                            )
                        } else {
                            Ok((MacroView { type_: kind, args }, end))
                        }
                    },
                },
            }
        }
    }
}

impl Macro {
    /// Reads one macro from `source`; `start` is taken to be just after the
    /// `@` that introduced it.  The name is read first, then the
    /// parenthesized argument list, and the name and argument count are
    /// matched against the vocabulary, as `spec_parse_macro` says.
    pub fn parse(source: &Vec<char>, start: usize) -> (r: Result<(Self, usize), ParseError>)
        requires
            start <= source@.len(),
        ensures
            match r {
                Ok(p) => spec_parse_macro(source@, start as int) matches Ok(q) && p.0@ == q.0
                    && p.1 as int == q.1 && p.1 <= source@.len(),
                Err(e) => spec_parse_macro(source@, start as int) matches Err(q) && e@ == q,
            },
    {
        proof {
            lemma_identifier_end(source@, start as int);
        }
        let source_len: usize = source.len();
        // First, read the macro name
        let (name, new_i) = match parse_identifier(source, start, Some(ParseContext::Macro)) {
            Ok(p) => p,
            Err(e) => {
                return Err(e);
            },
        };
        proof {
            lemma_skip_whitespace(source@, new_i as int);
        }
        // Skip whitespace after the macro name
        let i: usize = match skip_whitespace(source, new_i, Some(ParseContext::Macro)) {
            Ok(p) => p,
            Err(e) => {
                return Err(e);
            },
        };
        assert(i < source_len);
        // Check that the next character is "("
        if source[i] != '(' {
            return Err(
                ParseError::new(
                    i,
                    i + 1,
                    ParseErrorType::InvalidCharacterInContext(source[i], ParseContext::Macro),
                    Some(String::from_str("Expected \"(\"")),
                ),
            );
        }
        // Build the argument list, past the opening "("
        let (args, end) = match parse_macro_args(source, i + 1) {
            Ok(p) => p,
            Err(e) => {
                return Err(e);
            },
        };
        // Match the name against the vocabulary
        let enum_ = match MacroEnum::match_identifier(name.as_str(), start, end) {
            Ok(m) => m,
            Err(e) => {
                return Err(e);
            },
        };
        let correct_n_args = enum_.num_args();
        if correct_n_args != args.len() {
            return Err(
                ParseError::new(
                    start,
                    end,
                    ParseErrorType::MacroWrongNumArgs {
                        actual: args.len(),
                        correct: correct_n_args,
                    },
                    None,
                ),
            );
        }
        Ok((Self { type_: enum_, args }, end))
    }
}

} // verus!
