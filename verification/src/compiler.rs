//! The assembly pipeline: source text to syntax tree, tree to program
//! skeleton with anchors resolved and macros expanded, and each token line
//! encoded to one 16-bit machine word.
use vstd::prelude::*;
use crate::assembly_encode::{AssemblerConfig, AssemblerConfigView, AssemblyEncodeErrorEnum,
    AssemblyEncodeErrorEnumView, Token, TokenView, assemble_instruction, spec_assemble_instruction};
use crate::program_skeleton::{ProgramSkeletonBuildError, ProgramSkeletonBuildErrorView,
    ProgramSkeletonNodeView, program_skeleton_build, skeleton_input_wf, spec_expand,
    spec_expand_node, spec_flatten, spec_instruction_tokens, spec_program_skeleton_build,
    token_lines_view};
use crate::macros::spec_parse_macro;
use crate::scan::{spec_skip_whitespace, usize_to_string, lemma_skip_whitespace};
use crate::syntax_tree::{ParseContext, ParseError, ParseErrorView, SyntaxTreeNode,
    SyntaxTreeNodeView, SyntaxTreeNodeTypeView, spec_comment_end, spec_parse_context,
    spec_parse_instruction_items, spec_parse_instruction_token, spec_parse_program_items,
    lemma_comment_end};
use vstd::string::{StrSliceExecFns, StringExecFns};

verus! {

/// Which stage of the pipeline an error belongs to.
#[derive(Debug)]
pub enum CompilerErrorEnum {
    Assembly(AssemblyEncodeErrorEnum),
    Parse(ParseError),
    ProgramSkeleton(ProgramSkeletonBuildError),
}

/// Mathematical image of a `CompilerErrorEnum`.
pub enum CompilerErrorEnumView {
    Assembly(AssemblyEncodeErrorEnumView),
    Parse(ParseErrorView),
    ProgramSkeleton(ProgramSkeletonBuildErrorView),
}

impl View for CompilerErrorEnum {
    type V = CompilerErrorEnumView;

    open spec fn view(&self) -> CompilerErrorEnumView {
        match self {
            CompilerErrorEnum::Assembly(e) => CompilerErrorEnumView::Assembly(e@),
            CompilerErrorEnum::Parse(e) => CompilerErrorEnumView::Parse(e@),
            CompilerErrorEnum::ProgramSkeleton(e) => CompilerErrorEnumView::ProgramSkeleton(e@),
        }
    }
}

/// A compiler error: where it happened, an optional hint, and the stage
/// error itself.
#[derive(Debug)]
pub struct CompilerError {
    /// The 1-indexed line number and the raw text of that line, when known.
    pub location_opt: Option<(usize, String)>,
    /// Specific message.
    pub message_opt: Option<String>,
    /// Specific error.
    pub enum_: CompilerErrorEnum,
}

/// Mathematical image of a `CompilerError`: the line number (when known) and
/// the stage error.  The raw line text and the hint are presentation only.
pub struct CompilerErrorView {
    pub line: Option<int>,
    pub enum_: CompilerErrorEnumView,
}

impl View for CompilerError {
    type V = CompilerErrorView;

    open spec fn view(&self) -> CompilerErrorView {
        CompilerErrorView {
            line: match self.location_opt {
                Some(p) => Some(p.0 as int),
                None => None,
            },
            enum_: self.enum_@,
        }
    }
}

impl CompilerError {
    /// Plain constructor.
    pub fn new(
        location_opt: Option<(usize, String)>,
        message_opt: Option<String>,
        enum_: CompilerErrorEnum,
    ) -> (r: Self)
        ensures
            r@.line == (match location_opt {
                Some(p) => Some(p.0 as int),
                None => None::<int>,
            }),
            r@.enum_ == enum_@,
    {
        Self { location_opt, message_opt, enum_ }
    }

    /// Wraps a stage error that is tied to a source position rather than a
    /// line; the position itself is already inside the stage error.
    pub fn from_source_string_index(
        _source: &Vec<char>,
        _i: usize,
        message_opt: Option<String>,
        enum_: CompilerErrorEnum,
    ) -> (r: Self)
        ensures
            r@.line is None,
            r@.enum_ == enum_@,
    {
        Self { location_opt: None, message_opt, enum_ }
    }

    /// A short name for the stage an error belongs to.
    fn kind_name(&self) -> &'static str {
        match &self.enum_ {
            CompilerErrorEnum::Assembly(..) => "assembly encoding error",
            CompilerErrorEnum::Parse(..) => "parse error",
            CompilerErrorEnum::ProgramSkeleton(..) => "program skeleton error",
        }
    }

    /// A human-readable report of the error, with its line when known.
    pub fn format(&self) -> String {
        let mut out = String::new();
        match &self.location_opt {
            Some((line_n, line)) => {
                out.append("Error on line ");
                let n_text = usize_to_string(*line_n);
                out.append(n_text.as_str());
                out.append(": ");
                out.append(self.kind_name());
                out.append("\n\t");
                out.append(line.as_str());
            },
            None => {
                out.append("Error: ");
                out.append(self.kind_name());
            },
        }
        match &self.message_opt {
            Some(msg) => {
                out.append("\n\n\t");
                out.append(msg.as_str());
            },
            None => {},
        }
        out.append("\n");
        out
    }
}

/// Mathematical image of an error list.
pub open spec fn compiler_errors_view(v: Seq<CompilerError>) -> Seq<CompilerErrorView> {
    Seq::new(v.len(), |k: int| v[k]@)
}

/// The words and errors that encoding the token lines from index `i` on
/// yields: each line becomes one word or one error carrying its line number.
pub open spec fn spec_encode_lines(
    lines: Seq<(Seq<TokenView>, int)>,
    i: int,
    config: AssemblerConfigView,
) -> (Seq<u16>, Seq<CompilerErrorView>)
    decreases lines.len() - i,
{
    if !(0 <= i < lines.len()) {
        (Seq::empty(), Seq::empty())
    } else {
        let rest = spec_encode_lines(lines, i + 1, config);
        match spec_assemble_instruction(lines[i].0, config) {
            Ok(w) => (seq![w] + rest.0, rest.1),
            Err(e) => (
                rest.0,
                seq![
                    (CompilerErrorView { line: Some(lines[i].1), enum_: CompilerErrorEnumView::Assembly(e) }),
                ] + rest.1,
            ),
        }
    }
}

/// What the whole pipeline owes: parse, build the skeleton, then encode
/// every token line; the words when no line fails, else every line error
/// together.
pub open spec fn spec_compiler_pipeline(s: Seq<char>, config: AssemblerConfigView) -> Result<
    Seq<u16>,
    Seq<CompilerErrorView>,
> {
    match spec_parse_context(ParseContext::Program, s, 0) {
        Err(pe) => Err(
            seq![(CompilerErrorView { line: None, enum_: CompilerErrorEnumView::Parse(pe) })],
        ),
        Ok(tree) => match spec_program_skeleton_build(tree, s) {
            Err(se) => Err(
                seq![
                    (CompilerErrorView {
                        line: None,
                        enum_: CompilerErrorEnumView::ProgramSkeleton(se),
                    }),
                ],
            ),
            Ok(lines) => {
                let enc = spec_encode_lines(lines, 0, config);
                if enc.1.len() == 0 {
                    Ok(enc.0)
                } else {
                    Err(enc.1)
                }
            },
        },
    }
}

/// Every token line the skeleton of a parsed program yields holds at least
/// one token, so the encoder's demand is met.
pub proof fn lemma_parse_gives_skeleton_input(s: Seq<char>)
    ensures
        spec_parse_context(ParseContext::Program, s, 0) matches Ok(tree) ==> skeleton_input_wf(
            tree,
            s,
        ) && (spec_program_skeleton_build(tree, s) matches Ok(lines) ==> forall|k: int|
            0 <= k < lines.len() ==> (#[trigger] lines[k]).0.len() >= 1),
{
    match spec_parse_context(ParseContext::Program, s, 0) {
        Ok(tree) => {
            lemma_parse_program_items_wf(s, 0);
            assert(skeleton_input_wf(tree, s));
            match spec_program_skeleton_build(tree, s) {
                Ok(lines) => {
                    let nodes = spec_flatten(tree.children, s, 0)->Ok_0;
                    lemma_flatten_instruction_lines(tree.children, s, 0);
                    let anchors = spec_anchor_pass_result(tree, s);
                    lemma_expand_lines_nonempty(nodes, 0, anchors);
                },
                Err(..) => {},
            }
        },
        Err(..) => {},
    }
}

/// The anchor table a parsed tree's skeleton resolves, for use in proofs.
pub open spec fn spec_anchor_pass_result(tree: SyntaxTreeNodeView, s: Seq<char>) -> Seq<
    (Seq<char>, int),
> {
    crate::program_skeleton::spec_anchor_pass(
        spec_flatten(tree.children, s, 0)->Ok_0,
        0,
        0,
        Seq::empty(),
    )->Ok_0
}

/// A parsed program's top-level nodes sit inside the text, their macros
/// carry one argument, and their instructions hold only tokens, at least one
/// each.
pub proof fn lemma_parse_program_items_wf(s: Seq<char>, i: int)
    requires
        0 <= i <= s.len(),
    ensures
        spec_parse_program_items(s, i) matches Ok(p) ==> forall|k: int|
            0 <= k < p.0.len() ==> parsed_program_node_wf(#[trigger] p.0[k], s),
    decreases s.len() - i,
{
    if i >= s.len() {
        return ;
    }
    let iw = spec_skip_whitespace(s, i);
    lemma_skip_whitespace(s, i);
    if iw >= s.len() {
        return ;
    }
    let c = s[iw];
    if crate::scan::is_identifier_char(c) {
        match spec_parse_instruction_items(s, iw) {
            Ok(p) => {
                lemma_parse_instruction_items_wf(s, iw);
                let j = p.1;
                if !(j <= i || j > s.len()) {
                    lemma_parse_program_items_wf(s, j);
                }
            },
            Err(..) => {},
        }
    } else if c == crate::MACRO_BEGIN {
        match spec_parse_macro(s, iw + 1) {
            Ok(q) => {
                let j = q.1;
                if !(j <= i || j > s.len()) {
                    lemma_parse_program_items_wf(s, j);
                }
            },
            Err(..) => {},
        }
    } else if c == crate::COMMENT_BEGIN {
        let j = spec_comment_end(s, iw + 1);
        lemma_comment_end(s, iw + 1);
        if !(j <= i || j > s.len()) {
            lemma_parse_program_items_wf(s, j);
        }
    } else if c == ';' {
        if !(iw + 1 <= i) {
            lemma_parse_program_items_wf(s, iw + 1);
        }
    }
}

/// What `lemma_parse_program_items_wf` knows of each parsed top-level node.
pub open spec fn parsed_program_node_wf(n: SyntaxTreeNodeView, s: Seq<char>) -> bool {
    &&& 0 <= n.begin <= s.len()
    &&& (n.type_ matches SyntaxTreeNodeTypeView::Macro(m) ==> m.args.len()
        == m.type_.spec_num_args())
    &&& (n.type_ is Instruction ==> n.children.len() >= 1 && (forall|j: int|
        0 <= j < n.children.len() ==> (#[trigger] n.children[j]).type_ is InstructionToken))
}

/// A parsed instruction's items are token nodes, one per item, and an
/// instruction that begins inside the text holds at least one.
pub proof fn lemma_parse_instruction_items_wf(s: Seq<char>, i: int)
    requires
        0 <= i <= s.len(),
    ensures
        spec_parse_instruction_items(s, i) matches Ok(p) ==> {
            &&& (forall|j: int| 0 <= j < p.0.len() ==> (#[trigger] p.0[j]).type_ is InstructionToken)
            &&& (i < s.len() ==> p.0.len() >= 1)
        },
    decreases s.len() - i,
{
    if i >= s.len() {
        return ;
    }
    let iw = spec_skip_whitespace(s, i);
    lemma_skip_whitespace(s, i);
    if iw >= s.len() {
        return ;
    }
    if crate::scan::is_identifier_char(s[iw]) {
        match spec_parse_instruction_token(s, iw) {
            Ok(node) => {
                let j = node.end;
                if j < s.len() && s[j] != ';' && s[j] == ' ' && !(j <= i) {
                    lemma_parse_instruction_items_wf(s, j);
                }
            },
            Err(..) => {},
        }
    }
}

/// Every instruction entry of the flattened list keeps one token per child
/// of its instruction node, so it is never empty.
pub proof fn lemma_flatten_instruction_lines(children: Seq<SyntaxTreeNodeView>, s: Seq<char>, i: int)
    requires
        0 <= i,
        forall|k: int| 0 <= k < children.len() ==> parsed_program_node_wf(#[trigger] children[k], s),
    ensures
        spec_flatten(children, s, i) matches Ok(nodes) ==> forall|k: int|
            0 <= k < nodes.len() ==> flattened_node_wf((#[trigger] nodes[k]).0),
    decreases children.len() - i,
{
    if 0 <= i < children.len() {
        let node = children[i];
        if node.type_ is Instruction {
            lemma_instruction_tokens_len(node.children, 0);
        }
        lemma_flatten_instruction_lines(children, s, i + 1);
    }
}

/// What expansion needs of each flattened node: a non-empty token line.
pub open spec fn flattened_node_wf(n: ProgramSkeletonNodeView) -> bool {
    n matches ProgramSkeletonNodeView::Instruction(ts) ==> ts.len() >= 1
}

/// Gathering an instruction's tokens keeps their number.
pub proof fn lemma_instruction_tokens_len(children: Seq<SyntaxTreeNodeView>, i: int)
    requires
        0 <= i,
    ensures
        spec_instruction_tokens(children, i) matches Ok(ts) ==> ts.len() == if i <= children.len() {
            children.len() - i
        } else {
            0
        },
    decreases children.len() - i,
{
    if 0 <= i < children.len() {
        lemma_instruction_tokens_len(children, i + 1);
    }
}

/// Every line the expander emits holds at least one token.
pub proof fn lemma_expand_lines_nonempty(
    nodes: Seq<(ProgramSkeletonNodeView, int)>,
    i: int,
    anchors: Seq<(Seq<char>, int)>,
)
    requires
        0 <= i,
        forall|k: int| 0 <= k < nodes.len() ==> flattened_node_wf((#[trigger] nodes[k]).0),
    ensures
        spec_expand(nodes, i, anchors) matches Ok(lines) ==> forall|k: int|
            0 <= k < lines.len() ==> (#[trigger] lines[k]).0.len() >= 1,
    decreases nodes.len() - i,
{
    if 0 <= i < nodes.len() {
        lemma_expand_lines_nonempty(nodes, i + 1, anchors);
        lemma_expand_node_lines_nonempty(nodes[i].0, nodes[i].1, anchors);
    }
}

/// Every line one node expands to holds at least one token.
pub proof fn lemma_expand_node_lines_nonempty(
    n: ProgramSkeletonNodeView,
    line: int,
    anchors: Seq<(Seq<char>, int)>,
)
    requires
        flattened_node_wf(n),
    ensures
        spec_expand_node(n, line, anchors) matches Ok(lines) ==> forall|k: int|
            0 <= k < lines.len() ==> (#[trigger] lines[k]).0.len() >= 1,
{
}

/// Round-trip determinism: compiling the same source text against the same
/// configuration twice yields the same outcome, word for word and error for
/// error — the pipeline's result is a function of the text and the
/// configuration alone.
pub proof fn lemma_compile_deterministic(
    s: Seq<char>,
    config: AssemblerConfigView,
    r1: Result<Seq<u16>, Seq<CompilerErrorView>>,
    r2: Result<Seq<u16>, Seq<CompilerErrorView>>,
)
    requires
        r1 == spec_compiler_pipeline(s, config),
        r2 == spec_compiler_pipeline(s, config),
    ensures
        r1 == r2,
{
}

/// Collects the characters of the source text.
fn str_to_chars(in_: &str) -> (r: Vec<char>)
    ensures
        r@ == in_@,
{
    let n: usize = in_.unicode_len();
    let mut out: Vec<char> = Vec::new();
    let mut i: usize = 0;
    while i < n
        invariant
            n == in_@.len(),
            0 <= i <= n,
            out@ == in_@.subrange(0, i as int),
        decreases n - i,
    {
        out.push(in_.get_char(i));
        proof {
            assert(out@ =~= in_@.subrange(0, i + 1 as int));
        }
        i += 1;
    }
    proof {
        assert(out@ =~= in_@);
    }
    out
}

/// The raw text of the 1-indexed source line `line_n`, for error reports.
fn source_line_text(source: &Vec<char>, line_n: usize) -> (r: String) {
    let mut current_line: usize = 1;
    let mut out = String::new();
    let mut i: usize = 0;
    while i < source.len()
        invariant
            0 <= i <= source@.len(),
            current_line >= 1,
        decreases source@.len() - i,
    {
        if source[i] == '\n' {
            if current_line >= line_n {
                return out;
            }
            if current_line < usize::MAX {
                current_line += 1;
            }
        } else {
            if current_line == line_n {
                out.push(source[i]);
            }
        }
        i += 1;
    }
    out
}

/// Encodes the token lines from index `i` on, as `spec_encode_lines` says,
/// collecting one word or one error per line.
fn encode_lines(
    lines: &Vec<(Vec<Token>, usize)>,
    i: usize,
    config: &AssemblerConfig,
    source: &Vec<char>,
) -> (r: (Vec<u16>, Vec<CompilerError>))
    requires
        i <= lines@.len(),
        forall|k: int| 0 <= k < lines@.len() ==> (#[trigger] lines@[k]).0@.len() >= 1,
    ensures
        ({
            let sp = spec_encode_lines(token_lines_view(lines@), i as int, config@);
            r.0@ == sp.0 && compiler_errors_view(r.1@) == sp.1
        }),
    decreases lines@.len() - i,
{
    proof {
        assert(forall|k: int|
            0 <= k < lines@.len() ==> #[trigger] token_lines_view(lines@)[k] == (
            lines@[k].0.deep_view(),
            lines@[k].1 as int,
            ));
    }
    if i >= lines.len() {
        let words: Vec<u16> = Vec::new();
        let errors: Vec<CompilerError> = Vec::new();
        proof {
            assert(compiler_errors_view(errors@) =~= Seq::<CompilerErrorView>::empty());
        }
        return (words, errors);
    }
    let (mut words, mut errors) = encode_lines(lines, i + 1, config, source);
    match assemble_instruction(&lines[i].0, config) {
        Ok(instruction) => {
            let ghost words_view = words@;
            words.insert(0, instruction);
            proof {
                assert(words@ =~= seq![instruction] + words_view);
            }
        },
        Err((err_enum, message_opt)) => {
            let line_n: usize = lines[i].1;
            let err = CompilerError::new(
                Some((line_n, source_line_text(source, line_n))),
                message_opt,
                CompilerErrorEnum::Assembly(err_enum),
            );
            let ghost err_view = err@;
            let ghost errors_view = compiler_errors_view(errors@);
            errors.insert(0, err);
            proof {
                assert(compiler_errors_view(errors@) =~= seq![err_view] + errors_view);
            }
        },
    }
    (words, errors)
}

/// The main compile function: parses `in_` into a syntax tree, builds and
/// expands the program skeleton, and encodes every token line, exactly as
/// `spec_compiler_pipeline` says.  Either a complete valid program comes
/// back, or every error found.
pub fn compiler_pipeline(in_: &str, config: &AssemblerConfig) -> (r: Result<
    Vec<u16>,
    Vec<CompilerError>,
>)
    requires
        in_@.len() < usize::MAX,
    ensures
        match r {
            Ok(program) => spec_compiler_pipeline(in_@, config@) matches Ok(q) && program@ == q,
            Err(errors) => spec_compiler_pipeline(in_@, config@) matches Err(q)
                && compiler_errors_view(errors@) == q && errors@.len() >= 1,
        },
{
    // First, make a vector of chars
    let source: Vec<char> = str_to_chars(in_);
    // Parse into a syntax tree
    let syntax_tree: SyntaxTreeNode = match SyntaxTreeNode::build_tree(&source) {
        Ok(tree) => tree,
        Err(parse_error) => {
            let begin = parse_error.begin;
            let mut errors: Vec<CompilerError> = Vec::new();
            errors.push(
                CompilerError::from_source_string_index(
                    &source,
                    begin,
                    None,
                    CompilerErrorEnum::Parse(parse_error),
                ),
            );
            proof {
                assert(compiler_errors_view(errors@) =~= spec_compiler_pipeline(
                    in_@,
                    config@,
                )->Err_0);
            }
            return Err(errors);
        },
    };
    proof {
        lemma_parse_gives_skeleton_input(in_@);
    }
    // Compile the program instructions
    let token_lines: Vec<(Vec<Token>, usize)> = match program_skeleton_build(
        &syntax_tree,
        &source,
    ) {
        Ok(skelet) => skelet,
        Err(skelet_error) => {
            let mut errors: Vec<CompilerError> = Vec::new();
            errors.push(
                CompilerError::new(
                    None,
                    None,
                    CompilerErrorEnum::ProgramSkeleton(skelet_error),
                ),
            );
            proof {
                assert(compiler_errors_view(errors@) =~= spec_compiler_pipeline(
                    in_@,
                    config@,
                )->Err_0);
            }
            return Err(errors);
        },
    };
    proof {
        assert(forall|k: int|
            0 <= k < token_lines@.len() ==> (#[trigger] token_lines@[k]).0@.len()
                == token_lines_view(token_lines@)[k].0.len());
    }
    // Assemble each token line into one instruction word
    let (out, errors) = encode_lines(&token_lines, 0, config, &source);
    // Done
    if errors.len() == 0 {
        proof {
            assert(compiler_errors_view(errors@) =~= Seq::<CompilerErrorView>::empty());
        }
        Ok(out)
    } else {
        Err(errors)
    }
}

/// Runs the pipeline and renders any errors into one report string.
pub fn compiler_pipeline_formated_errors(in_: &str, config: &AssemblerConfig) -> (r: Result<
    Vec<u16>,
    String,
>)
    requires
        in_@.len() < usize::MAX,
    ensures
        match r {
            Ok(program) => spec_compiler_pipeline(in_@, config@) matches Ok(q) && program@ == q,
            Err(..) => spec_compiler_pipeline(in_@, config@) is Err,
        },
{
    match compiler_pipeline(in_, config) {
        Ok(program) => Ok(program),
        Err(errors) => {
            let mut out = String::new();
            let mut i: usize = 0;
            let n: usize = errors.len();
            while i < n
                invariant
                    0 <= i <= n,
                    n == errors@.len(),
                decreases n - i,
            {
                let formatted = errors[i].format();
                out.append(formatted.as_str());
                i += 1;
            }
            out.append("\nCould not complete assembly due to ");
            let n_text = usize_to_string(n);
            out.append(n_text.as_str());
            out.append(" error(s)");
            Err(out)
        },
    }
}

} // verus!
