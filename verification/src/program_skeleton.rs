//! The program skeleton: the syntax tree flattened into a linear list of
//! instructions and macros, sized, with anchors resolved in one pass and
//! every other macro expanded against the finished anchor table in a second.
use vstd::prelude::*;
use crate::assembly_encode::{Token, TokenEnum, TokenEnumView, TokenView};
use crate::macros::{Macro, MacroArgument, MacroArgumentView, MacroEnum, MacroView,
    spec_macro_footprint};
use crate::scan::{line_n_from_index, spec_line_n};
use crate::syntax_tree::{SyntaxTreeNode, SyntaxTreeNodeType, SyntaxTreeNodeTypeView,
    SyntaxTreeNodeView};
use crate::POWER_16;
use vstd::string::{StrSliceExecFns, StringExecFns};

verus! {

/// One entry of the flattened program: a plain instruction line or a macro.
pub enum ProgramSkeletonNode {
    /// A macro, to be resolved and expanded against the anchor table.
    Macro(Macro),
    /// Simply an instruction: its tokens.
    Instruction(Vec<Token>),
}

/// Mathematical image of a `ProgramSkeletonNode`.
pub enum ProgramSkeletonNodeView {
    Macro(MacroView),
    Instruction(Seq<TokenView>),
}

impl View for ProgramSkeletonNode {
    type V = ProgramSkeletonNodeView;

    open spec fn view(&self) -> ProgramSkeletonNodeView {
        match self {
            ProgramSkeletonNode::Macro(m) => ProgramSkeletonNodeView::Macro(m@),
            ProgramSkeletonNode::Instruction(ts) => ProgramSkeletonNodeView::Instruction(
                ts.deep_view(),
            ),
        }
    }
}

/// The macros of a skeleton node carry the argument counts their kinds
/// demand.
pub open spec fn psnode_args_wf(n: ProgramSkeletonNodeView) -> bool {
    match n {
        ProgramSkeletonNodeView::Macro(m) => m.args.len() == m.type_.spec_num_args(),
        ProgramSkeletonNodeView::Instruction(..) => true,
    }
}

/// How many instruction words one skeleton node stands for.
pub open spec fn spec_psnode_footprint(n: ProgramSkeletonNodeView) -> int {
    match n {
        ProgramSkeletonNodeView::Macro(m) => spec_macro_footprint(m),
        ProgramSkeletonNodeView::Instruction(..) => 1,
    }
}

impl ProgramSkeletonNode {
    /// The number of instruction words this node stands for, as
    /// `spec_psnode_footprint` says.
    pub fn instructions_represented(&self) -> (r: usize)
        requires
            psnode_args_wf(self@),
            spec_psnode_footprint(self@) <= usize::MAX,
        ensures
            r as int == spec_psnode_footprint(self@),
    {
        match self {
            Self::Macro(macro_) => macro_.instructions_represented(),
            Self::Instruction(..) => 1,
        }
    }
}

/// What can go wrong while building the skeleton and expanding macros.
#[derive(Debug)]
pub enum ProgramSkeletonBuildError {
    /// The program needs more instruction words than the address space holds.
    ProgramTooLarge(usize),
    /// A node kind that has no place at this stage reached it.
    BadSyntaxNodeType(SyntaxTreeNodeType),
    /// A macro argument of the wrong kind for its macro.
    MacroArgumentWrongType(MacroArgument),
    /// A jump, call or address push names an anchor that is not defined.
    MacroInvalidAnchor(String),
    /// A written string whose length does not fit in sixteen bits.
    MacroWriteStringArgumentTooLong(usize),
    /// The same anchor name defined twice.
    AnchorRedefinition(String),
}

/// Mathematical image of a `ProgramSkeletonBuildError`.
pub enum ProgramSkeletonBuildErrorView {
    ProgramTooLarge(int),
    BadSyntaxNodeType(SyntaxTreeNodeTypeView),
    MacroArgumentWrongType(MacroArgumentView),
    MacroInvalidAnchor(Seq<char>),
    MacroWriteStringArgumentTooLong(int),
    AnchorRedefinition(Seq<char>),
}

impl View for ProgramSkeletonBuildError {
    type V = ProgramSkeletonBuildErrorView;

    open spec fn view(&self) -> ProgramSkeletonBuildErrorView {
        match self {
            ProgramSkeletonBuildError::ProgramTooLarge(n) => {
                ProgramSkeletonBuildErrorView::ProgramTooLarge(*n as int)
            },
            ProgramSkeletonBuildError::BadSyntaxNodeType(t) => {
                ProgramSkeletonBuildErrorView::BadSyntaxNodeType(t@)
            },
            ProgramSkeletonBuildError::MacroArgumentWrongType(a) => {
                ProgramSkeletonBuildErrorView::MacroArgumentWrongType(a@)
            },
            ProgramSkeletonBuildError::MacroInvalidAnchor(s) => {
                ProgramSkeletonBuildErrorView::MacroInvalidAnchor(s@)
            },
            ProgramSkeletonBuildError::MacroWriteStringArgumentTooLong(n) => {
                ProgramSkeletonBuildErrorView::MacroWriteStringArgumentTooLong(*n as int)
            },
            ProgramSkeletonBuildError::AnchorRedefinition(s) => {
                ProgramSkeletonBuildErrorView::AnchorRedefinition(s@)
            },
        }
    }
}

/// The address an anchor table gives to `name`: the value beside its first
/// occurrence, or nothing when the name is absent.
pub open spec fn spec_anchor_lookup(anchors: Seq<(Seq<char>, int)>, name: Seq<char>) -> Option<
    int,
>
    decreases anchors.len(),
{
    if anchors.len() == 0 {
        None
    } else if anchors[0].0 == name {
        Some(anchors[0].1)
    } else {
        spec_anchor_lookup(anchors.drop_first(), name)
    }
}

/// The flattened form of the tree's top-level nodes, each with its line
/// number: instructions keep their token lines, macros pass through,
/// comments are dropped, and any other node kind is refused.
pub open spec fn spec_flatten(
    children: Seq<SyntaxTreeNodeView>,
    s: Seq<char>,
    i: int,
) -> Result<Seq<(ProgramSkeletonNodeView, int)>, ProgramSkeletonBuildErrorView>
    decreases children.len() - i,
{
    if !(0 <= i < children.len()) {
        Ok(Seq::empty())
    } else {
        let node = children[i];
        let line = spec_line_n(s, node.begin);
        let head: Result<Option<(ProgramSkeletonNodeView, int)>, ProgramSkeletonBuildErrorView> =
            match node.type_ {
            SyntaxTreeNodeTypeView::Instruction => match spec_instruction_tokens(
                node.children,
                0,
            ) {
                Ok(tokens) => Ok(Some((ProgramSkeletonNodeView::Instruction(tokens), line))),
                Err(e) => Err(e),
            },
            SyntaxTreeNodeTypeView::Macro(m) => Ok(
                Some((ProgramSkeletonNodeView::Macro(m), line)),
            ),
            SyntaxTreeNodeTypeView::Comment => Ok(None),
            other => Err(ProgramSkeletonBuildErrorView::BadSyntaxNodeType(other)),
        };
        match head {
            Err(e) => Err(e),
            Ok(h) => match spec_flatten(children, s, i + 1) {
                Err(e) => Err(e),
                Ok(rest) => Ok(
                    match h {
                        Some(entry) => seq![entry] + rest,
                        None => rest,
                    },
                ),
            },
        }
    }
}

/// The tokens of an instruction node's children; a child of any other kind
/// is refused.
pub open spec fn spec_instruction_tokens(children: Seq<SyntaxTreeNodeView>, i: int) -> Result<
    Seq<TokenView>,
    ProgramSkeletonBuildErrorView,
>
    decreases children.len() - i,
{
    if !(0 <= i < children.len()) {
        Ok(Seq::empty())
    } else {
        match children[i].type_ {
            SyntaxTreeNodeTypeView::InstructionToken(t) => match spec_instruction_tokens(
                children,
                i + 1,
            ) {
                Ok(rest) => Ok(seq![t] + rest),
                Err(e) => Err(e),
            },
            other => Err(ProgramSkeletonBuildErrorView::BadSyntaxNodeType(other)),
        }
    }
}

/// The total footprint of the flattened nodes from index `i` on, added to
/// `acc`: every node is counted, and a written string longer than the
/// address space is refused as each node passes.  Whether the total fits the
/// address space is judged afterwards, over the whole program.
pub open spec fn spec_size_pass(
    nodes: Seq<(ProgramSkeletonNodeView, int)>,
    i: int,
    acc: int,
) -> Result<int, ProgramSkeletonBuildErrorView>
    decreases nodes.len() - i,
{
    if !(0 <= i < nodes.len()) {
        Ok(acc)
    } else {
        let n = nodes[i].0;
        let oversized: Option<int> = match n {
            ProgramSkeletonNodeView::Macro(m) => {
                if m.type_ == MacroEnum::WriteString && m.args[0].text().len() >= POWER_16 {
                    Some(m.args[0].text().len() as int)
                } else {
                    None
                }
            },
            ProgramSkeletonNodeView::Instruction(..) => None,
        };
        match oversized {
            Some(l) => Err(ProgramSkeletonBuildErrorView::MacroWriteStringArgumentTooLong(l)),
            None => spec_size_pass(nodes, i + 1, acc + spec_psnode_footprint(n)),
        }
    }
}

/// Footprints are never negative, so the total is at least the amount
/// already accumulated.
pub proof fn lemma_size_pass_ge(nodes: Seq<(ProgramSkeletonNodeView, int)>, i: int, acc: int)
    ensures
        spec_size_pass(nodes, i, acc) matches Ok(t) ==> t >= acc,
    decreases nodes.len() - i,
{
    if 0 <= i < nodes.len() {
        lemma_size_pass_ge(nodes, i + 1, acc + spec_psnode_footprint(nodes[i].0));
    }
}

/// The `ProgramTooLarge` payload: the total footprint, held to the machine's
/// word range — a count beyond it (where even recording the nodes could not
/// happen) is reported as the largest representable count.
pub open spec fn spec_too_large_payload(total: int) -> int {
    if total > usize::MAX {
        usize::MAX as int
    } else {
        total
    }
}

/// The anchor table built over the flattened nodes: walking left to right
/// and accumulating each node's footprint, every anchor macro records its
/// name at the current address; a second definition of a name is refused,
/// and an anchor argument that is not an identifier is refused.
pub open spec fn spec_anchor_pass(
    nodes: Seq<(ProgramSkeletonNodeView, int)>,
    i: int,
    addr: int,
    acc: Seq<(Seq<char>, int)>,
) -> Result<Seq<(Seq<char>, int)>, ProgramSkeletonBuildErrorView>
    decreases nodes.len() - i,
{
    if !(0 <= i < nodes.len()) {
        Ok(acc)
    } else {
        let n = nodes[i].0;
        match n {
            ProgramSkeletonNodeView::Instruction(..) => spec_anchor_pass(
                nodes,
                i + 1,
                addr + 1,
                acc,
            ),
            ProgramSkeletonNodeView::Macro(m) => {
                if m.type_ == MacroEnum::Anchor {
                    match m.args[0] {
                        MacroArgumentView::Identifier(name) => {
                            if spec_anchor_lookup(acc, name) is Some {
                                Err(ProgramSkeletonBuildErrorView::AnchorRedefinition(name))
                            } else {
                                spec_anchor_pass(nodes, i + 1, addr, acc.push((name, addr)))
                            }
                        },
                        MacroArgumentView::StringLiteral(..) => Err(
                            ProgramSkeletonBuildErrorView::MacroArgumentWrongType(m.args[0]),
                        ),
                    }
                } else {
                    spec_anchor_pass(nodes, i + 1, addr + spec_macro_footprint(m), acc)
                }
            },
        }
    }
}

/// The token that the expander writes for an opcode or operand name.
pub open spec fn spec_expanded_word(name: Seq<char>) -> TokenView {
    TokenView { enum_: TokenEnumView::AssemblyWord(name), raw: "<Expanded macro>"@ }
}

/// The token that the expander writes for an immediate byte.
pub open spec fn spec_expanded_literal(n: u8) -> TokenView {
    TokenView { enum_: (TokenEnumView::Literal { n, bit_size: 8 }), raw: "<Expanded macro>"@ }
}

/// The two instruction lines that load `address_og - 1` into the goto
/// latches, low byte first; the decrement compensates for the hardware's
/// own increment of the execution pointer after a jump.
pub open spec fn spec_load_goto_lines(address_og: u16, line: int) -> Seq<(Seq<TokenView>, int)> {
    let address = (((address_og - 1) + 0x10000) % 0x10000) as u16;
    seq![
        (
            seq![
                spec_expanded_word("write"@),
                spec_expanded_literal((address & 0x00FF) as u8),
                spec_expanded_word("goto-a"@),
            ],
            line,
        ),
        (
            seq![
                spec_expanded_word("write"@),
                spec_expanded_literal(((address >> 8) & 0x00FF) as u8),
                spec_expanded_word("goto-b"@),
            ],
            line,
        ),
    ]
}

/// The expansion of a jump-family macro: the two latch loads for the
/// anchor's address, then the bare jump word; an unknown anchor is refused.
pub open spec fn spec_expand_jump(
    anchors: Seq<(Seq<char>, int)>,
    name: Seq<char>,
    word: Seq<char>,
    line: int,
) -> Result<Seq<(Seq<TokenView>, int)>, ProgramSkeletonBuildErrorView> {
    match spec_anchor_lookup(anchors, name) {
        None => Err(ProgramSkeletonBuildErrorView::MacroInvalidAnchor(name)),
        Some(a) => Ok(
            spec_load_goto_lines((a % 0x10000) as u16, line) + seq![
                (seq![spec_expanded_word(word)], line),
            ],
        ),
    }
}

/// The expansion of one flattened node against the finished anchor table:
/// instructions pass through, anchors vanish, jumps and calls become latch
/// loads plus a jump word, an address push becomes two stack pushes of the
/// decremented address, and a written string becomes one memory write per
/// character followed by pushes of the two length bytes.
pub open spec fn spec_expand_node(
    n: ProgramSkeletonNodeView,
    line: int,
    anchors: Seq<(Seq<char>, int)>,
) -> Result<Seq<(Seq<TokenView>, int)>, ProgramSkeletonBuildErrorView> {
    match n {
        ProgramSkeletonNodeView::Instruction(tokens) => Ok(seq![(tokens, line)]),
        ProgramSkeletonNodeView::Macro(m) => match m.type_ {
            MacroEnum::Anchor => Ok(Seq::empty()),
            MacroEnum::Call => spec_expand_jump(anchors, m.args[0].text(), "call"@, line),
            MacroEnum::Goto => spec_expand_jump(anchors, m.args[0].text(), "goto"@, line),
            MacroEnum::GotoIf => spec_expand_jump(anchors, m.args[0].text(), "goto-if"@, line),
            MacroEnum::WriteString => {
                let text = m.args[0].text();
                if text.len() >= POWER_16 {
                    Err(
                        ProgramSkeletonBuildErrorView::MacroWriteStringArgumentTooLong(
                            text.len() as int,
                        ),
                    )
                } else {
                    let size = (text.len() % 0x10000) as u16;
                    Ok(
                        Seq::new(
                            text.len(),
                            |k: int|
                                (
                                    seq![
                                        spec_expanded_word("write"@),
                                        spec_expanded_literal((((text[k] as int) % 256) as u8)),
                                        spec_expanded_word("gpram-inc-addr"@),
                                    ],
                                    line,
                                ),
                        ) + seq![
                            (
                                seq![
                                    spec_expanded_word("write"@),
                                    spec_expanded_literal((size & 0x00FF) as u8),
                                    spec_expanded_word("stack-push"@),
                                ],
                                line,
                            ),
                            (
                                seq![
                                    spec_expanded_word("write"@),
                                    spec_expanded_literal(((size >> 8) & 0x00FF) as u8),
                                    spec_expanded_word("stack-push"@),
                                ],
                                line,
                            ),
                        ],
                    )
                }
            },
            MacroEnum::PushAnchorAddress => match spec_anchor_lookup(anchors, m.args[0].text()) {
                None => Err(
                    ProgramSkeletonBuildErrorView::MacroInvalidAnchor(m.args[0].text()),
                ),
                Some(a) => {
                    let address = ((((a % 0x10000) as u16) - 1 + 0x10000) % 0x10000) as u16;
                    Ok(
                        seq![
                            (
                                seq![
                                    spec_expanded_word("write"@),
                                    spec_expanded_literal((address & 0x00FF) as u8),
                                    spec_expanded_word("stack-push"@),
                                ],
                                line,
                            ),
                            (
                                seq![
                                    spec_expanded_word("write"@),
                                    spec_expanded_literal(((address >> 8) & 0x00FF) as u8),
                                    spec_expanded_word("stack-push"@),
                                ],
                                line,
                            ),
                        ],
                    )
                },
            },
        },
    }
}

/// The expansion of the whole flattened list, node by node in order.
pub open spec fn spec_expand(
    nodes: Seq<(ProgramSkeletonNodeView, int)>,
    i: int,
    anchors: Seq<(Seq<char>, int)>,
) -> Result<Seq<(Seq<TokenView>, int)>, ProgramSkeletonBuildErrorView>
    decreases nodes.len() - i,
{
    if !(0 <= i < nodes.len()) {
        Ok(Seq::empty())
    } else {
        match spec_expand_node(nodes[i].0, nodes[i].1, anchors) {
            Err(e) => Err(e),
            Ok(lines) => match spec_expand(nodes, i + 1, anchors) {
                Err(e) => Err(e),
                Ok(rest) => Ok(lines + rest),
            },
        }
    }
}

/// Mathematical image of a flattened node list.
pub open spec fn skeleton_nodes_view(v: Seq<(ProgramSkeletonNode, usize)>) -> Seq<
    (ProgramSkeletonNodeView, int),
> {
    Seq::new(v.len(), |k: int| (v[k].0@, v[k].1 as int))
}

/// Mathematical image of an anchor table.
pub open spec fn anchors_view(v: Seq<(String, usize)>) -> Seq<(Seq<char>, int)> {
    Seq::new(v.len(), |k: int| (v[k].0@, v[k].1 as int))
}

/// Mathematical image of a list of token lines with line numbers.
pub open spec fn token_lines_view(v: Seq<(Vec<Token>, usize)>) -> Seq<(Seq<TokenView>, int)> {
    Seq::new(v.len(), |k: int| (v[k].0.deep_view(), v[k].1 as int))
}

/// Gathers the tokens of an instruction node's children from index `i` on,
/// as `spec_instruction_tokens` says.
fn instruction_tokens(children: &Vec<SyntaxTreeNode>, i: usize) -> (r: Result<
    Vec<Token>,
    ProgramSkeletonBuildError,
>)
    requires
        i <= children@.len(),
    ensures
        match r {
            Ok(p) => spec_instruction_tokens(children.deep_view(), i as int) matches Ok(q)
                && p.deep_view() == q,
            Err(e) => spec_instruction_tokens(children.deep_view(), i as int) matches Err(q) && e@
                == q,
        },
    decreases children@.len() - i,
{
    proof {
        assert(forall|k: int|
            0 <= k < children@.len() ==> children.deep_view()[k] == #[trigger] children@[k]@);
    }
    if i >= children.len() {
        let empty_vec: Vec<Token> = Vec::new();
        proof {
            assert(empty_vec.deep_view() =~= Seq::<TokenView>::empty());
        }
        return Ok(empty_vec);
    }
    match &children[i].type_ {
        SyntaxTreeNodeType::InstructionToken(token) => {
            let t = token.clone();
            let ghost t_view = t@;
            let (mut rest) = match instruction_tokens(children, i + 1) {
                Ok(p) => p,
                Err(e) => {
                    return Err(e);
                },
            };
            let ghost rest_view = rest.deep_view();
            rest.insert(0, t);
            proof {
                assert(rest.deep_view() =~= seq![t_view] + rest_view);
            }
            Ok(rest)
        },
        invalid => Err(ProgramSkeletonBuildError::BadSyntaxNodeType(invalid.clone())),
    }
}

/// Flattens the tree's top-level children from index `i` on, as
/// `spec_flatten` says, attaching each node's source line number.
fn flatten_from(children: &Vec<SyntaxTreeNode>, source: &Vec<char>, i: usize) -> (r: Result<
    Vec<(ProgramSkeletonNode, usize)>,
    ProgramSkeletonBuildError,
>)
    requires
        i <= children@.len(),
        source@.len() < usize::MAX,
        forall|k: int| 0 <= k < children@.len() ==> (#[trigger] children@[k]).begin <= source@.len(),
        forall|k: int| 0 <= k < children@.len() ==> psnode_macro_source_wf(#[trigger] children@[k]@),
    ensures
        match r {
            Ok(p) => spec_flatten(children.deep_view(), source@, i as int) matches Ok(q)
                && skeleton_nodes_view(p@) == q && (forall|k: int|
                0 <= k < p@.len() ==> psnode_args_wf(#[trigger] p@[k].0@)),
            Err(e) => spec_flatten(children.deep_view(), source@, i as int) matches Err(q) && e@
                == q,
        },
    decreases children@.len() - i,
{
    proof {
        assert(forall|k: int|
            0 <= k < children@.len() ==> children.deep_view()[k] == #[trigger] children@[k]@);
    }
    if i >= children.len() {
        let empty_vec: Vec<(ProgramSkeletonNode, usize)> = Vec::new();
        proof {
            assert(skeleton_nodes_view(empty_vec@) =~= Seq::<
                (ProgramSkeletonNodeView, int),
            >::empty());
        }
        return Ok(empty_vec);
    }
    let tree_node = &children[i];
    let line: usize = line_n_from_index(source, tree_node.begin);
    let head: Option<ProgramSkeletonNode> = match &tree_node.type_ {
        SyntaxTreeNodeType::Instruction => {
            // Every child of an instruction node must be a token
            let tokens = match instruction_tokens(&tree_node.children, 0) {
                Ok(p) => p,
                Err(e) => {
                    proof {
                        assert(children.deep_view()[i as int].children =~= tree_node.children.deep_view());
                    }
                    return Err(e);
                },
            };
            proof {
                assert(children.deep_view()[i as int].children =~= tree_node.children.deep_view());
            }
            Some(ProgramSkeletonNode::Instruction(tokens))
        },
        SyntaxTreeNodeType::Macro(macro_) => Some(ProgramSkeletonNode::Macro(macro_.clone())),
        SyntaxTreeNodeType::Comment => None,
        invalid => {
            return Err(ProgramSkeletonBuildError::BadSyntaxNodeType(invalid.clone()));
        },
    };
    let rest = match flatten_from(children, source, i + 1) {
        Ok(p) => p,
        Err(e) => {
            return Err(e);
        },
    };
    match head {
        Some(entry) => {
            let ghost entry_view = (entry@, line as int);
            let ghost rest_view = skeleton_nodes_view(rest@);
            let mut out = rest;
            out.insert(0, (entry, line));
            proof {
                assert(skeleton_nodes_view(out@) =~= seq![entry_view] + rest_view);
            }
            Ok(out)
        },
        None => Ok(rest),
    }
}

/// A macro node among the tree's top-level children carries the argument
/// count its kind demands.
pub open spec fn psnode_macro_source_wf(n: SyntaxTreeNodeView) -> bool {
    match n.type_ {
        SyntaxTreeNodeTypeView::Macro(m) => m.args.len() == m.type_.spec_num_args(),
        _ => true,
    }
}

/// Sums the footprints of all flattened nodes, as `spec_size_pass` says; the
/// sum saturates at the machine's word range, matching
/// `spec_too_large_payload` of the true total.
fn size_pass(nodes: &Vec<(ProgramSkeletonNode, usize)>) -> (r: Result<
    usize,
    ProgramSkeletonBuildError,
>)
    requires
        forall|k: int| 0 <= k < nodes@.len() ==> psnode_args_wf((#[trigger] nodes@[k]).0@),
    ensures
        match r {
            Ok(t) => spec_size_pass(skeleton_nodes_view(nodes@), 0, 0) matches Ok(total) && t
                as int == spec_too_large_payload(total),
            Err(e) => spec_size_pass(skeleton_nodes_view(nodes@), 0, 0) == Err::<int,
                ProgramSkeletonBuildErrorView>(e@),
        },
{
    let ghost nv = skeleton_nodes_view(nodes@);
    proof {
        assert(forall|k: int| 0 <= k < nv.len() ==> #[trigger] nv[k] == (nodes@[k].0@, nodes@[k].1 as int));
    }
    let mut acc: usize = 0;
    let ghost mut true_acc: int = 0;
    let mut i: usize = 0;
    let n_nodes: usize = nodes.len();
    while i < n_nodes
        invariant
            0 <= i <= n_nodes,
            n_nodes == nodes@.len(),
            nv == skeleton_nodes_view(nodes@),
            nv.len() == nodes@.len(),
            forall|k: int| 0 <= k < nv.len() ==> #[trigger] nv[k] == (nodes@[k].0@, nodes@[k].1 as int),
            forall|k: int| 0 <= k < nodes@.len() ==> psnode_args_wf((#[trigger] nodes@[k]).0@),
            0 <= true_acc,
            acc as int == spec_too_large_payload(true_acc),
            spec_size_pass(nv, 0, 0) == spec_size_pass(nv, i as int, true_acc),
        decreases n_nodes - i,
    {
        let node = &nodes[i].0;
        match node {
            ProgramSkeletonNode::Macro(m) => {
                match m.type_ {
                    MacroEnum::WriteString => {
                        let text_len: usize = match &m.args[0] {
                            MacroArgument::Identifier(s) => s.as_str().unicode_len(),
                            MacroArgument::StringLiteral(s) => s.as_str().unicode_len(),
                        };
                        if text_len >= POWER_16 {
                            return Err(
                                ProgramSkeletonBuildError::MacroWriteStringArgumentTooLong(
                                    text_len,
                                ),
                            );
                        }
                    },
                    _ => {},
                }
            },
            ProgramSkeletonNode::Instruction(..) => {},
        }
        let footprint: usize = nodes[i].0.instructions_represented();
        acc = acc.saturating_add(footprint);
        proof {
            true_acc = true_acc + footprint;
        }
        i += 1;
    }
    Ok(acc)
}

/// Looks a name up in the anchor table, as `spec_anchor_lookup` says.
fn anchor_lookup(anchors: &Vec<(String, usize)>, name: &String) -> (r: Option<usize>)
    ensures
        match r {
            Some(a) => spec_anchor_lookup(anchors_view(anchors@), name@) == Some(a as int),
            None => spec_anchor_lookup(anchors_view(anchors@), name@) is None,
        },
{
    let ghost av = anchors_view(anchors@);
    proof {
        assert(forall|k: int|
            0 <= k < av.len() ==> #[trigger] av[k] == (anchors@[k].0@, anchors@[k].1 as int));
    }
    let mut k: usize = 0;
    let n: usize = anchors.len();
    proof {
        assert(av.skip(0) =~= av);
    }
    while k < n
        invariant
            0 <= k <= n,
            n == anchors@.len(),
            av == anchors_view(anchors@),
            av.len() == anchors@.len(),
            forall|j: int|
                0 <= j < av.len() ==> #[trigger] av[j] == (anchors@[j].0@, anchors@[j].1 as int),
            spec_anchor_lookup(av, name@) == spec_anchor_lookup(av.skip(k as int), name@),
        decreases n - k,
    {
        proof {
            assert(av.skip(k as int).drop_first() =~= av.skip(k + 1 as int));
            assert(av.skip(k as int)[0] == av[k as int]);
        }
        if anchors[k].0 == *name {
            return Some(anchors[k].1);
        }
        k += 1;
    }
    proof {
        assert(av.skip(n as int).len() == 0);
    }
    None
}

/// Builds the anchor table over the flattened nodes, as `spec_anchor_pass`
/// says.
fn anchor_pass(nodes: &Vec<(ProgramSkeletonNode, usize)>) -> (r: Result<
    Vec<(String, usize)>,
    ProgramSkeletonBuildError,
>)
    requires
        forall|k: int| 0 <= k < nodes@.len() ==> psnode_args_wf((#[trigger] nodes@[k]).0@),
        spec_size_pass(skeleton_nodes_view(nodes@), 0, 0) matches Ok(total) && total <= POWER_16,
    ensures
        match r {
            Ok(a) => spec_anchor_pass(skeleton_nodes_view(nodes@), 0, 0, Seq::empty()) == Ok::<
                Seq<(Seq<char>, int)>,
                ProgramSkeletonBuildErrorView,
            >(anchors_view(a@)),
            Err(e) => spec_anchor_pass(skeleton_nodes_view(nodes@), 0, 0, Seq::empty()) == Err::<
                Seq<(Seq<char>, int)>,
                ProgramSkeletonBuildErrorView,
            >(e@),
        },
{
    let ghost nv = skeleton_nodes_view(nodes@);
    proof {
        assert(forall|k: int|
            0 <= k < nv.len() ==> #[trigger] nv[k] == (nodes@[k].0@, nodes@[k].1 as int));
        assert(anchors_view(Seq::<(String, usize)>::empty()) =~= Seq::<(Seq<char>, int)>::empty());
    }
    let mut anchors: Vec<(String, usize)> = Vec::new();
    let mut current_program_address: usize = 0;
    let mut i: usize = 0;
    let n_nodes: usize = nodes.len();
    proof {
        assert(anchors_view(anchors@) =~= Seq::<(Seq<char>, int)>::empty());
    }
    while i < n_nodes
        invariant
            0 <= i <= n_nodes,
            n_nodes == nodes@.len(),
            nv == skeleton_nodes_view(nodes@),
            nv.len() == nodes@.len(),
            forall|k: int| 0 <= k < nv.len() ==> #[trigger] nv[k] == (nodes@[k].0@, nodes@[k].1 as int),
            forall|k: int| 0 <= k < nodes@.len() ==> psnode_args_wf((#[trigger] nodes@[k]).0@),
            current_program_address <= POWER_16,
            spec_anchor_pass(nv, 0, 0, Seq::empty()) == spec_anchor_pass(
                nv,
                i as int,
                current_program_address as int,
                anchors_view(anchors@),
            ),
            spec_size_pass(nv, 0, 0) == spec_size_pass(
                nv,
                i as int,
                current_program_address as int,
            ),
            spec_size_pass(nv, 0, 0) matches Ok(total) && total <= POWER_16,
        decreases n_nodes - i,
    {
        let node = &nodes[i].0;
        match node {
            ProgramSkeletonNode::Instruction(..) => {
                proof {
                    lemma_size_pass_ge(nv, i + 1, current_program_address + 1);
                }
                current_program_address += 1;
            },
            ProgramSkeletonNode::Macro(macro_) => {
                match macro_.type_ {
                    MacroEnum::Anchor => {
                        match &macro_.args[0] {
                            MacroArgument::Identifier(anchor_name) => {
                                // A second definition of the name is refused
                                match anchor_lookup(&anchors, anchor_name) {
                                    Some(..) => {
                                        return Err(
                                            ProgramSkeletonBuildError::AnchorRedefinition(
                                                anchor_name.clone(),
                                            ),
                                        );
                                    },
                                    None => {},
                                }
                                let ghost old_view = anchors_view(anchors@);
                                anchors.push(
                                    (anchor_name.clone(), current_program_address),
                                );
                                proof {
                                    assert(anchors_view(anchors@) =~= old_view.push(
                                        (anchor_name@, current_program_address as int),
                                    ));
                                }
                            },
                            invalid => {
                                return Err(
                                    ProgramSkeletonBuildError::MacroArgumentWrongType(
                                        invalid.clone(),
                                    ),
                                );
                            },
                        }
                    },
                    _ => {
                        let footprint: usize = nodes[i].0.instructions_represented();
                        proof {
                            lemma_size_pass_ge(
                                nv,
                                i + 1,
                                current_program_address + footprint,
                            );
                        }
                        current_program_address += footprint;
                    },
                }
            },
        }
        i += 1;
    }
    Ok(anchors)
}

/// A token the expander writes for an opcode or operand name.
fn expanded_word(name: &str) -> (r: Token)
    ensures
        r@ == spec_expanded_word(name@),
{
    Token::new(TokenEnum::AssemblyWord(name.to_owned()), String::from_str("<Expanded macro>"))
}

/// A token the expander writes for an immediate byte.
fn expanded_literal(n: u8) -> (r: Token)
    ensures
        r@ == spec_expanded_literal(n),
{
    Token::new(TokenEnum::Literal { n, bit_size: 8 }, String::from_str("<Expanded macro>"))
}

/// Creates the two instructions that load `address_og - 1` into the goto
/// latches; the decrement compensates for the hardware incrementing the
/// execution pointer after a jump.
fn load_goto_instructions(address_og: u16, line_n: usize) -> (r: Vec<(Vec<Token>, usize)>)
    ensures
        token_lines_view(r@) == spec_load_goto_lines(address_og, line_n as int),
{
    let address = address_og.wrapping_sub(1);
    proof {
        assert(address & 0x00FF < 256 && (address >> 8) & 0x00FF < 256) by (bit_vector);
    }
    // GOTO-A
    let mut goto_a: Vec<Token> = Vec::new();
    goto_a.push(expanded_word("write"));
    goto_a.push(expanded_literal((address & 0x00FF) as u8));
    goto_a.push(expanded_word("goto-a"));
    // GOTO-B
    let mut goto_b: Vec<Token> = Vec::new();
    goto_b.push(expanded_word("write"));
    goto_b.push(expanded_literal(((address >> 8) & 0x00FF) as u8));
    goto_b.push(expanded_word("goto-b"));
    let mut out: Vec<(Vec<Token>, usize)> = Vec::new();
    proof {
        assert(goto_a.deep_view() =~= spec_load_goto_lines(address_og, line_n as int)[0].0);
        assert(goto_b.deep_view() =~= spec_load_goto_lines(address_og, line_n as int)[1].0);
    }
    out.push((goto_a, line_n));
    out.push((goto_b, line_n));
    proof {
        assert(token_lines_view(out@) =~= spec_load_goto_lines(address_og, line_n as int));
    }
    out
}

/// Expands a `call`, `goto` or `goto-if` macro against the anchor table, as
/// `spec_expand_jump` says.
fn expand_address_set_macro(
    anchors: &Vec<(String, usize)>,
    anchor_name: &String,
    assembly_word: &str,
    line_n: usize,
) -> (r: Result<Vec<(Vec<Token>, usize)>, ProgramSkeletonBuildError>)
    ensures
        match r {
            Ok(p) => spec_expand_jump(
                anchors_view(anchors@),
                anchor_name@,
                assembly_word@,
                line_n as int,
            ) matches Ok(q) && token_lines_view(p@) == q,
            Err(e) => spec_expand_jump(
                anchors_view(anchors@),
                anchor_name@,
                assembly_word@,
                line_n as int,
            ) matches Err(q) && e@ == q,
        },
{
    match anchor_lookup(anchors, anchor_name) {
        Some(prog_address) => {
            let ghost spec_result = spec_expand_jump(
                anchors_view(anchors@),
                anchor_name@,
                assembly_word@,
                line_n as int,
            );
            let mut out = load_goto_instructions((prog_address % 0x10000) as u16, line_n);
            // The jump word itself
            let mut jump_line: Vec<Token> = Vec::new();
            jump_line.push(expanded_word(assembly_word));
            proof {
                assert(jump_line.deep_view() =~= seq![spec_expanded_word(assembly_word@)]);
            }
            out.push((jump_line, line_n));
            proof {
                assert(token_lines_view(out@) =~= spec_result->Ok_0);
            }
            Ok(out)
        },
        None => Err(ProgramSkeletonBuildError::MacroInvalidAnchor(anchor_name.clone())),
    }
}

/// Copies one instruction's token line.
fn clone_token_line(tokens: &Vec<Token>) -> (r: Vec<Token>)
    ensures
        r.deep_view() == tokens.deep_view(),
{
    let mut out: Vec<Token> = Vec::new();
    let mut k: usize = 0;
    let n: usize = tokens.len();
    while k < n
        invariant
            0 <= k <= n,
            n == tokens@.len(),
            out@.len() == k,
            forall|j: int| 0 <= j < k ==> out@[j] == tokens@[j],
        decreases n - k,
    {
        out.push(tokens[k].clone());
        k += 1;
    }
    proof {
        assert(out@ =~= tokens@);
        assert(out.deep_view() =~= tokens.deep_view());
    }
    out
}

/// Expands one flattened node against the anchor table, as
/// `spec_expand_node` says.
fn expand_node(
    node: &ProgramSkeletonNode,
    line_n: usize,
    anchors: &Vec<(String, usize)>,
) -> (r: Result<Vec<(Vec<Token>, usize)>, ProgramSkeletonBuildError>)
    requires
        psnode_args_wf(node@),
    ensures
        match r {
            Ok(p) => spec_expand_node(node@, line_n as int, anchors_view(anchors@)) matches Ok(q)
                && token_lines_view(p@) == q,
            Err(e) => spec_expand_node(node@, line_n as int, anchors_view(anchors@)) matches Err(
                q,
            ) && e@ == q,
        },
{
    let ghost spec_result = spec_expand_node(node@, line_n as int, anchors_view(anchors@));
    match node {
        ProgramSkeletonNode::Instruction(tokens) => {
            let mut out: Vec<(Vec<Token>, usize)> = Vec::new();
            out.push((clone_token_line(tokens), line_n));
            proof {
                assert(token_lines_view(out@) =~= spec_result->Ok_0);
            }
            Ok(out)
        },
        ProgramSkeletonNode::Macro(macro_) => {
            match macro_.type_ {
                MacroEnum::Anchor => {
                    // Anchors were consumed by the first pass
                    let out: Vec<(Vec<Token>, usize)> = Vec::new();
                    proof {
                        assert(token_lines_view(out@) =~= Seq::<(Seq<TokenView>, int)>::empty());
                    }
                    Ok(out)
                },
                MacroEnum::Call => {
                    let anchor_name = macro_.args[0].to_string();
                    expand_address_set_macro(anchors, &anchor_name, "call", line_n)
                },
                MacroEnum::Goto => {
                    let anchor_name = macro_.args[0].to_string();
                    expand_address_set_macro(anchors, &anchor_name, "goto", line_n)
                },
                MacroEnum::GotoIf => {
                    let anchor_name = macro_.args[0].to_string();
                    expand_address_set_macro(anchors, &anchor_name, "goto-if", line_n)
                },
                MacroEnum::WriteString => {
                    let string_to_write = macro_.args[0].to_string();
                    let text_len: usize = string_to_write.as_str().unicode_len();
                    if text_len >= POWER_16 {
                        return Err(
                            ProgramSkeletonBuildError::MacroWriteStringArgumentTooLong(text_len),
                        );
                    }
                    let ghost char_lines = Seq::new(
                        string_to_write@.len(),
                        |k: int|
                            (
                                seq![
                                    spec_expanded_word("write"@),
                                    spec_expanded_literal(
                                        (((string_to_write@[k] as int) % 256) as u8),
                                    ),
                                    spec_expanded_word("gpram-inc-addr"@),
                                ],
                                line_n as int,
                            ),
                    );
                    let mut out: Vec<(Vec<Token>, usize)> = Vec::new();
                    let mut k: usize = 0;
                    // One memory write per character
                    while k < text_len
                        invariant
                            0 <= k <= text_len,
                            text_len == string_to_write@.len(),
                            text_len < POWER_16,
                            char_lines == Seq::new(
                                string_to_write@.len(),
                                |k: int|
                                    (
                                        seq![
                                            spec_expanded_word("write"@),
                                            spec_expanded_literal(
                                                (((string_to_write@[k] as int) % 256) as u8),
                                            ),
                                            spec_expanded_word("gpram-inc-addr"@),
                                        ],
                                        line_n as int,
                                    ),
                            ),
                            out@.len() == k,
                            forall|j: int|
                                0 <= j < k ==> token_lines_view(out@)[j] == #[trigger] char_lines[j],
                        decreases text_len - k,
                    {
                        let char_: char = string_to_write.as_str().get_char(k);
                        let byte: u8 = ((char_ as u32) % 256) as u8;
                        let mut line: Vec<Token> = Vec::new();
                        line.push(expanded_word("write"));
                        line.push(expanded_literal(byte));
                        line.push(expanded_word("gpram-inc-addr"));
                        proof {
                            assert(line.deep_view() =~= char_lines[k as int].0);
                        }
                        out.push((line, line_n));
                        k += 1;
                    }
                    // Push the two size bytes onto the stack
                    let string_size_u16: u16 = string_to_write.as_str().unicode_len() as u16;
                    proof {
                        assert(string_size_u16 & 0x00FF < 256 && (string_size_u16 >> 8) & 0x00FF
                            < 256) by (bit_vector);
                    }
                    let mut size_lo: Vec<Token> = Vec::new();
                    size_lo.push(expanded_word("write"));
                    size_lo.push(expanded_literal((string_size_u16 & 0x00FF) as u8));
                    size_lo.push(expanded_word("stack-push"));
                    let mut size_hi: Vec<Token> = Vec::new();
                    size_hi.push(expanded_word("write"));
                    size_hi.push(expanded_literal(((string_size_u16 >> 8) & 0x00FF) as u8));
                    size_hi.push(expanded_word("stack-push"));
                    proof {
                        assert(size_lo.deep_view() =~= seq![
                            spec_expanded_word("write"@),
                            spec_expanded_literal((string_size_u16 & 0x00FF) as u8),
                            spec_expanded_word("stack-push"@),
                        ]);
                        assert(size_hi.deep_view() =~= seq![
                            spec_expanded_word("write"@),
                            spec_expanded_literal(((string_size_u16 >> 8) & 0x00FF) as u8),
                            spec_expanded_word("stack-push"@),
                        ]);
                    }
                    out.push((size_lo, line_n));
                    out.push((size_hi, line_n));
                    proof {
                        assert(token_lines_view(out@) =~~= spec_result->Ok_0);
                    }
                    Ok(out)
                },
                MacroEnum::PushAnchorAddress => {
                    let anchor_name = macro_.args[0].to_string();
                    let address: u16 = match anchor_lookup(anchors, &anchor_name) {
                        Some(prog_address) => ((prog_address % 0x10000) as u16).wrapping_sub(1),
                        None => {
                            return Err(
                                ProgramSkeletonBuildError::MacroInvalidAnchor(anchor_name),
                            );
                        },
                    };
                    proof {
                        assert(address & 0x00FF < 256 && (address >> 8) & 0x00FF < 256)
                            by (bit_vector);
                    }
                    let mut push_lo: Vec<Token> = Vec::new();
                    push_lo.push(expanded_word("write"));
                    push_lo.push(expanded_literal((address & 0x00FF) as u8));
                    push_lo.push(expanded_word("stack-push"));
                    let mut push_hi: Vec<Token> = Vec::new();
                    push_hi.push(expanded_word("write"));
                    push_hi.push(expanded_literal(((address >> 8) & 0x00FF) as u8));
                    push_hi.push(expanded_word("stack-push"));
                    proof {
                        assert(push_lo.deep_view() =~= seq![
                            spec_expanded_word("write"@),
                            spec_expanded_literal((address & 0x00FF) as u8),
                            spec_expanded_word("stack-push"@),
                        ]);
                        assert(push_hi.deep_view() =~= seq![
                            spec_expanded_word("write"@),
                            spec_expanded_literal(((address >> 8) & 0x00FF) as u8),
                            spec_expanded_word("stack-push"@),
                        ]);
                    }
                    let mut out: Vec<(Vec<Token>, usize)> = Vec::new();
                    out.push((push_lo, line_n));
                    out.push((push_hi, line_n));
                    proof {
                        assert(token_lines_view(out@) =~~= spec_result->Ok_0);
                    }
                    Ok(out)
                },
            }
        },
    }
}

/// Expands the flattened nodes from index `i` on, as `spec_expand` says.
fn expand_from(
    nodes: &Vec<(ProgramSkeletonNode, usize)>,
    i: usize,
    anchors: &Vec<(String, usize)>,
) -> (r: Result<Vec<(Vec<Token>, usize)>, ProgramSkeletonBuildError>)
    requires
        i <= nodes@.len(),
        forall|k: int| 0 <= k < nodes@.len() ==> psnode_args_wf((#[trigger] nodes@[k]).0@),
    ensures
        match r {
            Ok(p) => spec_expand(skeleton_nodes_view(nodes@), i as int, anchors_view(anchors@))
                matches Ok(q) && token_lines_view(p@) == q,
            Err(e) => spec_expand(skeleton_nodes_view(nodes@), i as int, anchors_view(anchors@))
                matches Err(q) && e@ == q,
        },
    decreases nodes@.len() - i,
{
    proof {
        assert(forall|k: int|
            0 <= k < nodes@.len() ==> #[trigger] skeleton_nodes_view(nodes@)[k] == (
            nodes@[k].0@,
            nodes@[k].1 as int,
            ));
    }
    if i >= nodes.len() {
        let out: Vec<(Vec<Token>, usize)> = Vec::new();
        proof {
            assert(token_lines_view(out@) =~= Seq::<(Seq<TokenView>, int)>::empty());
        }
        return Ok(out);
    }
    let mut lines = match expand_node(&nodes[i].0, nodes[i].1, anchors) {
        Ok(p) => p,
        Err(e) => {
            return Err(e);
        },
    };
    let mut rest = match expand_from(nodes, i + 1, anchors) {
        Ok(p) => p,
        Err(e) => {
            return Err(e);
        },
    };
    let ghost lines_view = token_lines_view(lines@);
    let ghost rest_view = token_lines_view(rest@);
    lines.append(&mut rest);
    proof {
        assert(token_lines_view(lines@) =~= lines_view + rest_view);
    }
    Ok(lines)
}

/// What building the skeleton of a tree owes: the root must be a `Program`
/// node; its children are flattened, the program size is checked against
/// the address space, the anchor table is built, and every macro is
/// expanded against it.
pub open spec fn spec_program_skeleton_build(t: SyntaxTreeNodeView, s: Seq<char>) -> Result<
    Seq<(Seq<TokenView>, int)>,
    ProgramSkeletonBuildErrorView,
> {
    match t.type_ {
        SyntaxTreeNodeTypeView::Program => match spec_flatten(t.children, s, 0) {
            Err(e) => Err(e),
            Ok(nodes) => match spec_size_pass(nodes, 0, 0) {
                Err(e) => Err(e),
                Ok(total) => {
                    if total > POWER_16 {
                        Err(
                            ProgramSkeletonBuildErrorView::ProgramTooLarge(
                                spec_too_large_payload(total),
                            ),
                        )
                    } else {
                        match spec_anchor_pass(nodes, 0, 0, Seq::empty()) {
                            Err(e) => Err(e),
                            Ok(anchors) => spec_expand(nodes, 0, anchors),
                        }
                    }
                },
            },
        },
        other => Err(ProgramSkeletonBuildErrorView::BadSyntaxNodeType(other)),
    }
}

/// The number of instruction words the nodes with indices in `[i, k)` stand
/// for together.
pub open spec fn spec_prefix_footprint(
    nodes: Seq<(ProgramSkeletonNodeView, int)>,
    i: int,
    k: int,
) -> int
    decreases k - i,
{
    if i >= k {
        0
    } else {
        spec_psnode_footprint(nodes[i].0) + spec_prefix_footprint(nodes, i + 1, k)
    }
}

/// Whether a flattened node defines the anchor `name`.
pub open spec fn is_anchor_def(n: ProgramSkeletonNodeView, name: Seq<char>) -> bool {
    match n {
        ProgramSkeletonNodeView::Macro(m) => m.type_ == MacroEnum::Anchor && m.args.len() >= 1
            && (match m.args[0] {
            MacroArgumentView::Identifier(nm) => nm == name,
            MacroArgumentView::StringLiteral(..) => false,
        }),
        ProgramSkeletonNodeView::Instruction(..) => false,
    }
}

/// Looking a name up after a push: an already-present name keeps its
/// address, a fresh push is found, and anything else stays absent.
pub proof fn lemma_anchor_lookup_push(
    anchors: Seq<(Seq<char>, int)>,
    x: (Seq<char>, int),
    name: Seq<char>,
)
    ensures
        spec_anchor_lookup(anchors.push(x), name) == (if spec_anchor_lookup(anchors, name)
            is Some {
            spec_anchor_lookup(anchors, name)
        } else if x.0 == name {
            Some(x.1)
        } else {
            None::<int>
        }),
    decreases anchors.len(),
{
    if anchors.len() == 0 {
        assert(anchors.push(x).drop_first() =~= Seq::<(Seq<char>, int)>::empty());
    } else {
        assert(anchors.push(x).drop_first() =~= anchors.drop_first().push(x));
        lemma_anchor_lookup_push(anchors.drop_first(), x, name);
    }
}

/// A name already in the table keeps its address through the rest of the
/// anchor pass.
pub proof fn lemma_anchor_pass_preserves(
    nodes: Seq<(ProgramSkeletonNodeView, int)>,
    i: int,
    addr: int,
    acc: Seq<(Seq<char>, int)>,
    name: Seq<char>,
)
    requires
        spec_anchor_pass(nodes, i, addr, acc) is Ok,
        spec_anchor_lookup(acc, name) is Some,
    ensures
        spec_anchor_lookup(spec_anchor_pass(nodes, i, addr, acc)->Ok_0, name)
            == spec_anchor_lookup(acc, name),
    decreases nodes.len() - i,
{
    if 0 <= i < nodes.len() {
        match nodes[i].0 {
            ProgramSkeletonNodeView::Instruction(..) => {
                lemma_anchor_pass_preserves(nodes, i + 1, addr + 1, acc, name);
            },
            ProgramSkeletonNodeView::Macro(m) => {
                if m.type_ == MacroEnum::Anchor {
                    match m.args[0] {
                        MacroArgumentView::Identifier(nm) => {
                            lemma_anchor_lookup_push(acc, (nm, addr), name);
                            lemma_anchor_pass_preserves(
                                nodes,
                                i + 1,
                                addr,
                                acc.push((nm, addr)),
                                name,
                            );
                        },
                        MacroArgumentView::StringLiteral(..) => {},
                    }
                } else {
                    lemma_anchor_pass_preserves(
                        nodes,
                        i + 1,
                        addr + spec_macro_footprint(m),
                        acc,
                        name,
                    );
                }
            },
        }
    }
}

/// A name already in the table is never defined again by a pass that
/// succeeds.
pub proof fn lemma_anchor_pass_no_rebind(
    nodes: Seq<(ProgramSkeletonNodeView, int)>,
    i: int,
    addr: int,
    acc: Seq<(Seq<char>, int)>,
    name: Seq<char>,
)
    requires
        0 <= i,
        spec_anchor_pass(nodes, i, addr, acc) is Ok,
        spec_anchor_lookup(acc, name) is Some,
    ensures
        forall|k: int| i <= k < nodes.len() ==> !is_anchor_def((#[trigger] nodes[k]).0, name),
    decreases nodes.len() - i,
{
    if 0 <= i < nodes.len() {
        match nodes[i].0 {
            ProgramSkeletonNodeView::Instruction(..) => {
                lemma_anchor_pass_no_rebind(nodes, i + 1, addr + 1, acc, name);
            },
            ProgramSkeletonNodeView::Macro(m) => {
                if m.type_ == MacroEnum::Anchor {
                    match m.args[0] {
                        MacroArgumentView::Identifier(nm) => {
                            lemma_anchor_lookup_push(acc, (nm, addr), name);
                            lemma_anchor_pass_no_rebind(
                                nodes,
                                i + 1,
                                addr,
                                acc.push((nm, addr)),
                                name,
                            );
                        },
                        MacroArgumentView::StringLiteral(..) => {},
                    }
                } else {
                    lemma_anchor_pass_no_rebind(
                        nodes,
                        i + 1,
                        addr + spec_macro_footprint(m),
                        acc,
                        name,
                    );
                }
            },
        }
    }
}

/// Anchor resolution correctness: when the anchor pass succeeds, an anchor
/// defined at position `k` resolves to the number of instruction words that
/// the nodes strictly before it stand for — the anchor itself takes no code
/// space.
pub proof fn lemma_anchor_resolution(
    nodes: Seq<(ProgramSkeletonNodeView, int)>,
    i: int,
    addr: int,
    acc: Seq<(Seq<char>, int)>,
    name: Seq<char>,
    k: int,
)
    requires
        spec_anchor_pass(nodes, i, addr, acc) is Ok,
        spec_anchor_lookup(acc, name) is None,
        0 <= i <= k < nodes.len(),
        is_anchor_def(nodes[k].0, name),
    ensures
        spec_anchor_lookup(spec_anchor_pass(nodes, i, addr, acc)->Ok_0, name) == Some(
            addr + spec_prefix_footprint(nodes, i, k),
        ),
    decreases k - i,
{
    match nodes[i].0 {
        ProgramSkeletonNodeView::Instruction(..) => {
            lemma_anchor_resolution(nodes, i + 1, addr + 1, acc, name, k);
        },
        ProgramSkeletonNodeView::Macro(m) => {
            if m.type_ == MacroEnum::Anchor {
                match m.args[0] {
                    MacroArgumentView::Identifier(nm) => {
                        lemma_anchor_lookup_push(acc, (nm, addr), name);
                        if i == k {
                            lemma_anchor_pass_preserves(
                                nodes,
                                i + 1,
                                addr,
                                acc.push((nm, addr)),
                                name,
                            );
                        } else {
                            if nm == name {
                                lemma_anchor_pass_no_rebind(
                                    nodes,
                                    i + 1,
                                    addr,
                                    acc.push((nm, addr)),
                                    name,
                                );
                            } else {
                                lemma_anchor_resolution(
                                    nodes,
                                    i + 1,
                                    addr,
                                    acc.push((nm, addr)),
                                    name,
                                    k,
                                );
                            }
                        }
                    },
                    MacroArgumentView::StringLiteral(..) => {},
                }
            } else {
                lemma_anchor_resolution(
                    nodes,
                    i + 1,
                    addr + spec_macro_footprint(m),
                    acc,
                    name,
                    k,
                );
            }
        },
    }
}

/// Duplicate anchor rejection: a successful anchor pass never holds two
/// definitions of the same name — defining an anchor twice always fails and
/// is never silently overwritten.
pub proof fn lemma_duplicate_anchor_rejected(
    nodes: Seq<(ProgramSkeletonNodeView, int)>,
    i: int,
    addr: int,
    acc: Seq<(Seq<char>, int)>,
    name: Seq<char>,
    k1: int,
)
    requires
        spec_anchor_pass(nodes, i, addr, acc) is Ok,
        0 <= i <= k1 < nodes.len(),
        is_anchor_def(nodes[k1].0, name),
    ensures
        forall|k2: int| k1 < k2 < nodes.len() ==> !is_anchor_def((#[trigger] nodes[k2]).0, name),
    decreases k1 - i,
{
    match nodes[i].0 {
        ProgramSkeletonNodeView::Instruction(..) => {
            lemma_duplicate_anchor_rejected(nodes, i + 1, addr + 1, acc, name, k1);
        },
        ProgramSkeletonNodeView::Macro(m) => {
            if m.type_ == MacroEnum::Anchor {
                match m.args[0] {
                    MacroArgumentView::Identifier(nm) => {
                        lemma_anchor_lookup_push(acc, (nm, addr), name);
                        if i == k1 {
                            lemma_anchor_pass_no_rebind(
                                nodes,
                                i + 1,
                                addr,
                                acc.push((nm, addr)),
                                name,
                            );
                        } else {
                            lemma_duplicate_anchor_rejected(
                                nodes,
                                i + 1,
                                addr,
                                acc.push((nm, addr)),
                                name,
                                k1,
                            );
                        }
                    },
                    MacroArgumentView::StringLiteral(..) => {},
                }
            } else {
                lemma_duplicate_anchor_rejected(
                    nodes,
                    i + 1,
                    addr + spec_macro_footprint(m),
                    acc,
                    name,
                    k1,
                );
            }
        },
    }
}

/// Undefined anchor rejection: when expansion succeeds, every anchor that a
/// jump, call or address push refers to is present in the table — a
/// reference to a missing anchor always fails, and no instruction word with
/// a garbage address is ever produced.
pub proof fn lemma_undefined_anchor_rejected(
    nodes: Seq<(ProgramSkeletonNodeView, int)>,
    i: int,
    anchors: Seq<(Seq<char>, int)>,
    k: int,
)
    requires
        spec_expand(nodes, i, anchors) is Ok,
        0 <= i <= k < nodes.len(),
        nodes[k].0 matches ProgramSkeletonNodeView::Macro(m) && (m.type_ == MacroEnum::Call
            || m.type_ == MacroEnum::Goto || m.type_ == MacroEnum::GotoIf || m.type_
            == MacroEnum::PushAnchorAddress),
    ensures
        spec_anchor_lookup(
            anchors,
            (nodes[k].0->Macro_0).args[0].text(),
        ) is Some,
    decreases k - i,
{
    if i < k {
        lemma_undefined_anchor_rejected(nodes, i + 1, anchors, k);
    }
}

/// Macro/primitive equivalence: a `call`, `goto` or `goto_if` macro whose
/// anchor resolves to address `a` expands to exactly the hand-written
/// three-line form — write the low byte of `a - 1` to the first goto latch,
/// write the high byte to the second, then the bare jump word — so the
/// encoder sees the same token lines, and emits the same instruction words,
/// for the macro as for its manual expansion.
pub proof fn lemma_macro_primitive_equivalence(
    anchors: Seq<(Seq<char>, int)>,
    name: Seq<char>,
    word: Seq<char>,
    line: int,
    a: int,
)
    requires
        spec_anchor_lookup(anchors, name) == Some(a),
    ensures
        spec_expand_jump(anchors, name, word, line) == Ok::<
            Seq<(Seq<TokenView>, int)>,
            ProgramSkeletonBuildErrorView,
        >(
            ({
                let address = (((a % 0x10000) as u16 - 1 + 0x10000) % 0x10000) as u16;
                seq![
                    (
                        seq![
                            spec_expanded_word("write"@),
                            spec_expanded_literal((address & 0x00FF) as u8),
                            spec_expanded_word("goto-a"@),
                        ],
                        line,
                    ),
                    (
                        seq![
                            spec_expanded_word("write"@),
                            spec_expanded_literal(((address >> 8) & 0x00FF) as u8),
                            spec_expanded_word("goto-b"@),
                        ],
                        line,
                    ),
                    (seq![spec_expanded_word(word)], line),
                ]
            }),
        ),
{
    let address = (((a % 0x10000) as u16 - 1 + 0x10000) % 0x10000) as u16;
    assert(spec_expand_jump(anchors, name, word, line)->Ok_0 =~~= seq![
        (
            seq![
                spec_expanded_word("write"@),
                spec_expanded_literal((address & 0x00FF) as u8),
                spec_expanded_word("goto-a"@),
            ],
            line,
        ),
        (
            seq![
                spec_expanded_word("write"@),
                spec_expanded_literal(((address >> 8) & 0x00FF) as u8),
                spec_expanded_word("goto-b"@),
            ],
            line,
        ),
        (seq![spec_expanded_word(word)], line),
    ]);
}

/// Expanding a jump-family macro fails exactly when its anchor is not in
/// the table, and then with `MacroInvalidAnchor` of that name; otherwise it
/// yields exactly three token lines — the two latch loads of the resolved
/// address and the bare jump word — never a line holding an unresolved
/// address.
pub proof fn lemma_jump_expansion_requires_anchor(
    anchors: Seq<(Seq<char>, int)>,
    name: Seq<char>,
    word: Seq<char>,
    line: int,
)
    ensures
        spec_expand_jump(anchors, name, word, line) is Err <==> spec_anchor_lookup(anchors, name)
            is None,
        spec_expand_jump(anchors, name, word, line) matches Err(e) ==> e
            == ProgramSkeletonBuildErrorView::MacroInvalidAnchor(name),
        spec_expand_jump(anchors, name, word, line) matches Ok(lines) ==> lines.len() == 3
            && lines == spec_load_goto_lines(
            (spec_anchor_lookup(anchors, name)->Some_0 % 0x10000) as u16,
            line,
        ) + seq![(seq![spec_expanded_word(word)], line)],
{
}

/// What `program_skeleton_build` asks of its input: every top-level node
/// sits inside the source text (so its line number can be found), and every
/// top-level macro carries the argument count its kind demands — which is
/// what the parser produces.
pub open spec fn skeleton_input_wf(t: SyntaxTreeNodeView, s: Seq<char>) -> bool {
    forall|k: int|
        0 <= k < t.children.len() ==> {
            &&& 0 <= (#[trigger] t.children[k]).begin <= s.len()
            &&& psnode_macro_source_wf(t.children[k])
        }
}

/// Constructs the linear representation of the program from the syntax
/// tree, as `spec_program_skeleton_build` says.  At this point the final
/// length of the program is known, so anchors get addresses and every other
/// macro is expanded.  `source` is needed only for line numbers.
pub fn program_skeleton_build(tree_root: &SyntaxTreeNode, source: &Vec<char>) -> (r: Result<
    Vec<(Vec<Token>, usize)>,
    ProgramSkeletonBuildError,
>)
    requires
        source@.len() < usize::MAX,
        skeleton_input_wf(tree_root@, source@),
    ensures
        match r {
            Ok(p) => spec_program_skeleton_build(tree_root@, source@) matches Ok(q)
                && token_lines_view(p@) == q,
            Err(e) => spec_program_skeleton_build(tree_root@, source@) matches Err(q) && e@ == q,
        },
{
    match &tree_root.type_ {
        SyntaxTreeNodeType::Program => {
            proof {
                assert(tree_root@.children =~= tree_root.children.deep_view());
                assert(forall|k: int|
                    0 <= k < tree_root.children@.len() ==> #[trigger] tree_root.children@[k]@
                        == tree_root@.children[k]);
                assert forall|k: int| 0 <= k < tree_root.children@.len() implies (#[trigger]
                tree_root.children@[k]).begin <= source@.len() && psnode_macro_source_wf(
                    tree_root.children@[k]@,
                ) by {
                    assert(tree_root@.children[k] == tree_root.children@[k]@);
                }
            }
            // Flatten the tree's top-level children
            let nodes = match flatten_from(&tree_root.children, source, 0) {
                Ok(p) => p,
                Err(e) => {
                    return Err(e);
                },
            };
            // Check the program size against the address space
            match size_pass(&nodes) {
                Ok(total) => {
                    if total > POWER_16 {
                        return Err(ProgramSkeletonBuildError::ProgramTooLarge(total));
                    }
                },
                Err(e) => {
                    return Err(e);
                },
            }
            // Resolve anchor addresses
            let anchors = match anchor_pass(&nodes) {
                Ok(p) => p,
                Err(e) => {
                    return Err(e);
                },
            };
            // Expand every remaining macro; done
            expand_from(&nodes, 0, &anchors)
        },
        other => Err(ProgramSkeletonBuildError::BadSyntaxNodeType(other.clone())),
    }
}

} // verus!
