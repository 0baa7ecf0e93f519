//! Tests of the scanner and the syntax tree builder.
use stack_machine::assembly_encode::{Token, TokenEnum};
use stack_machine::macros::{Macro, MacroArgument, MacroEnum};
use stack_machine::scan::{check_for_and_parse_bit_string, escape_substitution,
    parse_string_literal};
use stack_machine::syntax_tree::{ParseError, ParseErrorType, SyntaxTreeNode, SyntaxTreeNodeType};

#[test]
fn parse_binary_literal() {
    // Simple
    let source: Vec<char> = String::from("0x42").chars().collect();
    assert_eq!(
        check_for_and_parse_bit_string(&source, 0, None)
            .expect("Did not find literal")
            .expect("Shouldn't return error"),
        (vec![0x42], 8, 4)
    );
    // Offset start
    let source: Vec<char> = String::from("  0x42 ").chars().collect();
    assert_eq!(
        check_for_and_parse_bit_string(&source, 2, None)
            .expect("Did not find literal")
            .expect("Shouldn't return error"),
        (vec![0x42], 8, 6)
    );
    // Invalid
    let source: Vec<char> = String::from("  0 x42 ").chars().collect();
    assert!(check_for_and_parse_bit_string(&source, 2, None).is_none());
}

#[test]
fn parse() {
    let source: Vec<char> = String::from("write 0x42 stack-push;").chars().collect();
    let tree: SyntaxTreeNode = SyntaxTreeNode::build_tree(&source).unwrap();
    assert_eq!(tree.type_, SyntaxTreeNodeType::Program);
    assert_eq!(tree.children[0].type_, SyntaxTreeNodeType::Instruction);
    // The length of the first instruction should be three tokens
    assert_eq!(tree.children[0].children.len(), 3);
    assert_eq!(
        tree.children[0].children[0].type_,
        SyntaxTreeNodeType::InstructionToken(Token::new(
            TokenEnum::AssemblyWord("write".to_owned()),
            "write".to_owned()
        ))
    );
    assert_eq!(
        tree.children[0].children[1].type_,
        SyntaxTreeNodeType::InstructionToken(Token::new(
            TokenEnum::Literal { n: 0x42, bit_size: 8 },
            "0x42".to_owned()
        ))
    );
    assert_eq!(
        tree.children[0].children[2].type_,
        SyntaxTreeNodeType::InstructionToken(Token::new(
            TokenEnum::AssemblyWord("stack-push".to_owned()),
            "stack-push".to_owned()
        ))
    );
}

#[test]
fn parse_with_macros() {
    let source: Vec<char> = String::from("@anchor(start);write 0x42 stack-push;")
        .chars()
        .collect();
    let tree: SyntaxTreeNode = SyntaxTreeNode::build_tree(&source).unwrap();
    assert_eq!(tree.type_, SyntaxTreeNodeType::Program);
    // First construct: the macro has no children
    assert_eq!(tree.children[0].children.len(), 0);
    assert_eq!(
        tree.children[0].type_,
        SyntaxTreeNodeType::Macro(Macro {
            type_: MacroEnum::Anchor,
            args: vec![MacroArgument::Identifier("start".to_owned())]
        })
    );
    // Second construct: the instruction
    assert_eq!(tree.children[1].type_, SyntaxTreeNodeType::Instruction);
    assert_eq!(tree.children[1].children.len(), 3);
    assert_eq!(
        tree.children[1].children[0].type_,
        SyntaxTreeNodeType::InstructionToken(Token::new(
            TokenEnum::AssemblyWord("write".to_owned()),
            "write".to_owned()
        ))
    );
    assert_eq!(
        tree.children[1].children[1].type_,
        SyntaxTreeNodeType::InstructionToken(Token::new(
            TokenEnum::Literal { n: 0x42, bit_size: 8 },
            "0x42".to_owned()
        ))
    );
    assert_eq!(
        tree.children[1].children[2].type_,
        SyntaxTreeNodeType::InstructionToken(Token::new(
            TokenEnum::AssemblyWord("stack-push".to_owned()),
            "stack-push".to_owned()
        ))
    );
}

#[test]
fn test_parse_string_literal() {
    let string_to_parse = "\"Hello World\\n\"".to_owned();
    let source: Vec<char> = string_to_parse.chars().collect();
    assert_eq!(
        parse_string_literal(&source, 1).unwrap(),
        ("Hello World\n".to_owned(), string_to_parse.len())
    );
}

#[test]
fn parse_macro_with_string_literal() {
    let source: Vec<char> = String::from("@write_string(\"Hello world\\n\");")
        .chars()
        .collect();
    let tree: SyntaxTreeNode = SyntaxTreeNode::build_tree(&source).unwrap();
    assert_eq!(tree.type_, SyntaxTreeNodeType::Program);
    // First construct: the macro has no children
    assert_eq!(tree.children[0].children.len(), 0);
    assert_eq!(
        tree.children[0].type_,
        SyntaxTreeNodeType::Macro(Macro {
            type_: MacroEnum::WriteString,
            args: vec![MacroArgument::StringLiteral("Hello world\n".to_owned())]
        })
    );
}

#[test]
fn parse_mixed_case_hex_literal() {
    // The hexadecimal decoder accepts both cases; a scanner that handed the
    // raw digits back unchanged could not produce the byte value 0xAB
    let source: Vec<char> = String::from("0xaB").chars().collect();
    let (bytes, bit_size, end) = check_for_and_parse_bit_string(&source, 0, None)
        .expect("Did not find literal")
        .expect("Shouldn't return error");
    assert_eq!(bytes, vec![0xAB]);
    assert_eq!(bit_size, 8);
    assert_eq!(end, 4);
}

#[test]
fn parse_rejects_odd_hex_literal() {
    let source: Vec<char> = String::from("write 0x123 stack-push;").chars().collect();
    let err: ParseError = SyntaxTreeNode::build_tree(&source).unwrap_err();
    assert_eq!(err.type_, ParseErrorType::HexParseError);
}

#[test]
fn parse_rejects_unterminated_string() {
    let source: Vec<char> = String::from("@write_string(\"oops);").chars().collect();
    let err: ParseError = SyntaxTreeNode::build_tree(&source).unwrap_err();
    assert!(matches!(err.type_, ParseErrorType::UnfinishedNode(..)));
}

#[test]
fn parse_rejects_bad_escape() {
    let source: Vec<char> = String::from("@write_string(\"a\\q\");").chars().collect();
    let err: ParseError = SyntaxTreeNode::build_tree(&source).unwrap_err();
    assert_eq!(err.type_, ParseErrorType::StringInvalidEscapeSequence('q'));
}

#[test]
fn parse_rejects_unknown_macro() {
    let source: Vec<char> = String::from("@bogus(start);").chars().collect();
    let err: ParseError = SyntaxTreeNode::build_tree(&source).unwrap_err();
    assert_eq!(
        err.type_,
        ParseErrorType::InvalidMacroIdentifier("bogus".to_owned())
    );
}

#[test]
fn parse_rejects_wrong_macro_argument_count() {
    let source: Vec<char> = String::from("@anchor(a, b);").chars().collect();
    let err: ParseError = SyntaxTreeNode::build_tree(&source).unwrap_err();
    assert_eq!(
        err.type_,
        ParseErrorType::MacroWrongNumArgs { actual: 2, correct: 1 }
    );
}

#[test]
fn parse_rejects_stray_character() {
    let source: Vec<char> = String::from("write 0x42 stack-push; ?").chars().collect();
    let err: ParseError = SyntaxTreeNode::build_tree(&source).unwrap_err();
    assert!(matches!(
        err.type_,
        ParseErrorType::InvalidCharacterInContext('?', _)
    ));
}

#[test]
fn parse_drops_comments() {
    let source: Vec<char> = String::from("# a comment\nwrite 0x42 stack-push;")
        .chars()
        .collect();
    let tree = SyntaxTreeNode::build_tree(&source).unwrap();
    assert_eq!(tree.children.len(), 2);
    assert_eq!(tree.children[0].type_, SyntaxTreeNodeType::Comment);
    assert_eq!(tree.children[1].type_, SyntaxTreeNodeType::Instruction);
}

#[test]
fn parse_until_false_scans_matching_prefix() {
    let source: Vec<char> = String::from("abc123; rest").chars().collect();
    let (text, end) = stack_machine::scan::parse_until_false(
        &source,
        0,
        |c: &char| c.is_ascii_alphanumeric(),
        None,
        true,
    )
    .unwrap();
    assert_eq!(text, "abc123");
    assert_eq!(end, 6);
}

#[test]
fn skip_whitespace_finds_next_construct() {
    let source: Vec<char> = String::from(" \t\nhalt;").chars().collect();
    assert_eq!(stack_machine::scan::skip_whitespace(&source, 0, None).unwrap(), 3);
    assert_eq!(stack_machine::scan::skip_whitespace(&source, 3, None).unwrap(), 3);
}

#[test]
fn line_numbers_count_newlines() {
    let source: Vec<char> = String::from("a;\nb;\nc;").chars().collect();
    assert_eq!(stack_machine::scan::line_n_from_index(&source, 0), 1);
    assert_eq!(stack_machine::scan::line_n_from_index(&source, 3), 2);
    assert_eq!(stack_machine::scan::line_n_from_index(&source, 7), 3);
}

#[test]
fn escape_substitutions() {
    assert_eq!(escape_substitution('n'), Some('\n'));
    assert_eq!(escape_substitution('t'), Some('\t'));
    assert_eq!(escape_substitution('\\'), Some('\\'));
    assert_eq!(escape_substitution('"'), Some('"'));
    assert_eq!(escape_substitution('\''), Some('\''));
    assert_eq!(escape_substitution('q'), None);
}

#[test]
fn macro_argument_types_are_checked() {
    let ident = vec![MacroArgument::Identifier("start".to_owned())];
    let lit = vec![MacroArgument::StringLiteral("start".to_owned())];
    assert!(MacroEnum::Anchor.args_correct_type(&ident).is_ok());
    assert!(MacroEnum::Anchor.args_correct_type(&lit).is_err());
    assert!(MacroEnum::WriteString.args_correct_type(&lit).is_ok());
    assert!(MacroEnum::WriteString.args_correct_type(&ident).is_err());
}

#[test]
fn token_decode_classifies_raw_text() {
    let t = Token::decode("0x5A").unwrap();
    assert_eq!(t.enum_, TokenEnum::Literal { n: 0x5A, bit_size: 8 });
    assert_eq!(t.raw, "0x5A");
    let t = Token::decode("stack-push").unwrap();
    assert_eq!(t.enum_, TokenEnum::AssemblyWord("stack-push".to_owned()));
    assert!(Token::decode("0x123").is_err());
    assert!(Token::decode("0xZZ").is_err());
}
