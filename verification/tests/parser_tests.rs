use mos6502::parser::Parser;
use mos6502::parser::ParserError;
use mos6502::token::ImmediateBase;
use mos6502::token::Token;

#[test]
fn errors_on_multiple_labels() {
    let mut parser = Parser::new(vec![vec![
        Token::Label("MAIN".into()),
        Token::Label("METHOD".into()),
        Token::OpCode("LDA".into()),
        Token::Immediate("10".into(), ImmediateBase::Base16),
    ]]);

    assert_eq!(Err(ParserError::expected_instruction(1)), parser.parse());
}

#[test]
fn does_not_error_on_single_label() {
    let mut parser = Parser::new(vec![vec![
        Token::Label("MAIN".into()),
        Token::OpCode("LDA".into()),
        Token::Immediate("10".into(), ImmediateBase::Base16),
    ]]);

    assert_eq!(
        &[
            Token::Label("MAIN".into()),
            Token::OpCode("LDA".into()),
            Token::Immediate("10".into(), ImmediateBase::Base16)
        ],
        &parser.parse().unwrap()[0][..]
    );
}

#[test]
fn can_detect_invalid_addressing_modes() {
    let mut parser = Parser::new(vec![vec![
        Token::Label("MAIN".into()),
        Token::OpCode("LDX".into()),
        Token::IndirectY("10".into()),
    ]]);

    assert_eq!(
        Err(ParserError::invalid_opcode_addressing_mode_combination(1)),
        parser.parse()
    );
}

#[test]
fn does_not_error_on_valid_addressing_modes() {
    let mut parser = Parser::new(vec![vec![
        Token::Label("MAIN".into()),
        Token::OpCode("LDA".into()),
        Token::IndirectY("10".into()),
    ]]);

    let result = parser.parse().unwrap();
    assert_eq!(
        &[
            Token::Label("MAIN".into()),
            Token::OpCode("LDA".into()),
            Token::IndirectY("10".into())
        ],
        &result[0][..]
    );
}

#[test]
fn line_without_label_is_validated() {
    let mut parser = Parser::new(vec![vec![
        Token::OpCode("LDX".into()),
        Token::IndirectY("10".into()),
    ]]);

    assert_eq!(
        Err(ParserError::invalid_opcode_addressing_mode_combination(1)),
        parser.parse()
    );
}

#[test]
fn line_starting_with_operand_is_rejected() {
    let mut parser = Parser::new(vec![vec![Token::Immediate(
        "10".into(),
        ImmediateBase::Base16,
    )]]);

    assert_eq!(Err(ParserError::expected_instruction(1)), parser.parse());
}

#[test]
fn empty_line_is_rejected() {
    let mut parser = Parser::new(vec![vec![]]);

    assert_eq!(Err(ParserError::expected_instruction(1)), parser.parse());
}

#[test]
fn lone_label_is_rejected() {
    let mut parser = Parser::new(vec![vec![Token::Label("MAIN".into())]]);

    assert_eq!(Err(ParserError::expected_instruction(1)), parser.parse());
}

#[test]
fn implied_opcode_without_operand_is_accepted() {
    let mut parser = Parser::new(vec![vec![Token::OpCode("BRK".into())]]);

    assert!(parser.parse().is_ok());
}

#[test]
fn accumulator_opcode_without_operand_is_accepted() {
    let mut parser = Parser::new(vec![vec![Token::OpCode("ASL".into())]]);

    assert!(parser.parse().is_ok());
}

#[test]
fn missing_required_operand_is_unexpected_eol() {
    let mut parser = Parser::new(vec![vec![
        Token::Label("MAIN".into()),
        Token::OpCode("LDA".into()),
    ]]);

    assert_eq!(Err(ParserError::unexpected_eol(1)), parser.parse());
}

#[test]
fn unknown_mnemonic_is_invalid_combination() {
    let mut parser = Parser::new(vec![vec![
        Token::OpCode("FOO".into()),
        Token::Immediate("10".into(), ImmediateBase::Base16),
    ]]);

    assert_eq!(
        Err(ParserError::invalid_opcode_addressing_mode_combination(1)),
        parser.parse()
    );
}

#[test]
fn error_reports_the_offending_line() {
    let mut parser = Parser::new(vec![
        vec![Token::OpCode("LDA".into()), Token::Immediate("10".into(), ImmediateBase::Base16)],
        vec![Token::OpCode("LDX".into()), Token::IndirectY("10".into())],
    ]);

    assert_eq!(
        Err(ParserError::invalid_opcode_addressing_mode_combination(2)),
        parser.parse()
    );
}

#[test]
fn branch_to_label_operand_is_accepted() {
    let mut parser = Parser::new(vec![vec![
        Token::OpCode("BNE".into()),
        Token::Label("LOOP".into()),
    ]]);

    assert!(parser.parse().is_ok());
}
