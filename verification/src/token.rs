use vstd::prelude::*;

use crate::opcodes::AddressingMode;

verus! {

/// The base an immediate literal was written in.
#[derive(Clone, Copy, PartialEq, Eq, Structural, Debug)]
pub enum ImmediateBase {
    Base10,
    Base16,
}

/// One semantic token of an assembler line: a label, an opcode name, or an
/// operand written in one of the operand forms, each carrying its source
/// text.
#[derive(Clone, PartialEq, Eq, Debug)]
pub enum Token {
    Label(String),
    OpCode(String),
    Immediate(String, ImmediateBase),
    ZeroPage(String),
    ZeroPageX(String),
    ZeroPageY(String),
    Absolute(String),
    AbsoluteX(String),
    AbsoluteY(String),
    Indirect(String),
    IndirectX(String),
    IndirectY(String),
}

/// The mathematical value of a token: the variant together with its text as
/// a character sequence.
pub enum TokenModel {
    Label(Seq<char>),
    OpCode(Seq<char>),
    Immediate(Seq<char>, ImmediateBase),
    ZeroPage(Seq<char>),
    ZeroPageX(Seq<char>),
    ZeroPageY(Seq<char>),
    Absolute(Seq<char>),
    AbsoluteX(Seq<char>),
    AbsoluteY(Seq<char>),
    Indirect(Seq<char>),
    IndirectX(Seq<char>),
    IndirectY(Seq<char>),
}

impl DeepView for Token {
    type V = TokenModel;

    open spec fn deep_view(&self) -> TokenModel {
        match self {
            Token::Label(s) => TokenModel::Label(s@),
            Token::OpCode(s) => TokenModel::OpCode(s@),
            Token::Immediate(s, base) => TokenModel::Immediate(s@, *base),
            Token::ZeroPage(s) => TokenModel::ZeroPage(s@),
            Token::ZeroPageX(s) => TokenModel::ZeroPageX(s@),
            Token::ZeroPageY(s) => TokenModel::ZeroPageY(s@),
            Token::Absolute(s) => TokenModel::Absolute(s@),
            Token::AbsoluteX(s) => TokenModel::AbsoluteX(s@),
            Token::AbsoluteY(s) => TokenModel::AbsoluteY(s@),
            Token::Indirect(s) => TokenModel::Indirect(s@),
            Token::IndirectX(s) => TokenModel::IndirectX(s@),
            Token::IndirectY(s) => TokenModel::IndirectY(s@),
        }
    }
}

/// The addressing mode a token selects when it stands in operand position.
/// A label names a branch target, so it reads as a relative operand; an
/// opcode name there degenerates to an implied operand.
pub open spec fn spec_token_mode(t: TokenModel) -> AddressingMode {
    match t {
        TokenModel::Label(_) => AddressingMode::Relative,
        TokenModel::OpCode(_) => AddressingMode::Implied,
        TokenModel::Immediate(_, _) => AddressingMode::Immediate,
        TokenModel::ZeroPage(_) => AddressingMode::ZeroPage,
        TokenModel::ZeroPageX(_) => AddressingMode::ZeroPageX,
        TokenModel::ZeroPageY(_) => AddressingMode::ZeroPageY,
        TokenModel::Absolute(_) => AddressingMode::Absolute,
        TokenModel::AbsoluteX(_) => AddressingMode::AbsoluteX,
        TokenModel::AbsoluteY(_) => AddressingMode::AbsoluteY,
        TokenModel::Indirect(_) => AddressingMode::Indirect,
        TokenModel::IndirectX(_) => AddressingMode::IndirectX,
        TokenModel::IndirectY(_) => AddressingMode::IndirectY,
    }
}

impl Token {
    /// The addressing mode this token selects in operand position.
    pub fn to_addressing_mode(&self) -> (r: AddressingMode)
        ensures
            r == spec_token_mode(self.deep_view()),
    {
        match self {
            Token::Label(_) => AddressingMode::Relative,
            Token::OpCode(_) => AddressingMode::Implied,
            Token::Immediate(_, _) => AddressingMode::Immediate,
            Token::ZeroPage(_) => AddressingMode::ZeroPage,
            Token::ZeroPageX(_) => AddressingMode::ZeroPageX,
            Token::ZeroPageY(_) => AddressingMode::ZeroPageY,
            Token::Absolute(_) => AddressingMode::Absolute,
            Token::AbsoluteX(_) => AddressingMode::AbsoluteX,
            Token::AbsoluteY(_) => AddressingMode::AbsoluteY,
            Token::Indirect(_) => AddressingMode::Indirect,
            Token::IndirectX(_) => AddressingMode::IndirectX,
            Token::IndirectY(_) => AddressingMode::IndirectY,
        }
    }

    /// A copy of this token with the same value.
    pub fn duplicate(&self) -> (r: Token)
        ensures
            r.deep_view() == self.deep_view(),
    {
        match self {
            Token::Label(s) => Token::Label(s.clone()),
            Token::OpCode(s) => Token::OpCode(s.clone()),
            Token::Immediate(s, base) => Token::Immediate(s.clone(), *base),
            Token::ZeroPage(s) => Token::ZeroPage(s.clone()),
            Token::ZeroPageX(s) => Token::ZeroPageX(s.clone()),
            Token::ZeroPageY(s) => Token::ZeroPageY(s.clone()),
            Token::Absolute(s) => Token::Absolute(s.clone()),
            Token::AbsoluteX(s) => Token::AbsoluteX(s.clone()),
            Token::AbsoluteY(s) => Token::AbsoluteY(s.clone()),
            Token::Indirect(s) => Token::Indirect(s.clone()),
            Token::IndirectX(s) => Token::IndirectX(s.clone()),
            Token::IndirectY(s) => Token::IndirectY(s.clone()),
        }
    }
}

} // verus!
