use vstd::prelude::*;

use crate::opcodes::lookup_by_mnemonic_and_mode;
use crate::opcodes::mnemonic_from_str;
use crate::opcodes::spec_mnemonic_of;
use crate::opcodes::spec_pair_legal;
use crate::opcodes::AddressingMode;
use crate::opcodes::Mnemonic;
use crate::token::spec_token_mode;
use crate::token::Token;
use crate::token::TokenModel;

verus! {

/// The errors the assembler's semantic pass reports, each carrying the
/// one-based number of the offending line.
#[derive(Clone, Copy, PartialEq, Eq, Structural, Debug)]
pub enum ParserError {
    /// The line does not have the shape `label? opcode operand?`.
    ExpectedInstruction(u32),
    /// The opcode exists in no table entry with the addressing mode the
    /// operand token selects, or the opcode name is unknown.
    InvalidOpcodeAddressingModeCombination(u32),
    /// The line ends where the opcode still requires an operand.
    UnexpectedEol(u32),
}

impl ParserError {
    pub fn expected_instruction(line: u32) -> (r: ParserError)
        ensures
            r == ParserError::ExpectedInstruction(line),
    {
        ParserError::ExpectedInstruction(line)
    }

    pub fn invalid_opcode_addressing_mode_combination(line: u32) -> (r: ParserError)
        ensures
            r == ParserError::InvalidOpcodeAddressingModeCombination(line),
    {
        ParserError::InvalidOpcodeAddressingModeCombination(line)
    }

    pub fn unexpected_eol(line: u32) -> (r: ParserError)
        ensures
            r == ParserError::UnexpectedEol(line),
    {
        ParserError::UnexpectedEol(line)
    }
}

/// What the tokens after an opcode name must satisfy.  With no operand token
/// the mode is implied (or the accumulator); the opcode must then have such
/// a table entry, and an opcode that requires an operand makes the bare line
/// end unexpected.  With an operand token, the pair of mnemonic and the mode
/// the token selects must appear in the opcode table.
pub open spec fn spec_validate_opcode(
    mnemonic: Option<Mnemonic>,
    operand: Option<TokenModel>,
    n: u32,
) -> Result<(), ParserError> {
    match operand {
        None => match mnemonic {
            Some(m) => if spec_pair_legal(m, AddressingMode::Implied) || spec_pair_legal(
                m,
                AddressingMode::Accumulator,
            ) {
                Ok(())
            } else {
                Err(ParserError::UnexpectedEol(n))
            },
            None => Err(ParserError::InvalidOpcodeAddressingModeCombination(n)),
        },
        Some(t) => match mnemonic {
            Some(m) => if spec_pair_legal(m, spec_token_mode(t)) {
                Ok(())
            } else {
                Err(ParserError::InvalidOpcodeAddressingModeCombination(n))
            },
            None => Err(ParserError::InvalidOpcodeAddressingModeCombination(n)),
        },
    }
}

/// One valid line is an optional label, then an opcode, then at most one
/// operand token; tokens past the operand are ignored.
pub open spec fn spec_validate_line(line: Seq<TokenModel>, n: u32) -> Result<(), ParserError> {
    if line.len() == 0 {
        Err(ParserError::ExpectedInstruction(n))
    } else {
        let start: int = if line[0] is Label {
            1int
        } else {
            0int
        };
        if start >= line.len() {
            Err(ParserError::ExpectedInstruction(n))
        } else {
            match line[start] {
                TokenModel::OpCode(name) => spec_validate_opcode(
                    spec_mnemonic_of(name),
                    if start + 1 < line.len() {
                        Some(line[start + 1])
                    } else {
                        None
                    },
                    n,
                ),
                _ => Err(ParserError::ExpectedInstruction(n)),
            }
        }
    }
}

/// The lines from index `i` on, numbered one-based; the first offending line
/// decides the error.
pub open spec fn spec_validate_from(lines: Seq<Seq<TokenModel>>, i: int) -> Result<
    (),
    ParserError,
> decreases lines.len() - i,
{
    if i < 0 || i >= lines.len() {
        Ok(())
    } else {
        match spec_validate_line(lines[i], (i + 1) as u32) {
            Ok(()) => spec_validate_from(lines, i + 1),
            Err(e) => Err(e),
        }
    }
}

/// Whether a whole token stream is valid, and the first error when not.
pub open spec fn spec_validate(lines: Seq<Seq<TokenModel>>) -> Result<(), ParserError> {
    spec_validate_from(lines, 0)
}

/// The assembler's semantic pass over a stream of token lines: it checks
/// every line against the opcode table and hands the stream back unchanged.
pub struct Parser {
    tokens: Vec<Vec<Token>>,
    line: u32,
}

impl View for Parser {
    type V = Seq<Seq<TokenModel>>;

    closed spec fn view(&self) -> Seq<Seq<TokenModel>> {
        self.tokens.deep_view()
    }
}

impl Parser {
    /// A parser over the given token lines.
    pub fn new(tokens: Vec<Vec<Token>>) -> (r: Parser)
        ensures
            r@ == tokens.deep_view(),
    {
        Parser { tokens, line: 0 }
    }

    /// Validates every line and returns the token stream unchanged, or the
    /// error of the first offending line.
    pub fn parse(&mut self) -> (r: Result<Vec<Vec<Token>>, ParserError>)
        requires
            old(self)@.len() <= 0xFFFF_FFFF,
        ensures
            final(self)@ == old(self)@,
            (match r {
                Ok(v) => spec_validate(old(self)@) == Ok::<(), ParserError>(()) && v.deep_view()
                    == old(self)@,
                Err(e) => spec_validate(old(self)@) == Err::<(), ParserError>(e),
            }),
    {
        let total = self.tokens.len();
        let mut idx: usize = 0;
        while idx < total
            invariant
                total == self.tokens@.len(),
                idx <= total,
                total <= 0xFFFF_FFFF,
                self.tokens == old(self).tokens,
                spec_validate_from(old(self)@, idx as int) == spec_validate(old(self)@),
            decreases total - idx,
        {
            self.line = (idx as u32) + 1;
            match Self::validate_line(&self.tokens[idx], (idx as u32) + 1) {
                Ok(()) => {},
                Err(e) => {
                    return Err(e);
                },
            }
            idx = idx + 1;
        }
        let mut out: Vec<Vec<Token>> = Vec::new();
        let mut k: usize = 0;
        while k < total
            invariant
                total == self.tokens@.len(),
                k <= total,
                self.tokens == old(self).tokens,
                out.deep_view().len() == k,
                forall|j: int|
                    0 <= j < k ==> out.deep_view()[j] == self.tokens.deep_view()[j],
            decreases total - k,
        {
            let dup = Self::duplicate_line(&self.tokens[k]);
            let ghost prev = out@;
            let ghost prev_dv = out.deep_view();
            out.push(dup);
            proof {
                assert forall|j: int| 0 <= j < k + 1 implies out.deep_view()[j]
                    == self.tokens.deep_view()[j] by {
                    if j < k {
                        assert(out@[j] == prev[j]);
                        assert(out.deep_view()[j] == prev_dv[j]);
                    } else {
                        assert(out@[j] == dup);
                    }
                }
            }
            k = k + 1;
        }
        proof {
            assert(out.deep_view() =~= old(self)@);
        }
        Ok(out)
    }

    /// A copy of one token line with the same values.
    fn duplicate_line(line: &Vec<Token>) -> (r: Vec<Token>)
        ensures
            r.deep_view() == line.deep_view(),
    {
        let mut out: Vec<Token> = Vec::new();
        let mut k: usize = 0;
        while k < line.len()
            invariant
                k <= line@.len(),
                out.deep_view().len() == k,
                forall|j: int| 0 <= j < k ==> out.deep_view()[j] == line.deep_view()[j],
            decreases line@.len() - k,
        {
            let dup = line[k].duplicate();
            let ghost prev = out@;
            let ghost prev_dv = out.deep_view();
            out.push(dup);
            proof {
                assert forall|j: int| 0 <= j < k + 1 implies out.deep_view()[j]
                    == line.deep_view()[j] by {
                    if j < k {
                        assert(out@[j] == prev[j]);
                        assert(out.deep_view()[j] == prev_dv[j]);
                    } else {
                        assert(out@[j] == dup);
                    }
                }
            }
            k = k + 1;
        }
        proof {
            assert(out.deep_view() =~= line.deep_view());
        }
        out
    }

    /// Checks the shape of one line against the opcode table.
    fn validate_line(line: &Vec<Token>, n: u32) -> (r: Result<(), ParserError>)
        ensures
            r == spec_validate_line(line.deep_view(), n),
    {
        if line.len() == 0 {
            return Err(ParserError::expected_instruction(n));
        }
        let start: usize = match &line[0] {
            Token::Label(_) => 1,
            _ => 0,
        };
        if start >= line.len() {
            return Err(ParserError::expected_instruction(n));
        }
        match &line[start] {
            Token::OpCode(name) => Self::handle_opcode(line, start, name, n),
            _ => Err(ParserError::expected_instruction(n)),
        }
    }

    /// Checks the tokens after an opcode name: resolves the mnemonic, takes
    /// the addressing mode from the operand token (or the implied mode from
    /// its absence), and asks the opcode table whether the pair is legal.
    fn handle_opcode(line: &Vec<Token>, opcode_idx: usize, name: &String, n: u32) -> (r: Result<
        (),
        ParserError,
    >)
        requires
            opcode_idx < line@.len(),
        ensures
            r == spec_validate_opcode(
                spec_mnemonic_of(name@),
                if opcode_idx + 1 < line@.len() {
                    Some(line.deep_view()[opcode_idx + 1])
                } else {
                    None
                },
                n,
            ),
    {
        let mnemonic = mnemonic_from_str(name.as_str());
        let len = line.len();
        if opcode_idx + 1 >= len {
            match mnemonic {
                Some(m) => {
                    if lookup_by_mnemonic_and_mode(m, AddressingMode::Implied).is_some() {
                        Ok(())
                    } else if lookup_by_mnemonic_and_mode(
                        m,
                        AddressingMode::Accumulator,
                    ).is_some() {
                        Ok(())
                    } else {
                        Err(ParserError::unexpected_eol(n))
                    }
                },
                None => Err(ParserError::invalid_opcode_addressing_mode_combination(n)),
            }
        } else {
            let mode = line[opcode_idx + 1].to_addressing_mode();
            match mnemonic {
                Some(m) => {
                    if lookup_by_mnemonic_and_mode(m, mode).is_some() {
                        Ok(())
                    } else {
                        Err(ParserError::invalid_opcode_addressing_mode_combination(n))
                    }
                },
                None => Err(ParserError::invalid_opcode_addressing_mode_combination(n)),
            }
        }
    }
}

} // verus!
