use vstd::prelude::*;

verus! {

/// The semantic part of an instruction: what it does to the registers and
/// to the scratch byte `v1`, apart from its bus traffic.
#[derive(Clone, Copy, PartialEq, Eq, Structural, Debug)]
pub enum Op {
    Adc,
    And,
    Asl,
    Bcc,
    Bcs,
    Beq,
    Bit,
    Bmi,
    Bne,
    Bpl,
    Bvc,
    Bvs,
    Clc,
    Cld,
    Cli,
    Clv,
    Cmp,
    Cpx,
    Cpy,
    Dec,
    Dex,
    Dey,
    Eor,
    Inc,
    Inx,
    Iny,
    Lda,
    Ldx,
    Ldy,
    Lsr,
    Nil,
    Nop,
    Ora,
    Pha,
    Php,
    Pla,
    Plp,
    Rol,
    Ror,
    Sbc,
    Sec,
    Sed,
    Sei,
    Sta,
    Stx,
    Sty,
    Tax,
    Tay,
    Tsx,
    Txa,
    Txs,
    Tya,
    Unk,
}

/// The micro-sequencer that carries out an instruction's bus cycles.
#[derive(Clone, Copy, PartialEq, Eq, Structural, Debug)]
pub enum Mode {
    Accumulator,
    Implied,
    Immediate,
    ReadZp,
    ReadZpX,
    ReadZpY,
    ReadAbs,
    ReadAbsX,
    ReadAbsY,
    ReadIndX,
    ReadIndY,
    StoreZp,
    StoreZpX,
    StoreZpY,
    StoreAbs,
    StoreAbsX,
    StoreAbsY,
    StoreIndX,
    StoreIndY,
    RmwZp,
    RmwZpX,
    RmwAbs,
    RmwAbsX,
    Jsr,
    Brk,
    Rti,
    JmpAbs,
    JmpInd,
    Rts,
    Branch,
    Pull,
    Push,
    Illegal,
}

/// The semantic of each opcode byte.
#[verifier::opaque]
pub open spec fn op_of(op: u8) -> Op {
    match op {
        0x00 => Op::Nil, 0x01 => Op::Ora, 0x02 => Op::Unk, 0x03 => Op::Unk, 0x04 => Op::Unk, 0x05 => Op::Ora, 0x06 => Op::Asl, 0x07 => Op::Unk, 0x08 => Op::Php, 0x09 => Op::Ora, 0x0a => Op::Asl, 0x0b => Op::Unk, 0x0c => Op::Unk, 0x0d => Op::Ora, 0x0e => Op::Asl, 0x0f => Op::Unk,
        0x10 => Op::Bpl, 0x11 => Op::Ora, 0x12 => Op::Unk, 0x13 => Op::Unk, 0x14 => Op::Unk, 0x15 => Op::Ora, 0x16 => Op::Asl, 0x17 => Op::Unk, 0x18 => Op::Clc, 0x19 => Op::Ora, 0x1a => Op::Unk, 0x1b => Op::Unk, 0x1c => Op::Unk, 0x1d => Op::Ora, 0x1e => Op::Asl, 0x1f => Op::Unk,
        0x20 => Op::Nil, 0x21 => Op::And, 0x22 => Op::Unk, 0x23 => Op::Unk, 0x24 => Op::Bit, 0x25 => Op::And, 0x26 => Op::Rol, 0x27 => Op::Unk, 0x28 => Op::Plp, 0x29 => Op::And, 0x2a => Op::Rol, 0x2b => Op::Unk, 0x2c => Op::Bit, 0x2d => Op::And, 0x2e => Op::Rol, 0x2f => Op::Unk,
        0x30 => Op::Bmi, 0x31 => Op::And, 0x32 => Op::Unk, 0x33 => Op::Unk, 0x34 => Op::Unk, 0x35 => Op::And, 0x36 => Op::Rol, 0x37 => Op::Unk, 0x38 => Op::Sec, 0x39 => Op::And, 0x3a => Op::Unk, 0x3b => Op::Unk, 0x3c => Op::Unk, 0x3d => Op::And, 0x3e => Op::Rol, 0x3f => Op::Unk,
        0x40 => Op::Nil, 0x41 => Op::Eor, 0x42 => Op::Unk, 0x43 => Op::Unk, 0x44 => Op::Unk, 0x45 => Op::Eor, 0x46 => Op::Lsr, 0x47 => Op::Unk, 0x48 => Op::Pha, 0x49 => Op::Eor, 0x4a => Op::Lsr, 0x4b => Op::Unk, 0x4c => Op::Nil, 0x4d => Op::Eor, 0x4e => Op::Lsr, 0x4f => Op::Unk,
        0x50 => Op::Bvc, 0x51 => Op::Eor, 0x52 => Op::Unk, 0x53 => Op::Unk, 0x54 => Op::Unk, 0x55 => Op::Eor, 0x56 => Op::Lsr, 0x57 => Op::Unk, 0x58 => Op::Cli, 0x59 => Op::Eor, 0x5a => Op::Unk, 0x5b => Op::Unk, 0x5c => Op::Unk, 0x5d => Op::Eor, 0x5e => Op::Lsr, 0x5f => Op::Unk,
        0x60 => Op::Nil, 0x61 => Op::Adc, 0x62 => Op::Unk, 0x63 => Op::Unk, 0x64 => Op::Unk, 0x65 => Op::Adc, 0x66 => Op::Ror, 0x67 => Op::Unk, 0x68 => Op::Pla, 0x69 => Op::Adc, 0x6a => Op::Ror, 0x6b => Op::Unk, 0x6c => Op::Nil, 0x6d => Op::Adc, 0x6e => Op::Ror, 0x6f => Op::Unk,
        0x70 => Op::Bvs, 0x71 => Op::Adc, 0x72 => Op::Unk, 0x73 => Op::Unk, 0x74 => Op::Unk, 0x75 => Op::Adc, 0x76 => Op::Ror, 0x77 => Op::Unk, 0x78 => Op::Sei, 0x79 => Op::Adc, 0x7a => Op::Unk, 0x7b => Op::Unk, 0x7c => Op::Unk, 0x7d => Op::Adc, 0x7e => Op::Ror, 0x7f => Op::Unk,
        0x80 => Op::Unk, 0x81 => Op::Sta, 0x82 => Op::Unk, 0x83 => Op::Unk, 0x84 => Op::Sty, 0x85 => Op::Sta, 0x86 => Op::Stx, 0x87 => Op::Unk, 0x88 => Op::Dey, 0x89 => Op::Unk, 0x8a => Op::Txa, 0x8b => Op::Unk, 0x8c => Op::Sty, 0x8d => Op::Sta, 0x8e => Op::Stx, 0x8f => Op::Unk,
        0x90 => Op::Bcc, 0x91 => Op::Sta, 0x92 => Op::Unk, 0x93 => Op::Unk, 0x94 => Op::Sty, 0x95 => Op::Sta, 0x96 => Op::Stx, 0x97 => Op::Unk, 0x98 => Op::Tya, 0x99 => Op::Sta, 0x9a => Op::Txs, 0x9b => Op::Unk, 0x9c => Op::Unk, 0x9d => Op::Sta, 0x9e => Op::Unk, 0x9f => Op::Unk,
        0xa0 => Op::Ldy, 0xa1 => Op::Lda, 0xa2 => Op::Ldx, 0xa3 => Op::Unk, 0xa4 => Op::Ldy, 0xa5 => Op::Lda, 0xa6 => Op::Ldx, 0xa7 => Op::Unk, 0xa8 => Op::Tay, 0xa9 => Op::Lda, 0xaa => Op::Tax, 0xab => Op::Unk, 0xac => Op::Ldy, 0xad => Op::Lda, 0xae => Op::Ldx, 0xaf => Op::Unk,
        0xb0 => Op::Bcs, 0xb1 => Op::Lda, 0xb2 => Op::Unk, 0xb3 => Op::Unk, 0xb4 => Op::Ldy, 0xb5 => Op::Lda, 0xb6 => Op::Ldx, 0xb7 => Op::Unk, 0xb8 => Op::Clv, 0xb9 => Op::Lda, 0xba => Op::Tsx, 0xbb => Op::Unk, 0xbc => Op::Ldy, 0xbd => Op::Lda, 0xbe => Op::Ldx, 0xbf => Op::Unk,
        0xc0 => Op::Cpy, 0xc1 => Op::Cmp, 0xc2 => Op::Unk, 0xc3 => Op::Unk, 0xc4 => Op::Cpy, 0xc5 => Op::Cmp, 0xc6 => Op::Dec, 0xc7 => Op::Unk, 0xc8 => Op::Iny, 0xc9 => Op::Cmp, 0xca => Op::Dex, 0xcb => Op::Unk, 0xcc => Op::Cpy, 0xcd => Op::Cmp, 0xce => Op::Dec, 0xcf => Op::Unk,
        0xd0 => Op::Bne, 0xd1 => Op::Cmp, 0xd2 => Op::Unk, 0xd3 => Op::Unk, 0xd4 => Op::Unk, 0xd5 => Op::Cmp, 0xd6 => Op::Dec, 0xd7 => Op::Unk, 0xd8 => Op::Cld, 0xd9 => Op::Cmp, 0xda => Op::Unk, 0xdb => Op::Unk, 0xdc => Op::Unk, 0xdd => Op::Cmp, 0xde => Op::Dec, 0xdf => Op::Unk,
        0xe0 => Op::Cpx, 0xe1 => Op::Sbc, 0xe2 => Op::Unk, 0xe3 => Op::Unk, 0xe4 => Op::Cpx, 0xe5 => Op::Sbc, 0xe6 => Op::Inc, 0xe7 => Op::Unk, 0xe8 => Op::Inx, 0xe9 => Op::Sbc, 0xea => Op::Nop, 0xeb => Op::Unk, 0xec => Op::Cpx, 0xed => Op::Sbc, 0xee => Op::Inc, 0xef => Op::Unk,
        0xf0 => Op::Beq, 0xf1 => Op::Sbc, 0xf2 => Op::Unk, 0xf3 => Op::Unk, 0xf4 => Op::Unk, 0xf5 => Op::Sbc, 0xf6 => Op::Inc, 0xf7 => Op::Unk, 0xf8 => Op::Sed, 0xf9 => Op::Sbc, 0xfa => Op::Unk, 0xfb => Op::Unk, 0xfc => Op::Unk, 0xfd => Op::Sbc, 0xfe => Op::Inc, 0xff => Op::Unk,
    }
}

/// The sequencer of each opcode byte.
#[verifier::opaque]
pub open spec fn mode_of(op: u8) -> Mode {
    match op {
        0x00 => Mode::Brk, 0x01 => Mode::ReadIndX, 0x02 => Mode::Illegal, 0x03 => Mode::Illegal, 0x04 => Mode::Illegal, 0x05 => Mode::ReadZp, 0x06 => Mode::RmwZp, 0x07 => Mode::Illegal, 0x08 => Mode::Push, 0x09 => Mode::Immediate, 0x0a => Mode::Accumulator, 0x0b => Mode::Illegal, 0x0c => Mode::Illegal, 0x0d => Mode::ReadAbs, 0x0e => Mode::RmwAbs, 0x0f => Mode::Illegal,
        0x10 => Mode::Branch, 0x11 => Mode::ReadIndY, 0x12 => Mode::Illegal, 0x13 => Mode::Illegal, 0x14 => Mode::Illegal, 0x15 => Mode::ReadZpX, 0x16 => Mode::RmwZpX, 0x17 => Mode::Illegal, 0x18 => Mode::Implied, 0x19 => Mode::ReadAbsY, 0x1a => Mode::Illegal, 0x1b => Mode::Illegal, 0x1c => Mode::Illegal, 0x1d => Mode::ReadAbsX, 0x1e => Mode::RmwAbsX, 0x1f => Mode::Illegal,
        0x20 => Mode::Jsr, 0x21 => Mode::ReadIndX, 0x22 => Mode::Illegal, 0x23 => Mode::Illegal, 0x24 => Mode::ReadZp, 0x25 => Mode::ReadZp, 0x26 => Mode::RmwZp, 0x27 => Mode::Illegal, 0x28 => Mode::Pull, 0x29 => Mode::Immediate, 0x2a => Mode::Accumulator, 0x2b => Mode::Illegal, 0x2c => Mode::ReadAbs, 0x2d => Mode::ReadAbs, 0x2e => Mode::RmwAbs, 0x2f => Mode::Illegal,
        0x30 => Mode::Branch, 0x31 => Mode::ReadIndY, 0x32 => Mode::Illegal, 0x33 => Mode::Illegal, 0x34 => Mode::Illegal, 0x35 => Mode::ReadZpX, 0x36 => Mode::RmwZpX, 0x37 => Mode::Illegal, 0x38 => Mode::Implied, 0x39 => Mode::ReadAbsY, 0x3a => Mode::Illegal, 0x3b => Mode::Illegal, 0x3c => Mode::Illegal, 0x3d => Mode::ReadAbsX, 0x3e => Mode::RmwAbsX, 0x3f => Mode::Illegal,
        0x40 => Mode::Rti, 0x41 => Mode::ReadIndX, 0x42 => Mode::Illegal, 0x43 => Mode::Illegal, 0x44 => Mode::Illegal, 0x45 => Mode::ReadZp, 0x46 => Mode::RmwZp, 0x47 => Mode::Illegal, 0x48 => Mode::Push, 0x49 => Mode::Immediate, 0x4a => Mode::Accumulator, 0x4b => Mode::Illegal, 0x4c => Mode::JmpAbs, 0x4d => Mode::ReadAbs, 0x4e => Mode::RmwAbs, 0x4f => Mode::Illegal,
        0x50 => Mode::Branch, 0x51 => Mode::ReadIndY, 0x52 => Mode::Illegal, 0x53 => Mode::Illegal, 0x54 => Mode::Illegal, 0x55 => Mode::ReadZpX, 0x56 => Mode::RmwZpX, 0x57 => Mode::Illegal, 0x58 => Mode::Implied, 0x59 => Mode::ReadAbsY, 0x5a => Mode::Illegal, 0x5b => Mode::Illegal, 0x5c => Mode::Illegal, 0x5d => Mode::ReadAbsX, 0x5e => Mode::RmwAbsX, 0x5f => Mode::Illegal,
        0x60 => Mode::Rts, 0x61 => Mode::ReadIndX, 0x62 => Mode::Illegal, 0x63 => Mode::Illegal, 0x64 => Mode::Illegal, 0x65 => Mode::ReadZp, 0x66 => Mode::RmwZp, 0x67 => Mode::Illegal, 0x68 => Mode::Pull, 0x69 => Mode::Immediate, 0x6a => Mode::Accumulator, 0x6b => Mode::Illegal, 0x6c => Mode::JmpInd, 0x6d => Mode::ReadAbs, 0x6e => Mode::RmwAbs, 0x6f => Mode::Illegal,
        0x70 => Mode::Branch, 0x71 => Mode::ReadIndY, 0x72 => Mode::Illegal, 0x73 => Mode::Illegal, 0x74 => Mode::Illegal, 0x75 => Mode::ReadZpX, 0x76 => Mode::RmwZpX, 0x77 => Mode::Illegal, 0x78 => Mode::Implied, 0x79 => Mode::ReadAbsY, 0x7a => Mode::Illegal, 0x7b => Mode::Illegal, 0x7c => Mode::Illegal, 0x7d => Mode::ReadAbsX, 0x7e => Mode::RmwAbsX, 0x7f => Mode::Illegal,
        0x80 => Mode::Illegal, 0x81 => Mode::StoreIndX, 0x82 => Mode::Illegal, 0x83 => Mode::Illegal, 0x84 => Mode::StoreZp, 0x85 => Mode::StoreZp, 0x86 => Mode::StoreZp, 0x87 => Mode::Illegal, 0x88 => Mode::Implied, 0x89 => Mode::Illegal, 0x8a => Mode::Implied, 0x8b => Mode::Illegal, 0x8c => Mode::StoreAbs, 0x8d => Mode::StoreAbs, 0x8e => Mode::StoreAbs, 0x8f => Mode::Illegal,
        0x90 => Mode::Branch, 0x91 => Mode::StoreIndY, 0x92 => Mode::Illegal, 0x93 => Mode::Illegal, 0x94 => Mode::StoreZpX, 0x95 => Mode::StoreZpX, 0x96 => Mode::StoreZpY, 0x97 => Mode::Illegal, 0x98 => Mode::Implied, 0x99 => Mode::StoreAbsY, 0x9a => Mode::Implied, 0x9b => Mode::Illegal, 0x9c => Mode::Illegal, 0x9d => Mode::StoreAbsX, 0x9e => Mode::Illegal, 0x9f => Mode::Illegal,
        0xa0 => Mode::Immediate, 0xa1 => Mode::ReadIndX, 0xa2 => Mode::Immediate, 0xa3 => Mode::Illegal, 0xa4 => Mode::ReadZp, 0xa5 => Mode::ReadZp, 0xa6 => Mode::ReadZp, 0xa7 => Mode::Illegal, 0xa8 => Mode::Implied, 0xa9 => Mode::Immediate, 0xaa => Mode::Implied, 0xab => Mode::Illegal, 0xac => Mode::ReadAbs, 0xad => Mode::ReadAbs, 0xae => Mode::ReadAbs, 0xaf => Mode::Illegal,
        0xb0 => Mode::Branch, 0xb1 => Mode::ReadIndY, 0xb2 => Mode::Illegal, 0xb3 => Mode::Illegal, 0xb4 => Mode::ReadZpX, 0xb5 => Mode::ReadZpX, 0xb6 => Mode::ReadZpY, 0xb7 => Mode::Illegal, 0xb8 => Mode::Implied, 0xb9 => Mode::ReadAbsY, 0xba => Mode::Implied, 0xbb => Mode::Illegal, 0xbc => Mode::ReadAbsX, 0xbd => Mode::ReadAbsX, 0xbe => Mode::ReadAbsY, 0xbf => Mode::Illegal,
        0xc0 => Mode::Immediate, 0xc1 => Mode::ReadIndX, 0xc2 => Mode::Illegal, 0xc3 => Mode::Illegal, 0xc4 => Mode::ReadZp, 0xc5 => Mode::ReadZp, 0xc6 => Mode::RmwZp, 0xc7 => Mode::Illegal, 0xc8 => Mode::Implied, 0xc9 => Mode::Immediate, 0xca => Mode::Implied, 0xcb => Mode::Illegal, 0xcc => Mode::ReadAbs, 0xcd => Mode::ReadAbs, 0xce => Mode::RmwAbs, 0xcf => Mode::Illegal,
        0xd0 => Mode::Branch, 0xd1 => Mode::ReadIndY, 0xd2 => Mode::Illegal, 0xd3 => Mode::Illegal, 0xd4 => Mode::Illegal, 0xd5 => Mode::ReadZpX, 0xd6 => Mode::RmwZpX, 0xd7 => Mode::Illegal, 0xd8 => Mode::Implied, 0xd9 => Mode::ReadAbsY, 0xda => Mode::Illegal, 0xdb => Mode::Illegal, 0xdc => Mode::Illegal, 0xdd => Mode::ReadAbsX, 0xde => Mode::RmwAbsX, 0xdf => Mode::Illegal,
        0xe0 => Mode::Immediate, 0xe1 => Mode::ReadIndX, 0xe2 => Mode::Illegal, 0xe3 => Mode::Illegal, 0xe4 => Mode::ReadZp, 0xe5 => Mode::ReadZp, 0xe6 => Mode::RmwZp, 0xe7 => Mode::Illegal, 0xe8 => Mode::Implied, 0xe9 => Mode::Immediate, 0xea => Mode::Implied, 0xeb => Mode::Illegal, 0xec => Mode::ReadAbs, 0xed => Mode::ReadAbs, 0xee => Mode::RmwAbs, 0xef => Mode::Illegal,
        0xf0 => Mode::Branch, 0xf1 => Mode::ReadIndY, 0xf2 => Mode::Illegal, 0xf3 => Mode::Illegal, 0xf4 => Mode::Illegal, 0xf5 => Mode::ReadZpX, 0xf6 => Mode::RmwZpX, 0xf7 => Mode::Illegal, 0xf8 => Mode::Implied, 0xf9 => Mode::ReadAbsY, 0xfa => Mode::Illegal, 0xfb => Mode::Illegal, 0xfc => Mode::Illegal, 0xfd => Mode::ReadAbsX, 0xfe => Mode::RmwAbsX, 0xff => Mode::Illegal,
    }
}

/// Looks up the semantic of an opcode byte.
pub fn decode_op(op: u8) -> (r: Op)
    ensures
        r == op_of(op),
{
    proof {
        reveal(op_of);
    }
    match op {
        0x00 => Op::Nil, 0x01 => Op::Ora, 0x02 => Op::Unk, 0x03 => Op::Unk, 0x04 => Op::Unk, 0x05 => Op::Ora, 0x06 => Op::Asl, 0x07 => Op::Unk, 0x08 => Op::Php, 0x09 => Op::Ora, 0x0a => Op::Asl, 0x0b => Op::Unk, 0x0c => Op::Unk, 0x0d => Op::Ora, 0x0e => Op::Asl, 0x0f => Op::Unk,
        0x10 => Op::Bpl, 0x11 => Op::Ora, 0x12 => Op::Unk, 0x13 => Op::Unk, 0x14 => Op::Unk, 0x15 => Op::Ora, 0x16 => Op::Asl, 0x17 => Op::Unk, 0x18 => Op::Clc, 0x19 => Op::Ora, 0x1a => Op::Unk, 0x1b => Op::Unk, 0x1c => Op::Unk, 0x1d => Op::Ora, 0x1e => Op::Asl, 0x1f => Op::Unk,
        0x20 => Op::Nil, 0x21 => Op::And, 0x22 => Op::Unk, 0x23 => Op::Unk, 0x24 => Op::Bit, 0x25 => Op::And, 0x26 => Op::Rol, 0x27 => Op::Unk, 0x28 => Op::Plp, 0x29 => Op::And, 0x2a => Op::Rol, 0x2b => Op::Unk, 0x2c => Op::Bit, 0x2d => Op::And, 0x2e => Op::Rol, 0x2f => Op::Unk,
        0x30 => Op::Bmi, 0x31 => Op::And, 0x32 => Op::Unk, 0x33 => Op::Unk, 0x34 => Op::Unk, 0x35 => Op::And, 0x36 => Op::Rol, 0x37 => Op::Unk, 0x38 => Op::Sec, 0x39 => Op::And, 0x3a => Op::Unk, 0x3b => Op::Unk, 0x3c => Op::Unk, 0x3d => Op::And, 0x3e => Op::Rol, 0x3f => Op::Unk,
        0x40 => Op::Nil, 0x41 => Op::Eor, 0x42 => Op::Unk, 0x43 => Op::Unk, 0x44 => Op::Unk, 0x45 => Op::Eor, 0x46 => Op::Lsr, 0x47 => Op::Unk, 0x48 => Op::Pha, 0x49 => Op::Eor, 0x4a => Op::Lsr, 0x4b => Op::Unk, 0x4c => Op::Nil, 0x4d => Op::Eor, 0x4e => Op::Lsr, 0x4f => Op::Unk,
        0x50 => Op::Bvc, 0x51 => Op::Eor, 0x52 => Op::Unk, 0x53 => Op::Unk, 0x54 => Op::Unk, 0x55 => Op::Eor, 0x56 => Op::Lsr, 0x57 => Op::Unk, 0x58 => Op::Cli, 0x59 => Op::Eor, 0x5a => Op::Unk, 0x5b => Op::Unk, 0x5c => Op::Unk, 0x5d => Op::Eor, 0x5e => Op::Lsr, 0x5f => Op::Unk,
        0x60 => Op::Nil, 0x61 => Op::Adc, 0x62 => Op::Unk, 0x63 => Op::Unk, 0x64 => Op::Unk, 0x65 => Op::Adc, 0x66 => Op::Ror, 0x67 => Op::Unk, 0x68 => Op::Pla, 0x69 => Op::Adc, 0x6a => Op::Ror, 0x6b => Op::Unk, 0x6c => Op::Nil, 0x6d => Op::Adc, 0x6e => Op::Ror, 0x6f => Op::Unk,
        0x70 => Op::Bvs, 0x71 => Op::Adc, 0x72 => Op::Unk, 0x73 => Op::Unk, 0x74 => Op::Unk, 0x75 => Op::Adc, 0x76 => Op::Ror, 0x77 => Op::Unk, 0x78 => Op::Sei, 0x79 => Op::Adc, 0x7a => Op::Unk, 0x7b => Op::Unk, 0x7c => Op::Unk, 0x7d => Op::Adc, 0x7e => Op::Ror, 0x7f => Op::Unk,
        0x80 => Op::Unk, 0x81 => Op::Sta, 0x82 => Op::Unk, 0x83 => Op::Unk, 0x84 => Op::Sty, 0x85 => Op::Sta, 0x86 => Op::Stx, 0x87 => Op::Unk, 0x88 => Op::Dey, 0x89 => Op::Unk, 0x8a => Op::Txa, 0x8b => Op::Unk, 0x8c => Op::Sty, 0x8d => Op::Sta, 0x8e => Op::Stx, 0x8f => Op::Unk,
        0x90 => Op::Bcc, 0x91 => Op::Sta, 0x92 => Op::Unk, 0x93 => Op::Unk, 0x94 => Op::Sty, 0x95 => Op::Sta, 0x96 => Op::Stx, 0x97 => Op::Unk, 0x98 => Op::Tya, 0x99 => Op::Sta, 0x9a => Op::Txs, 0x9b => Op::Unk, 0x9c => Op::Unk, 0x9d => Op::Sta, 0x9e => Op::Unk, 0x9f => Op::Unk,
        0xa0 => Op::Ldy, 0xa1 => Op::Lda, 0xa2 => Op::Ldx, 0xa3 => Op::Unk, 0xa4 => Op::Ldy, 0xa5 => Op::Lda, 0xa6 => Op::Ldx, 0xa7 => Op::Unk, 0xa8 => Op::Tay, 0xa9 => Op::Lda, 0xaa => Op::Tax, 0xab => Op::Unk, 0xac => Op::Ldy, 0xad => Op::Lda, 0xae => Op::Ldx, 0xaf => Op::Unk,
        0xb0 => Op::Bcs, 0xb1 => Op::Lda, 0xb2 => Op::Unk, 0xb3 => Op::Unk, 0xb4 => Op::Ldy, 0xb5 => Op::Lda, 0xb6 => Op::Ldx, 0xb7 => Op::Unk, 0xb8 => Op::Clv, 0xb9 => Op::Lda, 0xba => Op::Tsx, 0xbb => Op::Unk, 0xbc => Op::Ldy, 0xbd => Op::Lda, 0xbe => Op::Ldx, 0xbf => Op::Unk,
        0xc0 => Op::Cpy, 0xc1 => Op::Cmp, 0xc2 => Op::Unk, 0xc3 => Op::Unk, 0xc4 => Op::Cpy, 0xc5 => Op::Cmp, 0xc6 => Op::Dec, 0xc7 => Op::Unk, 0xc8 => Op::Iny, 0xc9 => Op::Cmp, 0xca => Op::Dex, 0xcb => Op::Unk, 0xcc => Op::Cpy, 0xcd => Op::Cmp, 0xce => Op::Dec, 0xcf => Op::Unk,
        0xd0 => Op::Bne, 0xd1 => Op::Cmp, 0xd2 => Op::Unk, 0xd3 => Op::Unk, 0xd4 => Op::Unk, 0xd5 => Op::Cmp, 0xd6 => Op::Dec, 0xd7 => Op::Unk, 0xd8 => Op::Cld, 0xd9 => Op::Cmp, 0xda => Op::Unk, 0xdb => Op::Unk, 0xdc => Op::Unk, 0xdd => Op::Cmp, 0xde => Op::Dec, 0xdf => Op::Unk,
        0xe0 => Op::Cpx, 0xe1 => Op::Sbc, 0xe2 => Op::Unk, 0xe3 => Op::Unk, 0xe4 => Op::Cpx, 0xe5 => Op::Sbc, 0xe6 => Op::Inc, 0xe7 => Op::Unk, 0xe8 => Op::Inx, 0xe9 => Op::Sbc, 0xea => Op::Nop, 0xeb => Op::Unk, 0xec => Op::Cpx, 0xed => Op::Sbc, 0xee => Op::Inc, 0xef => Op::Unk,
        0xf0 => Op::Beq, 0xf1 => Op::Sbc, 0xf2 => Op::Unk, 0xf3 => Op::Unk, 0xf4 => Op::Unk, 0xf5 => Op::Sbc, 0xf6 => Op::Inc, 0xf7 => Op::Unk, 0xf8 => Op::Sed, 0xf9 => Op::Sbc, 0xfa => Op::Unk, 0xfb => Op::Unk, 0xfc => Op::Unk, 0xfd => Op::Sbc, 0xfe => Op::Inc, 0xff => Op::Unk,
    }
}

/// Looks up the sequencer of an opcode byte.
pub fn decode_addr_mode(op: u8) -> (r: Mode)
    ensures
        r == mode_of(op),
{
    proof {
        reveal(mode_of);
    }
    match op {
        0x00 => Mode::Brk, 0x01 => Mode::ReadIndX, 0x02 => Mode::Illegal, 0x03 => Mode::Illegal, 0x04 => Mode::Illegal, 0x05 => Mode::ReadZp, 0x06 => Mode::RmwZp, 0x07 => Mode::Illegal, 0x08 => Mode::Push, 0x09 => Mode::Immediate, 0x0a => Mode::Accumulator, 0x0b => Mode::Illegal, 0x0c => Mode::Illegal, 0x0d => Mode::ReadAbs, 0x0e => Mode::RmwAbs, 0x0f => Mode::Illegal,
        0x10 => Mode::Branch, 0x11 => Mode::ReadIndY, 0x12 => Mode::Illegal, 0x13 => Mode::Illegal, 0x14 => Mode::Illegal, 0x15 => Mode::ReadZpX, 0x16 => Mode::RmwZpX, 0x17 => Mode::Illegal, 0x18 => Mode::Implied, 0x19 => Mode::ReadAbsY, 0x1a => Mode::Illegal, 0x1b => Mode::Illegal, 0x1c => Mode::Illegal, 0x1d => Mode::ReadAbsX, 0x1e => Mode::RmwAbsX, 0x1f => Mode::Illegal,
        0x20 => Mode::Jsr, 0x21 => Mode::ReadIndX, 0x22 => Mode::Illegal, 0x23 => Mode::Illegal, 0x24 => Mode::ReadZp, 0x25 => Mode::ReadZp, 0x26 => Mode::RmwZp, 0x27 => Mode::Illegal, 0x28 => Mode::Pull, 0x29 => Mode::Immediate, 0x2a => Mode::Accumulator, 0x2b => Mode::Illegal, 0x2c => Mode::ReadAbs, 0x2d => Mode::ReadAbs, 0x2e => Mode::RmwAbs, 0x2f => Mode::Illegal,
        0x30 => Mode::Branch, 0x31 => Mode::ReadIndY, 0x32 => Mode::Illegal, 0x33 => Mode::Illegal, 0x34 => Mode::Illegal, 0x35 => Mode::ReadZpX, 0x36 => Mode::RmwZpX, 0x37 => Mode::Illegal, 0x38 => Mode::Implied, 0x39 => Mode::ReadAbsY, 0x3a => Mode::Illegal, 0x3b => Mode::Illegal, 0x3c => Mode::Illegal, 0x3d => Mode::ReadAbsX, 0x3e => Mode::RmwAbsX, 0x3f => Mode::Illegal,
        0x40 => Mode::Rti, 0x41 => Mode::ReadIndX, 0x42 => Mode::Illegal, 0x43 => Mode::Illegal, 0x44 => Mode::Illegal, 0x45 => Mode::ReadZp, 0x46 => Mode::RmwZp, 0x47 => Mode::Illegal, 0x48 => Mode::Push, 0x49 => Mode::Immediate, 0x4a => Mode::Accumulator, 0x4b => Mode::Illegal, 0x4c => Mode::JmpAbs, 0x4d => Mode::ReadAbs, 0x4e => Mode::RmwAbs, 0x4f => Mode::Illegal,
        0x50 => Mode::Branch, 0x51 => Mode::ReadIndY, 0x52 => Mode::Illegal, 0x53 => Mode::Illegal, 0x54 => Mode::Illegal, 0x55 => Mode::ReadZpX, 0x56 => Mode::RmwZpX, 0x57 => Mode::Illegal, 0x58 => Mode::Implied, 0x59 => Mode::ReadAbsY, 0x5a => Mode::Illegal, 0x5b => Mode::Illegal, 0x5c => Mode::Illegal, 0x5d => Mode::ReadAbsX, 0x5e => Mode::RmwAbsX, 0x5f => Mode::Illegal,
        0x60 => Mode::Rts, 0x61 => Mode::ReadIndX, 0x62 => Mode::Illegal, 0x63 => Mode::Illegal, 0x64 => Mode::Illegal, 0x65 => Mode::ReadZp, 0x66 => Mode::RmwZp, 0x67 => Mode::Illegal, 0x68 => Mode::Pull, 0x69 => Mode::Immediate, 0x6a => Mode::Accumulator, 0x6b => Mode::Illegal, 0x6c => Mode::JmpInd, 0x6d => Mode::ReadAbs, 0x6e => Mode::RmwAbs, 0x6f => Mode::Illegal,
        0x70 => Mode::Branch, 0x71 => Mode::ReadIndY, 0x72 => Mode::Illegal, 0x73 => Mode::Illegal, 0x74 => Mode::Illegal, 0x75 => Mode::ReadZpX, 0x76 => Mode::RmwZpX, 0x77 => Mode::Illegal, 0x78 => Mode::Implied, 0x79 => Mode::ReadAbsY, 0x7a => Mode::Illegal, 0x7b => Mode::Illegal, 0x7c => Mode::Illegal, 0x7d => Mode::ReadAbsX, 0x7e => Mode::RmwAbsX, 0x7f => Mode::Illegal,
        0x80 => Mode::Illegal, 0x81 => Mode::StoreIndX, 0x82 => Mode::Illegal, 0x83 => Mode::Illegal, 0x84 => Mode::StoreZp, 0x85 => Mode::StoreZp, 0x86 => Mode::StoreZp, 0x87 => Mode::Illegal, 0x88 => Mode::Implied, 0x89 => Mode::Illegal, 0x8a => Mode::Implied, 0x8b => Mode::Illegal, 0x8c => Mode::StoreAbs, 0x8d => Mode::StoreAbs, 0x8e => Mode::StoreAbs, 0x8f => Mode::Illegal,
        0x90 => Mode::Branch, 0x91 => Mode::StoreIndY, 0x92 => Mode::Illegal, 0x93 => Mode::Illegal, 0x94 => Mode::StoreZpX, 0x95 => Mode::StoreZpX, 0x96 => Mode::StoreZpY, 0x97 => Mode::Illegal, 0x98 => Mode::Implied, 0x99 => Mode::StoreAbsY, 0x9a => Mode::Implied, 0x9b => Mode::Illegal, 0x9c => Mode::Illegal, 0x9d => Mode::StoreAbsX, 0x9e => Mode::Illegal, 0x9f => Mode::Illegal,
        0xa0 => Mode::Immediate, 0xa1 => Mode::ReadIndX, 0xa2 => Mode::Immediate, 0xa3 => Mode::Illegal, 0xa4 => Mode::ReadZp, 0xa5 => Mode::ReadZp, 0xa6 => Mode::ReadZp, 0xa7 => Mode::Illegal, 0xa8 => Mode::Implied, 0xa9 => Mode::Immediate, 0xaa => Mode::Implied, 0xab => Mode::Illegal, 0xac => Mode::ReadAbs, 0xad => Mode::ReadAbs, 0xae => Mode::ReadAbs, 0xaf => Mode::Illegal,
        0xb0 => Mode::Branch, 0xb1 => Mode::ReadIndY, 0xb2 => Mode::Illegal, 0xb3 => Mode::Illegal, 0xb4 => Mode::ReadZpX, 0xb5 => Mode::ReadZpX, 0xb6 => Mode::ReadZpY, 0xb7 => Mode::Illegal, 0xb8 => Mode::Implied, 0xb9 => Mode::ReadAbsY, 0xba => Mode::Implied, 0xbb => Mode::Illegal, 0xbc => Mode::ReadAbsX, 0xbd => Mode::ReadAbsX, 0xbe => Mode::ReadAbsY, 0xbf => Mode::Illegal,
        0xc0 => Mode::Immediate, 0xc1 => Mode::ReadIndX, 0xc2 => Mode::Illegal, 0xc3 => Mode::Illegal, 0xc4 => Mode::ReadZp, 0xc5 => Mode::ReadZp, 0xc6 => Mode::RmwZp, 0xc7 => Mode::Illegal, 0xc8 => Mode::Implied, 0xc9 => Mode::Immediate, 0xca => Mode::Implied, 0xcb => Mode::Illegal, 0xcc => Mode::ReadAbs, 0xcd => Mode::ReadAbs, 0xce => Mode::RmwAbs, 0xcf => Mode::Illegal,
        0xd0 => Mode::Branch, 0xd1 => Mode::ReadIndY, 0xd2 => Mode::Illegal, 0xd3 => Mode::Illegal, 0xd4 => Mode::Illegal, 0xd5 => Mode::ReadZpX, 0xd6 => Mode::RmwZpX, 0xd7 => Mode::Illegal, 0xd8 => Mode::Implied, 0xd9 => Mode::ReadAbsY, 0xda => Mode::Illegal, 0xdb => Mode::Illegal, 0xdc => Mode::Illegal, 0xdd => Mode::ReadAbsX, 0xde => Mode::RmwAbsX, 0xdf => Mode::Illegal,
        0xe0 => Mode::Immediate, 0xe1 => Mode::ReadIndX, 0xe2 => Mode::Illegal, 0xe3 => Mode::Illegal, 0xe4 => Mode::ReadZp, 0xe5 => Mode::ReadZp, 0xe6 => Mode::RmwZp, 0xe7 => Mode::Illegal, 0xe8 => Mode::Implied, 0xe9 => Mode::Immediate, 0xea => Mode::Implied, 0xeb => Mode::Illegal, 0xec => Mode::ReadAbs, 0xed => Mode::ReadAbs, 0xee => Mode::RmwAbs, 0xef => Mode::Illegal,
        0xf0 => Mode::Branch, 0xf1 => Mode::ReadIndY, 0xf2 => Mode::Illegal, 0xf3 => Mode::Illegal, 0xf4 => Mode::Illegal, 0xf5 => Mode::ReadZpX, 0xf6 => Mode::RmwZpX, 0xf7 => Mode::Illegal, 0xf8 => Mode::Implied, 0xf9 => Mode::ReadAbsY, 0xfa => Mode::Illegal, 0xfb => Mode::Illegal, 0xfc => Mode::Illegal, 0xfd => Mode::ReadAbsX, 0xfe => Mode::RmwAbsX, 0xff => Mode::Illegal,
    }
}

} // verus!
