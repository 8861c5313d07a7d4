//! A forward-only cursor over a borrowed byte buffer, with one read
//! operation per Dalvik instruction format.
//!
//! Every read either returns a fully populated result and advances the
//! cursor by exactly the byte count its format requires, or fails with
//! `UnexpectedEndOfStream` and leaves the cursor where it was.
//!
//! Multi-byte fields are assembled most-significant byte first; signed
//! fields reinterpret the raw bit pattern as two's complement at the
//! declared width, so a 4-bit literal is sign-extended from bit 3.

use vstd::prelude::*;

use crate::errors::DecodeError;

verus! {

/// The low nibble of a byte.
pub open spec fn nib_low(b: u8) -> u8 {
    (b % 16) as u8
}

/// The high nibble of a byte, shifted down into the low four bits.
pub open spec fn nib_high(b: u8) -> u8 {
    (b / 16) as u8
}

/// A nibble reinterpreted as a signed 4-bit value (two's complement).
pub open spec fn sign4(n: u8) -> i8
    recommends
        n < 16,
{
    if n < 8 {
        n as i8
    } else {
        (n - 16) as i8
    }
}

/// A byte reinterpreted as a signed 8-bit value (two's complement).
pub open spec fn sign8(b: u8) -> i8 {
    if b < 128 {
        b as i8
    } else {
        (b - 256) as i8
    }
}

/// A 16-bit unit reinterpreted as a signed value (two's complement).
pub open spec fn sign16(w: u16) -> i16 {
    if w < 0x8000 {
        w as i16
    } else {
        (w - 0x10000) as i16
    }
}

/// A 32-bit unit reinterpreted as a signed value (two's complement).
pub open spec fn sign32(w: u32) -> i32 {
    if w < 0x8000_0000 {
        w as i32
    } else {
        (w - 0x1_0000_0000) as i32
    }
}

/// The 16-bit unit whose first (most significant) byte sits at `i`.
pub open spec fn unit16(s: Seq<u8>, i: int) -> u16
    recommends
        0 <= i,
        i + 2 <= s.len(),
{
    (s[i] * 0x100 + s[i + 1]) as u16
}

/// The 32-bit unit whose first byte sits at `i`, assembled from two
/// 16-bit units, earlier unit in the high position.
pub open spec fn unit32(s: Seq<u8>, i: int) -> u32
    recommends
        0 <= i,
        i + 4 <= s.len(),
{
    (unit16(s, i) * 0x1_0000 + unit16(s, i + 2)) as u32
}

/// The 64-bit unit whose first byte sits at `i`, assembled from two
/// 32-bit units, earlier unit in the high position.
pub open spec fn unit64(s: Seq<u8>, i: int) -> u64
    recommends
        0 <= i,
        i + 8 <= s.len(),
{
    (unit32(s, i) * 0x1_0000_0000 + unit32(s, i + 4)) as u64
}

/// The register list of a 5-register call-site format whose count/G byte
/// sits at `i`: registers C, D, E, F, G in that order, truncated to the
/// declared count (a count above five keeps all five).
pub open spec fn call_site_regs(s: Seq<u8>, i: int) -> Seq<u8>
    recommends
        0 <= i,
        i + 5 <= s.len(),
{
    let count = nib_high(s[i]);
    let g = nib_low(s[i]);
    let c = nib_low(s[i + 3]);
    let d = nib_high(s[i + 3]);
    let e = nib_low(s[i + 4]);
    let f = nib_high(s[i + 4]);
    let all = seq![c, d, e, f, g];
    if count <= 5 {
        all.take(count as int)
    } else {
        all
    }
}

/// A forward-only reader over one method's instruction stream.  Owns the
/// only cursor into the borrowed buffer; the buffer itself is never
/// mutated.
pub struct DexInstructionFormatReader<'a> {
    data: &'a [u8],
    cursor: usize,
}

impl<'a> DexInstructionFormatReader<'a> {
    /// The bytes the reader was constructed over.
    pub closed spec fn stream(self) -> Seq<u8> {
        self.data@
    }

    /// The current read position, as an offset from the start of the
    /// stream.
    pub closed spec fn pos(self) -> int {
        self.cursor as int
    }

    /// The cursor never runs past the end of the stream.
    pub open spec fn wf(self) -> bool {
        0 <= self.pos() <= self.stream().len()
    }

    /// How many bytes remain to be read.
    pub open spec fn remaining(self) -> int {
        self.stream().len() - self.pos()
    }

    pub fn new(stream: &'a [u8]) -> (r: Self)
        ensures
            r.wf(),
            r.stream() == stream@,
            r.pos() == 0,
    {
        Self { data: stream, cursor: 0 }
    }

    /// Reads one byte together with the offset it was found at.
    pub fn read_byte(&mut self) -> (r: Result<(u8, usize), DecodeError>)
        requires
            old(self).wf(),
        ensures
            final(self).wf(),
            final(self).stream() == old(self).stream(),
            old(self).remaining() >= 1 ==> (r matches Ok(v) && v.0 == old(self).stream()[old(
                self,
            ).pos()] && v.1 == old(self).pos() && final(self).pos() == old(self).pos() + 1),
            old(self).remaining() < 1 ==> r == Err::<(u8, usize), DecodeError>(
                DecodeError::UnexpectedEndOfStream,
            ) && final(self).pos() == old(self).pos(),
    {
        let position = self.cursor;
        let value = self.read_u8()?;
        Ok((value, position))
    }

    /// The no-operand format: nothing follows the opcode byte.
    pub fn r_10x(&mut self)
        requires
            old(self).wf(),
        ensures
            *final(self) == *old(self),
    {
    }

    /// One byte packing two 4-bit registers: low nibble first, high
    /// nibble second.
    pub fn r_12x(&mut self) -> (r: Result<(u8, u8), DecodeError>)
        requires
            old(self).wf(),
        ensures
            final(self).wf(),
            final(self).stream() == old(self).stream(),
            old(self).remaining() >= 1 ==> r == Ok::<(u8, u8), DecodeError>(
                (
                    nib_low(old(self).stream()[old(self).pos()]),
                    nib_high(old(self).stream()[old(self).pos()]),
                ),
            ) && final(self).pos() == old(self).pos() + 1,
            old(self).remaining() < 1 ==> r == Err::<(u8, u8), DecodeError>(
                DecodeError::UnexpectedEndOfStream,
            ) && final(self).pos() == old(self).pos(),
    {
        self.get_single_byte_regs()
    }

    /// One byte packing a 4-bit register (low nibble) and a signed 4-bit
    /// literal (high nibble).
    pub fn r_11n(&mut self) -> (r: Result<(u8, i8), DecodeError>)
        requires
            old(self).wf(),
        ensures
            final(self).wf(),
            final(self).stream() == old(self).stream(),
            old(self).remaining() >= 1 ==> r == Ok::<(u8, i8), DecodeError>(
                (
                    nib_low(old(self).stream()[old(self).pos()]),
                    sign4(nib_high(old(self).stream()[old(self).pos()])),
                ),
            ) && final(self).pos() == old(self).pos() + 1,
            old(self).remaining() < 1 ==> r == Err::<(u8, i8), DecodeError>(
                DecodeError::UnexpectedEndOfStream,
            ) && final(self).pos() == old(self).pos(),
    {
        let (reg, value) = self.get_single_byte_regs()?;
        let signed: i8 = if value < 8 {
            value as i8
        } else {
            ((value as i16) - 16) as i8
        };
        Ok((reg, signed))
    }

    /// One plain 8-bit register.
    pub fn r_11x(&mut self) -> (r: Result<u8, DecodeError>)
        requires
            old(self).wf(),
        ensures
            final(self).wf(),
            final(self).stream() == old(self).stream(),
            old(self).remaining() >= 1 ==> r == Ok::<u8, DecodeError>(
                old(self).stream()[old(self).pos()],
            ) && final(self).pos() == old(self).pos() + 1,
            old(self).remaining() < 1 ==> r == Err::<u8, DecodeError>(
                DecodeError::UnexpectedEndOfStream,
            ) && final(self).pos() == old(self).pos(),
    {
        self.read_u8()
    }

    /// One signed 8-bit branch delta.
    pub fn r_10t(&mut self) -> (r: Result<i8, DecodeError>)
        requires
            old(self).wf(),
        ensures
            final(self).wf(),
            final(self).stream() == old(self).stream(),
            old(self).remaining() >= 1 ==> r == Ok::<i8, DecodeError>(
                sign8(old(self).stream()[old(self).pos()]),
            ) && final(self).pos() == old(self).pos() + 1,
            old(self).remaining() < 1 ==> r == Err::<i8, DecodeError>(
                DecodeError::UnexpectedEndOfStream,
            ) && final(self).pos() == old(self).pos(),
    {
        self.read_i8()
    }

    /// A filler byte followed by a signed 16-bit branch delta.
    pub fn r_20t(&mut self) -> (r: Result<i16, DecodeError>)
        requires
            old(self).wf(),
        ensures
            final(self).wf(),
            final(self).stream() == old(self).stream(),
            old(self).remaining() >= 3 ==> r == Ok::<i16, DecodeError>(
                sign16(unit16(old(self).stream(), old(self).pos() + 1)),
            ) && final(self).pos() == old(self).pos() + 3,
            old(self).remaining() < 3 ==> r == Err::<i16, DecodeError>(
                DecodeError::UnexpectedEndOfStream,
            ) && final(self).pos() == old(self).pos(),
    {
        if self.data.len() - self.cursor < 3 {
            return Err(DecodeError::UnexpectedEndOfStream);
        }
        self.read_u8()?;
        self.read_i16()
    }

    /// An 8-bit register followed by a 16-bit register.
    pub fn r_22x(&mut self) -> (r: Result<(u8, u16), DecodeError>)
        requires
            old(self).wf(),
        ensures
            final(self).wf(),
            final(self).stream() == old(self).stream(),
            old(self).remaining() >= 3 ==> r == Ok::<(u8, u16), DecodeError>(
                (
                    old(self).stream()[old(self).pos()],
                    unit16(old(self).stream(), old(self).pos() + 1),
                ),
            ) && final(self).pos() == old(self).pos() + 3,
            old(self).remaining() < 3 ==> r == Err::<(u8, u16), DecodeError>(
                DecodeError::UnexpectedEndOfStream,
            ) && final(self).pos() == old(self).pos(),
    {
        if self.data.len() - self.cursor < 3 {
            return Err(DecodeError::UnexpectedEndOfStream);
        }
        Ok((self.read_u8()?, self.read_u16()?))
    }

    /// An 8-bit register followed by a signed 16-bit branch delta.
    pub fn r_21t(&mut self) -> (r: Result<(u8, i16), DecodeError>)
        requires
            old(self).wf(),
        ensures
            final(self).wf(),
            final(self).stream() == old(self).stream(),
            old(self).remaining() >= 3 ==> r == Ok::<(u8, i16), DecodeError>(
                (
                    old(self).stream()[old(self).pos()],
                    sign16(unit16(old(self).stream(), old(self).pos() + 1)),
                ),
            ) && final(self).pos() == old(self).pos() + 3,
            old(self).remaining() < 3 ==> r == Err::<(u8, i16), DecodeError>(
                DecodeError::UnexpectedEndOfStream,
            ) && final(self).pos() == old(self).pos(),
    {
        if self.data.len() - self.cursor < 3 {
            return Err(DecodeError::UnexpectedEndOfStream);
        }
        Ok((self.read_u8()?, self.read_i16()?))
    }

    /// An 8-bit register followed by a signed 16-bit literal.
    pub fn r_21s(&mut self) -> (r: Result<(u8, i16), DecodeError>)
        requires
            old(self).wf(),
        ensures
            final(self).wf(),
            final(self).stream() == old(self).stream(),
            old(self).remaining() >= 3 ==> r == Ok::<(u8, i16), DecodeError>(
                (
                    old(self).stream()[old(self).pos()],
                    sign16(unit16(old(self).stream(), old(self).pos() + 1)),
                ),
            ) && final(self).pos() == old(self).pos() + 3,
            old(self).remaining() < 3 ==> r == Err::<(u8, i16), DecodeError>(
                DecodeError::UnexpectedEndOfStream,
            ) && final(self).pos() == old(self).pos(),
    {
        self.r_21t()
    }

    /// An 8-bit register followed by a signed 16-bit literal that the
    /// machine places in the high half of the destination.
    pub fn r_21h(&mut self) -> (r: Result<(u8, i16), DecodeError>)
        requires
            old(self).wf(),
        ensures
            final(self).wf(),
            final(self).stream() == old(self).stream(),
            old(self).remaining() >= 3 ==> r == Ok::<(u8, i16), DecodeError>(
                (
                    old(self).stream()[old(self).pos()],
                    sign16(unit16(old(self).stream(), old(self).pos() + 1)),
                ),
            ) && final(self).pos() == old(self).pos() + 3,
            old(self).remaining() < 3 ==> r == Err::<(u8, i16), DecodeError>(
                DecodeError::UnexpectedEndOfStream,
            ) && final(self).pos() == old(self).pos(),
    {
        self.r_21t()
    }

    /// An 8-bit register followed by a 16-bit constant-pool index.
    pub fn r_21c(&mut self) -> (r: Result<(u8, u16), DecodeError>)
        requires
            old(self).wf(),
        ensures
            final(self).wf(),
            final(self).stream() == old(self).stream(),
            old(self).remaining() >= 3 ==> r == Ok::<(u8, u16), DecodeError>(
                (
                    old(self).stream()[old(self).pos()],
                    unit16(old(self).stream(), old(self).pos() + 1),
                ),
            ) && final(self).pos() == old(self).pos() + 3,
            old(self).remaining() < 3 ==> r == Err::<(u8, u16), DecodeError>(
                DecodeError::UnexpectedEndOfStream,
            ) && final(self).pos() == old(self).pos(),
    {
        self.r_22x()
    }

    /// Three plain 8-bit registers.
    pub fn r_23x(&mut self) -> (r: Result<(u8, u8, u8), DecodeError>)
        requires
            old(self).wf(),
        ensures
            final(self).wf(),
            final(self).stream() == old(self).stream(),
            old(self).remaining() >= 3 ==> r == Ok::<(u8, u8, u8), DecodeError>(
                (
                    old(self).stream()[old(self).pos()],
                    old(self).stream()[old(self).pos() + 1],
                    old(self).stream()[old(self).pos() + 2],
                ),
            ) && final(self).pos() == old(self).pos() + 3,
            old(self).remaining() < 3 ==> r == Err::<(u8, u8, u8), DecodeError>(
                DecodeError::UnexpectedEndOfStream,
            ) && final(self).pos() == old(self).pos(),
    {
        if self.data.len() - self.cursor < 3 {
            return Err(DecodeError::UnexpectedEndOfStream);
        }
        Ok((self.read_u8()?, self.read_u8()?, self.read_u8()?))
    }

    /// Two 8-bit registers followed by a signed 8-bit literal.
    pub fn r_22b(&mut self) -> (r: Result<(u8, u8, i8), DecodeError>)
        requires
            old(self).wf(),
        ensures
            final(self).wf(),
            final(self).stream() == old(self).stream(),
            old(self).remaining() >= 3 ==> r == Ok::<(u8, u8, i8), DecodeError>(
                (
                    old(self).stream()[old(self).pos()],
                    old(self).stream()[old(self).pos() + 1],
                    sign8(old(self).stream()[old(self).pos() + 2]),
                ),
            ) && final(self).pos() == old(self).pos() + 3,
            old(self).remaining() < 3 ==> r == Err::<(u8, u8, i8), DecodeError>(
                DecodeError::UnexpectedEndOfStream,
            ) && final(self).pos() == old(self).pos(),
    {
        if self.data.len() - self.cursor < 3 {
            return Err(DecodeError::UnexpectedEndOfStream);
        }
        Ok((self.read_u8()?, self.read_u8()?, self.read_i8()?))
    }

    /// A packed register pair followed by a signed 16-bit branch delta.
    pub fn r_22t(&mut self) -> (r: Result<(u8, u8, i16), DecodeError>)
        requires
            old(self).wf(),
        ensures
            final(self).wf(),
            final(self).stream() == old(self).stream(),
            old(self).remaining() >= 3 ==> r == Ok::<(u8, u8, i16), DecodeError>(
                (
                    nib_low(old(self).stream()[old(self).pos()]),
                    nib_high(old(self).stream()[old(self).pos()]),
                    sign16(unit16(old(self).stream(), old(self).pos() + 1)),
                ),
            ) && final(self).pos() == old(self).pos() + 3,
            old(self).remaining() < 3 ==> r == Err::<(u8, u8, i16), DecodeError>(
                DecodeError::UnexpectedEndOfStream,
            ) && final(self).pos() == old(self).pos(),
    {
        if self.data.len() - self.cursor < 3 {
            return Err(DecodeError::UnexpectedEndOfStream);
        }
        let (va, vb) = self.get_single_byte_regs()?;
        Ok((va, vb, self.read_i16()?))
    }

    /// A packed register pair followed by a signed 16-bit literal.
    pub fn r_22s(&mut self) -> (r: Result<(u8, u8, i16), DecodeError>)
        requires
            old(self).wf(),
        ensures
            final(self).wf(),
            final(self).stream() == old(self).stream(),
            old(self).remaining() >= 3 ==> r == Ok::<(u8, u8, i16), DecodeError>(
                (
                    nib_low(old(self).stream()[old(self).pos()]),
                    nib_high(old(self).stream()[old(self).pos()]),
                    sign16(unit16(old(self).stream(), old(self).pos() + 1)),
                ),
            ) && final(self).pos() == old(self).pos() + 3,
            old(self).remaining() < 3 ==> r == Err::<(u8, u8, i16), DecodeError>(
                DecodeError::UnexpectedEndOfStream,
            ) && final(self).pos() == old(self).pos(),
    {
        self.r_22t()
    }

    /// A packed register pair followed by a 16-bit pool index.
    pub fn r_22c(&mut self) -> (r: Result<(u8, u8, u16), DecodeError>)
        requires
            old(self).wf(),
        ensures
            final(self).wf(),
            final(self).stream() == old(self).stream(),
            old(self).remaining() >= 3 ==> r == Ok::<(u8, u8, u16), DecodeError>(
                (
                    nib_low(old(self).stream()[old(self).pos()]),
                    nib_high(old(self).stream()[old(self).pos()]),
                    unit16(old(self).stream(), old(self).pos() + 1),
                ),
            ) && final(self).pos() == old(self).pos() + 3,
            old(self).remaining() < 3 ==> r == Err::<(u8, u8, u16), DecodeError>(
                DecodeError::UnexpectedEndOfStream,
            ) && final(self).pos() == old(self).pos(),
    {
        if self.data.len() - self.cursor < 3 {
            return Err(DecodeError::UnexpectedEndOfStream);
        }
        let (va, vb) = self.get_single_byte_regs()?;
        Ok((va, vb, self.read_u16()?))
    }

    /// A filler byte followed by a signed 32-bit branch delta.
    pub fn r_30t(&mut self) -> (r: Result<i32, DecodeError>)
        requires
            old(self).wf(),
        ensures
            final(self).wf(),
            final(self).stream() == old(self).stream(),
            old(self).remaining() >= 5 ==> r == Ok::<i32, DecodeError>(
                sign32(unit32(old(self).stream(), old(self).pos() + 1)),
            ) && final(self).pos() == old(self).pos() + 5,
            old(self).remaining() < 5 ==> r == Err::<i32, DecodeError>(
                DecodeError::UnexpectedEndOfStream,
            ) && final(self).pos() == old(self).pos(),
    {
        if self.data.len() - self.cursor < 5 {
            return Err(DecodeError::UnexpectedEndOfStream);
        }
        self.read_u8()?;
        self.read_i32()
    }

    /// A filler byte followed by two 16-bit registers.
    pub fn r_32x(&mut self) -> (r: Result<(u16, u16), DecodeError>)
        requires
            old(self).wf(),
        ensures
            final(self).wf(),
            final(self).stream() == old(self).stream(),
            old(self).remaining() >= 5 ==> r == Ok::<(u16, u16), DecodeError>(
                (
                    unit16(old(self).stream(), old(self).pos() + 1),
                    unit16(old(self).stream(), old(self).pos() + 3),
                ),
            ) && final(self).pos() == old(self).pos() + 5,
            old(self).remaining() < 5 ==> r == Err::<(u16, u16), DecodeError>(
                DecodeError::UnexpectedEndOfStream,
            ) && final(self).pos() == old(self).pos(),
    {
        if self.data.len() - self.cursor < 5 {
            return Err(DecodeError::UnexpectedEndOfStream);
        }
        self.read_u8()?;
        Ok((self.read_u16()?, self.read_u16()?))
    }

    /// An 8-bit register followed by a signed 32-bit literal.
    pub fn r_31i(&mut self) -> (r: Result<(u8, i32), DecodeError>)
        requires
            old(self).wf(),
        ensures
            final(self).wf(),
            final(self).stream() == old(self).stream(),
            old(self).remaining() >= 5 ==> r == Ok::<(u8, i32), DecodeError>(
                (
                    old(self).stream()[old(self).pos()],
                    sign32(unit32(old(self).stream(), old(self).pos() + 1)),
                ),
            ) && final(self).pos() == old(self).pos() + 5,
            old(self).remaining() < 5 ==> r == Err::<(u8, i32), DecodeError>(
                DecodeError::UnexpectedEndOfStream,
            ) && final(self).pos() == old(self).pos(),
    {
        if self.data.len() - self.cursor < 5 {
            return Err(DecodeError::UnexpectedEndOfStream);
        }
        Ok((self.read_u8()?, self.read_i32()?))
    }

    /// An 8-bit register followed by a signed 32-bit payload offset.
    pub fn r_31t(&mut self) -> (r: Result<(u8, i32), DecodeError>)
        requires
            old(self).wf(),
        ensures
            final(self).wf(),
            final(self).stream() == old(self).stream(),
            old(self).remaining() >= 5 ==> r == Ok::<(u8, i32), DecodeError>(
                (
                    old(self).stream()[old(self).pos()],
                    sign32(unit32(old(self).stream(), old(self).pos() + 1)),
                ),
            ) && final(self).pos() == old(self).pos() + 5,
            old(self).remaining() < 5 ==> r == Err::<(u8, i32), DecodeError>(
                DecodeError::UnexpectedEndOfStream,
            ) && final(self).pos() == old(self).pos(),
    {
        self.r_31i()
    }

    /// An 8-bit register followed by a 32-bit jumbo pool index.
    pub fn r_31c(&mut self) -> (r: Result<(u8, u32), DecodeError>)
        requires
            old(self).wf(),
        ensures
            final(self).wf(),
            final(self).stream() == old(self).stream(),
            old(self).remaining() >= 5 ==> r == Ok::<(u8, u32), DecodeError>(
                (
                    old(self).stream()[old(self).pos()],
                    unit32(old(self).stream(), old(self).pos() + 1),
                ),
            ) && final(self).pos() == old(self).pos() + 5,
            old(self).remaining() < 5 ==> r == Err::<(u8, u32), DecodeError>(
                DecodeError::UnexpectedEndOfStream,
            ) && final(self).pos() == old(self).pos(),
    {
        if self.data.len() - self.cursor < 5 {
            return Err(DecodeError::UnexpectedEndOfStream);
        }
        Ok((self.read_u8()?, self.read_u32()?))
    }

    /// The 5-register call-site format: a count/G nibble pair, a 16-bit
    /// pool index, then the C/D and E/F nibble pairs.  The register list
    /// comes back in the order C, D, E, F, G, truncated to the declared
    /// count.
    pub fn r_35c(&mut self) -> (r: Result<(Vec<u8>, u16), DecodeError>)
        requires
            old(self).wf(),
        ensures
            final(self).wf(),
            final(self).stream() == old(self).stream(),
            old(self).remaining() >= 5 ==> (r matches Ok(v) && v.0@ == call_site_regs(
                old(self).stream(),
                old(self).pos(),
            ) && v.1 == unit16(old(self).stream(), old(self).pos() + 1) && final(self).pos() == old(
                self,
            ).pos() + 5),
            old(self).remaining() < 5 ==> (r matches Err(e) && e
                == DecodeError::UnexpectedEndOfStream && final(self).pos() == old(self).pos()),
    {
        if self.data.len() - self.cursor < 5 {
            return Err(DecodeError::UnexpectedEndOfStream);
        }
        let (g, number_of_registers) = self.get_single_byte_regs()?;
        let value = self.read_u16()?;
        let (c, d) = self.get_single_byte_regs()?;
        let (e, f) = self.get_single_byte_regs()?;

        let mut registers: Vec<u8> = Vec::new();
        registers.push(c);
        registers.push(d);
        registers.push(e);
        registers.push(f);
        registers.push(g);
        if (number_of_registers as usize) < registers.len() {
            registers.truncate(number_of_registers as usize);
        }
        assert(registers@ =~= call_site_regs(old(self).stream(), old(self).pos()));
        Ok((registers, value))
    }

    /// The range call-site format: an 8-bit register count, a 16-bit pool
    /// index and the first register of a contiguous range.
    pub fn r_3rc(&mut self) -> (r: Result<(u8, u16, u16), DecodeError>)
        requires
            old(self).wf(),
        ensures
            final(self).wf(),
            final(self).stream() == old(self).stream(),
            old(self).remaining() >= 5 ==> r == Ok::<(u8, u16, u16), DecodeError>(
                (
                    old(self).stream()[old(self).pos()],
                    unit16(old(self).stream(), old(self).pos() + 1),
                    unit16(old(self).stream(), old(self).pos() + 3),
                ),
            ) && final(self).pos() == old(self).pos() + 5,
            old(self).remaining() < 5 ==> r == Err::<(u8, u16, u16), DecodeError>(
                DecodeError::UnexpectedEndOfStream,
            ) && final(self).pos() == old(self).pos(),
    {
        if self.data.len() - self.cursor < 5 {
            return Err(DecodeError::UnexpectedEndOfStream);
        }
        Ok((self.read_u8()?, self.read_u16()?, self.read_u16()?))
    }

    /// The polymorphic call-site format: the 5-register layout followed
    /// by a trailing 16-bit prototype index.
    pub fn r_45cc(&mut self) -> (r: Result<(Vec<u8>, u16, u16), DecodeError>)
        requires
            old(self).wf(),
        ensures
            final(self).wf(),
            final(self).stream() == old(self).stream(),
            old(self).remaining() >= 7 ==> (r matches Ok(v) && v.0@ == call_site_regs(
                old(self).stream(),
                old(self).pos(),
            ) && v.1 == unit16(old(self).stream(), old(self).pos() + 1) && v.2 == unit16(
                old(self).stream(),
                old(self).pos() + 5,
            ) && final(self).pos() == old(self).pos() + 7),
            old(self).remaining() < 7 ==> (r matches Err(e) && e
                == DecodeError::UnexpectedEndOfStream && final(self).pos() == old(self).pos()),
    {
        if self.data.len() - self.cursor < 7 {
            return Err(DecodeError::UnexpectedEndOfStream);
        }
        let (g, number_of_registers) = self.get_single_byte_regs()?;
        let field1 = self.read_u16()?;
        let (c, d) = self.get_single_byte_regs()?;
        let (e, f) = self.get_single_byte_regs()?;
        let field2 = self.read_u16()?;

        let mut registers: Vec<u8> = Vec::new();
        registers.push(c);
        registers.push(d);
        registers.push(e);
        registers.push(f);
        registers.push(g);
        if (number_of_registers as usize) < registers.len() {
            registers.truncate(number_of_registers as usize);
        }
        assert(registers@ =~= call_site_regs(old(self).stream(), old(self).pos()));
        Ok((registers, field1, field2))
    }

    /// The polymorphic range call-site format: an 8-bit count, a 16-bit
    /// pool index, the first register and a 16-bit prototype index.
    pub fn r_4rcc(&mut self) -> (r: Result<(u8, u16, u16, u16), DecodeError>)
        requires
            old(self).wf(),
        ensures
            final(self).wf(),
            final(self).stream() == old(self).stream(),
            old(self).remaining() >= 7 ==> r == Ok::<(u8, u16, u16, u16), DecodeError>(
                (
                    old(self).stream()[old(self).pos()],
                    unit16(old(self).stream(), old(self).pos() + 1),
                    unit16(old(self).stream(), old(self).pos() + 3),
                    unit16(old(self).stream(), old(self).pos() + 5),
                ),
            ) && final(self).pos() == old(self).pos() + 7,
            old(self).remaining() < 7 ==> r == Err::<(u8, u16, u16, u16), DecodeError>(
                DecodeError::UnexpectedEndOfStream,
            ) && final(self).pos() == old(self).pos(),
    {
        if self.data.len() - self.cursor < 7 {
            return Err(DecodeError::UnexpectedEndOfStream);
        }
        Ok((self.read_u8()?, self.read_u16()?, self.read_u16()?, self.read_u16()?))
    }

    /// An 8-bit register followed by a 64-bit wide constant.
    pub fn r_51(&mut self) -> (r: Result<(u8, u64), DecodeError>)
        requires
            old(self).wf(),
        ensures
            final(self).wf(),
            final(self).stream() == old(self).stream(),
            old(self).remaining() >= 9 ==> r == Ok::<(u8, u64), DecodeError>(
                (
                    old(self).stream()[old(self).pos()],
                    unit64(old(self).stream(), old(self).pos() + 1),
                ),
            ) && final(self).pos() == old(self).pos() + 9,
            old(self).remaining() < 9 ==> r == Err::<(u8, u64), DecodeError>(
                DecodeError::UnexpectedEndOfStream,
            ) && final(self).pos() == old(self).pos(),
    {
        if self.data.len() - self.cursor < 9 {
            return Err(DecodeError::UnexpectedEndOfStream);
        }
        Ok((self.read_u8()?, self.read_u64()?))
    }

    fn read_u8(&mut self) -> (r: Result<u8, DecodeError>)
        requires
            old(self).wf(),
        ensures
            final(self).wf(),
            final(self).stream() == old(self).stream(),
            old(self).remaining() >= 1 ==> r == Ok::<u8, DecodeError>(
                old(self).stream()[old(self).pos()],
            ) && final(self).pos() == old(self).pos() + 1,
            old(self).remaining() < 1 ==> r == Err::<u8, DecodeError>(
                DecodeError::UnexpectedEndOfStream,
            ) && final(self).pos() == old(self).pos(),
    {
        if self.cursor >= self.data.len() {
            Err(DecodeError::UnexpectedEndOfStream)
        } else {
            let result = self.data[self.cursor];
            self.cursor = self.cursor + 1;
            Ok(result)
        }
    }

    fn read_i8(&mut self) -> (r: Result<i8, DecodeError>)
        requires
            old(self).wf(),
        ensures
            final(self).wf(),
            final(self).stream() == old(self).stream(),
            old(self).remaining() >= 1 ==> r == Ok::<i8, DecodeError>(
                sign8(old(self).stream()[old(self).pos()]),
            ) && final(self).pos() == old(self).pos() + 1,
            old(self).remaining() < 1 ==> r == Err::<i8, DecodeError>(
                DecodeError::UnexpectedEndOfStream,
            ) && final(self).pos() == old(self).pos(),
    {
        let b = self.read_u8()?;
        if b < 128 {
            Ok(b as i8)
        } else {
            Ok(((b as i16) - 256) as i8)
        }
    }

    fn read_u16(&mut self) -> (r: Result<u16, DecodeError>)
        requires
            old(self).wf(),
        ensures
            final(self).wf(),
            final(self).stream() == old(self).stream(),
            old(self).remaining() >= 2 ==> r == Ok::<u16, DecodeError>(
                unit16(old(self).stream(), old(self).pos()),
            ) && final(self).pos() == old(self).pos() + 2,
            old(self).remaining() < 2 ==> r == Err::<u16, DecodeError>(
                DecodeError::UnexpectedEndOfStream,
            ) && final(self).pos() == old(self).pos(),
    {
        if self.data.len() - self.cursor < 2 {
            return Err(DecodeError::UnexpectedEndOfStream);
        }
        let high = self.read_u8()?;
        let low = self.read_u8()?;
        Ok((high as u16) * 0x100 + (low as u16))
    }

    fn read_i16(&mut self) -> (r: Result<i16, DecodeError>)
        requires
            old(self).wf(),
        ensures
            final(self).wf(),
            final(self).stream() == old(self).stream(),
            old(self).remaining() >= 2 ==> r == Ok::<i16, DecodeError>(
                sign16(unit16(old(self).stream(), old(self).pos())),
            ) && final(self).pos() == old(self).pos() + 2,
            old(self).remaining() < 2 ==> r == Err::<i16, DecodeError>(
                DecodeError::UnexpectedEndOfStream,
            ) && final(self).pos() == old(self).pos(),
    {
        let w = self.read_u16()?;
        if w < 0x8000 {
            Ok(w as i16)
        } else {
            Ok(((w as i32) - 0x1_0000) as i16)
        }
    }

    fn read_u32(&mut self) -> (r: Result<u32, DecodeError>)
        requires
            old(self).wf(),
        ensures
            final(self).wf(),
            final(self).stream() == old(self).stream(),
            old(self).remaining() >= 4 ==> r == Ok::<u32, DecodeError>(
                unit32(old(self).stream(), old(self).pos()),
            ) && final(self).pos() == old(self).pos() + 4,
            old(self).remaining() < 4 ==> r == Err::<u32, DecodeError>(
                DecodeError::UnexpectedEndOfStream,
            ) && final(self).pos() == old(self).pos(),
    {
        if self.data.len() - self.cursor < 4 {
            return Err(DecodeError::UnexpectedEndOfStream);
        }
        let high = self.read_u16()?;
        let low = self.read_u16()?;
        Ok((high as u32) * 0x1_0000 + (low as u32))
    }

    fn read_i32(&mut self) -> (r: Result<i32, DecodeError>)
        requires
            old(self).wf(),
        ensures
            final(self).wf(),
            final(self).stream() == old(self).stream(),
            old(self).remaining() >= 4 ==> r == Ok::<i32, DecodeError>(
                sign32(unit32(old(self).stream(), old(self).pos())),
            ) && final(self).pos() == old(self).pos() + 4,
            old(self).remaining() < 4 ==> r == Err::<i32, DecodeError>(
                DecodeError::UnexpectedEndOfStream,
            ) && final(self).pos() == old(self).pos(),
    {
        let w = self.read_u32()?;
        if w < 0x8000_0000 {
            Ok(w as i32)
        } else {
            Ok(((w as i64) - 0x1_0000_0000) as i32)
        }
    }

    fn read_u64(&mut self) -> (r: Result<u64, DecodeError>)
        requires
            old(self).wf(),
        ensures
            final(self).wf(),
            final(self).stream() == old(self).stream(),
            old(self).remaining() >= 8 ==> r == Ok::<u64, DecodeError>(
                unit64(old(self).stream(), old(self).pos()),
            ) && final(self).pos() == old(self).pos() + 8,
            old(self).remaining() < 8 ==> r == Err::<u64, DecodeError>(
                DecodeError::UnexpectedEndOfStream,
            ) && final(self).pos() == old(self).pos(),
    {
        if self.data.len() - self.cursor < 8 {
            return Err(DecodeError::UnexpectedEndOfStream);
        }
        let high = self.read_u32()?;
        let low = self.read_u32()?;
        Ok((high as u64) * 0x1_0000_0000 + (low as u64))
    }

    fn get_single_byte_regs(&mut self) -> (r: Result<(u8, u8), DecodeError>)
        requires
            old(self).wf(),
        ensures
            final(self).wf(),
            final(self).stream() == old(self).stream(),
            old(self).remaining() >= 1 ==> r == Ok::<(u8, u8), DecodeError>(
                (
                    nib_low(old(self).stream()[old(self).pos()]),
                    nib_high(old(self).stream()[old(self).pos()]),
                ),
            ) && final(self).pos() == old(self).pos() + 1,
            old(self).remaining() < 1 ==> r == Err::<(u8, u8), DecodeError>(
                DecodeError::UnexpectedEndOfStream,
            ) && final(self).pos() == old(self).pos(),
    {
        let value = self.read_u8()?;
        Ok((value % 16, value / 16))
    }
}

} // verus!
