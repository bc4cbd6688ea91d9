//! Hardware identification registers: FPGA id, efuse, device DNA and
//! the git hash of the FPGA build.
//!
//! The identification block is read-only.  Its raw register words are
//! captured once and held as plain values; the methods assemble the
//! derived identifiers, including the 40-digit hexadecimal rendering of
//! the git hash, whose five words are stored least-significant first.

use vstd::prelude::*;

use vstd::string::StringExecFns;

verus! {

/// Raw words of the identification register block.
#[derive(Clone, Copy, Debug, PartialEq, Eq)]
pub struct HwIdRegs {
    /// FPGA identification number.
    pub hwid: u32,
    /// FPGA efuse word.
    pub efuse: u32,
    /// Device DNA, low word then high word.
    pub dna: [u32; 2],
    /// Git hash of the FPGA build, least-significant word first.
    pub gith: [u32; 5],
}

/// The identification block of one device.
#[derive(Clone, Copy, Debug, PartialEq, Eq)]
pub struct HwId {
    /// The captured register words.
    pub regs: HwIdRegs,
}

/// The character printing one hexadecimal digit.
pub open spec fn spec_hex_char(n: u32) -> char {
    if n == 0 {
        '0'
    } else if n == 1 {
        '1'
    } else if n == 2 {
        '2'
    } else if n == 3 {
        '3'
    } else if n == 4 {
        '4'
    } else if n == 5 {
        '5'
    } else if n == 6 {
        '6'
    } else if n == 7 {
        '7'
    } else if n == 8 {
        '8'
    } else if n == 9 {
        '9'
    } else if n == 10 {
        'a'
    } else if n == 11 {
        'b'
    } else if n == 12 {
        'c'
    } else if n == 13 {
        'd'
    } else if n == 14 {
        'e'
    } else {
        'f'
    }
}

/// The `j`-th hexadecimal digit of a word, most significant first.
pub open spec fn spec_hex_digit(w: u32, j: int) -> u32
    recommends
        0 <= j < 8,
{
    (w >> ((28 - 4 * j) as u32)) & 0xf
}

/// A word printed as eight hexadecimal digits, most significant first.
pub open spec fn spec_word_hex(w: u32) -> Seq<char> {
    Seq::new(8, |j: int| spec_hex_char(spec_hex_digit(w, j)))
}

/// Append the character of one hexadecimal digit.
fn push_hex_char(line: &mut String, n: u32)
    requires
        n < 16,
    ensures
        final(line)@ == old(line)@ + seq![spec_hex_char(n)],
{
    if n == 0 {
        proof {
            reveal_strlit("0");
            assert(("0")@ =~= seq![spec_hex_char(0u32)]);
        }
        line.append("0");
    } else if n == 1 {
        proof {
            reveal_strlit("1");
            assert(("1")@ =~= seq![spec_hex_char(1u32)]);
        }
        line.append("1");
    } else if n == 2 {
        proof {
            reveal_strlit("2");
            assert(("2")@ =~= seq![spec_hex_char(2u32)]);
        }
        line.append("2");
    } else if n == 3 {
        proof {
            reveal_strlit("3");
            assert(("3")@ =~= seq![spec_hex_char(3u32)]);
        }
        line.append("3");
    } else if n == 4 {
        proof {
            reveal_strlit("4");
            assert(("4")@ =~= seq![spec_hex_char(4u32)]);
        }
        line.append("4");
    } else if n == 5 {
        proof {
            reveal_strlit("5");
            assert(("5")@ =~= seq![spec_hex_char(5u32)]);
        }
        line.append("5");
    } else if n == 6 {
        proof {
            reveal_strlit("6");
            assert(("6")@ =~= seq![spec_hex_char(6u32)]);
        }
        line.append("6");
    } else if n == 7 {
        proof {
            reveal_strlit("7");
            assert(("7")@ =~= seq![spec_hex_char(7u32)]);
        }
        line.append("7");
    } else if n == 8 {
        proof {
            reveal_strlit("8");
            assert(("8")@ =~= seq![spec_hex_char(8u32)]);
        }
        line.append("8");
    } else if n == 9 {
        proof {
            reveal_strlit("9");
            assert(("9")@ =~= seq![spec_hex_char(9u32)]);
        }
        line.append("9");
    } else if n == 10 {
        proof {
            reveal_strlit("a");
            assert(("a")@ =~= seq![spec_hex_char(10u32)]);
        }
        line.append("a");
    } else if n == 11 {
        proof {
            reveal_strlit("b");
            assert(("b")@ =~= seq![spec_hex_char(11u32)]);
        }
        line.append("b");
    } else if n == 12 {
        proof {
            reveal_strlit("c");
            assert(("c")@ =~= seq![spec_hex_char(12u32)]);
        }
        line.append("c");
    } else if n == 13 {
        proof {
            reveal_strlit("d");
            assert(("d")@ =~= seq![spec_hex_char(13u32)]);
        }
        line.append("d");
    } else if n == 14 {
        proof {
            reveal_strlit("e");
            assert(("e")@ =~= seq![spec_hex_char(14u32)]);
        }
        line.append("e");
    } else {
        proof {
            reveal_strlit("f");
            assert(("f")@ =~= seq![spec_hex_char(n)]);
        }
        line.append("f");
    }
}

/// Append a word as eight hexadecimal digits, most significant first.
fn push_hex_word(line: &mut String, w: u32)
    ensures
        final(line)@ == old(line)@ + spec_word_hex(w),
{
    let mut k: u32 = 0;
    while k < 8
        invariant
            k <= 8,
            line@ == old(line)@ + spec_word_hex(w).take(k as int),
        decreases 8 - k,
    {
        let shift: u32 = 28 - 4 * k;
        let nibble = (w >> shift) & 0xf;
        proof {
            assert(nibble < 16) by (bit_vector)
                requires
                    nibble == (w >> shift) & 0xf,
            ;
            assert(shift == (28 - 4 * (k as int)) as u32);
            assert(nibble == spec_hex_digit(w, k as int));
        }
        push_hex_char(line, nibble);
        proof {
            assert(spec_word_hex(w).take(k as int + 1) =~= spec_word_hex(w).take(k as int)
                + seq![spec_hex_char(spec_hex_digit(w, k as int))]);
        }
        k += 1;
    }
    proof {
        assert(spec_word_hex(w).take(8) =~= spec_word_hex(w));
    }
}

impl HwId {
    /// Hold the identification words read from the device.
    pub fn new(regs: HwIdRegs) -> (r: HwId)
        ensures
            r.regs == regs,
    {
        HwId { regs }
    }

    /// FPGA identification number (32 bits).
    pub fn hwid(&self) -> (r: u32)
        ensures
            r == self.regs.hwid,
    {
        self.regs.hwid
    }

    /// FPGA efuse word (32 bits).
    pub fn efuse(&self) -> (r: u32)
        ensures
            r == self.regs.efuse,
    {
        self.regs.efuse
    }

    /// Device DNA (57 bits), a read-only value fixed at manufacturing:
    /// an almost unique device identifier.
    pub fn dna(&self) -> (r: u64)
        ensures
            r == self.regs.dna[1] as u64 * 0x1_0000_0000 + self.regs.dna[0] as u64,
    {
        let lo: u64 = self.regs.dna[0] as u64;
        let hi: u64 = self.regs.dna[1] as u64;
        proof {
            assert((hi << 32u64) | lo == hi * 0x1_0000_0000 + lo) by (bit_vector)
                requires
                    hi < 0x1_0000_0000,
                    lo < 0x1_0000_0000,
            ;
        }
        (hi << 32u64) | lo
    }

    /// Git hash of the FPGA build: the full 160-bit hash as 40
    /// hexadecimal characters, most significant word first.
    pub fn gith(&self) -> (r: String)
        ensures
            r@ == spec_word_hex(self.regs.gith[4]) + spec_word_hex(self.regs.gith[3])
                + spec_word_hex(self.regs.gith[2]) + spec_word_hex(self.regs.gith[1])
                + spec_word_hex(self.regs.gith[0]),
            r@.len() == 40,
    {
        let mut line = String::new();
        push_hex_word(&mut line, self.regs.gith[4]);
        push_hex_word(&mut line, self.regs.gith[3]);
        push_hex_word(&mut line, self.regs.gith[2]);
        push_hex_word(&mut line, self.regs.gith[1]);
        push_hex_word(&mut line, self.regs.gith[0]);
        proof {
            assert(Seq::<char>::empty() + spec_word_hex(self.regs.gith[4]) =~= spec_word_hex(
                self.regs.gith[4],
            ));
        }
        line
    }
}

} // verus!
