use vstd::prelude::*;
use vstd::string::StringExecFns;

verus! {

/// The condition-code register. Bit 7 holds `negative`, bit 0 holds `carry`;
/// the three reserved bits only take part in packing and unpacking.
#[derive(Clone, Copy, Debug)]
pub struct CPUFlags {
    pub negative: bool,
    pub zero: bool,
    pub reserved1: bool,
    pub aux_carry: bool,
    pub reserved2: bool,
    pub even: bool,
    pub reserved3: bool,
    pub carry: bool,
}

/// 1 for a set flag, 0 for a clear one.
pub open spec fn bit_of(flag: bool) -> int {
    if flag {
        1
    } else {
        0
    }
}

impl CPUFlags {
    /// The byte that packs the eight flags, bit 7 first.
    pub open spec fn byte_spec(self) -> u8 {
        (128 * bit_of(self.negative) + 64 * bit_of(self.zero) + 32 * bit_of(self.reserved1) + 16
            * bit_of(self.aux_carry) + 8 * bit_of(self.reserved2) + 4 * bit_of(self.even) + 2
            * bit_of(self.reserved3) + bit_of(self.carry)) as u8
    }

    /// The flags that a byte unpacks to.
    pub open spec fn from_byte_spec(value: u8) -> CPUFlags {
        CPUFlags {
            negative: value / 128 % 2 == 1,
            zero: value / 64 % 2 == 1,
            reserved1: value / 32 % 2 == 1,
            aux_carry: value / 16 % 2 == 1,
            reserved2: value / 8 % 2 == 1,
            even: value / 4 % 2 == 1,
            reserved3: value / 2 % 2 == 1,
            carry: value % 2 == 1,
        }
    }

    /// The four flags that comparisons look at.
    pub open spec fn same_visible(self, other: CPUFlags) -> bool {
        self.negative == other.negative && self.zero == other.zero && self.even == other.even
            && self.carry == other.carry
    }

    pub fn to_byte(&self) -> (r: u8)
        ensures
            r == self.byte_spec(),
    {
        let mut byte: u8 = 0;
        if self.negative {
            byte = byte + 128;
        }
        if self.zero {
            byte = byte + 64;
        }
        if self.reserved1 {
            byte = byte + 32;
        }
        if self.aux_carry {
            byte = byte + 16;
        }
        if self.reserved2 {
            byte = byte + 8;
        }
        if self.even {
            byte = byte + 4;
        }
        if self.reserved3 {
            byte = byte + 2;
        }
        if self.carry {
            byte = byte + 1;
        }
        byte
    }

    pub fn from_byte(value: u8) -> (r: CPUFlags)
        ensures
            r == CPUFlags::from_byte_spec(value),
    {
        CPUFlags {
            negative: value / 128 % 2 == 1,
            zero: value / 64 % 2 == 1,
            reserved1: value / 32 % 2 == 1,
            aux_carry: value / 16 % 2 == 1,
            reserved2: value / 8 % 2 == 1,
            even: value / 4 % 2 == 1,
            reserved3: value / 2 % 2 == 1,
            carry: value % 2 == 1,
        }
    }
}

/// Packing the flags that a byte unpacks to gives back that byte, for all 256 bytes.
pub proof fn lemma_flags_byte_round_trip(value: u8)
    ensures
        CPUFlags::from_byte_spec(value).byte_spec() == value,
{
    let v = value as int;
    assert(v == 128 * (v / 128 % 2) + 64 * (v / 64 % 2) + 32 * (v / 32 % 2) + 16 * (v / 16 % 2) + 8
        * (v / 8 % 2) + 4 * (v / 4 % 2) + 2 * (v / 2 % 2) + v % 2) by (nonlinear_arith)
        requires
            0 <= v < 256,
    ;
}

/// The words `true` or `false`.
pub open spec fn bool_text(flag: bool) -> Seq<char> {
    if flag {
        "true"@
    } else {
        "false"@
    }
}

fn append_flag(text: &mut String, flag: bool)
    ensures
        final(text)@ == old(text)@ + bool_text(flag),
{
    if flag {
        text.append("true");
    } else {
        text.append("false");
    }
}

impl CPUFlags {
    /// The visible flags as text: `negative:<b> zero:<b> even:<b> carry:<b>`.
    pub fn describe(&self) -> (r: String)
        ensures
            r@ == "negative:"@ + bool_text(self.negative) + " zero:"@ + bool_text(self.zero)
                + " even:"@ + bool_text(self.even) + " carry:"@ + bool_text(self.carry),
    {
        let mut text = String::from_str("negative:");
        append_flag(&mut text, self.negative);
        text.append(" zero:");
        append_flag(&mut text, self.zero);
        text.append(" even:");
        append_flag(&mut text, self.even);
        text.append(" carry:");
        append_flag(&mut text, self.carry);
        text
    }
}

/// Unpacking the byte that the flags pack to gives back all eight flags.
pub proof fn lemma_flags_unpack_pack(flags: CPUFlags)
    ensures
        CPUFlags::from_byte_spec(flags.byte_spec()) == flags,
{
}

impl PartialEq for CPUFlags {
    /// Only `negative`, `zero`, `even` and `carry` are compared.
    fn eq(&self, other: &CPUFlags) -> (r: bool) {
        self.negative == other.negative && self.zero == other.zero && self.even == other.even
            && self.carry == other.carry
    }
}

impl vstd::std_specs::cmp::PartialEqSpecImpl for CPUFlags {
    open spec fn obeys_eq_spec() -> bool {
        true
    }

    open spec fn eq_spec(&self, other: &CPUFlags) -> bool {
        self.same_visible(*other)
    }
}

impl Eq for CPUFlags {

}

} // verus!
