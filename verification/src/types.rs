//! Type-mapping layer: the closed set of element kinds the code generator
//! supports, and the bridge from host integer types to those kinds.
//!
//! Every element kind is a fixed-width machine integer; its arithmetic is
//! modular in the kind's bit width.  Constants (and with them the two
//! built-in actions) can only be materialized for widths up to 64 bits:
//! a 128-bit element type has no complete mapping and is rejected before
//! any code is emitted.
use vstd::arithmetic::div_mod::{
    lemma_mod_add_multiples_vanish, lemma_small_mod,
};
use vstd::arithmetic::power2::{lemma2_to64, lemma2_to64_rest, lemma_pow2_pos, pow2};
use vstd::prelude::*;

verus! {

/// The value `v` reduced into the range of a `w`-bit machine integer,
/// i.e. the wrap-around result of storing `v` in `w` bits.
pub open spec fn wrap(w: nat, v: int) -> int {
    v % (pow2(w) as int)
}

/// One supported element kind: a fixed-width integer, signed or unsigned.
/// Signedness never changes the generated code (addition and subtraction
/// are two's-complement), but it records how callers read the bits.
#[derive(Clone, Copy, Debug, PartialEq, Eq, Structural)]
pub enum IntKind {
    U8,
    I8,
    U16,
    I16,
    U32,
    I32,
    U64,
    I64,
    U128,
    I128,
}

impl IntKind {
    /// Bit width of the kind.
    pub open spec fn bits(self) -> nat {
        match self {
            IntKind::U8 => 8,
            IntKind::I8 => 8,
            IntKind::U16 => 16,
            IntKind::I16 => 16,
            IntKind::U32 => 32,
            IntKind::I32 => 32,
            IntKind::U64 => 64,
            IntKind::I64 => 64,
            IntKind::U128 => 128,
            IntKind::I128 => 128,
        }
    }

    pub open spec fn signed(self) -> bool {
        match self {
            IntKind::I8 => true,
            IntKind::I16 => true,
            IntKind::I32 => true,
            IntKind::I64 => true,
            IntKind::I128 => true,
            _ => false,
        }
    }

    /// The modulus of the kind's machine arithmetic.
    pub open spec fn modulus(self) -> nat {
        pow2(self.bits())
    }

    /// Whether the type-mapping layer is complete for this kind: constants
    /// can only be materialized for widths up to 64 bits, so wider kinds
    /// cannot be instantiated.
    pub open spec fn supported(self) -> bool {
        self.bits() <= 64
    }

    pub fn bit_width(self) -> (n: u32)
        ensures
            n == self.bits(),
    {
        match self {
            IntKind::U8 => 8,
            IntKind::I8 => 8,
            IntKind::U16 => 16,
            IntKind::I16 => 16,
            IntKind::U32 => 32,
            IntKind::I32 => 32,
            IntKind::U64 => 64,
            IntKind::I64 => 64,
            IntKind::U128 => 128,
            IntKind::I128 => 128,
        }
    }

    pub fn is_supported(self) -> (b: bool)
        ensures
            b == self.supported(),
    {
        match self {
            IntKind::U128 => false,
            IntKind::I128 => false,
            _ => true,
        }
    }

    /// The kind's modulus as a machine value; only the supported kinds
    /// have one that fits in 128 bits.
    pub fn small_modulus(self) -> (m: u128)
        requires
            self.supported(),
        ensures
            m == self.modulus(),
    {
        proof {
            lemma2_to64();
            lemma2_to64_rest();
        }
        match self {
            IntKind::U8 => 0x100,
            IntKind::I8 => 0x100,
            IntKind::U16 => 0x1_0000,
            IntKind::I16 => 0x1_0000,
            IntKind::U32 => 0x1_0000_0000,
            IntKind::I32 => 0x1_0000_0000,
            IntKind::U64 => 0x1_0000_0000_0000_0000,
            IntKind::I64 => 0x1_0000_0000_0000_0000,
            IntKind::U128 => {
                proof {
                    assert(false);
                }
                0
            },
            IntKind::I128 => {
                proof {
                    assert(false);
                }
                0
            },
        }
    }
}

/// A host integer type that can parameterize an action: it names its
/// element kind and hands its value over as a 64-bit two's-complement
/// pattern.  Implemented exactly for the eight fixed-width types whose
/// constants the backend can materialize.
pub trait IntegerType: Sized {
    /// The element kind this host type maps to.
    spec fn kind_spec() -> IntKind;

    /// The mathematical value.
    spec fn value_spec(self) -> int;

    fn kind() -> (k: IntKind)
        ensures
            k == Self::kind_spec(),
    ;

    /// The value as a 64-bit two's-complement bit pattern.
    fn to_pattern(self) -> (p: u64)
        ensures
            p == wrap(64, self.value_spec()),
    ;
}

/// The pattern of a value that already fits in 64 unsigned bits is the
/// value itself.
proof fn lemma_pattern_small(v: int)
    requires
        0 <= v < pow2(64),
    ensures
        wrap(64, v) == v,
    decreases 0int,
{
    lemma_pow2_pos(64);
    lemma_small_mod(v as nat, pow2(64));
}

/// The pattern of a negative value above `-2^64` is the value plus `2^64`.
proof fn lemma_pattern_negative(v: int)
    requires
        -(pow2(64) as int) < v < 0,
    ensures
        wrap(64, v) == v + pow2(64),
    decreases 0int,
{
    let m = pow2(64) as int;
    lemma_pow2_pos(64);
    lemma_mod_add_multiples_vanish(v, m);
    lemma_small_mod((v + m) as nat, pow2(64));
}

impl IntegerType for u8 {
    open spec fn kind_spec() -> IntKind {
        IntKind::U8
    }

    open spec fn value_spec(self) -> int {
        self as int
    }

    fn kind() -> (k: IntKind) {
        IntKind::U8
    }

    fn to_pattern(self) -> (p: u64) {
        proof {
            lemma2_to64_rest();
            lemma_pattern_small(self as int);
        }
        self as u64
    }
}

impl IntegerType for u16 {
    open spec fn kind_spec() -> IntKind {
        IntKind::U16
    }

    open spec fn value_spec(self) -> int {
        self as int
    }

    fn kind() -> (k: IntKind) {
        IntKind::U16
    }

    fn to_pattern(self) -> (p: u64) {
        proof {
            lemma2_to64_rest();
            lemma_pattern_small(self as int);
        }
        self as u64
    }
}

impl IntegerType for u32 {
    open spec fn kind_spec() -> IntKind {
        IntKind::U32
    }

    open spec fn value_spec(self) -> int {
        self as int
    }

    fn kind() -> (k: IntKind) {
        IntKind::U32
    }

    fn to_pattern(self) -> (p: u64) {
        proof {
            lemma2_to64_rest();
            lemma_pattern_small(self as int);
        }
        self as u64
    }
}

impl IntegerType for u64 {
    open spec fn kind_spec() -> IntKind {
        IntKind::U64
    }

    open spec fn value_spec(self) -> int {
        self as int
    }

    fn kind() -> (k: IntKind) {
        IntKind::U64
    }

    fn to_pattern(self) -> (p: u64) {
        proof {
            lemma2_to64_rest();
            lemma_pattern_small(self as int);
        }
        self
    }
}

impl IntegerType for i8 {
    open spec fn kind_spec() -> IntKind {
        IntKind::I8
    }

    open spec fn value_spec(self) -> int {
        self as int
    }

    fn kind() -> (k: IntKind) {
        IntKind::I8
    }

    fn to_pattern(self) -> (p: u64) {
        proof {
            lemma2_to64_rest();
            if self >= 0 {
                lemma_pattern_small(self as int);
            } else {
                lemma_pattern_negative(self as int);
            }
        }
        0u64.wrapping_add_signed(self as i64)
    }
}

impl IntegerType for i16 {
    open spec fn kind_spec() -> IntKind {
        IntKind::I16
    }

    open spec fn value_spec(self) -> int {
        self as int
    }

    fn kind() -> (k: IntKind) {
        IntKind::I16
    }

    fn to_pattern(self) -> (p: u64) {
        proof {
            lemma2_to64_rest();
            if self >= 0 {
                lemma_pattern_small(self as int);
            } else {
                lemma_pattern_negative(self as int);
            }
        }
        0u64.wrapping_add_signed(self as i64)
    }
}

impl IntegerType for i32 {
    open spec fn kind_spec() -> IntKind {
        IntKind::I32
    }

    open spec fn value_spec(self) -> int {
        self as int
    }

    fn kind() -> (k: IntKind) {
        IntKind::I32
    }

    fn to_pattern(self) -> (p: u64) {
        proof {
            lemma2_to64_rest();
            if self >= 0 {
                lemma_pattern_small(self as int);
            } else {
                lemma_pattern_negative(self as int);
            }
        }
        0u64.wrapping_add_signed(self as i64)
    }
}

impl IntegerType for i64 {
    open spec fn kind_spec() -> IntKind {
        IntKind::I64
    }

    open spec fn value_spec(self) -> int {
        self as int
    }

    fn kind() -> (k: IntKind) {
        IntKind::I64
    }

    fn to_pattern(self) -> (p: u64) {
        proof {
            lemma2_to64_rest();
            if self >= 0 {
                lemma_pattern_small(self as int);
            } else {
                lemma_pattern_negative(self as int);
            }
        }
        0u64.wrapping_add_signed(self)
    }
}

} // verus!
