//! The type descriptor: a bitmask over the engine's value kinds and its
//! rendering into the engine's one-character-per-kind constraint string.

use vstd::prelude::*;

verus! {

/// Bit assigned by the engine to the float kind.
pub const FLOAT_BIT: u32 = 0x0001;
/// Bit assigned by the engine to the integer kind.
pub const INTEGER_BIT: u32 = 0x0002;
/// Bit assigned by the engine to the symbol kind.
pub const SYMBOL_BIT: u32 = 0x0004;
/// Bit assigned by the engine to the string kind.
pub const STRING_BIT: u32 = 0x0008;
/// Bit assigned by the engine to the multifield kind.
pub const MULTIFIELD_BIT: u32 = 0x0010;
/// Bit assigned by the engine to the external-address kind.
pub const EXTERNAL_ADDRESS_BIT: u32 = 0x0020;
/// Bit assigned by the engine to the fact-address kind.
pub const FACT_ADDRESS_BIT: u32 = 0x0040;
/// Bit assigned by the engine to the instance-address kind.
pub const INSTANCE_ADDRESS_BIT: u32 = 0x0080;
/// Bit assigned by the engine to the instance-name kind.
pub const INSTANCE_NAME_BIT: u32 = 0x0100;
/// Bit assigned by the engine to the void kind.
pub const VOID_BIT: u32 = 0x0200;
/// Bit assigned by the engine to the boolean kind.
pub const BOOLEAN_BIT: u32 = 0x0400;
/// Every kind bit at once.
pub const ALL_BITS: u32 = 0x07ff;

/// A set of admissible value kinds, one bit per kind.  The empty mask is
/// the explicit "any" marker: it admits every kind and renders to the
/// engine's wildcard token.
#[derive(Clone, Copy, PartialEq, Eq, Structural, Debug)]
pub struct Type {
    pub bits: u32,
}

/// The character that a single kind bit contributes to the constraint
/// string when it is set.
pub open spec fn kind_token(bits: u32, bit: u32, token: Seq<char>) -> Seq<char> {
    if bits & bit != 0 {
        token
    } else {
        Seq::<char>::empty()
    }
}

/// The constraint string that a mask renders to: the wildcard for the
/// empty ("any") mask, otherwise one character per set bit in the
/// engine's canonical order.
pub open spec fn spec_format(bits: u32) -> Seq<char> {
    if bits == 0 {
        "*"@
    } else {
        Seq::<char>::empty()
            + kind_token(bits, BOOLEAN_BIT, "b"@)
            + kind_token(bits, FLOAT_BIT, "d"@)
            + kind_token(bits, EXTERNAL_ADDRESS_BIT, "e"@)
            + kind_token(bits, FACT_ADDRESS_BIT, "f"@)
            + kind_token(bits, INSTANCE_ADDRESS_BIT, "i"@)
            + kind_token(bits, INTEGER_BIT, "l"@)
            + kind_token(bits, MULTIFIELD_BIT, "m"@)
            + kind_token(bits, INSTANCE_NAME_BIT, "n"@)
            + kind_token(bits, STRING_BIT, "s"@)
            + kind_token(bits, SYMBOL_BIT, "y"@)
            + kind_token(bits, VOID_BIT, "v"@)
    }
}

/// Appends the one-character token for a kind when its bit is set.
fn push_kind(r: &mut String, bits: u32, bit: u32, token: &str)
    ensures
        final(r)@ == old(r)@ + kind_token(bits, bit, token@),
{
    if bits & bit != 0 {
        r.append(token);
        proof {
            assert(r@ =~= old(r)@ + kind_token(bits, bit, token@));
        }
    } else {
        proof {
            assert(r@ =~= old(r)@ + kind_token(bits, bit, token@));
        }
    }
}

impl Type {
    /// The empty mask: the "any" marker.
    pub fn empty() -> (t: Type)
        ensures
            t.bits == 0,
    {
        Type { bits: 0 }
    }

    /// The mask with every kind bit set.
    pub fn all() -> (t: Type)
        ensures
            t.bits == ALL_BITS,
    {
        Type { bits: ALL_BITS }
    }

    /// A mask from raw kind bits.
    pub fn from_bits(bits: u32) -> (t: Type)
        ensures
            t.bits == bits,
    {
        Type { bits }
    }

    /// The union of two masks.
    pub fn with(self, other: Type) -> (t: Type)
        ensures
            t.bits == self.bits | other.bits,
    {
        Type { bits: self.bits | other.bits }
    }

    /// Whether every bit of `kind_bits` is set in this mask.
    pub fn contains(self, kind_bits: u32) -> (b: bool)
        ensures
            b == (self.bits & kind_bits == kind_bits),
    {
        self.bits & kind_bits == kind_bits
    }

    /// Whether the mask is the "any" marker.
    pub fn is_empty(self) -> (b: bool)
        ensures
            b == (self.bits == 0),
    {
        self.bits == 0
    }

    /// Renders the mask to the engine's type-constraint string: the
    /// wildcard for the "any" marker, otherwise one character per set
    /// bit in canonical order.
    pub fn format(&self) -> (r: String)
        ensures
            r@ == spec_format(self.bits),
    {
        if self.bits == 0 {
            return "*".to_owned();
        }
        let mut r = String::new();
        push_kind(&mut r, self.bits, BOOLEAN_BIT, "b");
        push_kind(&mut r, self.bits, FLOAT_BIT, "d");
        push_kind(&mut r, self.bits, EXTERNAL_ADDRESS_BIT, "e");
        push_kind(&mut r, self.bits, FACT_ADDRESS_BIT, "f");
        push_kind(&mut r, self.bits, INSTANCE_ADDRESS_BIT, "i");
        push_kind(&mut r, self.bits, INTEGER_BIT, "l");
        push_kind(&mut r, self.bits, MULTIFIELD_BIT, "m");
        push_kind(&mut r, self.bits, INSTANCE_NAME_BIT, "n");
        push_kind(&mut r, self.bits, STRING_BIT, "s");
        push_kind(&mut r, self.bits, SYMBOL_BIT, "y");
        push_kind(&mut r, self.bits, VOID_BIT, "v");
        r
    }
}

/// The empty mask — the explicit "any" marker — renders to the
/// engine's wildcard token, and no other mask does: any set bit puts
/// its own kind character first, never the wildcard.
pub proof fn lemma_format_wildcard(bits: u32)
    ensures
        bits == 0 ==> spec_format(bits) == "*"@,
        bits != 0 ==> spec_format(bits) != "*"@,
{
    reveal_strlit("*");
    reveal_strlit("b");
    reveal_strlit("d");
    reveal_strlit("e");
    reveal_strlit("f");
    reveal_strlit("i");
    reveal_strlit("l");
    reveal_strlit("m");
    reveal_strlit("n");
    reveal_strlit("s");
    reveal_strlit("y");
    reveal_strlit("v");
    if bits != 0 {
        if bits & BOOLEAN_BIT != 0 {
            assert(spec_format(bits)[0] == 'b');
        } else if bits & FLOAT_BIT != 0 {
            assert(spec_format(bits)[0] == 'd');
        } else if bits & EXTERNAL_ADDRESS_BIT != 0 {
            assert(spec_format(bits)[0] == 'e');
        } else if bits & FACT_ADDRESS_BIT != 0 {
            assert(spec_format(bits)[0] == 'f');
        } else if bits & INSTANCE_ADDRESS_BIT != 0 {
            assert(spec_format(bits)[0] == 'i');
        } else if bits & INTEGER_BIT != 0 {
            assert(spec_format(bits)[0] == 'l');
        } else if bits & MULTIFIELD_BIT != 0 {
            assert(spec_format(bits)[0] == 'm');
        } else if bits & INSTANCE_NAME_BIT != 0 {
            assert(spec_format(bits)[0] == 'n');
        } else if bits & STRING_BIT != 0 {
            assert(spec_format(bits)[0] == 's');
        } else if bits & SYMBOL_BIT != 0 {
            assert(spec_format(bits)[0] == 'y');
        } else if bits & VOID_BIT != 0 {
            assert(spec_format(bits)[0] == 'v');
        } else {
            // A mask of only undefined bits contributes no character at
            // all; the empty rendering is not the wildcard either.
            assert(spec_format(bits).len() == 0);
        }
    }
}

/// Rendering does not depend on the order in which kinds were united
/// into the mask: the union is commutative, so the same set of kinds
/// renders to the same string however it was assembled.
pub proof fn lemma_format_order_insensitive(a: Type, b: Type)
    ensures
        spec_format(a.bits | b.bits) == spec_format(b.bits | a.bits),
{
    let x = a.bits;
    let y = b.bits;
    assert(x | y == y | x) by (bit_vector);
}

/// A mask holding exactly the integer and symbol kinds renders to the
/// two-character string with the integer token first.
pub proof fn lemma_format_integer_symbol()
    ensures
        spec_format(INTEGER_BIT | SYMBOL_BIT) == "ly"@,
{
    reveal_strlit("b");
    reveal_strlit("d");
    reveal_strlit("e");
    reveal_strlit("f");
    reveal_strlit("i");
    reveal_strlit("l");
    reveal_strlit("m");
    reveal_strlit("n");
    reveal_strlit("s");
    reveal_strlit("y");
    reveal_strlit("v");
    reveal_strlit("ly");
    assert(0x0002u32 | 0x0004 == 0x0006) by (bit_vector);
    assert({
        &&& 0x0006u32 & 0x0001 == 0
        &&& 0x0006u32 & 0x0002 != 0
        &&& 0x0006u32 & 0x0004 != 0
        &&& 0x0006u32 & 0x0008 == 0
        &&& 0x0006u32 & 0x0010 == 0
        &&& 0x0006u32 & 0x0020 == 0
        &&& 0x0006u32 & 0x0040 == 0
        &&& 0x0006u32 & 0x0080 == 0
        &&& 0x0006u32 & 0x0100 == 0
        &&& 0x0006u32 & 0x0200 == 0
        &&& 0x0006u32 & 0x0400 == 0
    }) by (bit_vector);
    assert(spec_format(INTEGER_BIT | SYMBOL_BIT) =~= "ly"@);
}

} // verus!
