//! The set of text attributes: bold, dim, italic and the like.

use vstd::prelude::*;

verus! {

/// A set of text attributes, held as one bit per attribute.
///
/// The bit positions are fixed: bold is bit 0, then dim, italic, underlined,
/// blinking, inverted, hidden, and crossed out at bit 7. Every bit pattern is a
/// valid set.
#[derive(Clone, Copy, Debug, PartialEq, Eq, Structural, Hash)]
pub struct Attributes(pub u8);

impl Default for Attributes {
    fn default() -> (r: Self)
        ensures
            r == Attributes(0),
    {
        Attributes(0)
    }
}

/// The texts of a list of strings.
pub open spec fn texts(names: Seq<&'static str>) -> Seq<Seq<char>> {
    names.map_values(|name: &'static str| name@)
}

#[allow(non_snake_case)]
impl Attributes {
    /// Bit of the bold attribute.
    pub const BOLD_BIT: u8 = 0x01;

    /// Bit of the dim attribute.
    pub const DIM_BIT: u8 = 0x02;

    /// Bit of the italic attribute.
    pub const ITALIC_BIT: u8 = 0x04;

    /// Bit of the underlined attribute.
    pub const UNDERLINED_BIT: u8 = 0x08;

    /// Bit of the blinking attribute.
    pub const BLINKING_BIT: u8 = 0x10;

    /// Bit of the inverted attribute.
    pub const INVERTED_BIT: u8 = 0x20;

    /// Bit of the hidden attribute.
    pub const HIDDEN_BIT: u8 = 0x40;

    /// Bit of the crossed-out attribute.
    pub const CROSSED_BIT: u8 = 0x80;

    /// The empty set of attributes.
    #[inline]
    pub fn EMPTY() -> (r: Self)
        ensures
            r == Attributes(0),
    {
        Attributes(0)
    }

    /// The set that holds only bold.
    #[inline]
    pub fn BOLD() -> (r: Self)
        ensures
            r == Attributes(Self::BOLD_BIT),
    {
        Attributes(Self::BOLD_BIT)
    }

    /// The set that holds only dim.
    #[inline]
    pub fn DIM() -> (r: Self)
        ensures
            r == Attributes(Self::DIM_BIT),
    {
        Attributes(Self::DIM_BIT)
    }

    /// The set that holds only italic.
    #[inline]
    pub fn ITALIC() -> (r: Self)
        ensures
            r == Attributes(Self::ITALIC_BIT),
    {
        Attributes(Self::ITALIC_BIT)
    }

    /// The set that holds only underlined.
    #[inline]
    pub fn UNDERLINED() -> (r: Self)
        ensures
            r == Attributes(Self::UNDERLINED_BIT),
    {
        Attributes(Self::UNDERLINED_BIT)
    }

    /// The set that holds only blinking.
    #[inline]
    pub fn BLINKING() -> (r: Self)
        ensures
            r == Attributes(Self::BLINKING_BIT),
    {
        Attributes(Self::BLINKING_BIT)
    }

    /// The set that holds only inverted.
    #[inline]
    pub fn INVERTED() -> (r: Self)
        ensures
            r == Attributes(Self::INVERTED_BIT),
    {
        Attributes(Self::INVERTED_BIT)
    }

    /// The set that holds only hidden.
    #[inline]
    pub fn HIDDEN() -> (r: Self)
        ensures
            r == Attributes(Self::HIDDEN_BIT),
    {
        Attributes(Self::HIDDEN_BIT)
    }

    /// The set that holds only crossed out.
    #[inline]
    pub fn CROSSED() -> (r: Self)
        ensures
            r == Attributes(Self::CROSSED_BIT),
    {
        Attributes(Self::CROSSED_BIT)
    }

    /// Whether the attribute with the given bit is in the set.
    pub open spec fn has(self, bit: u8) -> bool {
        self.0 & bit != 0
    }

    /// The union of two sets.
    pub open spec fn spec_or(self, other: Self) -> Self {
        Attributes(self.0 | other.0)
    }

    /// The intersection of two sets.
    pub open spec fn spec_and(self, other: Self) -> Self {
        Attributes(self.0 & other.0)
    }

    /// The complement of a set.
    pub open spec fn spec_not(self) -> Self {
        Attributes(!self.0)
    }

    /// Whether every attribute of `other` is in `self`.
    pub open spec fn spec_contains(&self, other: Self) -> bool {
        self.0 & other.0 == other.0
    }

    /// Whether no attribute is in the set.
    pub open spec fn spec_is_empty(&self) -> bool {
        self.0 == 0
    }

    /// The raw bits of the set.
    #[inline]
    pub fn as_bits(&self) -> (r: u8)
        ensures
            r == self.0,
    {
        self.0
    }

    /// Returns `true` if all attributes enabled in `other` are enabled in `self`.
    #[inline]
    #[verifier::when_used_as_spec(spec_contains)]
    pub fn contains(&self, other: Self) -> (r: bool)
        ensures
            r == self.spec_contains(other),
    {
        (self.0 & other.0) == other.0
    }

    /// Returns `true` if no attribute is enabled.
    #[inline]
    #[verifier::when_used_as_spec(spec_is_empty)]
    pub fn is_empty(&self) -> (r: bool)
        ensures
            r == self.spec_is_empty(),
    {
        self.0 == 0
    }

    /// The attributes that are in `self` or in `other`.
    #[inline]
    #[verifier::when_used_as_spec(spec_or)]
    pub fn or(self, other: Self) -> (r: Self)
        ensures
            r == self.spec_or(other),
    {
        Attributes(self.0 | other.0)
    }

    /// The attributes that are in `self` and in `other`.
    #[inline]
    #[verifier::when_used_as_spec(spec_and)]
    pub fn and(self, other: Self) -> (r: Self)
        ensures
            r == self.spec_and(other),
    {
        Attributes(self.0 & other.0)
    }

    /// The attributes that are not in `self`.
    #[inline]
    #[verifier::when_used_as_spec(spec_not)]
    pub fn not(self) -> (r: Self)
        ensures
            r == self.spec_not(),
    {
        Attributes(!self.0)
    }

    /// The name of one attribute if it is in the set, nothing if it is not.
    #[verifier::opaque]
    pub open spec fn flag_name(self, bit: u8, name: Seq<char>) -> Seq<Seq<char>> {
        if self.has(bit) {
            seq![name]
        } else {
            Seq::empty()
        }
    }

    /// The names of the attributes in the set, in the order of their bits.
    pub open spec fn spec_names(self) -> Seq<Seq<char>> {
        self.flag_name(Self::BOLD_BIT, "BOLD"@) + self.flag_name(Self::DIM_BIT, "DIM"@)
            + self.flag_name(Self::ITALIC_BIT, "ITALIC"@) + self.flag_name(
            Self::UNDERLINED_BIT,
            "UNDERLINED"@,
        ) + self.flag_name(Self::BLINKING_BIT, "BLINKING"@) + self.flag_name(
            Self::INVERTED_BIT,
            "INVERTED"@,
        ) + self.flag_name(Self::HIDDEN_BIT, "HIDDEN"@) + self.flag_name(
            Self::CROSSED_BIT,
            "CROSSED"@,
        )
    }

    /// Appends the name of one attribute if it is in the set.
    fn push_name(&self, names: &mut Vec<&'static str>, bit: u8, name: &'static str)
        ensures
            texts(final(names)@) == texts(old(names)@) + self.flag_name(bit, name@),
    {
        reveal(Attributes::flag_name);
        if self.0 & bit != 0 {
            names.push(name);
        }
    }

    /// The names of the attributes in the set, in the order of their bits:
    /// `BOLD`, `DIM`, `ITALIC`, `UNDERLINED`, `BLINKING`, `INVERTED`, `HIDDEN`,
    /// `CROSSED`. It is what a debug listing of the set shows.
    pub fn names(&self) -> (names: Vec<&'static str>)
        ensures
            texts(names@) == self.spec_names(),
    {
        let mut names: Vec<&'static str> = Vec::new();
        self.push_name(&mut names, Self::BOLD_BIT, "BOLD");
        self.push_name(&mut names, Self::DIM_BIT, "DIM");
        self.push_name(&mut names, Self::ITALIC_BIT, "ITALIC");
        self.push_name(&mut names, Self::UNDERLINED_BIT, "UNDERLINED");
        self.push_name(&mut names, Self::BLINKING_BIT, "BLINKING");
        self.push_name(&mut names, Self::INVERTED_BIT, "INVERTED");
        self.push_name(&mut names, Self::HIDDEN_BIT, "HIDDEN");
        self.push_name(&mut names, Self::CROSSED_BIT, "CROSSED");
        names
    }

    /// A union contains both sets that were unioned, and with them every
    /// attribute that either of them contains.
    pub proof fn lemma_or_contains(a: Self, b: Self)
        ensures
            a.or(b).contains(a),
            a.or(b).contains(b),
            forall|part: Attributes|
                a.contains(part) || b.contains(part) ==> #[trigger] a.or(b).contains(part),
    {
        let x = a.0;
        let y = b.0;
        assert((x | y) & x == x) by (bit_vector);
        assert((x | y) & y == y) by (bit_vector);
        assert forall|part: Attributes| a.contains(part) || b.contains(part) implies #[trigger] a.or(
            b,
        ).contains(part) by {
            let p = part.0;
            assert((x & p == p || y & p == p) ==> (x | y) & p == p) by (bit_vector);
        }
    }
}

impl core::ops::BitOr for Attributes {
    type Output = Attributes;

    #[inline]
    fn bitor(self, rhs: Attributes) -> (r: Attributes) {
        Attributes(self.0 | rhs.0)
    }
}

impl vstd::std_specs::ops::BitOrSpecImpl for Attributes {
    open spec fn obeys_bitor_spec() -> bool {
        true
    }

    open spec fn bitor_req(self, rhs: Attributes) -> bool {
        true
    }

    open spec fn bitor_spec(self, rhs: Attributes) -> Attributes {
        self.spec_or(rhs)
    }
}

impl core::ops::BitAnd for Attributes {
    type Output = Attributes;

    #[inline]
    fn bitand(self, rhs: Attributes) -> (r: Attributes) {
        Attributes(self.0 & rhs.0)
    }
}

impl vstd::std_specs::ops::BitAndSpecImpl for Attributes {
    open spec fn obeys_bitand_spec() -> bool {
        true
    }

    open spec fn bitand_req(self, rhs: Attributes) -> bool {
        true
    }

    open spec fn bitand_spec(self, rhs: Attributes) -> Attributes {
        self.spec_and(rhs)
    }
}

impl core::ops::Not for Attributes {
    type Output = Attributes;

    #[inline]
    fn not(self) -> (r: Attributes) {
        Attributes(!self.0)
    }
}

impl vstd::std_specs::ops::NotSpecImpl for Attributes {
    open spec fn obeys_not_spec() -> bool {
        true
    }

    open spec fn not_req(self) -> bool {
        true
    }

    open spec fn not_spec(self) -> Attributes {
        self.spec_not()
    }
}

impl core::ops::BitOrAssign for Attributes {
    #[inline]
    fn bitor_assign(&mut self, rhs: Attributes)
        ensures
            *final(self) == old(self).spec_or(rhs),
    {
        self.0 = self.0 | rhs.0;
    }
}

impl core::ops::BitAndAssign for Attributes {
    #[inline]
    fn bitand_assign(&mut self, rhs: Attributes)
        ensures
            *final(self) == old(self).spec_and(rhs),
    {
        self.0 = self.0 & rhs.0;
    }
}

} // verus!
