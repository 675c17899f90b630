use vstd::prelude::*;

verus! {

/// Flag bit marking a voxel as taking part in the automaton.
pub const AUTOMATA_FLAG: u8 = 1;

/// The 16-bit word holding `material` in the low byte and `flags` in the high byte.
pub open spec fn encode(material: u8, flags: u8) -> u16 {
    ((flags as int) * 256 + material as int) as u16
}

/// The low byte of a packed word.
pub open spec fn material_of(encoded: u16) -> u8 {
    (encoded % 256) as u8
}

/// The high byte of a packed word.
pub open spec fn flags_of(encoded: u16) -> u8 {
    (encoded / 256) as u8
}

/// Packed material/flag state stored per voxel.
#[derive(Clone, Copy, Debug, PartialEq, Eq, Structural, Hash)]
pub struct AutomataState {
    pub encoded: u16,
}

impl AutomataState {
    pub open spec fn spec_material(self) -> u8 {
        material_of(self.encoded)
    }

    pub open spec fn spec_flags(self) -> u8 {
        flags_of(self.encoded)
    }

    pub open spec fn spec_is_empty(self) -> bool {
        self.encoded == 0
    }

    pub open spec fn spec_is_solid(self) -> bool {
        self.spec_material() != 0
    }

    pub open spec fn spec_is_alive(self) -> bool {
        self.spec_flags() & AUTOMATA_FLAG != 0 && self.spec_is_solid()
    }

    pub open spec fn spec_is_static(self) -> bool {
        self.spec_is_solid() && !self.spec_is_alive()
    }

    /// Constructs a state from palette material and flag byte.
    pub fn from_components(material: u8, flags: u8) -> (r: Self)
        ensures
            r.encoded == encode(material, flags),
            r.spec_material() == material,
            r.spec_flags() == flags,
    {
        let e: u16 = ((flags as u16) << 8) | (material as u16);
        assert(e == encode(material, flags)) by (bit_vector)
            requires e == ((flags as u16) << 8) | (material as u16);
        assert(material_of(e) == material && flags_of(e) == flags) by {
            lemma_codec_decode(material, flags);
        }
        AutomataState { encoded: e }
    }

    /// Constructs a state from the packed 16-bit value.
    pub fn from_packed(encoded: u16) -> (r: Self)
        ensures
            r.encoded == encoded,
    {
        AutomataState { encoded }
    }

    /// Returns the packed 16-bit representation of the voxel.
    pub fn to_packed(self) -> (r: u16)
        ensures
            r == self.encoded,
    {
        self.encoded
    }

    /// Returns the palette material index stored in the low byte.
    pub fn material(self) -> (r: u8)
        ensures
            r == self.spec_material(),
    {
        let e = self.encoded;
        let r: u8 = (e & 0x00FF) as u8;
        assert(r == (e % 256) as u8) by (bit_vector)
            requires r == (e & 0x00FF) as u8;
        r
    }

    /// Returns the voxel flags stored in the high byte.
    pub fn flags(self) -> (r: u8)
        ensures
            r == self.spec_flags(),
    {
        let e = self.encoded;
        let r: u8 = (e >> 8) as u8;
        assert(r == (e / 256) as u8) by (bit_vector)
            requires r == (e >> 8) as u8;
        r
    }

    /// Returns true when the voxel stores no material or flags.
    pub fn is_empty(self) -> (r: bool)
        ensures
            r == self.spec_is_empty(),
    {
        self.encoded == 0
    }

    /// Returns true when the voxel contains any material.
    pub fn is_solid(self) -> (r: bool)
        ensures
            r == self.spec_is_solid(),
    {
        self.material() != 0
    }

    /// Returns true when the voxel participates in the automaton.
    pub fn is_alive(self) -> (r: bool)
        ensures
            r == self.spec_is_alive(),
    {
        (self.flags() & AUTOMATA_FLAG) != 0 && self.is_solid()
    }

    /// Returns true when the voxel is immutable geometry.
    pub fn is_static(self) -> (r: bool)
        ensures
            r == self.spec_is_static(),
    {
        self.is_solid() && !self.is_alive()
    }

    /// Replaces the palette material and returns the new state.
    pub fn with_material(self, material: u8) -> (r: Self)
        ensures
            r.encoded == encode(material, self.spec_flags()),
            r.spec_material() == material,
            r.spec_flags() == self.spec_flags(),
    {
        Self::from_components(material, self.flags())
    }

    /// Replaces the flag byte and returns the new state.
    pub fn with_flags(self, flags: u8) -> (r: Self)
        ensures
            r.encoded == encode(self.spec_material(), flags),
            r.spec_material() == self.spec_material(),
            r.spec_flags() == flags,
    {
        Self::from_components(self.material(), flags)
    }

    /// Returns the (material, flags) pair.
    pub fn to_components(self) -> (r: (u8, u8))
        ensures
            r == (self.spec_material(), self.spec_flags()),
    {
        (self.material(), self.flags())
    }
}

impl Default for AutomataState {
    fn default() -> (r: Self)
        ensures
            r.encoded == 0,
    {
        AutomataState { encoded: 0 }
    }
}

impl From<u16> for AutomataState {
    fn from(value: u16) -> (r: Self)
        ensures
            r.encoded == value,
    {
        Self::from_packed(value)
    }
}

impl vstd::std_specs::convert::FromSpecImpl<u16> for AutomataState {
    open spec fn obeys_from_spec() -> bool {
        true
    }

    open spec fn from_spec(v: u16) -> Self {
        AutomataState { encoded: v }
    }
}

impl From<AutomataState> for u16 {
    fn from(value: AutomataState) -> (r: u16)
        ensures
            r == value.encoded,
    {
        value.to_packed()
    }
}

impl vstd::std_specs::convert::FromSpecImpl<AutomataState> for u16 {
    open spec fn obeys_from_spec() -> bool {
        true
    }

    open spec fn from_spec(v: AutomataState) -> u16 {
        v.encoded
    }
}

impl From<(u8, u8)> for AutomataState {
    fn from(value: (u8, u8)) -> (r: Self)
        ensures
            r.encoded == encode(value.0, value.1),
    {
        Self::from_components(value.0, value.1)
    }
}

impl vstd::std_specs::convert::FromSpecImpl<(u8, u8)> for AutomataState {
    open spec fn obeys_from_spec() -> bool {
        true
    }

    open spec fn from_spec(v: (u8, u8)) -> Self {
        AutomataState { encoded: encode(v.0, v.1) }
    }
}

/// Decoding an encoded pair gives the pair back.
pub proof fn lemma_codec_decode(material: u8, flags: u8)
    ensures
        material_of(encode(material, flags)) == material,
        flags_of(encode(material, flags)) == flags,
{
}

/// Encoding the decoded bytes of a word gives the word back.
pub proof fn lemma_codec_encode(encoded: u16)
    ensures
        encode(material_of(encoded), flags_of(encoded)) == encoded,
{
}

/// Round trip of the codec: `(material, flags)` survives encoding then decoding,
/// and every 16-bit word survives unpacking then packing.
pub proof fn lemma_codec_round_trip(material: u8, flags: u8, packed: u16)
    ensures
        ({
            let s = AutomataState { encoded: encode(material, flags) };
            (s.spec_material(), s.spec_flags()) == (material, flags)
        }),
        ({
            let s = AutomataState { encoded: packed };
            encode(s.spec_material(), s.spec_flags()) == packed
        }),
{
    lemma_codec_decode(material, flags);
    lemma_codec_encode(packed);
}

} // verus!
