//! The sensor's status register: seven named one-bit flags in a 16-bit word.

use vstd::prelude::*;

verus! {

/// A flag of the status register.
#[derive(Debug, Clone, Copy, PartialEq, Eq, Structural, Hash)]
pub enum Flag {
    /// At least one alert is pending (bit 15).
    AlertPending,
    /// The heater is on (bit 13).
    Heater,
    /// Relative humidity tracking alert (bit 11).
    RhTrackingAlert,
    /// Temperature tracking alert (bit 10).
    TTrackingAlert,
    /// A reset was detected since the register was last cleared (bit 4).
    SystemResetDetected,
    /// The last command was not processed (bit 1).
    Command,
    /// The checksum of the last write transfer failed (bit 0).
    WriteDataChecksum,
}

/// The bits of the status word that carry a flag; all others are reserved.
pub const KNOWN_BITS: u16 = 0xAC13;

impl Flag {
    /// The flag's bit in the status word, as a mask with that one bit set.
    pub open spec fn mask_spec(self) -> u16 {
        match self {
            Flag::AlertPending => 0x8000,
            Flag::Heater => 0x2000,
            Flag::RhTrackingAlert => 0x0800,
            Flag::TTrackingAlert => 0x0400,
            Flag::SystemResetDetected => 0x0010,
            Flag::Command => 0x0002,
            Flag::WriteDataChecksum => 0x0001,
        }
    }

    /// The flag's bit in the status word, as a mask with that one bit set.
    #[verifier::when_used_as_spec(mask_spec)]
    pub fn mask(self) -> (mask: u16)
        ensures
            mask == self.mask_spec(),
    {
        match self {
            Flag::AlertPending => 0x8000,
            Flag::Heater => 0x2000,
            Flag::RhTrackingAlert => 0x0800,
            Flag::TTrackingAlert => 0x0400,
            Flag::SystemResetDetected => 0x0010,
            Flag::Command => 0x0002,
            Flag::WriteDataChecksum => 0x0001,
        }
    }
}

/// The flags whose bit is set in a raw status word. Reserved bits name no
/// flag and are not looked at.
pub open spec fn flags_in(word: u16) -> Set<Flag> {
    Set::new(|flag: Flag| word & flag.mask_spec() != 0)
}

/// The flags read from the status register.
#[derive(Debug, Clone, Copy, PartialEq, Eq, Structural, Hash)]
pub struct Status {
    bits: u16,
}

impl View for Status {
    type V = Set<Flag>;

    /// The set of flags that are raised.
    open spec fn view(&self) -> Set<Flag> {
        flags_in(self.spec_bits())
    }
}

impl Status {
    /// Reserved bits are never set in a `Status`.
    #[verifier::type_invariant]
    spec fn reserved_bits_clear(self) -> bool {
        self.bits & !KNOWN_BITS == 0
    }

    /// The status word with its reserved bits cleared.
    pub closed spec fn spec_bits(&self) -> u16 {
        self.bits
    }

    /// The status in which no flag is raised.
    pub fn empty() -> (status: Status)
        ensures
            status.spec_bits() == 0,
            status@ == Set::<Flag>::empty(),
    {
        assert(0u16 & !KNOWN_BITS == 0) by (bit_vector);
        proof {
            lemma_no_flags_iff_zero(0);
        }
        Status { bits: 0 }
    }

    /// The status read out of a raw status word: its reserved bits are
    /// dropped.
    pub closed spec fn spec_from_bits_truncate(word: u16) -> Status {
        Status { bits: word & KNOWN_BITS }
    }

    /// Reads the flags out of a raw status word and drops its reserved bits.
    #[verifier::when_used_as_spec(spec_from_bits_truncate)]
    pub fn from_bits_truncate(word: u16) -> (status: Status)
        ensures
            status == Status::spec_from_bits_truncate(word),
            status.spec_bits() == word & KNOWN_BITS,
            status@ == flags_in(word),
    {
        let bits: u16 = word & KNOWN_BITS;
        assert((word & KNOWN_BITS) & !KNOWN_BITS == 0) by (bit_vector);
        proof {
            lemma_reserved_bits_ignored(word);
        }
        Status { bits }
    }

    /// The status read out of a word keeps the word's known bits and raises
    /// the flags whose bit is set in the word.
    pub proof fn lemma_from_bits_truncate(word: u16)
        ensures
            Status::spec_from_bits_truncate(word).spec_bits() == word & KNOWN_BITS,
            Status::spec_from_bits_truncate(word)@ == flags_in(word),
    {
        lemma_reserved_bits_ignored(word);
    }

    /// The status word with its reserved bits cleared.
    #[verifier::when_used_as_spec(spec_bits)]
    pub fn bits(&self) -> (bits: u16)
        ensures
            bits == self.spec_bits(),
            bits & !KNOWN_BITS == 0,
    {
        proof {
            use_type_invariant(self);
        }
        self.bits
    }

    /// Whether no flag is raised.
    pub fn is_empty(&self) -> (none: bool)
        ensures
            none == (self@ == Set::<Flag>::empty()),
            none == (self.spec_bits() == 0),
    {
        proof {
            use_type_invariant(self);
            lemma_no_flags_iff_zero(self.bits);
        }
        self.bits == 0
    }

    /// Whether `flag` is raised.
    pub fn contains(&self, flag: Flag) -> (raised: bool)
        ensures
            raised == self@.contains(flag),
    {
        self.bits & flag.mask() != 0
    }
}

/// Each flag has a bit of its own, and that bit is not reserved.
pub proof fn lemma_masks_distinct(a: Flag, b: Flag)
    ensures
        a.mask_spec() & KNOWN_BITS == a.mask_spec(),
        a.mask_spec() != 0,
        a != b ==> a.mask_spec() & b.mask_spec() == 0,
        a.mask_spec() == b.mask_spec() ==> a == b,
{
    let x = a.mask_spec();
    let y = b.mask_spec();
    assert(x & KNOWN_BITS == x) by (bit_vector)
        requires
            x == 0x8000 || x == 0x2000 || x == 0x0800 || x == 0x0400 || x == 0x0010 || x == 0x0002
                || x == 0x0001,
    ;
    assert(x != y ==> x & y == 0) by (bit_vector)
        requires
            x == 0x8000 || x == 0x2000 || x == 0x0800 || x == 0x0400 || x == 0x0010 || x == 0x0002
                || x == 0x0001,
            y == 0x8000 || y == 0x2000 || y == 0x0800 || y == 0x0400 || y == 0x0010 || y == 0x0002
                || y == 0x0001,
    ;
}

/// A flag is raised in a word exactly when its bit is set there.
pub proof fn lemma_flag_raised(word: u16, flag: Flag)
    ensures
        flags_in(word).contains(flag) == (word & flag.mask_spec() != 0),
{
}

/// Reserved bits change nothing: a word raises the flags that the word with
/// its reserved bits cleared raises.
pub proof fn lemma_reserved_bits_ignored(word: u16)
    ensures
        flags_in(word & KNOWN_BITS) == flags_in(word),
{
    assert forall|flag: Flag|
        ((word & KNOWN_BITS) & flag.mask_spec() != 0) == (word & flag.mask_spec() != 0) by {
        let mask = flag.mask_spec();
        lemma_masks_distinct(flag, flag);
        assert((word & KNOWN_BITS) & mask == word & mask) by (bit_vector)
            requires
                mask & KNOWN_BITS == mask,
        ;
    }
    assert(flags_in(word & KNOWN_BITS) =~= flags_in(word));
}

/// Two words without reserved bits that raise the same flags are equal.
pub proof fn lemma_flags_determine_word(a: u16, b: u16)
    requires
        a & !KNOWN_BITS == 0,
        b & !KNOWN_BITS == 0,
        flags_in(a) == flags_in(b),
    ensures
        a == b,
{
    lemma_flag_raised(a, Flag::AlertPending);
    lemma_flag_raised(b, Flag::AlertPending);
    lemma_flag_raised(a, Flag::Heater);
    lemma_flag_raised(b, Flag::Heater);
    lemma_flag_raised(a, Flag::RhTrackingAlert);
    lemma_flag_raised(b, Flag::RhTrackingAlert);
    lemma_flag_raised(a, Flag::TTrackingAlert);
    lemma_flag_raised(b, Flag::TTrackingAlert);
    lemma_flag_raised(a, Flag::SystemResetDetected);
    lemma_flag_raised(b, Flag::SystemResetDetected);
    lemma_flag_raised(a, Flag::Command);
    lemma_flag_raised(b, Flag::Command);
    lemma_flag_raised(a, Flag::WriteDataChecksum);
    lemma_flag_raised(b, Flag::WriteDataChecksum);
    assert(a == b) by (bit_vector)
        requires
            a & !0xAC13u16 == 0,
            b & !0xAC13u16 == 0,
            (a & 0x8000u16 != 0) == (b & 0x8000u16 != 0),
            (a & 0x2000u16 != 0) == (b & 0x2000u16 != 0),
            (a & 0x0800u16 != 0) == (b & 0x0800u16 != 0),
            (a & 0x0400u16 != 0) == (b & 0x0400u16 != 0),
            (a & 0x0010u16 != 0) == (b & 0x0010u16 != 0),
            (a & 0x0002u16 != 0) == (b & 0x0002u16 != 0),
            (a & 0x0001u16 != 0) == (b & 0x0001u16 != 0),
    ;
}

/// Two words that raise the same flags are read as the same status,
/// whatever their reserved bits hold.
pub proof fn lemma_same_flags_same_status(a: u16, b: u16)
    requires
        flags_in(a) == flags_in(b),
    ensures
        Status::spec_from_bits_truncate(a) == Status::spec_from_bits_truncate(b),
{
    lemma_reserved_bits_ignored(a);
    lemma_reserved_bits_ignored(b);
    assert((a & KNOWN_BITS) & !KNOWN_BITS == 0) by (bit_vector);
    assert((b & KNOWN_BITS) & !KNOWN_BITS == 0) by (bit_vector);
    lemma_flags_determine_word(a & KNOWN_BITS, b & KNOWN_BITS);
}

/// A word without reserved bits raises no flag exactly when it is zero.
pub proof fn lemma_no_flags_iff_zero(word: u16)
    requires
        word & !KNOWN_BITS == 0,
    ensures
        (flags_in(word) == Set::<Flag>::empty()) <==> word == 0,
{
    assert(flags_in(0) =~= Set::<Flag>::empty()) by {
        assert forall|flag: Flag| !flags_in(0).contains(flag) by {
            let mask = flag.mask_spec();
            assert(0u16 & mask == 0) by (bit_vector);
        }
    }
    assert(0u16 & !KNOWN_BITS == 0) by (bit_vector);
    if flags_in(word) == Set::<Flag>::empty() {
        lemma_flags_determine_word(word, 0);
    }
}

} // verus!
