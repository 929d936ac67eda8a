use vstd::prelude::*;

verus! {

/// One of the window's configuration toggles. Each is one bit of the mask
/// that the engine takes; the engine, not this layer, settles what a
/// combination of them means.
#[derive(Debug, Clone, Copy, PartialEq, Eq, Structural)]
pub enum ConfigFlag {
    VsyncHint,
    FullscreenMode,
    WindowResizable,
    WindowUndecorated,
    WindowHidden,
    WindowMinimized,
    WindowMaximized,
    WindowUnfocused,
    WindowTopmost,
    WindowAlwaysRun,
    WindowTransparent,
    WindowHighdpi,
    Msaa4xHint,
    InterlacedHint,
}

impl ConfigFlag {
    /// The position of the flag's bit in the engine's mask.
    pub open spec fn bit(self) -> u32 {
        match self {
            ConfigFlag::FullscreenMode => 1,
            ConfigFlag::WindowResizable => 2,
            ConfigFlag::WindowUndecorated => 3,
            ConfigFlag::WindowTransparent => 4,
            ConfigFlag::Msaa4xHint => 5,
            ConfigFlag::VsyncHint => 6,
            ConfigFlag::WindowHidden => 7,
            ConfigFlag::WindowAlwaysRun => 8,
            ConfigFlag::WindowMinimized => 9,
            ConfigFlag::WindowMaximized => 10,
            ConfigFlag::WindowUnfocused => 11,
            ConfigFlag::WindowTopmost => 12,
            ConfigFlag::WindowHighdpi => 13,
            ConfigFlag::InterlacedHint => 16,
        }
    }

    /// The flag as the engine's mask with that one bit set.
    pub open spec fn mask_of(self) -> u32 {
        1u32 << self.bit()
    }

    /// The flag's mask, as the engine's header writes it.
    pub fn mask(self) -> (mask: u32)
        ensures
            mask == self.mask_of(),
    {
        proof {
            lemma_masks();
        }
        match self {
            ConfigFlag::FullscreenMode => 0x0000_0002,
            ConfigFlag::WindowResizable => 0x0000_0004,
            ConfigFlag::WindowUndecorated => 0x0000_0008,
            ConfigFlag::WindowTransparent => 0x0000_0010,
            ConfigFlag::Msaa4xHint => 0x0000_0020,
            ConfigFlag::VsyncHint => 0x0000_0040,
            ConfigFlag::WindowHidden => 0x0000_0080,
            ConfigFlag::WindowAlwaysRun => 0x0000_0100,
            ConfigFlag::WindowMinimized => 0x0000_0200,
            ConfigFlag::WindowMaximized => 0x0000_0400,
            ConfigFlag::WindowUnfocused => 0x0000_0800,
            ConfigFlag::WindowTopmost => 0x0000_1000,
            ConfigFlag::WindowHighdpi => 0x0000_2000,
            ConfigFlag::InterlacedHint => 0x0001_0000,
        }
    }
}

/// The masks of the engine's header are the single bits at the flags'
/// positions.
proof fn lemma_masks()
    by (bit_vector)
    ensures
        0x0000_0002u32 == 1u32 << 1u32,
        0x0000_0004u32 == 1u32 << 2u32,
        0x0000_0008u32 == 1u32 << 3u32,
        0x0000_0010u32 == 1u32 << 4u32,
        0x0000_0020u32 == 1u32 << 5u32,
        0x0000_0040u32 == 1u32 << 6u32,
        0x0000_0080u32 == 1u32 << 7u32,
        0x0000_0100u32 == 1u32 << 8u32,
        0x0000_0200u32 == 1u32 << 9u32,
        0x0000_0400u32 == 1u32 << 10u32,
        0x0000_0800u32 == 1u32 << 11u32,
        0x0000_1000u32 == 1u32 << 12u32,
        0x0000_2000u32 == 1u32 << 13u32,
        0x0001_0000u32 == 1u32 << 16u32,
{
}

/// Setting one bit of a mask sets that bit and leaves every other as it was.
proof fn lemma_set_bit(bits: u32, set: u32, asked: u32)
    by (bit_vector)
    requires
        set < 32,
        asked < 32,
    ensures
        ((bits | (1u32 << set)) & (1u32 << asked) != 0) == (asked == set || bits & (1u32 << asked)
            != 0),
{
}

/// Clearing one bit of a mask clears that bit and leaves every other as it
/// was.
proof fn lemma_clear_bit(bits: u32, cleared: u32, asked: u32)
    by (bit_vector)
    requires
        cleared < 32,
        asked < 32,
    ensures
        ((bits & !(1u32 << cleared)) & (1u32 << asked) != 0) == (asked != cleared && bits & (1u32
            << asked) != 0),
{
}

/// The empty mask has no bit set.
proof fn lemma_no_bit(asked: u32)
    by (bit_vector)
    ensures
        0u32 & (1u32 << asked) == 0,
{
}

/// A set of configuration flags, kept as the mask that the engine takes.
///
/// The view is the set of flags whose bits are set; `mask` is the exact word
/// that goes to the engine.
#[derive(Debug, Clone, Copy, PartialEq, Eq, Structural)]
pub struct ConfigFlagSet {
    bits: u32,
}

impl View for ConfigFlagSet {
    type V = Set<ConfigFlag>;

    closed spec fn view(&self) -> Set<ConfigFlag> {
        Set::new(|flag: ConfigFlag| self.bits & flag.mask_of() != 0)
    }
}

impl ConfigFlagSet {
    /// The mask that stands for the set.
    pub closed spec fn mask(self) -> u32 {
        self.bits
    }

    /// The set with no flag.
    pub closed spec fn none() -> ConfigFlagSet {
        ConfigFlagSet { bits: 0 }
    }

    /// The set with `flag` switched on.
    pub closed spec fn with(self, flag: ConfigFlag) -> ConfigFlagSet {
        ConfigFlagSet { bits: self.bits | flag.mask_of() }
    }

    /// The set with `flag` switched off.
    pub closed spec fn without(self, flag: ConfigFlag) -> ConfigFlagSet {
        ConfigFlagSet { bits: self.bits & !flag.mask_of() }
    }

    /// The set with no flag: the empty mask.
    pub fn empty() -> (flags: Self)
        ensures
            flags == Self::none(),
            flags@ == Set::<ConfigFlag>::empty(),
            flags.mask() == 0,
    {
        proof {
            lemma_none();
        }
        ConfigFlagSet { bits: 0 }
    }

    /// The mask to hand to the engine.
    pub fn bits(&self) -> (bits: u32)
        ensures
            bits == self.mask(),
    {
        self.bits
    }

    /// Whether `flag` is switched on.
    pub fn contains(&self, flag: ConfigFlag) -> (on: bool)
        ensures
            on == self@.contains(flag),
    {
        self.bits & flag.mask() != 0
    }

    /// Switches `flag` on, by OR; every other flag stays as it is.
    pub fn insert(&mut self, flag: ConfigFlag)
        ensures
            *final(self) == old(self).with(flag),
            final(self)@ == old(self)@.insert(flag),
            final(self).mask() == old(self).mask() | flag.mask_of(),
    {
        proof {
            lemma_with(*self, flag);
        }
        self.bits |= flag.mask();
    }

    /// Switches `flag` off; every other flag stays as it is.
    pub fn remove(&mut self, flag: ConfigFlag)
        ensures
            *final(self) == old(self).without(flag),
            final(self)@ == old(self)@.remove(flag),
            final(self).mask() == old(self).mask() & !flag.mask_of(),
    {
        proof {
            lemma_without(*self, flag);
        }
        self.bits &= !flag.mask();
    }
}

/// The empty mask stands for the empty set.
pub proof fn lemma_none()
    ensures
        ConfigFlagSet::none()@ == Set::<ConfigFlag>::empty(),
        ConfigFlagSet::none().mask() == 0,
{
    assert forall|flag: ConfigFlag| !(#[trigger] ConfigFlagSet::none()@.contains(flag)) by {
        lemma_no_bit(flag.bit());
    }
    assert(ConfigFlagSet::none()@ =~= Set::<ConfigFlag>::empty());
}

/// Switching a flag on adds it to the set and ORs its bit into the mask.
pub proof fn lemma_with(flags: ConfigFlagSet, flag: ConfigFlag)
    ensures
        flags.with(flag)@ == flags@.insert(flag),
        flags.with(flag).mask() == flags.mask() | flag.mask_of(),
{
    assert forall|asked: ConfigFlag|
        flags.with(flag)@.contains(asked) == #[trigger] flags@.insert(flag).contains(asked) by {
        lemma_set_bit(flags.mask(), flag.bit(), asked.bit());
    }
    assert(flags.with(flag)@ =~= flags@.insert(flag));
}

/// Switching a flag off takes it from the set and clears its bit in the mask.
pub proof fn lemma_without(flags: ConfigFlagSet, flag: ConfigFlag)
    ensures
        flags.without(flag)@ == flags@.remove(flag),
        flags.without(flag).mask() == flags.mask() & !flag.mask_of(),
{
    assert forall|asked: ConfigFlag|
        flags.without(flag)@.contains(asked) == #[trigger] flags@.remove(flag).contains(asked) by {
        lemma_clear_bit(flags.mask(), flag.bit(), asked.bit());
    }
    assert(flags.without(flag)@ =~= flags@.remove(flag));
}

/// The flags are independent: each has a bit of its own.
pub proof fn lemma_flags_independent(one: ConfigFlag, other: ConfigFlag)
    ensures
        one.bit() < 32,
        one.bit() == other.bit() <==> one == other,
        one.mask_of() == other.mask_of() <==> one == other,
{
    lemma_distinct_bits(one.bit(), other.bit());
}

/// Single bits at different positions are different masks.
proof fn lemma_distinct_bits(one: u32, other: u32)
    by (bit_vector)
    requires
        one < 32,
        other < 32,
    ensures
        (1u32 << one == 1u32 << other) == (one == other),
{
}

} // verus!
