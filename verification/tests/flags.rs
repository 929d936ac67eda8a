use dioteko::flags::ConfigFlag;
use dioteko::flags::ConfigFlagSet;

const ALL: [ConfigFlag; 14] = [
    ConfigFlag::VsyncHint,
    ConfigFlag::FullscreenMode,
    ConfigFlag::WindowResizable,
    ConfigFlag::WindowUndecorated,
    ConfigFlag::WindowHidden,
    ConfigFlag::WindowMinimized,
    ConfigFlag::WindowMaximized,
    ConfigFlag::WindowUnfocused,
    ConfigFlag::WindowTopmost,
    ConfigFlag::WindowAlwaysRun,
    ConfigFlag::WindowTransparent,
    ConfigFlag::WindowHighdpi,
    ConfigFlag::Msaa4xHint,
    ConfigFlag::InterlacedHint,
];

#[test]
fn each_flag_has_the_mask_of_the_engine() {
    assert_eq!(ConfigFlag::VsyncHint.mask(), 0x0000_0040);
    assert_eq!(ConfigFlag::FullscreenMode.mask(), 0x0000_0002);
    assert_eq!(ConfigFlag::WindowResizable.mask(), 0x0000_0004);
    assert_eq!(ConfigFlag::WindowUndecorated.mask(), 0x0000_0008);
    assert_eq!(ConfigFlag::WindowHidden.mask(), 0x0000_0080);
    assert_eq!(ConfigFlag::WindowMinimized.mask(), 0x0000_0200);
    assert_eq!(ConfigFlag::WindowMaximized.mask(), 0x0000_0400);
    assert_eq!(ConfigFlag::WindowUnfocused.mask(), 0x0000_0800);
    assert_eq!(ConfigFlag::WindowTopmost.mask(), 0x0000_1000);
    assert_eq!(ConfigFlag::WindowAlwaysRun.mask(), 0x0000_0100);
    assert_eq!(ConfigFlag::WindowTransparent.mask(), 0x0000_0010);
    assert_eq!(ConfigFlag::WindowHighdpi.mask(), 0x0000_2000);
    assert_eq!(ConfigFlag::Msaa4xHint.mask(), 0x0000_0020);
    assert_eq!(ConfigFlag::InterlacedHint.mask(), 0x0001_0000);
}

#[test]
fn the_flags_are_single_bits_and_pairwise_apart() {
    for (i, one) in ALL.iter().enumerate() {
        assert_eq!(one.mask().count_ones(), 1);
        for (j, other) in ALL.iter().enumerate() {
            assert_eq!(one.mask() == other.mask(), i == j);
        }
    }
}

#[test]
fn the_empty_set_has_no_flag_and_no_bit() {
    let flags = ConfigFlagSet::empty();
    assert_eq!(flags.bits(), 0);
    for flag in ALL {
        assert!(!flags.contains(flag));
    }
}

#[test]
fn insert_switches_one_flag_on_and_no_other() {
    for flag in ALL {
        let mut flags = ConfigFlagSet::empty();
        flags.insert(flag);
        assert_eq!(flags.bits(), flag.mask());
        for other in ALL {
            assert_eq!(flags.contains(other), other == flag);
        }
        // a second time changes nothing
        let once = flags;
        flags.insert(flag);
        assert_eq!(flags, once);
    }
}

#[test]
fn insert_accumulates_by_or() {
    let mut flags = ConfigFlagSet::empty();
    flags.insert(ConfigFlag::VsyncHint);
    flags.insert(ConfigFlag::WindowResizable);
    flags.insert(ConfigFlag::Msaa4xHint);
    assert_eq!(flags.bits(), 0x40 | 0x04 | 0x20);
    assert!(flags.contains(ConfigFlag::VsyncHint));
    assert!(flags.contains(ConfigFlag::WindowResizable));
    assert!(flags.contains(ConfigFlag::Msaa4xHint));
    assert!(!flags.contains(ConfigFlag::FullscreenMode));
}

#[test]
fn conflicting_flags_are_kept_side_by_side() {
    let mut flags = ConfigFlagSet::empty();
    flags.insert(ConfigFlag::WindowMinimized);
    flags.insert(ConfigFlag::WindowMaximized);
    flags.insert(ConfigFlag::FullscreenMode);
    assert_eq!(flags.bits(), 0x200 | 0x400 | 0x002);
}

#[test]
fn remove_switches_one_flag_off_and_no_other() {
    let mut all = ConfigFlagSet::empty();
    for flag in ALL {
        all.insert(flag);
    }
    assert_eq!(all.bits(), 0x0001_3ffe);
    for flag in ALL {
        let mut flags = all;
        flags.remove(flag);
        assert_eq!(flags.bits(), all.bits() & !flag.mask());
        for other in ALL {
            assert_eq!(flags.contains(other), other != flag);
        }
        // a second time changes nothing
        let once = flags;
        flags.remove(flag);
        assert_eq!(flags, once);
    }
}
