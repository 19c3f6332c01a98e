use light_control::acquisition::{
    init, serialize, Blinker, ControlState, Lights, PinLevels, PinSnapshot, Polarity,
    HIGH_BEAM_BIT, LEFT_BLINKER_BIT, LIGHTS_ENABLED_BIT, RESERVED_BITS, RIGHT_BLINKER_BIT,
};

fn snapshot_from_bits(bits: u8) -> PinSnapshot {
    PinSnapshot {
        left_blinker: bits & 1 != 0,
        right_blinker: bits & 2 != 0,
        lights_on: bits & 4 != 0,
        high_beam: bits & 8 != 0,
        auto_enabled: bits & 16 != 0,
        ambient_dark: bits & 32 != 0,
    }
}

fn all_snapshots() -> Vec<PinSnapshot> {
    (0u8..64).map(snapshot_from_bits).collect()
}

fn all_states() -> Vec<ControlState> {
    let mut states = Vec::new();
    for blinker in [Blinker::Off, Blinker::Left, Blinker::Right] {
        for lights in [Lights::Off, Lights::Low, Lights::High] {
            for auto in [false, true] {
                states.push(ControlState { blinker, lights, auto });
            }
        }
    }
    states
}

#[test]
fn left_blinker_with_manual_low_beam() {
    let snapshot = PinSnapshot {
        left_blinker: true,
        right_blinker: false,
        lights_on: true,
        high_beam: false,
        auto_enabled: false,
        ambient_dark: false,
    };
    let state = ControlState::from_snapshot(snapshot);
    assert_eq!(
        state,
        ControlState { blinker: Blinker::Left, lights: Lights::Low, auto: false }
    );
    assert_eq!(state.encode(), 0b0000_1001);
}

#[test]
fn high_beam_in_auto_mode_when_dark() {
    let snapshot = PinSnapshot {
        left_blinker: false,
        right_blinker: false,
        lights_on: false,
        high_beam: true,
        auto_enabled: true,
        ambient_dark: true,
    };
    let state = ControlState::from_snapshot(snapshot);
    assert_eq!(
        state,
        ControlState { blinker: Blinker::Off, lights: Lights::High, auto: true }
    );
    assert_eq!(state.encode(), 0b0000_1100);
}

#[test]
fn reserved_bits_are_clear_for_every_snapshot() {
    for snapshot in all_snapshots() {
        let byte = ControlState::from_snapshot(snapshot).encode();
        assert_eq!(byte & 0xF0, 0, "{:?}", snapshot);
        assert_eq!(byte & RESERVED_BITS, 0, "{:?}", snapshot);
    }
}

#[test]
fn both_blinkers_engaged_resolve_to_off() {
    let mut seen: u32 = 0;
    for snapshot in all_snapshots() {
        if snapshot.left_blinker && snapshot.right_blinker {
            let state = ControlState::from_snapshot(snapshot);
            assert_eq!(state.blinker, Blinker::Off, "{:?}", snapshot);
            assert_eq!(state.encode() & 0b0000_0011, 0, "{:?}", snapshot);
            seen += 1;
        }
    }
    assert_eq!(seen, 16);
}

#[test]
fn blinker_follows_the_single_engaged_side() {
    for snapshot in all_snapshots() {
        let expected = match (snapshot.left_blinker, snapshot.right_blinker) {
            (true, false) => Blinker::Left,
            (false, true) => Blinker::Right,
            (false, false) | (true, true) => Blinker::Off,
        };
        assert_eq!(ControlState::from_snapshot(snapshot).blinker, expected, "{:?}", snapshot);
    }
}

#[test]
fn lights_off_clears_the_enabled_bit() {
    for state in all_states() {
        if state.lights == Lights::Off {
            assert_eq!(state.encode() & 0b0000_1000, 0, "{:?}", state);
            assert_eq!(state.encode() & LIGHTS_ENABLED_BIT, 0, "{:?}", state);
        } else {
            assert_eq!(state.encode() & 0b0000_1000, 0b0000_1000, "{:?}", state);
        }
    }
}

#[test]
fn auto_mode_ignores_the_manual_switch() {
    for snapshot in all_snapshots() {
        if !snapshot.auto_enabled {
            continue;
        }
        let flipped = PinSnapshot { lights_on: !snapshot.lights_on, ..snapshot };
        let state = ControlState::from_snapshot(snapshot);
        assert_eq!(state.lights, ControlState::from_snapshot(flipped).lights, "{:?}", snapshot);
        assert_eq!(state.lights != Lights::Off, snapshot.ambient_dark, "{:?}", snapshot);
    }
}

#[test]
fn auto_mode_bright_keeps_lights_off_with_switch_engaged() {
    let snapshot = PinSnapshot {
        left_blinker: false,
        right_blinker: false,
        lights_on: true,
        high_beam: true,
        auto_enabled: true,
        ambient_dark: false,
    };
    let state = ControlState::from_snapshot(snapshot);
    assert_eq!(state.lights, Lights::Off);
    assert_eq!(state.encode(), 0);
}

#[test]
fn manual_mode_ignores_the_sensor() {
    for snapshot in all_snapshots() {
        if snapshot.auto_enabled {
            continue;
        }
        let flipped = PinSnapshot { ambient_dark: !snapshot.ambient_dark, ..snapshot };
        let state = ControlState::from_snapshot(snapshot);
        assert_eq!(state.lights, ControlState::from_snapshot(flipped).lights, "{:?}", snapshot);
        assert_eq!(state.lights != Lights::Off, snapshot.lights_on, "{:?}", snapshot);
    }
}

#[test]
fn beam_switch_selects_only_while_lights_are_on() {
    for snapshot in all_snapshots() {
        let state = ControlState::from_snapshot(snapshot);
        let flipped = ControlState::from_snapshot(PinSnapshot {
            high_beam: !snapshot.high_beam,
            ..snapshot
        });
        if state.lights == Lights::Off {
            assert_eq!(flipped, state, "{:?}", snapshot);
        } else {
            let expected = if snapshot.high_beam { Lights::High } else { Lights::Low };
            assert_eq!(state.lights, expected, "{:?}", snapshot);
            assert_ne!(flipped.lights, state.lights, "{:?}", snapshot);
            assert_ne!(flipped.lights, Lights::Off, "{:?}", snapshot);
        }
    }
}

#[test]
fn auto_flag_follows_the_switch_on_every_snapshot() {
    for snapshot in all_snapshots() {
        assert_eq!(ControlState::from_snapshot(snapshot).auto, snapshot.auto_enabled);
    }
}

#[test]
fn encode_gives_the_documented_byte_for_each_state() {
    let table = [
        (Blinker::Off, Lights::Off, 0b0000_0000u8),
        (Blinker::Left, Lights::Off, 0b0000_0001),
        (Blinker::Right, Lights::Off, 0b0000_0010),
        (Blinker::Off, Lights::Low, 0b0000_1000),
        (Blinker::Left, Lights::Low, 0b0000_1001),
        (Blinker::Right, Lights::Low, 0b0000_1010),
        (Blinker::Off, Lights::High, 0b0000_1100),
        (Blinker::Left, Lights::High, 0b0000_1101),
        (Blinker::Right, Lights::High, 0b0000_1110),
    ];
    for (blinker, lights, byte) in table {
        for auto in [false, true] {
            assert_eq!(ControlState { blinker, lights, auto }.encode(), byte);
        }
    }
}

#[test]
fn encode_sets_each_bit_exactly_when_its_flag_holds() {
    for state in all_states() {
        let byte = state.encode();
        assert_eq!(byte & LEFT_BLINKER_BIT != 0, state.blinker == Blinker::Left);
        assert_eq!(byte & RIGHT_BLINKER_BIT != 0, state.blinker == Blinker::Right);
        assert_eq!(byte & HIGH_BEAM_BIT != 0, state.lights == Lights::High);
        assert_eq!(byte & LIGHTS_ENABLED_BIT != 0, state.lights != Lights::Off);
    }
}

#[test]
fn bit_constants_have_the_documented_values() {
    assert_eq!(LEFT_BLINKER_BIT, 1 << 0);
    assert_eq!(RIGHT_BLINKER_BIT, 1 << 1);
    assert_eq!(HIGH_BEAM_BIT, 1 << 2);
    assert_eq!(LIGHTS_ENABLED_BIT, 1 << 3);
    assert_eq!(RESERVED_BITS, 0b1111_0000);
}

#[test]
fn states_with_different_lighting_have_different_bytes() {
    let states = all_states();
    for a in &states {
        for b in &states {
            if a.blinker != b.blinker || a.lights != b.lights {
                assert_ne!(a.encode(), b.encode(), "{:?} {:?}", a, b);
            } else {
                assert_eq!(a.encode(), b.encode(), "{:?} {:?}", a, b);
            }
        }
    }
}

#[test]
fn no_byte_shows_both_blinkers_or_high_beam_without_lights() {
    for state in all_states() {
        let byte = state.encode();
        assert_ne!(byte & 0b0000_0011, 0b0000_0011, "{:?}", state);
        assert_ne!(byte & 0b0000_1100, 0b0000_0100, "{:?}", state);
    }
}

#[test]
fn polarity_decides_which_level_engages() {
    assert!(Polarity::ActiveLow.is_engaged(false));
    assert!(!Polarity::ActiveLow.is_engaged(true));
    assert!(Polarity::ActiveHigh.is_engaged(true));
    assert!(!Polarity::ActiveHigh.is_engaged(false));
}

#[test]
fn switches_are_active_low() {
    let all_high = PinLevels {
        left_blinker: true,
        right_blinker: true,
        lights_on: true,
        high_beam: true,
        auto_mode: true,
        light_sensor: false,
    };
    let idle = PinSnapshot::from_levels(all_high, Polarity::ActiveHigh);
    assert_eq!(
        idle,
        PinSnapshot {
            left_blinker: false,
            right_blinker: false,
            lights_on: false,
            high_beam: false,
            auto_enabled: false,
            ambient_dark: false,
        }
    );

    let all_low = PinLevels {
        left_blinker: false,
        right_blinker: false,
        lights_on: false,
        high_beam: false,
        auto_mode: false,
        light_sensor: true,
    };
    let engaged = PinSnapshot::from_levels(all_low, Polarity::ActiveHigh);
    assert_eq!(
        engaged,
        PinSnapshot {
            left_blinker: true,
            right_blinker: true,
            lights_on: true,
            high_beam: true,
            auto_enabled: true,
            ambient_dark: true,
        }
    );
}

#[test]
fn each_switch_line_maps_to_its_own_field() {
    let idle = PinLevels {
        left_blinker: true,
        right_blinker: true,
        lights_on: true,
        high_beam: true,
        auto_mode: true,
        light_sensor: false,
    };
    let none = PinSnapshot {
        left_blinker: false,
        right_blinker: false,
        lights_on: false,
        high_beam: false,
        auto_enabled: false,
        ambient_dark: false,
    };
    let sensor = Polarity::ActiveHigh;
    assert_eq!(
        PinSnapshot::from_levels(PinLevels { left_blinker: false, ..idle }, sensor),
        PinSnapshot { left_blinker: true, ..none }
    );
    assert_eq!(
        PinSnapshot::from_levels(PinLevels { right_blinker: false, ..idle }, sensor),
        PinSnapshot { right_blinker: true, ..none }
    );
    assert_eq!(
        PinSnapshot::from_levels(PinLevels { lights_on: false, ..idle }, sensor),
        PinSnapshot { lights_on: true, ..none }
    );
    assert_eq!(
        PinSnapshot::from_levels(PinLevels { high_beam: false, ..idle }, sensor),
        PinSnapshot { high_beam: true, ..none }
    );
    assert_eq!(
        PinSnapshot::from_levels(PinLevels { auto_mode: false, ..idle }, sensor),
        PinSnapshot { auto_enabled: true, ..none }
    );
    assert_eq!(
        PinSnapshot::from_levels(PinLevels { light_sensor: true, ..idle }, sensor),
        PinSnapshot { ambient_dark: true, ..none }
    );
}

#[test]
fn sensor_polarity_is_a_parameter() {
    let levels = PinLevels {
        left_blinker: true,
        right_blinker: true,
        lights_on: true,
        high_beam: true,
        auto_mode: false,
        light_sensor: true,
    };
    assert!(PinSnapshot::from_levels(levels, Polarity::ActiveHigh).ambient_dark);
    assert!(!PinSnapshot::from_levels(levels, Polarity::ActiveLow).ambient_dark);
    let low = PinLevels { light_sensor: false, ..levels };
    assert!(!PinSnapshot::from_levels(low, Polarity::ActiveHigh).ambient_dark);
    assert!(PinSnapshot::from_levels(low, Polarity::ActiveLow).ambient_dark);
}

#[test]
fn init_resolves_the_first_reading() {
    for snapshot in all_snapshots() {
        assert_eq!(init(snapshot), ControlState::from_snapshot(snapshot));
    }
    let boot = snapshot_from_bits(16);
    assert!(init(boot).auto);
    assert_eq!(init(boot).lights, Lights::Off);
}

#[test]
fn serialize_replaces_the_state_and_returns_its_byte() {
    let mut state = init(snapshot_from_bits(0));
    assert_eq!(state, ControlState { blinker: Blinker::Off, lights: Lights::Off, auto: false });

    let byte = serialize(&mut state, snapshot_from_bits(0b00_0110));
    assert_eq!(state, ControlState { blinker: Blinker::Right, lights: Lights::Low, auto: false });
    assert_eq!(byte, 0b0000_1010);

    let byte = serialize(&mut state, snapshot_from_bits(0b11_1001));
    assert_eq!(state, ControlState { blinker: Blinker::Left, lights: Lights::High, auto: true });
    assert_eq!(byte, 0b0000_1101);
}

#[test]
fn serialize_does_not_latch_the_previous_state() {
    for previous in all_snapshots() {
        for snapshot in [snapshot_from_bits(0), snapshot_from_bits(0b000011), snapshot_from_bits(0b110000)] {
            let mut state = init(previous);
            let byte = serialize(&mut state, snapshot);
            assert_eq!(state, ControlState::from_snapshot(snapshot));
            assert_eq!(byte, state.encode());
        }
    }
}

#[test]
fn auto_switch_takes_effect_on_the_next_cycle() {
    let dark_manual_off = PinSnapshot {
        left_blinker: false,
        right_blinker: false,
        lights_on: false,
        high_beam: false,
        auto_enabled: false,
        ambient_dark: true,
    };
    let mut state = init(dark_manual_off);
    assert_eq!(state.lights, Lights::Off);
    assert!(!state.auto);

    let byte = serialize(&mut state, PinSnapshot { auto_enabled: true, ..dark_manual_off });
    assert!(state.auto);
    assert_eq!(state.lights, Lights::Low);
    assert_eq!(byte, 0b0000_1000);

    let byte = serialize(&mut state, dark_manual_off);
    assert!(!state.auto);
    assert_eq!(state.lights, Lights::Off);
    assert_eq!(byte, 0);
}
