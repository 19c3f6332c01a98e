//! The input side: what the switches say, what lighting that calls for, and
//! how the result is packed into the status byte.

use vstd::prelude::*;

verus! {

/// Electrical convention of an input line.
#[derive(Clone, Copy, Debug, PartialEq, Eq, Structural)]
pub enum Polarity {
    /// The input is engaged while its line is low.
    ActiveLow,
    /// The input is engaged while its line is high.
    ActiveHigh,
}

impl Polarity {
    /// Whether an input of this polarity is engaged at the given line level.
    pub open spec fn engaged(self, line_high: bool) -> bool {
        match self {
            Polarity::ActiveLow => !line_high,
            Polarity::ActiveHigh => line_high,
        }
    }

    /// Tells whether an input of this polarity is engaged at the given line level.
    pub fn is_engaged(self, line_high: bool) -> (engaged: bool)
        ensures
            engaged == self.engaged(line_high),
    {
        match self {
            Polarity::ActiveLow => !line_high,
            Polarity::ActiveHigh => line_high,
        }
    }
}

/// Line levels of the six monitored inputs, all read in one go.
/// `true` stands for a high line.
#[derive(Clone, Copy, Debug, PartialEq, Eq, Structural)]
pub struct PinLevels {
    pub left_blinker: bool,
    pub right_blinker: bool,
    pub lights_on: bool,
    pub high_beam: bool,
    pub auto_mode: bool,
    pub light_sensor: bool,
}

/// What the six inputs say, polarity already taken into account: `true`
/// stands for an engaged switch, and for darkness at the sensor.
#[derive(Clone, Copy, Debug, PartialEq, Eq, Structural)]
pub struct PinSnapshot {
    pub left_blinker: bool,
    pub right_blinker: bool,
    pub lights_on: bool,
    pub high_beam: bool,
    pub auto_enabled: bool,
    pub ambient_dark: bool,
}

/// Turn-signal state.
#[derive(Clone, Copy, Debug, PartialEq, Eq, Structural)]
pub enum Blinker {
    Off,
    Left,
    Right,
}

/// Headlight state.
#[derive(Clone, Copy, Debug, PartialEq, Eq, Structural)]
pub enum Lights {
    Off,
    Low,
    High,
}

impl Blinker {
    /// What the turn-signal state adds to the value of the status byte:
    /// bit 0 for left, bit 1 for right.
    pub open spec fn weight(self) -> int {
        match self {
            Blinker::Off => 0,
            Blinker::Left => 1,
            Blinker::Right => 2,
        }
    }
}

impl Lights {
    /// What the headlight state adds to the value of the status byte: bit 3
    /// for headlights on, and bit 2 with it for high beam.
    pub open spec fn weight(self) -> int {
        match self {
            Lights::Off => 0,
            Lights::Low => 8,
            Lights::High => 12,
        }
    }
}

/// The lighting that the panel currently calls for.
#[derive(Clone, Copy, Debug, PartialEq, Eq, Structural)]
pub struct ControlState {
    pub blinker: Blinker,
    pub lights: Lights,
    /// Whether the ambient-light sensor decides in place of the manual
    /// lights switch.
    pub auto: bool,
}

/// Bit 0 of the status byte: the left turn signal is on.
pub const LEFT_BLINKER_BIT: u8 = 0x01;

/// Bit 1 of the status byte: the right turn signal is on.
pub const RIGHT_BLINKER_BIT: u8 = 0x02;

/// Bit 2 of the status byte: high beam is selected. It carries no meaning
/// while bit 3 is clear.
pub const HIGH_BEAM_BIT: u8 = 0x04;

/// Bit 3 of the status byte: the headlights are on.
pub const LIGHTS_ENABLED_BIT: u8 = 0x08;

/// Bits 4 to 7 of the status byte, which are never set.
pub const RESERVED_BITS: u8 = 0xF0;

impl PinLevels {
    /// The snapshot that these levels amount to. The five switches pull their
    /// line low when engaged; the sensor signals darkness by the level that
    /// `sensor` names.
    pub open spec fn snapshot(self, sensor: Polarity) -> PinSnapshot {
        PinSnapshot {
            left_blinker: !self.left_blinker,
            right_blinker: !self.right_blinker,
            lights_on: !self.lights_on,
            high_beam: !self.high_beam,
            auto_enabled: !self.auto_mode,
            ambient_dark: sensor.engaged(self.light_sensor),
        }
    }
}

impl PinSnapshot {
    /// Interprets raw line levels. The switches are active-low; the polarity
    /// of the ambient-light sensor depends on how it is wired and is given by
    /// `sensor`.
    pub fn from_levels(levels: PinLevels, sensor: Polarity) -> (snapshot: PinSnapshot)
        ensures
            snapshot == levels.snapshot(sensor),
    {
        PinSnapshot {
            left_blinker: Polarity::ActiveLow.is_engaged(levels.left_blinker),
            right_blinker: Polarity::ActiveLow.is_engaged(levels.right_blinker),
            lights_on: Polarity::ActiveLow.is_engaged(levels.lights_on),
            high_beam: Polarity::ActiveLow.is_engaged(levels.high_beam),
            auto_enabled: Polarity::ActiveLow.is_engaged(levels.auto_mode),
            ambient_dark: sensor.is_engaged(levels.light_sensor),
        }
    }

    /// The turn signal called for: a side only while that side alone is
    /// engaged. Both sides engaged at once give `Off`.
    pub open spec fn blinker(self) -> Blinker {
        if self.left_blinker && !self.right_blinker {
            Blinker::Left
        } else if self.right_blinker && !self.left_blinker {
            Blinker::Right
        } else {
            Blinker::Off
        }
    }

    /// Whether the headlights are to be on: in automatic mode the sensor
    /// decides and the manual switch is not looked at; otherwise the manual
    /// switch decides and the sensor is not looked at.
    pub open spec fn lights_wanted(self) -> bool {
        if self.auto_enabled {
            self.ambient_dark
        } else {
            self.lights_on
        }
    }

    /// The headlight state called for. The beam switch matters only while
    /// the headlights are to be on.
    pub open spec fn lights(self) -> Lights {
        if !self.lights_wanted() {
            Lights::Off
        } else if self.high_beam {
            Lights::High
        } else {
            Lights::Low
        }
    }

    /// The control state that this snapshot resolves to.
    pub open spec fn control_state(self) -> ControlState {
        ControlState { blinker: self.blinker(), lights: self.lights(), auto: self.auto_enabled }
    }
}

/// The status byte with the given meaning of its four low bits.
pub open spec fn pack(left: bool, right: bool, high: bool, enabled: bool) -> u8 {
    (if left { LEFT_BLINKER_BIT } else { 0u8 })
        | (if right { RIGHT_BLINKER_BIT } else { 0u8 })
        | (if high { HIGH_BEAM_BIT } else { 0u8 })
        | (if enabled { LIGHTS_ENABLED_BIT } else { 0u8 })
}

/// Each of the four low bits of a packed byte is set exactly when its flag
/// is, and the four high bits are clear.
pub proof fn lemma_pack_bits(left: bool, right: bool, high: bool, enabled: bool)
    by (bit_vector)
    ensures
        (pack(left, right, high, enabled) & LEFT_BLINKER_BIT != 0) == left,
        (pack(left, right, high, enabled) & RIGHT_BLINKER_BIT != 0) == right,
        (pack(left, right, high, enabled) & HIGH_BEAM_BIT != 0) == high,
        (pack(left, right, high, enabled) & LIGHTS_ENABLED_BIT != 0) == enabled,
        pack(left, right, high, enabled) & RESERVED_BITS == 0,
{
}

/// The value of a packed byte is the sum of the place values of the flags
/// that are set.
pub proof fn lemma_pack_value(left: bool, right: bool, high: bool, enabled: bool)
    by (bit_vector)
    ensures
        pack(left, right, high, enabled) == (if left { 1u8 } else { 0u8 })
            + (if right { 2u8 } else { 0u8 })
            + (if high { 4u8 } else { 0u8 })
            + (if enabled { 8u8 } else { 0u8 }),
{
}

impl ControlState {
    /// The status byte that stands for this state on the wire: the turn
    /// signal in bits 0 and 1, the headlights in bits 2 and 3.
    pub open spec fn wire_byte(self) -> u8 {
        (self.blinker.weight() + self.lights.weight()) as u8
    }

    /// Resolves a snapshot into the lighting it calls for.
    pub fn from_snapshot(snapshot: PinSnapshot) -> (state: ControlState)
        ensures
            state == snapshot.control_state(),
    {
        let blinker = match (snapshot.left_blinker, snapshot.right_blinker) {
            (true, false) => Blinker::Left,
            (false, true) => Blinker::Right,
            _ => Blinker::Off,
        };
        let deciding_input = if snapshot.auto_enabled {
            snapshot.ambient_dark
        } else {
            snapshot.lights_on
        };
        let lights = match (deciding_input, snapshot.high_beam) {
            (false, _) => Lights::Off,
            (true, false) => Lights::Low,
            (true, true) => Lights::High,
        };
        ControlState { blinker, lights, auto: snapshot.auto_enabled }
    }

    /// Packs the state into its status byte.
    pub fn encode(&self) -> (byte: u8)
        ensures
            byte == self.wire_byte(),
            (byte & LEFT_BLINKER_BIT != 0) == (self.blinker == Blinker::Left),
            (byte & RIGHT_BLINKER_BIT != 0) == (self.blinker == Blinker::Right),
            (byte & HIGH_BEAM_BIT != 0) == (self.lights == Lights::High),
            (byte & LIGHTS_ENABLED_BIT != 0) == (self.lights != Lights::Off),
            byte & RESERVED_BITS == 0,
    {
        let blinker_bits: u8 = match self.blinker {
            Blinker::Off => 0,
            Blinker::Left => LEFT_BLINKER_BIT,
            Blinker::Right => RIGHT_BLINKER_BIT,
        };
        let lights_bits: u8 = match self.lights {
            Lights::Off => 0,
            Lights::Low => LIGHTS_ENABLED_BIT,
            Lights::High => LIGHTS_ENABLED_BIT | HIGH_BEAM_BIT,
        };
        proof {
            let left = self.blinker == Blinker::Left;
            let right = self.blinker == Blinker::Right;
            let high = self.lights == Lights::High;
            let enabled = self.lights != Lights::Off;
            assert(blinker_bits | lights_bits == pack(left, right, high, enabled)) by (bit_vector)
                requires
                    !(left && right),
                    high ==> enabled,
                    blinker_bits == (if left {
                        LEFT_BLINKER_BIT
                    } else if right {
                        RIGHT_BLINKER_BIT
                    } else {
                        0u8
                    }),
                    lights_bits == (if !enabled {
                        0u8
                    } else if high {
                        LIGHTS_ENABLED_BIT | HIGH_BEAM_BIT
                    } else {
                        LIGHTS_ENABLED_BIT
                    }),
            ;
            lemma_pack_bits(left, right, high, enabled);
            lemma_pack_value(left, right, high, enabled);
        }
        blinker_bits | lights_bits
    }
}

/// Creates the control state at startup from the first reading of the
/// inputs.
pub fn init(initial: PinSnapshot) -> (state: ControlState)
    ensures
        state == initial.control_state(),
{
    ControlState::from_snapshot(initial)
}

/// Runs the input side of one cycle: replaces the control state by what the
/// snapshot calls for and returns the status byte of the new state.
pub fn serialize(state: &mut ControlState, snapshot: PinSnapshot) -> (byte: u8)
    ensures
        *final(state) == snapshot.control_state(),
        byte == snapshot.control_state().wire_byte(),
        byte & RESERVED_BITS == 0,
{
    *state = ControlState::from_snapshot(snapshot);
    state.encode()
}

/// The status byte is its four flags packed: left turn signal, right turn
/// signal, high beam, headlights on.
pub proof fn lemma_wire_byte_is_packed(state: ControlState)
    ensures
        state.wire_byte() == pack(
            state.blinker == Blinker::Left,
            state.blinker == Blinker::Right,
            state.lights == Lights::High,
            state.lights != Lights::Off,
        ),
{
    lemma_pack_value(
        state.blinker == Blinker::Left,
        state.blinker == Blinker::Right,
        state.lights == Lights::High,
        state.lights != Lights::Off,
    );
}

/// The bit layout of the status byte: bit 0 says left turn signal, bit 1
/// right turn signal, bit 2 high beam, bit 3 headlights on, and bits 4 to 7
/// are clear.
pub proof fn lemma_wire_byte_layout(state: ControlState)
    ensures
        (state.wire_byte() & LEFT_BLINKER_BIT != 0) == (state.blinker == Blinker::Left),
        (state.wire_byte() & RIGHT_BLINKER_BIT != 0) == (state.blinker == Blinker::Right),
        (state.wire_byte() & HIGH_BEAM_BIT != 0) == (state.lights == Lights::High),
        (state.wire_byte() & LIGHTS_ENABLED_BIT != 0) == (state.lights != Lights::Off),
        state.wire_byte() & RESERVED_BITS == 0,
{
    lemma_wire_byte_is_packed(state);
    lemma_pack_bits(
        state.blinker == Blinker::Left,
        state.blinker == Blinker::Right,
        state.lights == Lights::High,
        state.lights != Lights::Off,
    );
}

/// Whatever the inputs say, the four high bits of the resulting status byte
/// are clear.
pub proof fn lemma_reserved_bits_clear(snapshot: PinSnapshot)
    ensures
        snapshot.control_state().wire_byte() & RESERVED_BITS == 0,
{
    lemma_wire_byte_layout(snapshot.control_state());
}

/// With both turn-signal switches engaged at once, no turn signal is called
/// for.
pub proof fn lemma_both_blinkers_resolve_off(snapshot: PinSnapshot)
    requires
        snapshot.left_blinker,
        snapshot.right_blinker,
    ensures
        snapshot.control_state().blinker == Blinker::Off,
{
}

/// With the headlights off, the lights-enabled bit of the status byte is
/// clear.
pub proof fn lemma_lights_off_clears_enabled_bit(state: ControlState)
    requires
        state.lights == Lights::Off,
    ensures
        state.wire_byte() & LIGHTS_ENABLED_BIT == 0,
{
    lemma_wire_byte_layout(state);
}

/// In automatic mode the manual lights switch has no say: putting it in any
/// position leaves the headlight state as it is, and the headlights are on
/// exactly while the sensor reports darkness.
pub proof fn lemma_auto_mode_ignores_manual_switch(snapshot: PinSnapshot, lights_on: bool)
    requires
        snapshot.auto_enabled,
    ensures
        (PinSnapshot { lights_on, ..snapshot }).control_state().lights
            == snapshot.control_state().lights,
        (snapshot.control_state().lights != Lights::Off) == snapshot.ambient_dark,
{
}

/// In manual mode the sensor has no say: whatever it reports, the headlight
/// state stays as it is, and the headlights are on exactly while the manual
/// switch is engaged.
pub proof fn lemma_manual_mode_ignores_sensor(snapshot: PinSnapshot, ambient_dark: bool)
    requires
        !snapshot.auto_enabled,
    ensures
        (PinSnapshot { ambient_dark, ..snapshot }).control_state().lights
            == snapshot.control_state().lights,
        (snapshot.control_state().lights != Lights::Off) == snapshot.lights_on,
{
}

/// The beam switch changes nothing while the headlights are off.
pub proof fn lemma_beam_switch_idle_while_lights_off(snapshot: PinSnapshot, high_beam: bool)
    requires
        snapshot.control_state().lights == Lights::Off,
    ensures
        (PinSnapshot { high_beam, ..snapshot }).control_state() == snapshot.control_state(),
{
}

/// Two states with the same status byte call for the same turn signal and
/// the same headlights.
pub proof fn lemma_wire_byte_injective(a: ControlState, b: ControlState)
    requires
        a.wire_byte() == b.wire_byte(),
    ensures
        a.blinker == b.blinker,
        a.lights == b.lights,
{
    lemma_wire_byte_layout(a);
    lemma_wire_byte_layout(b);
}

/// No status byte shows both turn signals at once, and none selects high
/// beam with the headlights off.
pub proof fn lemma_wire_byte_exclusive(state: ControlState)
    ensures
        !(state.wire_byte() & LEFT_BLINKER_BIT != 0 && state.wire_byte() & RIGHT_BLINKER_BIT != 0),
        state.wire_byte() & HIGH_BEAM_BIT != 0 ==> state.wire_byte() & LIGHTS_ENABLED_BIT != 0,
{
    lemma_wire_byte_layout(state);
}

} // verus!
