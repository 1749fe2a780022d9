//! Signal encoder: pure translation of semantic commands into the byte
//! frames the device expects on its control characteristic.

use crate::error::IqosError;
use crate::text::eq_lowered;
use crate::text::eq_str;
use crate::text::lower_seq;
use vstd::prelude::*;

verus! {

/// Register bit set when the device should vibrate as it starts being used.
pub const WHEN_STARTING_TO_USE_SIGNAL: u16 = 0x1000;

/// Register bit set when the device should vibrate as heating starts.
pub const WHEN_HEATING_START_SIGNAL: u16 = 0x0100;

/// Register bit set when the device should vibrate on manual termination.
pub const WHEN_MANUALLY_TERMINATED_SIGNAL: u16 = 0x0010;

/// Register bit set when the device should vibrate at the end of a puff.
pub const WHEN_PUFF_END_SIGNAL: u16 = 0x0001;

/// 8-bit wraparound sum of a byte sequence: the value of every constructed
/// frame's trailing checksum byte.
pub open spec fn wrap_sum(bytes: Seq<u8>) -> u8
    decreases bytes.len(),
{
    if bytes.len() == 0 {
        0u8
    } else {
        ((wrap_sum(bytes.drop_last()) + bytes.last()) % 256) as u8
    }
}

/// Computes the 8-bit wraparound sum of `bytes`.
pub fn compute_wrap_sum(bytes: &Vec<u8>) -> (r: u8)
    ensures
        r == wrap_sum(bytes@),
{
    let mut acc: u8 = 0;
    let mut i: usize = 0;
    while i < bytes.len()
        invariant
            i <= bytes@.len(),
            acc == wrap_sum(bytes@.take(i as int)),
        decreases bytes@.len() - i,
    {
        proof {
            assert(bytes@.take(i + 1).drop_last() =~= bytes@.take(i as int));
            assert(bytes@.take(i + 1).last() == bytes@[i as int]);
        }
        acc = acc.wrapping_add(bytes[i]);
        i = i + 1;
    }
    proof {
        assert(bytes@.take(bytes@.len() as int) =~= bytes@);
    }
    acc
}

/// The device's holder display brightness: the protocol knows exactly two
/// levels.
#[derive(Debug, Clone, Copy, PartialEq, Eq, Structural)]
pub enum BrightnessLevel {
    High,
    Low,
}

/// First frame of the brightness-high command.
pub open spec fn brightness_high_first() -> Seq<u8> {
    seq![0x00u8, 0xc0u8, 0x46u8, 0x23u8, 0x64u8, 0x00u8, 0x00u8, 0x00u8, 0x4fu8]
}

/// Second frame of the brightness-high command.
pub open spec fn brightness_high_second() -> Seq<u8> {
    seq![0x00u8, 0xc0u8, 0x02u8, 0x23u8, 0xc3u8]
}

/// Third frame of the brightness-high command.
pub open spec fn brightness_high_third() -> Seq<u8> {
    seq![0x00u8, 0xc9u8, 0x44u8, 0x24u8, 0x64u8, 0x00u8, 0x00u8, 0x00u8, 0x34u8]
}

/// First frame of the brightness-low command.
pub open spec fn brightness_low_first() -> Seq<u8> {
    seq![0x00u8, 0xc0u8, 0x46u8, 0x23u8, 0x1eu8, 0x00u8, 0x00u8, 0x00u8, 0xe1u8]
}

/// Second frame of the brightness-low command.
pub open spec fn brightness_low_second() -> Seq<u8> {
    seq![0x00u8, 0xc0u8, 0x02u8, 0x23u8, 0xc3u8]
}

/// Third frame of the brightness-low command.
pub open spec fn brightness_low_third() -> Seq<u8> {
    seq![0x00u8, 0xc9u8, 0x44u8, 0x24u8, 0x1eu8, 0x00u8, 0x00u8, 0x00u8, 0x9au8]
}

/// The three frames of a brightness command, in the order they must be
/// written to the device. These are protocol constants captured from the
/// vendor device; they are not derivable from a formula.
pub open spec fn brightness_frames_spec(level: BrightnessLevel) -> Seq<Seq<u8>> {
    match level {
        BrightnessLevel::High => seq![
            brightness_high_first(),
            brightness_high_second(),
            brightness_high_third(),
        ],
        BrightnessLevel::Low => seq![
            brightness_low_first(),
            brightness_low_second(),
            brightness_low_third(),
        ],
    }
}

/// Encodes a brightness command as its three frames, first to third.
pub fn encode_brightness(level: BrightnessLevel) -> (r: Vec<Vec<u8>>)
    ensures
        r.deep_view() =~~= brightness_frames_spec(level),
        r@.len() == 3,
{
    let first: Vec<u8> = match level {
        BrightnessLevel::High => vec![0x00u8, 0xc0u8, 0x46u8, 0x23u8, 0x64u8, 0x00u8, 0x00u8, 0x00u8, 0x4fu8],
        BrightnessLevel::Low => vec![0x00u8, 0xc0u8, 0x46u8, 0x23u8, 0x1eu8, 0x00u8, 0x00u8, 0x00u8, 0xe1u8],
    };
    let second: Vec<u8> = vec![0x00u8, 0xc0u8, 0x02u8, 0x23u8, 0xc3u8];
    let third: Vec<u8> = match level {
        BrightnessLevel::High => vec![0x00u8, 0xc9u8, 0x44u8, 0x24u8, 0x64u8, 0x00u8, 0x00u8, 0x00u8, 0x34u8],
        BrightnessLevel::Low => vec![0x00u8, 0xc9u8, 0x44u8, 0x24u8, 0x1eu8, 0x00u8, 0x00u8, 0x00u8, 0x9au8],
    };
    let mut frames: Vec<Vec<u8>> = Vec::new();
    frames.push(first);
    frames.push(second);
    frames.push(third);
    frames
}

/// Law: either brightness level encodes as exactly three frames, of nine,
/// five and nine bytes, sent first to third.
pub proof fn lemma_brightness_frames_shape(level: BrightnessLevel)
    ensures
        brightness_frames_spec(level).len() == 3,
        brightness_frames_spec(level)[0].len() == 9,
        brightness_frames_spec(level)[1].len() == 5,
        brightness_frames_spec(level)[2].len() == 9,
{
}

/// Frame that enables the flexpuff feature.
pub open spec fn flexpuff_signal(enable: bool) -> Seq<u8> {
    if enable {
        seq![0x00u8, 0xd2u8, 0x45u8, 0x22u8, 0x03u8, 0x01u8, 0x00u8, 0x00u8, 0x0au8]
    } else {
        seq![0x00u8, 0xd2u8, 0x45u8, 0x22u8, 0x03u8, 0x00u8, 0x00u8, 0x00u8, 0x0au8]
    }
}

/// Frame that enables or disables the auto-start feature.
pub open spec fn autostart_signal(enable: bool) -> Seq<u8> {
    if enable {
        seq![0x00u8, 0xc9u8, 0x47u8, 0x24u8, 0x01u8, 0x01u8, 0x00u8, 0x00u8, 0x3fu8]
    } else {
        seq![0x00u8, 0xc9u8, 0x47u8, 0x24u8, 0x01u8, 0x00u8, 0x00u8, 0x00u8, 0x54u8]
    }
}

/// Frame that enables or disables the smart-gesture feature.
pub open spec fn smartgesture_signal(enable: bool) -> Seq<u8> {
    if enable {
        seq![0x00u8, 0xc9u8, 0x47u8, 0x24u8, 0x04u8, 0x01u8, 0x00u8, 0x00u8, 0x3cu8]
    } else {
        seq![0x00u8, 0xc9u8, 0x47u8, 0x24u8, 0x04u8, 0x00u8, 0x00u8, 0x00u8, 0x57u8]
    }
}

/// Encodes the flexpuff on/off command as one frame.
pub fn encode_flexpuff(enable: bool) -> (r: Vec<u8>)
    ensures
        r@ =~= flexpuff_signal(enable),
{
    if enable {
        vec![0x00u8, 0xd2u8, 0x45u8, 0x22u8, 0x03u8, 0x01u8, 0x00u8, 0x00u8, 0x0au8]
    } else {
        vec![0x00u8, 0xd2u8, 0x45u8, 0x22u8, 0x03u8, 0x00u8, 0x00u8, 0x00u8, 0x0au8]
    }
}

/// Encodes the auto-start on/off command as one frame.
pub fn encode_autostart(enable: bool) -> (r: Vec<u8>)
    ensures
        r@ =~= autostart_signal(enable),
{
    if enable {
        vec![0x00u8, 0xc9u8, 0x47u8, 0x24u8, 0x01u8, 0x01u8, 0x00u8, 0x00u8, 0x3fu8]
    } else {
        vec![0x00u8, 0xc9u8, 0x47u8, 0x24u8, 0x01u8, 0x00u8, 0x00u8, 0x00u8, 0x54u8]
    }
}

/// Encodes the smart-gesture on/off command as one frame.
pub fn encode_smartgesture(enable: bool) -> (r: Vec<u8>)
    ensures
        r@ =~= smartgesture_signal(enable),
{
    if enable {
        vec![0x00u8, 0xc9u8, 0x47u8, 0x24u8, 0x04u8, 0x01u8, 0x00u8, 0x00u8, 0x3cu8]
    } else {
        vec![0x00u8, 0xc9u8, 0x47u8, 0x24u8, 0x04u8, 0x00u8, 0x00u8, 0x00u8, 0x57u8]
    }
}

impl BrightnessLevel {
    /// Parses a brightness level from text, ASCII case-insensitively:
    /// "high" and "low" (in any casing) succeed, everything else is a
    /// configuration error.
    pub fn parse(s: &str) -> (r: Result<BrightnessLevel, IqosError>)
        ensures
            lower_seq(s@) == "high"@ ==> r == Ok::<BrightnessLevel, IqosError>(
                BrightnessLevel::High,
            ),
            lower_seq(s@) == "low"@ ==> r == Ok::<BrightnessLevel, IqosError>(
                BrightnessLevel::Low,
            ),
            lower_seq(s@) != "high"@ && lower_seq(s@) != "low"@ ==> (r matches Err(e)
                && e matches IqosError::ConfigurationError(m)
                && m@ == "Invalid brightness level"@),
    {
        proof {
            reveal_strlit("high");
            reveal_strlit("low");
            assert("high"@.len() == 4 && "low"@.len() == 3);
        }
        if eq_lowered(s, "high") {
            Ok(BrightnessLevel::High)
        } else if eq_lowered(s, "low") {
            Ok(BrightnessLevel::Low)
        } else {
            Err(IqosError::ConfigurationError(String::from_str("Invalid brightness level")))
        }
    }

    /// The lowercase text of the level: "high" or "low".
    pub fn as_text(&self) -> (r: String)
        ensures
            *self is High ==> r@ == "high"@,
            *self is Low ==> r@ == "low"@,
    {
        match self {
            BrightnessLevel::High => String::from_str("high"),
            BrightnessLevel::Low => String::from_str("low"),
        }
    }
}

/// The five vibration triggers of the device, each independently on or off.
///
/// Four of the five have a fixed bit in the device's 16-bit vibration
/// register; the charging-start trigger is accepted as input but has no bit
/// in the register, so it never reaches the wire.
#[derive(Debug, Clone, Copy, PartialEq, Eq, Structural)]
pub struct VibrationSettings {
    pub when_charging_start: bool,
    pub when_heating_start: bool,
    pub when_starting_to_use: bool,
    pub when_puff_end: bool,
    pub when_manually_terminated: bool,
}

/// The 16-bit vibration register: the bitwise OR of the bit values of the
/// enabled triggers. Charging-start contributes nothing.
pub open spec fn vibration_register(s: VibrationSettings) -> u16 {
    (if s.when_heating_start {
        WHEN_HEATING_START_SIGNAL
    } else {
        0u16
    }) | (if s.when_starting_to_use {
        WHEN_STARTING_TO_USE_SIGNAL
    } else {
        0u16
    }) | (if s.when_puff_end {
        WHEN_PUFF_END_SIGNAL
    } else {
        0u16
    }) | (if s.when_manually_terminated {
        WHEN_MANUALLY_TERMINATED_SIGNAL
    } else {
        0u16
    })
}

/// The fixed six-byte prefix of the vibration command frame.
pub open spec fn vibration_prefix() -> Seq<u8> {
    seq![0x00u8, 0xc9u8, 0x44u8, 0x23u8, 0x10u8, 0x00u8]
}

/// The first eight bytes of the vibration frame: the prefix followed by the
/// register, high byte first.
pub open spec fn vibration_body(s: VibrationSettings) -> Seq<u8> {
    vibration_prefix() + seq![
        (vibration_register(s) >> 8) as u8,
        (vibration_register(s) & 0xff) as u8,
    ]
}

/// The complete nine-byte vibration frame: body plus its wraparound
/// checksum.
pub open spec fn vibration_frame(s: VibrationSettings) -> Seq<u8> {
    vibration_body(s) + seq![wrap_sum(vibration_body(s))]
}

impl VibrationSettings {
    /// Bundles the five triggers into one settings value.
    pub fn new(
        when_charging_start: bool,
        when_heating_start: bool,
        when_starting_to_use: bool,
        when_puff_end: bool,
        when_manually_terminated: bool,
    ) -> (r: Self)
        ensures
            r == (VibrationSettings {
                when_charging_start,
                when_heating_start,
                when_starting_to_use,
                when_puff_end,
                when_manually_terminated,
            }),
    {
        Self {
            when_charging_start,
            when_heating_start,
            when_starting_to_use,
            when_puff_end,
            when_manually_terminated,
        }
    }

    /// Encodes the settings as the nine-byte vibration command frame:
    /// prefix, register high byte, register low byte, checksum.
    pub fn build(&self) -> (r: Vec<u8>)
        ensures
            r@ =~= vibration_frame(*self),
            r@.len() == 9,
    {
        let mut signal: Vec<u8> = vec![0x00u8, 0xc9u8, 0x44u8, 0x23u8, 0x10u8, 0x00u8];
        let reg_heating: u16 = if self.when_heating_start {
            WHEN_HEATING_START_SIGNAL
        } else {
            0u16
        };
        let reg_starting: u16 = if self.when_starting_to_use {
            WHEN_STARTING_TO_USE_SIGNAL
        } else {
            0u16
        };
        let reg_puff: u16 = if self.when_puff_end {
            WHEN_PUFF_END_SIGNAL
        } else {
            0u16
        };
        let reg_terminated: u16 = if self.when_manually_terminated {
            WHEN_MANUALLY_TERMINATED_SIGNAL
        } else {
            0u16
        };
        let reg: u16 = reg_heating | reg_starting | reg_puff | reg_terminated;
        proof {
            assert(reg == vibration_register(*self));
            assert(reg >> 8 < 256 && (reg & 0xff) < 256) by (bit_vector);
        }
        let hi: u8 = (reg >> 8) as u8;
        let lo: u8 = (reg & 0xff) as u8;
        signal.push(hi);
        signal.push(lo);
        proof {
            assert(signal@ =~= vibration_body(*self));
        }
        let checksum: u8 = compute_wrap_sum(&signal);
        signal.push(checksum);
        signal
    }

    /// Parses settings from option/value argument pairs ("heating on",
    /// "puffend off", ...). Every trigger starts off; pairs are read left to
    /// right, a later pair overriding an earlier one with the same key;
    /// unknown keys and a trailing unpaired argument are ignored.
    pub fn parse_from_args(args: &[&str]) -> (r: Self)
        ensures
            r == parsed_vibration_args(args@),
    {
        let mut settings = VibrationSettings::new(false, false, false, false, false);
        let mut i: usize = 0;
        while i < args.len() && i + 1 < args.len()
            invariant
                i % 2 == 0,
                i <= args@.len(),
                settings == parsed_arg_pairs(args@, (i / 2) as nat),
            decreases args@.len() - i,
        {
            let key = args[i];
            let on = eq_str(args[i + 1], "on");
            proof {
                reveal_strlit("on");
            }
            if eq_str(key, "charge") {
                settings.when_charging_start = on;
            } else if eq_str(key, "heating") {
                settings.when_heating_start = on;
            } else if eq_str(key, "starting") {
                settings.when_starting_to_use = on;
            } else if eq_str(key, "terminated") {
                settings.when_manually_terminated = on;
            } else if eq_str(key, "puffend") {
                settings.when_puff_end = on;
            }
            proof {
                reveal_strlit("charge");
                reveal_strlit("heating");
                reveal_strlit("starting");
                reveal_strlit("terminated");
                reveal_strlit("puffend");
                assert(parsed_arg_pairs(args@, (i / 2 + 1) as nat) == apply_arg_pair(
                    parsed_arg_pairs(args@, (i / 2) as nat),
                    args@[2 * (i / 2) as int]@,
                    args@[2 * (i / 2 + 1) as int - 1]@,
                ));
                assert(2 * (i / 2) as int == i as int);
                assert(2 * (i / 2 + 1) as int - 1 == i + 1);
            }
            i = i + 2;
        }
        proof {
            assert(i / 2 == args@.len() / 2);
        }
        settings
    }
}

/// Settings with every trigger off: the starting point of argument parsing.
pub open spec fn no_vibration() -> VibrationSettings {
    VibrationSettings {
        when_charging_start: false,
        when_heating_start: false,
        when_starting_to_use: false,
        when_puff_end: false,
        when_manually_terminated: false,
    }
}

/// One option/value pair applied to running settings: a known key sets its
/// trigger to whether the value reads "on"; an unknown key changes nothing.
pub open spec fn apply_arg_pair(
    s: VibrationSettings,
    key: Seq<char>,
    value: Seq<char>,
) -> VibrationSettings {
    let on = value == "on"@;
    if key == "charge"@ {
        VibrationSettings { when_charging_start: on, ..s }
    } else if key == "heating"@ {
        VibrationSettings { when_heating_start: on, ..s }
    } else if key == "starting"@ {
        VibrationSettings { when_starting_to_use: on, ..s }
    } else if key == "terminated"@ {
        VibrationSettings { when_manually_terminated: on, ..s }
    } else if key == "puffend"@ {
        VibrationSettings { when_puff_end: on, ..s }
    } else {
        s
    }
}

/// The settings after the first `pairs` option/value pairs of `args`.
pub open spec fn parsed_arg_pairs(args: Seq<&str>, pairs: nat) -> VibrationSettings
    decreases pairs,
{
    if pairs == 0 {
        no_vibration()
    } else {
        apply_arg_pair(
            parsed_arg_pairs(args, (pairs - 1) as nat),
            args[2 * (pairs - 1)]@,
            args[2 * pairs - 1]@,
        )
    }
}

/// The settings that a whole argument list parses to: every full
/// option/value pair applied in order, later pairs overriding earlier ones.
pub open spec fn parsed_vibration_args(args: Seq<&str>) -> VibrationSettings {
    parsed_arg_pairs(args, (args.len() / 2) as nat)
}

/// Law: for every choice of triggers the register is the bitwise OR of the
/// enabled triggers' bit values, the frame is nine bytes long, its last
/// byte is the 8-bit wraparound sum of the first eight, and the
/// charging-start trigger never changes the frame.
pub proof fn lemma_vibration_frame_law(s: VibrationSettings, t: VibrationSettings)
    requires
        t == (VibrationSettings { when_charging_start: !s.when_charging_start, ..s }),
    ensures
        vibration_frame(s).len() == 9,
        vibration_frame(s).take(6) == vibration_prefix(),
        vibration_frame(s)[6] == (vibration_register(s) >> 8) as u8,
        vibration_frame(s)[7] == (vibration_register(s) & 0xff) as u8,
        vibration_frame(s).last() == wrap_sum(vibration_frame(s).take(8)),
        vibration_frame(s) == vibration_frame(t),
{
    assert(vibration_body(s).len() == 8);
    assert(vibration_frame(s).take(6) =~= vibration_prefix());
    assert(vibration_frame(s).take(8) =~= vibration_body(s));
    assert(vibration_register(s) == vibration_register(t));
    assert(vibration_frame(s) =~= vibration_frame(t));
}

} // verus!
