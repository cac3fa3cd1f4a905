//! The configuration record for a matrix: panel topology, timing and
//! behavioral flags, with validated setters.
//!
//! The record mirrors the native driver's configuration block. Its string
//! fields must always be representable as valid null-terminated native
//! strings, so every string setter demands input free of interior null
//! characters, and the record owns exactly one buffer per field: replacing a
//! field installs the new value and releases the previous buffer with it.
//! Three numeric fields are validated — parallel chain count, PWM bit depth
//! and brightness — and a failed validation leaves the record unchanged.

use vstd::prelude::*;

verus! {

/// Scan mode of the panel: progressive or interlaced refresh.
#[derive(Clone, Copy, Debug, PartialEq, Eq, Structural)]
pub enum ScanMode {
    Progressive,
    Interlaced,
}

/// Physical row-addressing scheme, determined by the panel wiring.
#[derive(Clone, Copy, Debug, PartialEq, Eq, Structural)]
pub enum RowAddressType {
    Direct,
    ShiftRegister,
    DirectABCDLine,
    ABCShiftRegister,
}

/// Multiplexing scheme, determined by the panel wiring.
#[derive(Clone, Copy, Debug, PartialEq, Eq, Structural)]
pub enum Multiplexing {
    Direct,
    Stripe,
    Checkered,
    Spiral,
    ZStripe,
    ZnMirrorZStripe,
    Coreman,
}

impl ScanMode {
    /// The integer encoding the native driver expects.
    pub open spec fn code(self) -> int {
        match self {
            ScanMode::Progressive => 0,
            ScanMode::Interlaced => 1,
        }
    }
}

impl RowAddressType {
    /// The integer encoding the native driver expects.
    pub open spec fn code(self) -> int {
        match self {
            RowAddressType::Direct => 0,
            RowAddressType::ShiftRegister => 1,
            RowAddressType::DirectABCDLine => 2,
            RowAddressType::ABCShiftRegister => 3,
        }
    }
}

impl Multiplexing {
    /// The integer encoding the native driver expects.
    pub open spec fn code(self) -> int {
        match self {
            Multiplexing::Direct => 0,
            Multiplexing::Stripe => 1,
            Multiplexing::Checkered => 2,
            Multiplexing::Spiral => 3,
            Multiplexing::ZStripe => 4,
            Multiplexing::ZnMirrorZStripe => 5,
            Multiplexing::Coreman => 6,
        }
    }
}

/// The error type for the parallel count setter, returned when the value is
/// outside 1 to 3.
#[derive(Clone, Copy, Debug, PartialEq, Eq, Structural)]
pub struct ParallelError {
    pub parallel: u16,
}

/// The error type for the PWM bits setter, returned when the value is above
/// 11.
#[derive(Clone, Copy, Debug, PartialEq, Eq, Structural)]
pub struct PwmBitsError {
    pub pwm_bits: u8,
}

/// The error type for the brightness setter, returned when the value is
/// outside 1 to 100.
#[derive(Clone, Copy, Debug, PartialEq, Eq, Structural)]
pub struct BrightnessError {
    pub brightness: u8,
}

/// A sequence of characters that a valid null-terminated native string can
/// hold: one with no interior null character.
pub open spec fn nul_free(s: Seq<char>) -> bool {
    forall|i: int| 0 <= i < s.len() ==> s[i] != '\0'
}

/// The mathematical model of a configuration record. String fields are
/// character sequences; enumerated and flag fields carry the integer encoding
/// the native driver expects.
#[verifier::ext_equal]
pub struct OptionsView {
    pub hardware_mapping: Seq<char>,
    pub rows: int,
    pub cols: int,
    pub chain_length: int,
    pub parallel: int,
    pub pwm_bits: int,
    pub pwm_lsb_nanoseconds: int,
    pub pwm_dither_bits: int,
    pub brightness: int,
    pub scan_mode: int,
    pub row_address_type: int,
    pub multiplexing: int,
    pub led_rgb_sequence: Seq<char>,
    pub pixel_mapper_config: Seq<char>,
    pub panel_type: Seq<char>,
    pub disable_hardware_pulsing: int,
    pub show_refresh_rate: int,
    pub inverse_colors: int,
}

impl OptionsView {
    /// The record's invariant: every string field can back a valid
    /// null-terminated buffer, the validated fields sit in their documented
    /// ranges, and every other numeric field fits the width it was set from.
    pub open spec fn wf(self) -> bool {
        &&& nul_free(self.hardware_mapping)
        &&& nul_free(self.led_rgb_sequence)
        &&& nul_free(self.pixel_mapper_config)
        &&& nul_free(self.panel_type)
        &&& 0 <= self.rows <= u16::MAX
        &&& 0 <= self.cols <= u16::MAX
        &&& 0 <= self.chain_length <= u16::MAX
        &&& 1 <= self.parallel <= 3
        &&& 0 <= self.pwm_bits <= 11
        &&& 0 <= self.pwm_lsb_nanoseconds <= u16::MAX
        &&& i32::MIN <= self.pwm_dither_bits <= i32::MAX
        &&& 1 <= self.brightness <= 100
        &&& 0 <= self.scan_mode <= 1
        &&& 0 <= self.row_address_type <= 3
        &&& 0 <= self.multiplexing <= 6
        &&& 0 <= self.disable_hardware_pulsing <= 1
        &&& 0 <= self.show_refresh_rate <= 1
        &&& 0 <= self.inverse_colors <= 1
    }
}

/// The documented default configuration: a single 32-by-32 panel on the
/// regular hardware mapping, full PWM depth and brightness, with all three
/// behavioral flags set.
pub open spec fn default_options() -> OptionsView {
    OptionsView {
        hardware_mapping: "regular"@,
        rows: 32,
        cols: 32,
        chain_length: 1,
        parallel: 1,
        pwm_bits: 11,
        pwm_lsb_nanoseconds: 1000,
        pwm_dither_bits: 1,
        brightness: 100,
        scan_mode: 0,
        row_address_type: 0,
        multiplexing: 0,
        led_rgb_sequence: "RGB"@,
        pixel_mapper_config: ""@,
        panel_type: ""@,
        disable_hardware_pulsing: 1,
        show_refresh_rate: 1,
        inverse_colors: 1,
    }
}

/// Parameters to create a new matrix.
///
/// The record is built first, independently of any hardware resource, then
/// handed to matrix creation, which retains it for the matrix's lifetime so
/// that the native driver may keep reading the string fields.
pub struct Options {
    hardware_mapping: String,
    rows: i32,
    cols: i32,
    chain_length: i32,
    parallel: i32,
    pwm_bits: i32,
    pwm_lsb_nanoseconds: i32,
    pwm_dither_bits: i32,
    brightness: i32,
    scan_mode: i32,
    row_address_type: i32,
    multiplexing: i32,
    led_rgb_sequence: String,
    pixel_mapper_config: String,
    panel_type: String,
    disable_hardware_pulsing: u32,
    show_refresh_rate: u32,
    inverse_colors: u32,
}

impl View for Options {
    type V = OptionsView;

    closed spec fn view(&self) -> OptionsView {
        OptionsView {
            hardware_mapping: self.hardware_mapping@,
            rows: self.rows as int,
            cols: self.cols as int,
            chain_length: self.chain_length as int,
            parallel: self.parallel as int,
            pwm_bits: self.pwm_bits as int,
            pwm_lsb_nanoseconds: self.pwm_lsb_nanoseconds as int,
            pwm_dither_bits: self.pwm_dither_bits as int,
            brightness: self.brightness as int,
            scan_mode: self.scan_mode as int,
            row_address_type: self.row_address_type as int,
            multiplexing: self.multiplexing as int,
            led_rgb_sequence: self.led_rgb_sequence@,
            pixel_mapper_config: self.pixel_mapper_config@,
            panel_type: self.panel_type@,
            disable_hardware_pulsing: self.disable_hardware_pulsing as int,
            show_refresh_rate: self.show_refresh_rate as int,
            inverse_colors: self.inverse_colors as int,
        }
    }
}

impl Options {
    /// Constructs a new configuration record with the documented defaults.
    pub fn new() -> (o: Options)
        ensures
            o@ == default_options(),
            o@.wf(),
    {
        let o = Options {
            hardware_mapping: "regular".to_owned(),
            rows: 32,
            cols: 32,
            chain_length: 1,
            parallel: 1,
            pwm_bits: 11,
            pwm_lsb_nanoseconds: 1000,
            pwm_dither_bits: 1,
            brightness: 100,
            scan_mode: 0,
            row_address_type: 0,
            multiplexing: 0,
            led_rgb_sequence: "RGB".to_owned(),
            pixel_mapper_config: "".to_owned(),
            panel_type: "".to_owned(),
            disable_hardware_pulsing: 1,
            show_refresh_rate: 1,
            inverse_colors: 1,
        };
        proof {
            reveal_strlit("regular");
            reveal_strlit("RGB");
            reveal_strlit("");
            assert(o@ =~= default_options());
        }
        o
    }

    /// The configured hardware mapping name.
    pub fn hardware_mapping(&self) -> (r: &str)
        ensures
            r@ == self@.hardware_mapping,
    {
        self.hardware_mapping.as_str()
    }

    /// The configured number of rows per panel.
    pub fn rows(&self) -> (r: i32)
        ensures
            r == self@.rows,
    {
        self.rows
    }

    /// The configured number of columns per panel.
    pub fn cols(&self) -> (r: i32)
        ensures
            r == self@.cols,
    {
        self.cols
    }

    /// The configured number of daisy-chained panels.
    pub fn chain_length(&self) -> (r: i32)
        ensures
            r == self@.chain_length,
    {
        self.chain_length
    }

    /// The configured number of parallel chains.
    pub fn parallel(&self) -> (r: i32)
        ensures
            r == self@.parallel,
    {
        self.parallel
    }

    /// The configured PWM bit depth.
    pub fn pwm_bits(&self) -> (r: i32)
        ensures
            r == self@.pwm_bits,
    {
        self.pwm_bits
    }

    /// The configured on-time of the lowest significant bit, in nanoseconds.
    pub fn pwm_lsb_nanoseconds(&self) -> (r: i32)
        ensures
            r == self@.pwm_lsb_nanoseconds,
    {
        self.pwm_lsb_nanoseconds
    }

    /// The configured number of time-dithered lower bits.
    pub fn pwm_dither_bits(&self) -> (r: i32)
        ensures
            r == self@.pwm_dither_bits,
    {
        self.pwm_dither_bits
    }

    /// The configured brightness in percent.
    pub fn brightness(&self) -> (r: i32)
        ensures
            r == self@.brightness,
    {
        self.brightness
    }

    /// The native encoding of the configured scan mode.
    pub fn scan_mode(&self) -> (r: i32)
        ensures
            r == self@.scan_mode,
    {
        self.scan_mode
    }

    /// The native encoding of the configured row address type.
    pub fn row_address_type(&self) -> (r: i32)
        ensures
            r == self@.row_address_type,
    {
        self.row_address_type
    }

    /// The native encoding of the configured multiplexing scheme.
    pub fn multiplexing(&self) -> (r: i32)
        ensures
            r == self@.multiplexing,
    {
        self.multiplexing
    }

    /// The configured RGB sequence.
    pub fn led_rgb_sequence(&self) -> (r: &str)
        ensures
            r@ == self@.led_rgb_sequence,
    {
        self.led_rgb_sequence.as_str()
    }

    /// The configured pixel-mapper list.
    pub fn pixel_mapper_config(&self) -> (r: &str)
        ensures
            r@ == self@.pixel_mapper_config,
    {
        self.pixel_mapper_config.as_str()
    }

    /// The configured panel type.
    pub fn panel_type(&self) -> (r: &str)
        ensures
            r@ == self@.panel_type,
    {
        self.panel_type.as_str()
    }

    /// The hardware-pulsing flag as stored: 1 or 0.
    pub fn disable_hardware_pulsing(&self) -> (r: u32)
        ensures
            r == self@.disable_hardware_pulsing,
    {
        self.disable_hardware_pulsing
    }

    /// The refresh-rate reporting flag as stored: 1 or 0.
    pub fn show_refresh_rate(&self) -> (r: u32)
        ensures
            r == self@.show_refresh_rate,
    {
        self.show_refresh_rate
    }

    /// The inverse-colors flag as stored: 1 or 0.
    pub fn inverse_colors(&self) -> (r: u32)
        ensures
            r == self@.inverse_colors,
    {
        self.inverse_colors
    }

    /// Name of the hardware mapping used. Can be an empty string.
    pub fn set_hardware_mapping(&mut self, mapping: &str)
        requires
            old(self)@.wf(),
            nul_free(mapping@),
        ensures
            final(self)@ == (OptionsView { hardware_mapping: mapping@, ..old(self)@ }),
            final(self)@.wf(),
    {
        self.hardware_mapping = mapping.to_owned();
        proof {
            assert(final(self)@ =~= (OptionsView { hardware_mapping: mapping@, ..old(self)@ }));
        }
    }

    /// The number of rows supported by the display. Typically 16, 32 or 64.
    pub fn set_rows(&mut self, rows: u16)
        requires
            old(self)@.wf(),
        ensures
            final(self)@ == (OptionsView { rows: rows as int, ..old(self)@ }),
            final(self)@.wf(),
    {
        self.rows = rows as i32;
        proof {
            assert(final(self)@ =~= (OptionsView { rows: rows as int, ..old(self)@ }));
        }
    }

    /// The number of columns supported by the display. Typically 16, 32 or
    /// 64.
    pub fn set_cols(&mut self, cols: u16)
        requires
            old(self)@.wf(),
        ensures
            final(self)@ == (OptionsView { cols: cols as int, ..old(self)@ }),
            final(self)@.wf(),
    {
        self.cols = cols as i32;
        proof {
            assert(final(self)@ =~= (OptionsView { cols: cols as int, ..old(self)@ }));
        }
    }

    /// The number of displays daisy-chained together.
    pub fn set_chain_length(&mut self, chain_length: u16)
        requires
            old(self)@.wf(),
        ensures
            final(self)@ == (OptionsView { chain_length: chain_length as int, ..old(self)@ }),
            final(self)@.wf(),
    {
        self.chain_length = chain_length as i32;
        proof {
            assert(final(self)@ =~= (OptionsView {
                chain_length: chain_length as int,
                ..old(self)@
            }));
        }
    }

    /// The number of parallel chains connected together. Old 26-pin boards
    /// only support 1, but 40-pin boards can drive up to 3. Values outside 1
    /// to 3 are rejected and leave the record unchanged.
    pub fn set_parallel(&mut self, parallel: u16) -> (r: Result<(), ParallelError>)
        requires
            old(self)@.wf(),
        ensures
            1 <= parallel <= 3 ==> r is Ok && final(self)@ == (OptionsView {
                parallel: parallel as int,
                ..old(self)@
            }),
            !(1 <= parallel <= 3) ==> r == Err::<(), ParallelError>(ParallelError { parallel })
                && final(self)@ == old(self)@,
            final(self)@.wf(),
    {
        if parallel < 1 || parallel > 3 {
            Err(ParallelError { parallel })
        } else {
            self.parallel = parallel as i32;
            proof {
                assert(final(self)@ =~= (OptionsView { parallel: parallel as int, ..old(self)@ }));
            }
            Ok(())
        }
    }

    /// Sets the PWM bits. Lower values decrease CPU load and increase the
    /// refresh rate. Values above 11 are rejected and leave the record
    /// unchanged.
    pub fn set_pwm_bits(&mut self, pwm_bits: u8) -> (r: Result<(), PwmBitsError>)
        requires
            old(self)@.wf(),
        ensures
            pwm_bits <= 11 ==> r is Ok && final(self)@ == (OptionsView {
                pwm_bits: pwm_bits as int,
                ..old(self)@
            }),
            pwm_bits > 11 ==> r == Err::<(), PwmBitsError>(PwmBitsError { pwm_bits })
                && final(self)@ == old(self)@,
            final(self)@.wf(),
    {
        if pwm_bits > 11 {
            Err(PwmBitsError { pwm_bits })
        } else {
            self.pwm_bits = pwm_bits as i32;
            proof {
                assert(final(self)@ =~= (OptionsView { pwm_bits: pwm_bits as int, ..old(self)@ }));
            }
            Ok(())
        }
    }

    /// The base time-unit for the on-time in the lowest significant bit, in
    /// nanoseconds. Higher values give more accurate color at the cost of
    /// frame rate.
    pub fn set_pwm_lsb_nanoseconds(&mut self, pwm_lsb_nanoseconds: u16)
        requires
            old(self)@.wf(),
        ensures
            final(self)@ == (OptionsView {
                pwm_lsb_nanoseconds: pwm_lsb_nanoseconds as int,
                ..old(self)@
            }),
            final(self)@.wf(),
    {
        self.pwm_lsb_nanoseconds = pwm_lsb_nanoseconds as i32;
        proof {
            assert(final(self)@ =~= (OptionsView {
                pwm_lsb_nanoseconds: pwm_lsb_nanoseconds as int,
                ..old(self)@
            }));
        }
    }

    /// The lower bits that can be time-dithered for a higher refresh rate.
    pub fn set_pwm_dither_bits(&mut self, pwm_dither_bits: i32)
        requires
            old(self)@.wf(),
        ensures
            final(self)@ == (OptionsView {
                pwm_dither_bits: pwm_dither_bits as int,
                ..old(self)@
            }),
            final(self)@.wf(),
    {
        self.pwm_dither_bits = pwm_dither_bits;
        proof {
            assert(final(self)@ =~= (OptionsView {
                pwm_dither_bits: pwm_dither_bits as int,
                ..old(self)@
            }));
        }
    }

    /// The initial brightness of the panel in percent, 1 to 100 inclusive.
    /// Values outside that range are rejected and leave the record unchanged.
    pub fn set_brightness(&mut self, brightness: u8) -> (r: Result<(), BrightnessError>)
        requires
            old(self)@.wf(),
        ensures
            1 <= brightness <= 100 ==> r is Ok && final(self)@ == (OptionsView {
                brightness: brightness as int,
                ..old(self)@
            }),
            !(1 <= brightness <= 100) ==> r == Err::<(), BrightnessError>(BrightnessError {
                brightness,
            }) && final(self)@ == old(self)@,
            final(self)@.wf(),
    {
        if brightness > 100 || brightness < 1 {
            Err(BrightnessError { brightness })
        } else {
            self.brightness = brightness as i32;
            proof {
                assert(final(self)@ =~= (OptionsView {
                    brightness: brightness as int,
                    ..old(self)@
                }));
            }
            Ok(())
        }
    }

    /// The scan mode to use.
    pub fn set_scan_mode(&mut self, scan_mode: ScanMode)
        requires
            old(self)@.wf(),
        ensures
            final(self)@ == (OptionsView { scan_mode: scan_mode.code(), ..old(self)@ }),
            final(self)@.wf(),
    {
        self.scan_mode = match scan_mode {
            ScanMode::Progressive => 0,
            ScanMode::Interlaced => 1,
        };
        proof {
            assert(final(self)@ =~= (OptionsView { scan_mode: scan_mode.code(), ..old(self)@ }));
        }
    }

    /// The row address type to use. Most panels use direct addressing, but
    /// some 64-by-64 panels use a shift register.
    pub fn set_row_address_type(&mut self, row_address_type: RowAddressType)
        requires
            old(self)@.wf(),
        ensures
            final(self)@ == (OptionsView {
                row_address_type: row_address_type.code(),
                ..old(self)@
            }),
            final(self)@.wf(),
    {
        self.row_address_type = match row_address_type {
            RowAddressType::Direct => 0,
            RowAddressType::ShiftRegister => 1,
            RowAddressType::DirectABCDLine => 2,
            RowAddressType::ABCShiftRegister => 3,
        };
        proof {
            assert(final(self)@ =~= (OptionsView {
                row_address_type: row_address_type.code(),
                ..old(self)@
            }));
        }
    }

    /// The type of multiplexing to use.
    pub fn set_multiplexing(&mut self, multiplexing: Multiplexing)
        requires
            old(self)@.wf(),
        ensures
            final(self)@ == (OptionsView { multiplexing: multiplexing.code(), ..old(self)@ }),
            final(self)@.wf(),
    {
        self.multiplexing = match multiplexing {
            Multiplexing::Direct => 0,
            Multiplexing::Stripe => 1,
            Multiplexing::Checkered => 2,
            Multiplexing::Spiral => 3,
            Multiplexing::ZStripe => 4,
            Multiplexing::ZnMirrorZStripe => 5,
            Multiplexing::Coreman => 6,
        };
        proof {
            assert(final(self)@ =~= (OptionsView {
                multiplexing: multiplexing.code(),
                ..old(self)@
            }));
        }
    }

    /// The mapping of the RGB sequence. Most panels use the default RGB, but
    /// some may differ.
    pub fn set_led_rgb_sequence(&mut self, sequence: &str)
        requires
            old(self)@.wf(),
            nul_free(sequence@),
        ensures
            final(self)@ == (OptionsView { led_rgb_sequence: sequence@, ..old(self)@ }),
            final(self)@.wf(),
    {
        self.led_rgb_sequence = sequence.to_owned();
        proof {
            assert(final(self)@ =~= (OptionsView { led_rgb_sequence: sequence@, ..old(self)@ }));
        }
    }

    /// A semicolon-separated list of pixel mappers, each with an optional
    /// parameter, applied to the matrix.
    pub fn set_pixel_mapper_config(&mut self, pixel_mapper_config: &str)
        requires
            old(self)@.wf(),
            nul_free(pixel_mapper_config@),
        ensures
            final(self)@ == (OptionsView {
                pixel_mapper_config: pixel_mapper_config@,
                ..old(self)@
            }),
            final(self)@.wf(),
    {
        self.pixel_mapper_config = pixel_mapper_config.to_owned();
        proof {
            assert(final(self)@ =~= (OptionsView {
                pixel_mapper_config: pixel_mapper_config@,
                ..old(self)@
            }));
        }
    }

    /// The panel type. Normally just an empty string, but certain panels
    /// require an initialisation sequence.
    pub fn set_panel_type(&mut self, panel_type: &str)
        requires
            old(self)@.wf(),
            nul_free(panel_type@),
        ensures
            final(self)@ == (OptionsView { panel_type: panel_type@, ..old(self)@ }),
            final(self)@.wf(),
    {
        self.panel_type = panel_type.to_owned();
        proof {
            assert(final(self)@ =~= (OptionsView { panel_type: panel_type@, ..old(self)@ }));
        }
    }

    /// Whether to disable the hardware subsystem that creates pulses. Stored
    /// as 1 or 0 in the native-compatible unsigned field.
    pub fn set_disable_hardware_pulsing(&mut self, disable: bool)
        requires
            old(self)@.wf(),
        ensures
            final(self)@ == (OptionsView {
                disable_hardware_pulsing: if disable { 1int } else { 0int },
                ..old(self)@
            }),
            final(self)@.wf(),
    {
        if disable {
            self.disable_hardware_pulsing = 1;
        } else {
            self.disable_hardware_pulsing = 0;
        }
        proof {
            assert(final(self)@ =~= (OptionsView {
                disable_hardware_pulsing: if disable { 1int } else { 0int },
                ..old(self)@
            }));
        }
    }

    /// Whether the driver reports its refresh rate. Stored as 1 or 0 in the
    /// native-compatible unsigned field.
    pub fn set_show_refresh_rate(&mut self, show: bool)
        requires
            old(self)@.wf(),
        ensures
            final(self)@ == (OptionsView {
                show_refresh_rate: if show { 1int } else { 0int },
                ..old(self)@
            }),
            final(self)@.wf(),
    {
        if show {
            self.show_refresh_rate = 1;
        } else {
            self.show_refresh_rate = 0;
        }
        proof {
            assert(final(self)@ =~= (OptionsView {
                show_refresh_rate: if show { 1int } else { 0int },
                ..old(self)@
            }));
        }
    }

    /// Whether the matrix has inverse colors on. Stored as 1 or 0 in the
    /// native-compatible unsigned field.
    pub fn set_inverse_colors(&mut self, inverse: bool)
        requires
            old(self)@.wf(),
        ensures
            final(self)@ == (OptionsView {
                inverse_colors: if inverse { 1int } else { 0int },
                ..old(self)@
            }),
            final(self)@.wf(),
    {
        if inverse {
            self.inverse_colors = 1;
        } else {
            self.inverse_colors = 0;
        }
        proof {
            assert(final(self)@ =~= (OptionsView {
                inverse_colors: if inverse { 1int } else { 0int },
                ..old(self)@
            }));
        }
    }
}


/// The law of string replacement: consecutive calls to a string setter leave
/// the record holding exactly the most recent value, as if the earlier call
/// had never happened. Together with the record owning one buffer per field,
/// this is what makes replacement safe: after any run of calls exactly one
/// buffer is reachable per field, and it holds the last value set.
pub proof fn lemma_string_setter_last_wins(o: OptionsView, first: Seq<char>, last: Seq<char>)
    ensures
        (OptionsView { hardware_mapping: last, ..(OptionsView { hardware_mapping: first, ..o }) })
            == (OptionsView { hardware_mapping: last, ..o }),
        (OptionsView { led_rgb_sequence: last, ..(OptionsView { led_rgb_sequence: first, ..o }) })
            == (OptionsView { led_rgb_sequence: last, ..o }),
        (OptionsView {
            pixel_mapper_config: last,
            ..(OptionsView { pixel_mapper_config: first, ..o })
        }) == (OptionsView { pixel_mapper_config: last, ..o }),
        (OptionsView { panel_type: last, ..(OptionsView { panel_type: first, ..o }) })
            == (OptionsView { panel_type: last, ..o }),
{
    assert((OptionsView {
        hardware_mapping: last,
        ..(OptionsView { hardware_mapping: first, ..o })
    }) =~= (OptionsView { hardware_mapping: last, ..o }));
    assert((OptionsView {
        led_rgb_sequence: last,
        ..(OptionsView { led_rgb_sequence: first, ..o })
    }) =~= (OptionsView { led_rgb_sequence: last, ..o }));
    assert((OptionsView {
        pixel_mapper_config: last,
        ..(OptionsView { pixel_mapper_config: first, ..o })
    }) =~= (OptionsView { pixel_mapper_config: last, ..o }));
    assert((OptionsView { panel_type: last, ..(OptionsView { panel_type: first, ..o }) })
        =~= (OptionsView { panel_type: last, ..o }));
}

} // verus!
