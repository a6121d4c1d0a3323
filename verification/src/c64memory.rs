//! The address space of the computer: 64 KB of memory under two
//! firmware images, an optional cartridge image, the colour memory and
//! the input/output registers, with the port at addresses 0 and 1 that
//! decides which firmware is visible.

use crate::bytes::{add16, make_word};
use crate::history::{ring_push, History};
use crate::memory::{Diagnostic, Memory6502, Memory6502Debug};
use crate::timer::{clock_tenths, C64Timer, TimerState};
use vstd::prelude::*;

verus! {

/// Port bit: the high firmware window shows the KERNAL image.
pub const PORT_HIRAM: u8 = 0x02;

/// Port bits that must both be set for the BASIC image to show.
pub const PORT_FIRMWARE: u8 = 0x03;

/// Direction mask of the port after power-on.
pub const PORT_DDR_POWER_ON: u8 = 0x2f;

/// State of the port after power-on: both firmware images visible.
pub const PORT_POWER_ON: u8 = 0x37;

/// A snapshot of the screen memory: 1000 screen codes, row by row.
#[derive(Clone, Copy, Debug)]
pub struct C64CharaterRam {
    pub ram: [u8; 1000],
}

impl C64CharaterRam {
    /// An empty screen.
    pub fn new() -> (screen: Self)
        ensures
            forall|i: int| 0 <= i < 1000 ==> screen.ram@[i] == 0,
    {
        C64CharaterRam { ram: [0; 1000] }
    }
}

/// The keyboard matrix: one byte per column, a zero bit for each key
/// that is held down.
#[derive(Clone, Copy, Debug)]
pub struct C64KeyboadMap {
    pub col: [u8; 8],
}

impl C64KeyboadMap {
    /// A keyboard with no key held down.
    pub fn new() -> (keys: Self)
        ensures
            forall|i: int| 0 <= i < 8 ==> keys.col@[i] == 0xff,
    {
        C64KeyboadMap { col: [0xff; 8] }
    }
}

/// Model of a [`C64Memory`].
pub struct C64MemoryModel {
    /// General memory, 64 KB.
    pub ram: Seq<u8>,
    /// Firmware image of the window 0xE000 to 0xFFFF.
    pub kernal: Seq<u8>,
    /// Firmware image of the window 0xA000 to 0xBFFF.
    pub basic_rom: Seq<u8>,
    /// Character generator image.
    pub character_rom: Seq<u8>,
    /// Colour memory of the window 0xD800 to 0xDBFF.
    pub color_ram: Seq<u8>,
    /// Cartridge image of the window 0x8000 to 0x9FFF, if one is plugged.
    pub external_rom: Option<Seq<u8>>,
    /// Direction mask of the port, at address 0.
    pub processor_port_ddr: u8,
    /// The port, at address 1.
    pub processor_port: u8,
    /// The keyboard matrix.
    pub keyboard_map: Seq<u8>,
    /// Timer unit 1.
    pub cia1_timer: TimerState,
    /// Timer unit 2.
    pub cia2_timer: TimerState,
    pub border_color: u8,
    pub background_color: u8,
    pub screen_control1: u8,
    pub screen_control2: u8,
    /// The recorded diagnostics, oldest first.
    pub log: Seq<Diagnostic>,
    /// How many diagnostics are kept.
    pub log_limit: nat,
}

/// The address space at power-on: general memory and colour memory
/// zero, both firmware windows visible, no key held down, both timer
/// units at rest, the video registers at their defaults.
pub open spec fn spec_power_on(
    kernal: Seq<u8>,
    basic_rom: Seq<u8>,
    character_rom: Seq<u8>,
    external_rom: Option<Seq<u8>>,
    log: Seq<Diagnostic>,
    log_limit: nat,
) -> C64MemoryModel {
    C64MemoryModel {
        ram: Seq::new(65536, |i: int| 0u8),
        kernal,
        basic_rom,
        character_rom,
        color_ram: Seq::new(1024, |i: int| 0u8),
        external_rom,
        processor_port_ddr: PORT_DDR_POWER_ON,
        processor_port: PORT_POWER_ON,
        keyboard_map: Seq::new(8, |i: int| 0xffu8),
        cia1_timer: TimerState::spec_power_on(),
        cia2_timer: TimerState::spec_power_on(),
        border_color: 0,
        background_color: 0,
        screen_control1: 0x1b,
        screen_control2: 0xc8,
        log,
        log_limit,
    }
}

/// True when the port shows the KERNAL image in its window.
pub open spec fn kernal_visible(port: u8) -> bool {
    port & PORT_HIRAM != 0
}

/// True when the port shows the BASIC image in its window.
pub open spec fn basic_visible(port: u8) -> bool {
    port & PORT_FIRMWARE == PORT_FIRMWARE
}

/// The port after `value` was written to it under direction mask
/// `ddr`: only output bits take the value, the cassette output stays
/// low, the cassette sense and motor lines read high.
pub open spec fn port_after_write(value: u8, ddr: u8) -> u8 {
    (value & ddr & 0xf7) | 0x30
}

/// True for the addresses of the input/output window.
pub open spec fn in_io_window(address: u16) -> bool {
    0xd000 <= address <= 0xdfff
}

/// The model with one more diagnostic recorded.
pub open spec fn logged(model: C64MemoryModel, entry: Diagnostic) -> C64MemoryModel {
    C64MemoryModel { log: ring_push(model.log, model.log_limit, entry), ..model }
}

/// A read from an image at `offset`: its byte, or zero and a diagnostic
/// where the image has ended.
pub open spec fn read_image(model: C64MemoryModel, image: Seq<u8>, offset: int, address: u16) -> (
    u8,
    C64MemoryModel,
) {
    if offset < image.len() {
        (image[offset], model)
    } else {
        (0u8, logged(model, Diagnostic::ReadOutOfRange { address }))
    }
}

/// A read in the input/output window.
pub open spec fn spec_read_io(model: C64MemoryModel, address: u16) -> (u8, C64MemoryModel) {
    if address == 0xd011 {
        (model.screen_control1, model)
    } else if address == 0xd016 {
        (model.screen_control2, model)
    } else if address == 0xd020 {
        (model.border_color, model)
    } else if address == 0xd021 {
        (model.background_color, model)
    } else if 0xd800 <= address <= 0xdbff {
        (model.color_ram[address - 0xd800], model)
    } else if address == 0xdc08 {
        (
            clock_tenths(model.cia1_timer.elapsed),
            C64MemoryModel { cia1_timer: model.cia1_timer.spec_latch(), ..model },
        )
    } else if address == 0xdc09 {
        (model.cia1_timer.second, model)
    } else if address == 0xdc0a {
        (model.cia1_timer.minute, model)
    } else if address == 0xdc0b {
        (model.cia1_timer.hour, model)
    } else if address == 0xdc0d {
        (
            model.cia1_timer.spec_read_cause().0,
            C64MemoryModel { cia1_timer: model.cia1_timer.spec_read_cause().1, ..model },
        )
    } else if address != 0xdc0c && (0xdc00 <= address <= 0xdc0f || 0xdd00 <= address <= 0xdd0f) {
        (0u8, model)
    } else {
        (0u8, logged(model, Diagnostic::UnmappedRead { address }))
    }
}

/// A write in the input/output window.
pub open spec fn spec_write_io(model: C64MemoryModel, address: u16, value: u8) -> C64MemoryModel {
    if 0xd800 <= address <= 0xdbff {
        C64MemoryModel { color_ram: model.color_ram.update(address - 0xd800, value), ..model }
    } else if 0xd000 <= address <= 0xd010 {
        model
    } else if address == 0xd011 {
        C64MemoryModel { screen_control1: value, ..model }
    } else if address == 0xd015 && value == 0 {
        model
    } else if address == 0xd016 {
        C64MemoryModel { screen_control2: value, ..model }
    } else if address == 0xd020 {
        C64MemoryModel { border_color: value, ..model }
    } else if address == 0xd021 {
        C64MemoryModel { background_color: value, ..model }
    } else if address == 0xdc04 {
        C64MemoryModel {
            cia1_timer: TimerState {
                timer_a_set: ((model.cia1_timer.timer_a_set / 256) * 256 + value) as u16,
                ..model.cia1_timer
            },
            ..model
        }
    } else if address == 0xdc05 {
        C64MemoryModel {
            cia1_timer: TimerState {
                timer_a_set: (value * 256 + model.cia1_timer.timer_a_set % 256) as u16,
                ..model.cia1_timer
            },
            ..model
        }
    } else if address == 0xdc06 {
        C64MemoryModel {
            cia1_timer: TimerState {
                timer_b_set: ((model.cia1_timer.timer_b_set / 256) * 256 + value) as u16,
                ..model.cia1_timer
            },
            ..model
        }
    } else if address == 0xdc07 {
        C64MemoryModel {
            cia1_timer: TimerState {
                timer_b_set: (value * 256 + model.cia1_timer.timer_b_set % 256) as u16,
                ..model.cia1_timer
            },
            ..model
        }
    } else if address == 0xdc0d {
        C64MemoryModel { cia1_timer: model.cia1_timer.spec_set_timer_int(value), ..model }
    } else if address == 0xdc0e {
        C64MemoryModel {
            cia1_timer: TimerState { timer_a_ctrl: value, ..model.cia1_timer },
            ..model
        }
    } else if address == 0xdc0f {
        C64MemoryModel {
            cia1_timer: TimerState { timer_b_ctrl: value, ..model.cia1_timer },
            ..model
        }
    } else if 0xdc00 <= address <= 0xdc0f || 0xdd00 <= address <= 0xdd0f {
        model
    } else {
        logged(model, Diagnostic::UnmappedWrite { address, value })
    }
}

/// The character that a screen code is shown as: `@`, the letters, a
/// few signs and the printable ASCII range from space to `?`; a
/// question mark for everything else. Bit 7 (reverse video) is ignored.
pub open spec fn spec_screen_code_to_char(screen_code: u8) -> char {
    let code = screen_code % 128;
    if code == 0 {
        '@'
    } else if code <= 26 {
        (0x40 + code) as char
    } else if code == 27 {
        '['
    } else if code == 28 {
        '\u{a3}'
    } else if code == 29 {
        ']'
    } else if code == 0x27 {
        '`'
    } else if 0x20 <= code <= 0x3f {
        code as char
    } else {
        '?'
    }
}

/// What a write to the port does to the firmware windows: the KERNAL
/// image stays visible exactly when the value has bit 1 set and the
/// direction mask lets it through, the BASIC image exactly when that
/// holds of bits 0 and 1.
pub proof fn lemma_port_visibility(value: u8, ddr: u8)
    ensures
        kernal_visible(port_after_write(value, ddr)) == (value & ddr & PORT_HIRAM != 0),
        basic_visible(port_after_write(value, ddr)) == (value & ddr & 0x03 == 0x03),
{
    assert((((value & ddr & 0xf7) | 0x30) & 0x02 != 0) == (value & ddr & 0x02 != 0) && ((((value
        & ddr & 0xf7) | 0x30) & 0x03) == 0x03) == (value & ddr & 0x03 == 0x03)) by (bit_vector);
}

/// The address space of the computer.
#[derive(Debug)]
pub struct C64Memory {
    ram: [u8; 65536],
    kernal: Vec<u8>,
    basic_rom: Vec<u8>,
    character_rom: Vec<u8>,
    color_ram: [u8; 1024],
    external_rom: Option<Vec<u8>>,
    processor_port_ddr: u8,
    processor_port: u8,
    keyboard_map: C64KeyboadMap,
    cia1_timer: C64Timer,
    cia2_timer: C64Timer,
    border_color: u8,
    background_color: u8,
    screen_control1: u8,
    screen_control2: u8,
    log: History<Diagnostic>,
}

impl View for C64Memory {
    type V = C64MemoryModel;

    closed spec fn view(&self) -> C64MemoryModel {
        C64MemoryModel {
            ram: self.ram@,
            kernal: self.kernal@,
            basic_rom: self.basic_rom@,
            character_rom: self.character_rom@,
            color_ram: self.color_ram@,
            external_rom: match self.external_rom {
                Some(rom) => Some(rom@),
                None => None,
            },
            processor_port_ddr: self.processor_port_ddr,
            processor_port: self.processor_port,
            keyboard_map: self.keyboard_map.col@,
            cia1_timer: self.cia1_timer@,
            cia2_timer: self.cia2_timer@,
            border_color: self.border_color,
            background_color: self.background_color,
            screen_control1: self.screen_control1,
            screen_control2: self.screen_control2,
            log: self.log@,
            log_limit: self.log.limit(),
        }
    }
}

impl C64Memory {
    /// The address space at power-on, with the given firmware images,
    /// character generator image and optional cartridge image. General
    /// memory and colour memory are zero, both firmware windows are
    /// visible, and diagnostics go to `diagnostics`.
    pub fn new(
        kernal: Vec<u8>,
        basic_rom: Vec<u8>,
        character_rom: Vec<u8>,
        external_rom: Option<Vec<u8>>,
        diagnostics: History<Diagnostic>,
    ) -> (memory: Self)
        ensures
            memory@ == spec_power_on(
                kernal@,
                basic_rom@,
                character_rom@,
                match external_rom {
                    Some(rom) => Some(rom@),
                    None => None,
                },
                diagnostics@,
                diagnostics.limit(),
            ),
    {
        let memory = C64Memory {
            ram: [0; 65536],
            kernal,
            basic_rom,
            character_rom,
            color_ram: [0; 1024],
            external_rom,
            processor_port_ddr: PORT_DDR_POWER_ON,
            processor_port: PORT_POWER_ON,
            keyboard_map: C64KeyboadMap::new(),
            cia1_timer: C64Timer::new(),
            cia2_timer: C64Timer::new(),
            border_color: 0,
            background_color: 0,
            screen_control1: 0x1b,
            screen_control2: 0xc8,
            log: diagnostics,
        };
        assert(memory.ram@ =~= Seq::new(65536, |i: int| 0u8));
        assert(memory.color_ram@ =~= Seq::new(1024, |i: int| 0u8));
        assert(memory.keyboard_map.col@ =~= Seq::new(8, |i: int| 0xffu8));
        memory
    }

    /// Replaces the keyboard matrix.
    pub fn set_keyboard_map(&mut self, keymap: C64KeyboadMap)
        ensures
            final(self)@ == (C64MemoryModel { keyboard_map: keymap.col@, ..old(self)@ }),
    {
        self.keyboard_map = keymap;
    }

    /// Advances both timer units to the present moment of the wall
    /// clock and tells whether a timer underflowed. Whatever the clock
    /// shows, each unit ends as a tick at some moment leaves it.
    pub fn tick(&mut self) -> (fired: bool)
        ensures
            exists|now1: u128, now2: u128|
                final(self)@ == (C64MemoryModel {
                    cia1_timer: old(self)@.cia1_timer.spec_tick(now1),
                    cia2_timer: old(self)@.cia2_timer.spec_tick(now2),
                    ..old(self)@
                }) && fired == (old(self)@.cia1_timer.spec_fires(now1)
                    || old(self)@.cia2_timer.spec_fires(now2)),
    {
        let ghost before = self@;
        let r1 = self.cia1_timer.tick();
        let ghost middle = self.cia1_timer@;
        let r2 = self.cia2_timer.tick();
        proof {
            let now1 = choose|now: u128|
                middle == before.cia1_timer.spec_tick(now) && r1 == before.cia1_timer.spec_fires(
                    now,
                );
            let now2 = choose|now: u128|
                self.cia2_timer@ == before.cia2_timer.spec_tick(now) && r2
                    == before.cia2_timer.spec_fires(now);
            assert(self@ == (C64MemoryModel {
                cia1_timer: before.cia1_timer.spec_tick(now1),
                cia2_timer: before.cia2_timer.spec_tick(now2),
                ..before
            }) && (r1 || r2) == (before.cia1_timer.spec_fires(now1)
                || before.cia2_timer.spec_fires(now2)));
        }
        r1 || r2
    }

    /// Advances both timer units to the moment `now`, given in
    /// nanoseconds since power-on, and tells whether a timer underflowed.
    pub fn tick_at(&mut self, now: u128) -> (fired: bool)
        ensures
            final(self)@ == (C64MemoryModel {
                cia1_timer: old(self)@.cia1_timer.spec_tick(now),
                cia2_timer: old(self)@.cia2_timer.spec_tick(now),
                ..old(self)@
            }),
            fired == (old(self)@.cia1_timer.spec_fires(now) || old(self)@.cia2_timer.spec_fires(
                now,
            )),
    {
        let r1 = self.cia1_timer.tick_at(now);
        let r2 = self.cia2_timer.tick_at(now);
        r1 || r2
    }

    /// The character that a screen code is shown as.
    pub fn screen_code_to_char(screen_code: u8) -> (shown: char)
        ensures
            shown == spec_screen_code_to_char(screen_code),
    {
        match screen_code % 128 {
            0x00 => '@',
            0x01 => 'A',
            0x02 => 'B',
            0x03 => 'C',
            0x04 => 'D',
            0x05 => 'E',
            0x06 => 'F',
            0x07 => 'G',
            0x08 => 'H',
            0x09 => 'I',
            0x0a => 'J',
            0x0b => 'K',
            0x0c => 'L',
            0x0d => 'M',
            0x0e => 'N',
            0x0f => 'O',
            0x10 => 'P',
            0x11 => 'Q',
            0x12 => 'R',
            0x13 => 'S',
            0x14 => 'T',
            0x15 => 'U',
            0x16 => 'V',
            0x17 => 'W',
            0x18 => 'X',
            0x19 => 'Y',
            0x1a => 'Z',
            0x1b => '[',
            0x1c => '\u{a3}',
            0x1d => ']',
            0x20 => ' ',
            0x21 => '!',
            0x22 => '"',
            0x23 => '#',
            0x24 => '$',
            0x25 => '%',
            0x26 => '&',
            0x27 => '`',
            0x28 => '(',
            0x29 => ')',
            0x2a => '*',
            0x2b => '+',
            0x2c => ',',
            0x2d => '-',
            0x2e => '.',
            0x2f => '/',
            0x30 => '0',
            0x31 => '1',
            0x32 => '2',
            0x33 => '3',
            0x34 => '4',
            0x35 => '5',
            0x36 => '6',
            0x37 => '7',
            0x38 => '8',
            0x39 => '9',
            0x3a => ':',
            0x3b => ';',
            0x3c => '<',
            0x3d => '=',
            0x3e => '>',
            0x3f => '?',
            _ => '?',
        }
    }

    /// A snapshot of the screen memory: the 1000 bytes of general memory
    /// from 0x0400.
    pub fn get_character_ram(&self) -> (screen: C64CharaterRam)
        ensures
            screen.ram@ == self@.ram.subrange(0x0400, 0x07e8),
    {
        let mut screen = C64CharaterRam::new();
        let mut i: usize = 0;
        while i < 1000
            invariant
                i <= 1000,
                forall|k: int| 0 <= k < i ==> screen.ram@[k] == self.ram@[0x0400 + k],
            decreases 1000 - i,
        {
            screen.ram[i] = self.ram[0x0400 + i];
            i += 1;
        }
        assert(screen.ram@ =~= self.ram@.subrange(0x0400, 0x07e8));
        screen
    }

    /// A snapshot of the character generator image, if `always` asks for
    /// one: its first 4096 bytes, zero where the image is shorter.
    pub fn get_character_rom(&self, always: bool) -> (image: Option<[u8; 4096]>)
        ensures
            image.is_some() == always,
            always ==> forall|i: int|
                0 <= i < 4096 ==> image.unwrap()@[i] == (if i < self@.character_rom.len() {
                    self@.character_rom[i]
                } else {
                    0u8
                }),
    {
        if !always {
            return None;
        }
        let mut image: [u8; 4096] = [0; 4096];
        let mut i: usize = 0;
        while i < 4096
            invariant
                i <= 4096,
                forall|k: int|
                    0 <= k < i ==> image@[k] == (if k < self.character_rom@.len() {
                        self.character_rom@[k]
                    } else {
                        0u8
                    }),
            decreases 4096 - i,
        {
            image[i] = if i < self.character_rom.len() {
                self.character_rom[i]
            } else {
                0
            };
            i += 1;
        }
        Some(image)
    }

    /// The recorded diagnostics, oldest first.
    pub fn diagnostics(&self) -> (entries: Vec<Diagnostic>)
        ensures
            entries@ == self@.log,
    {
        self.log.to_vec()
    }

    /// A write in the input/output window: colour memory, the video
    /// registers that are kept, and the registers of timer unit 1. Other
    /// registers ignore the write; registers that no peripheral owns
    /// also record a diagnostic.
    pub fn write_io(&mut self, address: u16, value: u8)
        ensures
            final(self)@ == spec_write_io(old(self)@, address, value),
    {
        if 0xd800 <= address && address <= 0xdbff {
            self.color_ram[(address - 0xd800) as usize] = value;
            assert(self.color_ram@ =~= old(self).color_ram@.update(address - 0xd800, value));
        } else if 0xd000 <= address && address <= 0xd010 {
        } else if address == 0xd011 {
            self.screen_control1 = value;
        } else if address == 0xd015 && value == 0 {
        } else if address == 0xd016 {
            self.screen_control2 = value;
        } else if address == 0xd020 {
            self.border_color = value;
        } else if address == 0xd021 {
            self.background_color = value;
        } else if address == 0xdc04 {
            self.cia1_timer.set_timer_a_low(value);
        } else if address == 0xdc05 {
            self.cia1_timer.set_timer_a_high(value);
        } else if address == 0xdc06 {
            self.cia1_timer.set_timer_b_low(value);
        } else if address == 0xdc07 {
            self.cia1_timer.set_timer_b_high(value);
        } else if address == 0xdc08 {
            self.cia1_timer.set_tens(value);
        } else if address == 0xdc09 {
            self.cia1_timer.set_second(value);
        } else if address == 0xdc0a {
            self.cia1_timer.set_minute(value);
        } else if address == 0xdc0b {
            self.cia1_timer.set_hour(value);
        } else if address == 0xdc0d {
            self.cia1_timer.set_timer_int(value);
        } else if address == 0xdc0e {
            self.cia1_timer.set_timer_a_ctrl(value);
        } else if address == 0xdc0f {
            self.cia1_timer.set_timer_b_ctrl(value);
        } else if (0xdc00 <= address && address <= 0xdc0f) || (0xdd00 <= address && address
            <= 0xdd0f) {
        } else {
            self.log.push(Diagnostic::UnmappedWrite { address, value });
        }
    }

    /// A read in the input/output window: colour memory, the video
    /// registers that are kept, the clock and the interrupt cause of
    /// timer unit 1. Other registers read as zero; registers that no
    /// peripheral owns also record a diagnostic.
    pub fn read_io(&mut self, address: u16) -> (value: u8)
        ensures
            value == spec_read_io(old(self)@, address).0,
            final(self)@ == spec_read_io(old(self)@, address).1,
    {
        if address == 0xd011 {
            self.screen_control1
        } else if address == 0xd016 {
            self.screen_control2
        } else if address == 0xd020 {
            self.border_color
        } else if address == 0xd021 {
            self.background_color
        } else if 0xd800 <= address && address <= 0xdbff {
            self.color_ram[(address - 0xd800) as usize]
        } else if address == 0xdc08 {
            self.cia1_timer.get_tens()
        } else if address == 0xdc09 {
            self.cia1_timer.get_second()
        } else if address == 0xdc0a {
            self.cia1_timer.get_minute()
        } else if address == 0xdc0b {
            self.cia1_timer.get_hour()
        } else if address == 0xdc0d {
            self.cia1_timer.get_timer_int()
        } else if address != 0xdc0c && ((0xdc00 <= address && address <= 0xdc0f) || (0xdd00
            <= address && address <= 0xdd0f)) {
            0
        } else {
            self.log.push(Diagnostic::UnmappedRead { address });
            0
        }
    }

    /// Reads from an image at `offset`; zero and a diagnostic where the
    /// image has ended.
    fn image_byte(&mut self, byte: Option<u8>, address: u16) -> (value: u8)
        ensures
            value == (match byte {
                Some(b) => b,
                None => 0u8,
            }),
            final(self)@ == (match byte {
                Some(b) => old(self)@,
                None => logged(old(self)@, Diagnostic::ReadOutOfRange { address }),
            }),
    {
        match byte {
            Some(b) => b,
            None => {
                self.log.push(Diagnostic::ReadOutOfRange { address });
                0
            },
        }
    }
}

/// The byte of an image at `offset`, if the image reaches that far.
fn image_at(image: &Vec<u8>, offset: u16) -> (byte: Option<u8>)
    ensures
        byte == (if offset < image@.len() {
            Some(image@[offset as int])
        } else {
            None
        }),
{
    if (offset as usize) < image.len() {
        Some(image[offset as usize])
    } else {
        None
    }
}

impl Memory6502 for C64Memory {
    /// Who answers a read, in this order: the port at addresses 0 and 1;
    /// the input/output window; the cartridge image, if one is plugged;
    /// the firmware images where the port shows them; general memory.
    open spec fn spec_read(model: C64MemoryModel, address: u16) -> (u8, C64MemoryModel) {
        if address == 0 {
            (model.processor_port_ddr, model)
        } else if address == 1 {
            (model.processor_port, model)
        } else if in_io_window(address) {
            spec_read_io(model, address)
        } else if 0x8000 <= address <= 0x9fff && model.external_rom.is_some() {
            read_image(model, model.external_rom.unwrap(), address - 0x8000, address)
        } else if 0xe000 <= address && kernal_visible(model.processor_port) {
            read_image(model, model.kernal, address - 0xe000, address)
        } else if 0xa000 <= address <= 0xbfff && basic_visible(model.processor_port) {
            read_image(model, model.basic_rom, address - 0xa000, address)
        } else {
            (model.ram[address as int], model)
        }
    }

    /// Writes to addresses 0 and 1 set the direction mask and the port;
    /// writes in the input/output window go to the registers; every
    /// other write goes to general memory, also under a firmware or
    /// cartridge window.
    open spec fn spec_write(model: C64MemoryModel, address: u16, value: u8) -> C64MemoryModel {
        if address == 0 {
            C64MemoryModel { processor_port_ddr: value, ..model }
        } else if address == 1 {
            C64MemoryModel {
                processor_port: port_after_write(value, model.processor_port_ddr),
                ..model
            }
        } else if in_io_window(address) {
            spec_write_io(model, address, value)
        } else {
            C64MemoryModel { ram: model.ram.update(address as int, value), ..model }
        }
    }

    open spec fn plain(model: C64MemoryModel, address: u16) -> bool {
        &&& model.ram.len() == 65536
        &&& (2 <= address < 0x8000 || 0xc000 <= address < 0xd000 || (0x8000 <= address < 0xa000
            && model.external_rom.is_none()))
    }

    proof fn lemma_plain(model: C64MemoryModel, address: u16, other: u16, value: u8) {
    }

    fn write_memory(&mut self, address: u16, value: u8) {
        if address == 0 {
            self.processor_port_ddr = value;
        } else if address == 1 {
            self.processor_port = (value & self.processor_port_ddr & 0xf7) | 0x30;
        } else if 0xd000 <= address && address <= 0xdfff {
            self.write_io(address, value);
        } else {
            self.ram[address as usize] = value;
            assert(self.ram@ =~= old(self).ram@.update(address as int, value));
        }
    }

    fn read_memory(&mut self, address: u16) -> (value: u8) {
        if address == 0 {
            self.processor_port_ddr
        } else if address == 1 {
            self.processor_port
        } else if 0xd000 <= address && address <= 0xdfff {
            self.read_io(address)
        } else if 0x8000 <= address && address <= 0x9fff && self.external_rom.is_some() {
            let byte = match &self.external_rom {
                Some(rom) => image_at(rom, address - 0x8000),
                None => None,
            };
            self.image_byte(byte, address)
        } else if 0xe000 <= address && self.processor_port & PORT_HIRAM != 0 {
            let byte = image_at(&self.kernal, address - 0xe000);
            self.image_byte(byte, address)
        } else if 0xa000 <= address && address <= 0xbfff && self.processor_port & PORT_FIRMWARE
            == PORT_FIRMWARE {
            let byte = image_at(&self.basic_rom, address - 0xa000);
            self.image_byte(byte, address)
        } else {
            self.ram[address as usize]
        }
    }

    fn read_memory_word(&mut self, address: u16) -> (value: u16) {
        let lo = self.read_memory(address);
        let hi = self.read_memory(add16(address, 1));
        make_word(lo, hi)
    }
}

/// Bank switching takes effect at once. After a write to the port at
/// address 1, the very next read in a firmware window is answered by
/// the firmware image if the new port state shows it, and by general
/// memory if the new port state hides it; the write itself leaves
/// general memory and the images as they were.
pub proof fn lemma_bank_switch(model: C64MemoryModel, value: u8, address: u16)
    ensures
        ({
            let after = <C64Memory as Memory6502>::spec_write(model, 1, value);
            let read = <C64Memory as Memory6502>::spec_read(after, address);
            &&& after.processor_port == port_after_write(value, model.processor_port_ddr)
            &&& after.ram == model.ram
            &&& after.kernal == model.kernal
            &&& after.basic_rom == model.basic_rom
            &&& 0xe000 <= address && !kernal_visible(after.processor_port) ==> read == (
                model.ram[address as int],
                after,
            )
            &&& 0xe000 <= address && kernal_visible(after.processor_port) && address - 0xe000
                < model.kernal.len() ==> read == (model.kernal[address - 0xe000], after)
            &&& 0xa000 <= address <= 0xbfff && !basic_visible(after.processor_port) ==> read == (
                model.ram[address as int],
                after,
            )
            &&& 0xa000 <= address <= 0xbfff && basic_visible(after.processor_port) && address
                - 0xa000 < model.basic_rom.len() ==> read == (
                model.basic_rom[address - 0xa000],
                after,
            )
            &&& value & PORT_HIRAM == 0 ==> !kernal_visible(after.processor_port)
                && !basic_visible(after.processor_port)
        }),
{
    let ddr = model.processor_port_ddr;
    lemma_port_visibility(value, ddr);
    assert(value & 0x02 == 0 ==> value & ddr & 0x02 == 0 && value & ddr & 0x03 != 0x03)
        by (bit_vector);
}

/// Writes never reach a firmware image: a write into a firmware window
/// lands in general memory underneath, where it is read once the window
/// is switched off.
pub proof fn lemma_write_under_firmware(model: C64MemoryModel, address: u16, value: u8)
    requires
        model.ram.len() == 65536,
        0xa000 <= address <= 0xbfff || 0xe000 <= address,
    ensures
        ({
            let after = <C64Memory as Memory6502>::spec_write(model, address, value);
            &&& after.ram == model.ram.update(address as int, value)
            &&& after.kernal == model.kernal
            &&& after.basic_rom == model.basic_rom
            &&& after.processor_port == model.processor_port
            &&& !kernal_visible(model.processor_port) ==> <C64Memory as Memory6502>::spec_read(
                after,
                address,
            ).0 == value
        }),
{
    assert(forall|port: u8| port & 0x02 == 0 ==> port & 0x03 != 0x03) by (bit_vector);
}

impl Memory6502Debug for C64Memory {
    open spec fn spec_raw(model: C64MemoryModel, address: u16) -> u8 {
        model.ram[address as int]
    }

    fn show_stack(&self) -> (bytes: Vec<u8>) {
        self.window(0x01f0, 16)
    }

    fn show_zero_page(&self) -> (bytes: Vec<u8>) {
        self.window(0, 256)
    }
}

impl C64Memory {
    /// Copies `count` bytes of general memory starting at `start`.
    fn window(&self, start: u16, count: u16) -> (bytes: Vec<u8>)
        requires
            start + count <= 0x10000,
        ensures
            bytes@.len() == count,
            forall|i: int| 0 <= i < count ==> bytes@[i] == self@.ram[start + i],
    {
        let mut bytes: Vec<u8> = Vec::new();
        let mut i: u16 = 0;
        while i < count
            invariant
                i <= count,
                start + count <= 0x10000,
                bytes@.len() == i,
                forall|k: int| 0 <= k < i ==> bytes@[k] == self.ram@[start + k],
            decreases count - i,
        {
            bytes.push(self.ram[start as usize + i as usize]);
            i += 1;
        }
        bytes
    }
}

} // verus!
