//! The pixel processing unit: a timing state machine that renders one scanline
//! per pass through its modes and hands each completed frame to a consumer.

use crate::exit::VmExit;
use crate::registers::{bit, spec_bit};
use vstd::prelude::*;

verus! {

/// Width of the screen in pixels.
pub const WIDTH: u32 = 160;

/// Height of the screen in pixels.
pub const HEIGHT: u32 = 144;

/// Size of a frame in bytes: four bytes (red, green, blue, alpha) per pixel.
pub const FRAME_LENGTH: usize = 92160;

/// Size of the video RAM in bytes.
pub const VRAM_LENGTH: usize = 8192;

/// Bytes of the frame buffer taken by one scanline.
pub const LINE_LENGTH: usize = 640;

/// Timing phase of the pixel processing unit.
#[derive(Clone, Copy, Debug, PartialEq, Eq, Structural)]
pub enum GpuMode {
    /// Horizontal blanking, after a scanline was drawn.
    HBlank,
    /// Vertical blanking, after the last visible scanline.
    VBlank,
    /// Scanning the object attribute memory, at the start of a scanline.
    OAMAccess,
    /// Transferring pixels from video RAM.
    VRAMAccess,
}

impl GpuMode {
    /// Clock ticks after which the mode is left.
    pub open spec fn spec_threshold(self) -> usize {
        match self {
            GpuMode::OAMAccess => 80,
            GpuMode::VRAMAccess => 172,
            GpuMode::HBlank => 204,
            GpuMode::VBlank => 456,
        }
    }

    /// Clock ticks after which the mode is left.
    #[verifier::when_used_as_spec(spec_threshold)]
    pub fn threshold(self) -> (t: usize)
        ensures
            t == self.spec_threshold(),
    {
        match self {
            GpuMode::OAMAccess => 80,
            GpuMode::VRAMAccess => 172,
            GpuMode::HBlank => 204,
            GpuMode::VBlank => 456,
        }
    }

    /// The two mode bits of the LCD status register.
    pub open spec fn spec_number(self) -> u8 {
        match self {
            GpuMode::HBlank => 0,
            GpuMode::VBlank => 1,
            GpuMode::OAMAccess => 2,
            GpuMode::VRAMAccess => 3,
        }
    }

    /// The two mode bits of the LCD status register.
    #[verifier::when_used_as_spec(spec_number)]
    pub fn number(self) -> (n: u8)
        ensures
            n == self.spec_number(),
    {
        match self {
            GpuMode::HBlank => 0,
            GpuMode::VBlank => 1,
            GpuMode::OAMAccess => 2,
            GpuMode::VRAMAccess => 3,
        }
    }
}

/// What a step of the pixel processing unit did about frame hand-off.
#[derive(Clone, Copy, Debug, PartialEq, Eq, Structural)]
pub enum FrameEvent {
    /// No frame was completed.
    Running,
    /// A frame was completed and no consumer is attached: it was dropped.
    Dropped,
    /// A frame was placed in the hand-off slot.
    Published,
    /// A completed frame waits for the consumer to acknowledge the previous
    /// one; nothing advances until it does.
    Blocked,
}

/// Mathematical state of the pixel processing unit.
pub struct GpuState {
    /// The frame buffer, `FRAME_LENGTH` bytes of RGBA.
    pub frame: Seq<u8>,
    pub mode: GpuMode,
    /// Ticks accumulated in the current mode.
    pub modeclock: usize,
    /// Current scanline, 0 to 153.
    pub line: u8,
    /// Tile data and tile maps.
    pub graphics_ram: Seq<u8>,
    pub scroll_x: u8,
    pub scroll_y: u8,
    /// A consumer subscribed to the frames.
    pub attached: bool,
    /// The consumer has drawn the previous frame.
    pub drawn: bool,
    /// The published frame that the consumer has not received yet.
    pub in_flight: Option<Seq<u8>>,
    /// A completed frame waits for the consumer's acknowledgment.
    pub awaiting: bool,
}

impl GpuState {
    /// Validity of the state: buffer sizes, the clock below its threshold,
    /// the scanline in range, and at most one frame in flight, which exists
    /// only while the consumer has not acknowledged it.
    pub open spec fn wf(self) -> bool {
        &&& self.frame.len() == FRAME_LENGTH
        &&& self.graphics_ram.len() == VRAM_LENGTH
        &&& self.modeclock < self.mode.spec_threshold()
        &&& self.line <= 153
        &&& (self.mode != GpuMode::VBlank ==> self.line <= 142)
        &&& (self.in_flight matches Some(f) ==> f.len() == FRAME_LENGTH && !self.drawn)
        &&& (self.awaiting ==> self.attached)
    }

    /// Mode, clock and scanline are those of `other`.
    pub open spec fn same_timing(self, other: GpuState) -> bool {
        &&& self.mode == other.mode
        &&& self.modeclock == other.modeclock
        &&& self.line == other.line
    }

    /// Hand-off flags and slot are those of `other`.
    pub open spec fn same_handoff(self, other: GpuState) -> bool {
        &&& self.attached == other.attached
        &&& self.drawn == other.drawn
        &&& self.in_flight == other.in_flight
        &&& self.awaiting == other.awaiting
    }

    /// The state at power-on: scanning line 0, all memory zero, no consumer.
    pub open spec fn initial() -> GpuState {
        GpuState {
            frame: Seq::new(FRAME_LENGTH as nat, |i: int| 0u8),
            mode: GpuMode::OAMAccess,
            modeclock: 0,
            line: 0,
            graphics_ram: Seq::new(VRAM_LENGTH as nat, |i: int| 0u8),
            scroll_x: 0,
            scroll_y: 0,
            attached: false,
            drawn: true,
            in_flight: None,
            awaiting: false,
        }
    }

    /// What a read of `address` returns.
    pub open spec fn read_byte(self, address: usize) -> Result<u8, VmExit> {
        if 0x8000 <= address <= 0x9FFF {
            Ok(self.graphics_ram[address - 0x8000])
        } else if address == 0xFF40 {
            Ok(0u8)
        } else if address == 0xFF41 {
            Ok(self.mode.spec_number())
        } else if address == 0xFF42 {
            Ok(self.scroll_y)
        } else if address == 0xFF44 {
            Ok(self.line)
        } else if address == 0xFF47 {
            Ok(0u8)
        } else {
            Err(VmExit::OobRead)
        }
    }

    /// Whether a write to `address` is accepted.
    pub open spec fn accepts_write(address: usize) -> bool {
        0x8000 <= address <= 0x9FFF || address == 0xFF40 || address == 0xFF42 || address == 0xFF47
    }

    /// The state after an accepted write of `val` to `address`: video RAM
    /// and scroll-Y store the value, LCD control and the palette ignore it.
    pub open spec fn stored(self, address: usize, val: u8) -> GpuState {
        if 0x8000 <= address <= 0x9FFF {
            GpuState { graphics_ram: self.graphics_ram.update(address - 0x8000, val), ..self }
        } else if address == 0xFF42 {
            GpuState { scroll_y: val, ..self }
        } else {
            self
        }
    }

    /// The state after a write of `val` to `address`, or the refusal.
    pub open spec fn write_byte(self, address: usize, val: u8) -> Result<GpuState, VmExit> {
        if Self::accepts_write(address) {
            Ok(self.stored(address, val))
        } else {
            Err(VmExit::OobRead)
        }
    }

    /// Grey level of the background at column `pixel` of scanline `line`:
    /// 255 where the bit of the tile row is set, else 0.
    pub open spec fn shade(self, line: u8, pixel: u8) -> u8 {
        let y = line.wrapping_add(self.scroll_y) as int;
        let x = pixel.wrapping_add(self.scroll_x) as int;
        let tile_id = self.graphics_ram[0x1800 + (y / 8) * 32 + x / 8] as int;
        let data = self.graphics_ram[tile_id * 16 + (y % 8) * 2];
        if spec_bit(data, (7 - x % 8) as u8) {
            255
        } else {
            0
        }
    }

    /// Byte `k` of the rendered scanline `line`: the grey level in red,
    /// green and blue, and 255 in alpha.
    pub open spec fn texel(self, line: u8, k: int) -> u8 {
        if k % 4 == 3 {
            255
        } else {
            self.shade(line, (k / 4) as u8)
        }
    }

    /// The state after scanline `line` was painted into the frame buffer.
    pub open spec fn render_line(self, line: u8) -> GpuState {
        GpuState {
            frame: Seq::new(
                self.frame.len(),
                |i: int|
                    if line * LINE_LENGTH <= i < (line + 1) * LINE_LENGTH {
                        self.texel(line, i - line * LINE_LENGTH)
                    } else {
                        self.frame[i]
                    },
            ),
            ..self
        }
    }

    /// The state after a consumer subscribed.
    pub open spec fn sync(self) -> GpuState {
        GpuState { attached: true, drawn: true, in_flight: None, ..self }
    }

    /// The state after the consumer acknowledged the previous frame.
    pub open spec fn acknowledge(self) -> GpuState {
        GpuState { drawn: true, in_flight: None, ..self }
    }

    /// The state after the frame buffer was placed in the hand-off slot.
    pub open spec fn publish(self) -> GpuState {
        GpuState { in_flight: Some(self.frame), drawn: false, awaiting: false, ..self }
    }

    /// Hand-off of a completed frame: dropped without a consumer, published
    /// once the previous frame was drawn, and held back until then.
    pub open spec fn render_frame(self) -> (GpuState, FrameEvent) {
        if !self.attached {
            (self, FrameEvent::Dropped)
        } else if self.drawn {
            (self.publish(), FrameEvent::Published)
        } else {
            (GpuState { awaiting: true, ..self }, FrameEvent::Blocked)
        }
    }

    /// The producer may not advance: a frame waits and the previous one is
    /// not acknowledged.
    pub open spec fn blocked(self) -> bool {
        self.awaiting && !self.drawn
    }

    /// Adds `ticks` to the clock and makes the transition of the current
    /// mode if its threshold is reached.
    pub open spec fn tick(self, ticks: usize) -> (GpuState, FrameEvent) {
        if self.modeclock + ticks < self.mode.spec_threshold() {
            (GpuState { modeclock: (self.modeclock + ticks) as usize, ..self }, FrameEvent::Running)
        } else {
            match self.mode {
                GpuMode::OAMAccess => (
                    GpuState { modeclock: 0, mode: GpuMode::VRAMAccess, ..self },
                    FrameEvent::Running,
                ),
                GpuMode::VRAMAccess => (
                    (GpuState { modeclock: 0, mode: GpuMode::HBlank, ..self }).render_line(self.line),
                    FrameEvent::Running,
                ),
                GpuMode::HBlank => if self.line + 1 == 143 {
                    (GpuState { modeclock: 0, line: 143, mode: GpuMode::VBlank, ..self }).render_frame()
                } else {
                    (
                        GpuState {
                            modeclock: 0,
                            line: (self.line + 1) as u8,
                            mode: GpuMode::OAMAccess,
                            ..self
                        },
                        FrameEvent::Running,
                    )
                },
                GpuMode::VBlank => if self.line + 1 > 153 {
                    (
                        GpuState { modeclock: 0, line: 0, mode: GpuMode::OAMAccess, ..self },
                        FrameEvent::Running,
                    )
                } else {
                    (GpuState { modeclock: 0, line: (self.line + 1) as u8, ..self }, FrameEvent::Running)
                },
            }
        }
    }

    /// One step of the state machine on `ticks` elapsed clock ticks.
    ///
    /// While blocked nothing changes. A frame that waited is published first
    /// if the consumer has acknowledged the previous one.
    pub open spec fn step(self, ticks: usize) -> (GpuState, FrameEvent) {
        if self.blocked() {
            (self, FrameEvent::Blocked)
        } else if self.awaiting {
            (self.publish().tick(ticks).0, FrameEvent::Published)
        } else {
            self.tick(ticks)
        }
    }

    /// Mode transitions left until the next frame is completed.
    pub open spec fn phases_left(self) -> nat {
        match self.mode {
            GpuMode::OAMAccess => (3 * (142 - self.line) + 3) as nat,
            GpuMode::VRAMAccess => (3 * (142 - self.line) + 2) as nat,
            GpuMode::HBlank => (3 * (142 - self.line) + 1) as nat,
            GpuMode::VBlank => ((154 - self.line) + 429) as nat,
        }
    }

    /// Clock ticks left until the next frame is completed, at most.
    pub open spec fn ticks_left(self) -> nat {
        (self.phases_left() * 456 - self.modeclock) as nat
    }
}

/// The pixel processing unit.
pub struct Gpu {
    /// The frame buffer, `FRAME_LENGTH` bytes of RGBA.
    pub frame: Vec<u8>,
    pub mode: GpuMode,
    /// Ticks accumulated in the current mode.
    pub modeclock: usize,
    /// Current scanline, 0 to 153.
    pub line: u8,
    /// Tile data and tile maps.
    pub graphics_ram: Vec<u8>,
    pub scroll_x: u8,
    pub scroll_y: u8,
    /// A consumer subscribed to the frames.
    pub attached: bool,
    /// The consumer has drawn the previous frame.
    pub drawn: bool,
    /// The published frame that the consumer has not received yet.
    pub in_flight: Option<Vec<u8>>,
    /// A completed frame waits for the consumer's acknowledgment.
    pub awaiting: bool,
}

impl View for Gpu {
    type V = GpuState;

    open spec fn view(&self) -> GpuState {
        GpuState {
            frame: self.frame@,
            mode: self.mode,
            modeclock: self.modeclock,
            line: self.line,
            graphics_ram: self.graphics_ram@,
            scroll_x: self.scroll_x,
            scroll_y: self.scroll_y,
            attached: self.attached,
            drawn: self.drawn,
            in_flight: match self.in_flight {
                Some(f) => Some(f@),
                None => None,
            },
            awaiting: self.awaiting,
        }
    }
}

impl Gpu {
    /// Validity of the unit, see [`GpuState::wf`].
    pub open spec fn wf(&self) -> bool {
        self@.wf()
    }

    /// Whether the unit is valid, see [`GpuState::wf`].
    pub fn valid(&self) -> (b: bool)
        ensures
            b == self.wf(),
    {
        let slot = match &self.in_flight {
            Some(frame) => frame.len() == FRAME_LENGTH && !self.drawn,
            None => true,
        };
        self.frame.len() == FRAME_LENGTH && self.graphics_ram.len() == VRAM_LENGTH
            && self.modeclock < self.mode.threshold() && self.line <= 153 && (self.mode
            == GpuMode::VBlank || self.line <= 142) && slot && (!self.awaiting || self.attached)
    }

    /// A unit at power-on: scanning line 0, all memory zero, no consumer.
    pub fn new() -> (gpu: Gpu)
        ensures
            gpu@ == GpuState::initial(),
            gpu.wf(),
    {
        let gpu = Gpu {
            frame: vec![0u8; FRAME_LENGTH],
            mode: GpuMode::OAMAccess,
            modeclock: 0,
            line: 0,
            graphics_ram: vec![0u8; VRAM_LENGTH],
            scroll_x: 0,
            scroll_y: 0,
            attached: false,
            drawn: true,
            in_flight: None,
            awaiting: false,
        };
        assert(gpu@.frame =~= GpuState::initial().frame);
        assert(gpu@.graphics_ram =~= GpuState::initial().graphics_ram);
        gpu
    }

    /// Reads video RAM or one of the LCD registers.
    ///
    /// Video RAM holds what was written. LCD control and the palette read as
    /// 0, LCD status as the mode number, and scroll-Y and the scanline as
    /// they are. Every other address is refused with `OobRead`.
    pub fn read_byte(&self, address: usize) -> (res: Result<u8, VmExit>)
        requires
            self.wf(),
        ensures
            res == self@.read_byte(address),
    {
        if 0x8000 <= address && address <= 0x9FFF {
            Ok(self.graphics_ram[address - 0x8000])
        } else if address == 0xFF40 {
            Ok(0)
        } else if address == 0xFF41 {
            Ok(self.mode.number())
        } else if address == 0xFF42 {
            Ok(self.scroll_y)
        } else if address == 0xFF44 {
            Ok(self.line)
        } else if address == 0xFF47 {
            Ok(0)
        } else {
            Err(VmExit::OobRead)
        }
    }

    /// Writes video RAM or one of the LCD registers.
    ///
    /// Video RAM and scroll-Y store the value; LCD control and the palette
    /// accept and ignore it. Every other address is refused with `OobRead`
    /// and nothing changes.
    pub fn write_byte(&mut self, address: usize, val: u8) -> (res: Result<(), VmExit>)
        requires
            old(self).wf(),
        ensures
            final(self).wf(),
            match old(self)@.write_byte(address, val) {
                Ok(g) => res is Ok && final(self)@ == g,
                Err(e) => res == Err::<(), VmExit>(e) && final(self)@ == old(self)@,
            },
            final(self)@.same_timing(old(self)@),
            final(self)@.same_handoff(old(self)@),
            final(self)@.frame == old(self)@.frame,
    {
        if 0x8000 <= address && address <= 0x9FFF {
            self.graphics_ram[address - 0x8000] = val;
            Ok(())
        } else if address == 0xFF40 {
            Ok(())
        } else if address == 0xFF42 {
            self.scroll_y = val;
            Ok(())
        } else if address == 0xFF47 {
            Ok(())
        } else {
            Err(VmExit::OobRead)
        }
    }

    /// Whether a write to `address` is accepted.
    pub fn accepts_write(address: usize) -> (b: bool)
        ensures
            b == GpuState::accepts_write(address),
    {
        (0x8000 <= address && address <= 0x9FFF) || address == 0xFF40 || address == 0xFF42
            || address == 0xFF47
    }

    /// Subscribes a consumer: from now on completed frames are published
    /// instead of dropped, the first one at once.
    pub fn sync(&mut self)
        requires
            old(self).wf(),
        ensures
            final(self)@ == old(self)@.sync(),
            final(self).wf(),
    {
        self.attached = true;
        self.drawn = true;
        self.in_flight = None;
    }

    /// Records that the consumer has drawn the previous frame, which lets
    /// the next one be published. A frame still in the slot is discarded.
    pub fn acknowledge(&mut self)
        requires
            old(self).wf(),
        ensures
            final(self)@ == old(self)@.acknowledge(),
            final(self).wf(),
    {
        self.drawn = true;
        self.in_flight = None;
    }

    /// Takes the published frame out of the hand-off slot, if there is one.
    pub fn take_frame(&mut self) -> (frame: Option<Vec<u8>>)
        requires
            old(self).wf(),
        ensures
            final(self)@ == (GpuState { in_flight: None, ..old(self)@ }),
            final(self).wf(),
            match frame {
                Some(f) => old(self)@.in_flight == Some(f@) && f@.len() == FRAME_LENGTH,
                None => old(self)@.in_flight is None,
            },
    {
        self.in_flight.take()
    }

    /// Whether the producer is held back until the consumer acknowledges.
    pub fn blocked(&self) -> (b: bool)
        ensures
            b == self@.blocked(),
    {
        self.awaiting && !self.drawn
    }

    /// Paints scanline `line` of the background into the frame buffer.
    pub fn render_line(&mut self, line: u8)
        requires
            old(self).wf(),
            line < HEIGHT,
        ensures
            final(self)@ == old(self)@.render_line(line),
            final(self).wf(),
    {
        let position_y = line.wrapping_add(self.scroll_y) as usize;
        let tile_row = (position_y / 8) * 32;
        let line_in_tile = (position_y % 8) * 2;
        let base = line as usize * LINE_LENGTH;
        let mut pixel: u8 = 0;
        while pixel < 160
            invariant
                pixel <= 160,
                line < HEIGHT,
                base == line * LINE_LENGTH,
                position_y == line.wrapping_add(self.scroll_y),
                tile_row == (position_y / 8) * 32,
                line_in_tile == (position_y % 8) * 2,
                self.wf(),
                self@ == (GpuState { frame: self@.frame, ..old(self)@ }),
                forall|i: int|
                    0 <= i < FRAME_LENGTH && !(base <= i < base + 4 * pixel)
                        ==> self.frame@[i] == old(self).frame@[i],
                forall|i: int|
                    base <= i < base + 4 * pixel ==> self.frame@[i] == old(self)@.texel(line, i - base),
            decreases 160 - pixel,
        {
            let position_x = pixel.wrapping_add(self.scroll_x) as usize;
            let tile_col = position_x / 8;
            let tile_id = self.graphics_ram[0x1800 + tile_row + tile_col] as usize;
            let data = self.graphics_ram[tile_id * 16 + line_in_tile];
            let color_bit = (7 - position_x % 8) as u8;
            let val: u8 = if bit(data, color_bit) {
                255
            } else {
                0
            };
            let offset = base + pixel as usize * 4;
            self.frame[offset] = val;
            self.frame[offset + 1] = val;
            self.frame[offset + 2] = val;
            self.frame[offset + 3] = 0xFF;
            pixel = pixel + 1;
        }
        assert(self@.frame =~= old(self)@.render_line(line).frame);
    }

    /// Hands a completed frame off: drops it without a consumer, publishes a
    /// snapshot of the frame buffer once the previous frame was drawn, and
    /// holds it back until then.
    pub fn render_frame(&mut self) -> (ev: FrameEvent)
        requires
            old(self).wf(),
        ensures
            final(self)@ == old(self)@.render_frame().0,
            ev == old(self)@.render_frame().1,
            final(self).wf(),
    {
        if !self.attached {
            FrameEvent::Dropped
        } else if self.drawn {
            self.publish();
            FrameEvent::Published
        } else {
            self.awaiting = true;
            FrameEvent::Blocked
        }
    }

    /// Places a snapshot of the frame buffer in the hand-off slot.
    fn publish(&mut self)
        requires
            old(self).wf(),
            old(self).drawn,
        ensures
            final(self)@ == old(self)@.publish(),
            final(self).wf(),
    {
        let snapshot = self.frame.clone();
        self.in_flight = Some(snapshot);
        self.drawn = false;
        self.awaiting = false;
    }

    /// Adds `ticks` to the clock and makes the transition of the current
    /// mode if its threshold is reached.
    fn tick(&mut self, ticks: usize) -> (ev: FrameEvent)
        requires
            old(self).wf(),
        ensures
            final(self)@ == old(self)@.tick(ticks).0,
            ev == old(self)@.tick(ticks).1,
            final(self).wf(),
    {
        let threshold = self.mode.threshold();
        if ticks < threshold - self.modeclock {
            self.modeclock = self.modeclock + ticks;
            return FrameEvent::Running;
        }
        self.modeclock = 0;
        match self.mode {
            GpuMode::OAMAccess => {
                self.mode = GpuMode::VRAMAccess;
                FrameEvent::Running
            },
            GpuMode::VRAMAccess => {
                self.mode = GpuMode::HBlank;
                let line = self.line;
                self.render_line(line);
                FrameEvent::Running
            },
            GpuMode::HBlank => {
                self.line = self.line + 1;
                if self.line == 143 {
                    self.mode = GpuMode::VBlank;
                    self.render_frame()
                } else {
                    self.mode = GpuMode::OAMAccess;
                    FrameEvent::Running
                }
            },
            GpuMode::VBlank => {
                if self.line >= 153 {
                    self.mode = GpuMode::OAMAccess;
                    self.line = 0;
                } else {
                    self.line = self.line + 1;
                }
                FrameEvent::Running
            },
        }
    }

    /// Advances the unit by `cycle_nb` clock ticks.
    ///
    /// The ticks are added to the clock of the current mode. When the clock
    /// reaches the mode's threshold it is reset and the mode changes: OAM
    /// scan (80) to pixel transfer; pixel transfer (172) to horizontal blank,
    /// painting the current scanline; horizontal blank (204) to the next
    /// scanline, or at scanline 143 to vertical blank with the frame handed
    /// off; vertical blank (456) to the next scanline, and after scanline 153
    /// back to scanline 0.
    ///
    /// While a completed frame waits for the consumer, nothing changes and
    /// the result is `Blocked`; once the consumer has acknowledged, the frame
    /// is published first.
    pub fn step(&mut self, cycle_nb: usize) -> (ev: FrameEvent)
        requires
            old(self).wf(),
        ensures
            final(self)@ == old(self)@.step(cycle_nb).0,
            ev == old(self)@.step(cycle_nb).1,
            final(self).wf(),
            ev == FrameEvent::Running && cycle_nb >= 1
                ==> final(self)@.ticks_left() < old(self)@.ticks_left(),
    {
        if self.awaiting {
            if !self.drawn {
                return FrameEvent::Blocked;
            }
            self.publish();
            let _ = self.tick(cycle_nb);
            return FrameEvent::Published;
        }
        self.tick(cycle_nb)
    }
}

} // verus!
