//! The machine: CPU, bus, PPU and timers in step.

use crate::bits::min_u32;
use crate::bus::boot::{opt_bytes, powered_on};
use crate::bus::model::BusModel;
use crate::bus::Bus;
use crate::cart::Cart;
use crate::cpu::cpsr::MODE_SYS;
use crate::cpu::{cpu_stepped, Cpsr, Cpu};
use crate::irq::{check, irq_checked};
use crate::ppu::{blank_ppu, Ppu, PpuModel};
use crate::timers::{idle_timers, starts_applied, step as step_timers, timers_stepped, Timers};
use vstd::prelude::*;

verus! {

/// Where a run of cycles stands.
#[derive(Clone, Copy, Debug)]
pub struct Run {
    /// Cycles still to do; none means that no run is under way.
    pub left: u32,
    /// Cycles since the last sound tick, and how many it waits for.
    pub slice: u32,
    pub target: u32,
    /// A frame was completed.
    pub frame: bool,
    /// An instruction of so many cycles is done but for the arithmetic that
    /// the host was asked for.
    pub pending: Option<u32>,
}

pub struct Emu {
    pub cpu: Cpu,
    pub bus: Bus,
    pub ppu: Ppu,
    pub timers: Timers,
    pub cart_title: String,
    pub frames_since_flush: u32,
    /// The battery should be written out now.
    pub flush_due: bool,
    pub run: Run,
    /// Runs without a completed frame.
    pub guard: u32,
}

/// The machine as plain values.
pub struct EmuModel {
    pub cpu: Cpu,
    pub bus: BusModel,
    pub ppu: PpuModel,
    pub timers: Timers,
    pub title: Seq<char>,
    pub frames_since_flush: u32,
    pub flush_due: bool,
    pub run: Run,
    pub guard: u32,
}

impl View for Emu {
    type V = EmuModel;

    open spec fn view(&self) -> EmuModel {
        EmuModel {
            cpu: self.cpu,
            bus: self.bus@,
            ppu: self.ppu@,
            timers: self.timers,
            title: self.cart_title@,
            frames_since_flush: self.frames_since_flush,
            flush_due: self.flush_due,
            run: self.run,
            guard: self.guard,
        }
    }
}

pub open spec fn idle_run() -> Run {
    Run { left: 0, slice: 0, target: 0, frame: false, pending: None }
}

/// Elementwise sums, saturating.
pub open spec fn sums(a: [u32; 4], b: [u32; 4]) -> [u32; 4] {
    [
        a[0].saturating_add(b[0]),
        a[1].saturating_add(b[1]),
        a[2].saturating_add(b[2]),
        a[3].saturating_add(b[3]),
    ]
}

fn add_counts(a: [u32; 4], b: [u32; 4]) -> (r: [u32; 4])
    ensures
        r == sums(a, b),
{
    let r: [u32; 4] = [
        a[0].saturating_add(b[0]),
        a[1].saturating_add(b[1]),
        a[2].saturating_add(b[2]),
        a[3].saturating_add(b[3]),
    ];
    assert(r =~= sums(a, b));
    r
}

impl EmuModel {
    pub open spec fn wf(self) -> bool {
        self.bus.wf() && self.ppu.wf()
    }

    /// The timers over `c` cycles, their overflows noted for the sound.
    #[verifier::opaque]
    pub open spec fn timed(self, c: u32) -> EmuModel {
        let z = timers_stepped(self.timers, self.bus, c);
        EmuModel {
            timers: z.t,
            bus: BusModel {
                timer_overflows: sums(z.b.timer_overflows, z.ov),
                timer_reload: z.t.reload,
                ..z.b
            },
            ..self
        }
    }

    /// The reload latches handed to the timers.
    pub open spec fn reloads_taken(self) -> EmuModel {
        EmuModel { timers: Timers { reload: self.bus.timer_reload, ..self.timers }, ..self }
    }

    /// Timer starts latched by register writes.
    pub open spec fn started(self) -> EmuModel {
        let (t, b) = starts_applied(self.timers, self.bus, 4);
        EmuModel { timers: t, bus: BusModel { timer_start_mask: 0, ..b }, ..self }
    }

    /// The PPU over `c` cycles; a completed frame is counted.
    #[verifier::opaque]
    pub open spec fn drawn(self, c: u32) -> EmuModel {
        let (p, b) = self.ppu.stepped(self.bus, c);
        EmuModel {
            ppu: p,
            bus: b,
            frames_since_flush: if p.frame_ready {
                self.frames_since_flush.wrapping_add(1)
            } else {
                self.frames_since_flush
            },
            run: Run { frame: self.run.frame || p.frame_ready, ..self.run },
            ..self
        }
    }

    /// The interrupt line after `c` cycles.
    pub open spec fn interrupted(self, c: u32) -> EmuModel {
        let (cpu, bus) = irq_checked(self.cpu, self.bus, c);
        EmuModel { cpu, bus, ..self }
    }

    /// `c` cycles off the run.
    pub open spec fn spent(self, c: u32) -> EmuModel {
        EmuModel {
            run: Run {
                slice: self.run.slice.saturating_add(c),
                left: self.run.left.saturating_sub(c),
                ..self.run
            },
            ..self
        }
    }

    /// The end of a halt: IntrWait by its flags (the hardware's or the BIOS
    /// copy), Halt by any enabled interrupt.
    #[verifier::opaque]
    pub open spec fn woken(self) -> EmuModel {
        let (s, pending) = self.bus.read16(0x0400_0202);
        let (s, ie) = s.read16(0x0400_0200);
        let (s, seen) = s.read16(0x0300_7FF8);
        let m = s.intr_wait_mask;
        let wake = if m != 0 {
            pending & m != 0 || seen & m != 0
        } else {
            pending & ie != 0
        };
        EmuModel {
            bus: if wake {
                BusModel { halt_wait: false, intr_wait_mask: 0, ..s }
            } else {
                s
            },
            ..self
        }
    }

    /// 64 halted cycles.
    #[verifier::opaque]
    pub open spec fn halted(self) -> EmuModel {
        self.reloads_taken().timed(64).started().drawn(64).interrupted(64).woken().spent(64)
    }

    /// The affine reference points at the top of the picture.
    #[verifier::opaque]
    pub open spec fn relatched(self) -> EmuModel {
        if self.ppu.line == 0 && self.ppu.line_cycles < 32 {
            let (p, b) = self.ppu.latched(self.bus);
            EmuModel { ppu: p, bus: b, ..self }
        } else {
            self
        }
    }

    /// Every 120 frames a changed battery is due to be written.
    #[verifier::opaque]
    pub open spec fn flush_checked(self) -> EmuModel {
        if self.ppu.frame_ready && self.frames_since_flush >= 120 && self.bus.save_dirty {
            EmuModel { frames_since_flush: 0, flush_due: true, ..self }
        } else {
            self
        }
    }

    /// The rest of the machine after an instruction of `c` cycles.
    #[verifier::opaque]
    pub open spec fn followed(self, c: u32) -> EmuModel {
        (EmuModel {
            run: Run { pending: None, ..self.run },
            ..self
        }).reloads_taken().started().timed(c).relatched().drawn(c).flush_checked().interrupted(
            c,
        ).spent(c)
    }

    /// A slice that is full, or that completed a frame, goes to the sound.
    #[verifier::opaque]
    pub open spec fn sliced(self) -> EmuModel {
        if self.run.frame || self.run.slice >= self.run.target {
            EmuModel {
                bus: self.bus.sound_ticked(self.run.slice),
                run: Run { slice: 0, ..self.run },
                ..self
            }
        } else {
            self
        }
    }

    /// A new slice begins where the last one ended.
    pub open spec fn targeted(self) -> EmuModel {
        if self.run.slice == 0 {
            EmuModel {
                run: Run {
                    target: if self.run.left < 64 {
                        self.run.left
                    } else {
                        64
                    },
                    ..self.run
                },
                ..self
            }
        } else {
            self
        }
    }

    /// One step of a run: 64 halted cycles, an instruction, or the rest of one
    /// that the host finished; and whether the run has to stop for the host.
    #[verifier::opaque]
    pub open spec fn once(self) -> (EmuModel, bool) {
        match self.run.pending {
            Some(c) => if self.bus.math is Some {
                (self, true)
            } else {
                (self.followed(c).sliced(), false)
            },
            None => {
                let m = self.targeted();
                if m.bus.halt_wait {
                    (m.halted().sliced(), false)
                } else {
                    let (cpu, bus, c) = cpu_stepped(m.cpu, m.bus);
                    let n = EmuModel { cpu, bus, ..m };
                    if bus.math is Some {
                        (EmuModel { run: Run { pending: Some(c), ..n.run }, ..n }, true)
                    } else {
                        (n.followed(c).sliced(), false)
                    }
                }
            },
        }
    }

    /// Nothing is left to run.
    pub open spec fn done(self) -> bool {
        self.run.left == 0 && self.run.pending is None
    }

    /// The run until it is done or the host has to compute something.
    pub open spec fn advanced(self, fuel: nat) -> EmuModel
        decreases fuel,
    {
        if fuel == 0 || self.done() {
            self
        } else {
            let (m, stop) = self.once();
            if stop {
                m
            } else {
                m.advanced((fuel - 1) as nat)
            }
        }
    }

    /// A run of at least `min` cycles begun, unless one is under way.
    pub open spec fn begun(self, min: u32) -> EmuModel {
        if self.run.left == 0 && self.run.pending is None {
            EmuModel {
                run: Run {
                    left: if min < 1 {
                        1
                    } else {
                        min
                    },
                    ..idle_run()
                },
                ..self
            }
        } else {
            self
        }
    }

    /// A run of at least `min` cycles, as far as it goes.
    #[verifier::opaque]
    pub open spec fn cycled(self, min: u32) -> EmuModel {
        let m = self.begun(min);
        m.advanced((m.run.left + 1) as nat)
    }

    /// What a run reports: nothing while the host is asked, else whether a
    /// frame was completed.
    pub open spec fn report(self) -> Option<bool> {
        if self.run.pending is Some {
            None
        } else {
            Some(self.run.frame)
        }
    }

    /// Runs of 256 cycles until a frame is there, or too many had none.
    pub open spec fn framed(self) -> (EmuModel, Option<bool>)
        decreases 2_000_001 - self.guard,
    {
        let m = self.cycled(256);
        match m.report() {
            None => (m, None),
            Some(frame) => if frame {
                (EmuModel { bus: m.bus.sound_ticked(0), guard: 0, ..m }, Some(true))
            } else if self.guard >= 2_000_000 {
                (EmuModel { guard: 0, ..m }, Some(false))
            } else {
                (EmuModel { guard: (self.guard + 1) as u32, ..m }).framed()
            },
        }
    }
}

/// Registers after the BIOS would have started the game: System mode with its
/// stack, interrupts on, and the ROM entry.
pub open spec fn started_cpu(c: Cpu) -> Cpu {
    let d = (Cpu {
        cpsr: Cpsr { thumb: false, irq_disable: false, fiq_disable: false, ..c.cpsr },
        ..c
    }).in_mode(MODE_SYS);
    (Cpu { r13_usr: 0x0300_7F00, ..d.with_r(13, 0x0300_7F00) }).with_r(14, 0).with_r(
        15,
        0x0800_0000,
    )
}

fn start_cpu(cpu: &mut Cpu)
    ensures
        *final(cpu) == started_cpu(*old(cpu)),
{
    cpu.cpsr.thumb = false;
    cpu.cpsr.irq_disable = false;
    cpu.cpsr.fiq_disable = false;
    cpu.set_mode(MODE_SYS);
    cpu.r[13] = 0x0300_7F00;
    cpu.r13_usr = 0x0300_7F00;
    cpu.r[14] = 0;
    cpu.set_pc(0x0800_0000);
}

impl Emu {
    pub fn new(cart: &Cart, bios: Option<Vec<u8>>) -> (r: Self)
        ensures
            exists|c: Cpu| #[trigger] c.power_on() && r.cpu == started_cpu(c),
            powered_on(r@.bus, cart.data@, opt_bytes(bios)),
            r@.ppu == blank_ppu(),
            r@.timers == idle_timers(),
            r@.frames_since_flush == 0,
            !r@.flush_due,
            r@.run == idle_run(),
            r@.guard == 0,
            r@.title == cart.title@,
            r@.wf(),
    {
        let mut cpu = Cpu::new();
        let ghost c0 = cpu;
        assert(c0.power_on());
        let bus = Bus::new(cart, bios);
        start_cpu(&mut cpu);
        Emu {
            cpu,
            bus,
            ppu: Ppu::new(),
            timers: Timers::new(),
            cart_title: cart.title.clone(),
            frames_since_flush: 0,
            flush_due: false,
            run: Run { left: 0, slice: 0, target: 0, frame: false, pending: None },
            guard: 0,
        }
    }

    fn run_timers(&mut self, c: u32)
        requires
            old(self)@.wf(),
        ensures
            final(self)@ == old(self)@.timed(c),
            final(self)@.wf(),
    {
        reveal(EmuModel::timed);
        let ov = step_timers(&mut self.timers, &mut self.bus, c);
        let total = add_counts(self.bus.overflows(), ov);
        self.bus.set_overflows(total);
        self.bus.set_timer_reloads(self.timers.reload);
    }

    fn draw(&mut self, c: u32)
        requires
            old(self)@.wf(),
        ensures
            final(self)@ == old(self)@.drawn(c),
            final(self)@.wf(),
    {
        reveal(EmuModel::drawn);
        if self.ppu.step(&mut self.bus, c) {
            self.run.frame = true;
            self.frames_since_flush = self.frames_since_flush.wrapping_add(1);
        }
    }

    fn wake(&mut self)
        requires
            old(self)@.wf(),
        ensures
            final(self)@ == old(self)@.woken(),
            final(self)@.wf(),
    {
        reveal(EmuModel::woken);
        let pending: u16 = self.bus.read16(0x0400_0202);
        let ie: u16 = self.bus.read16(0x0400_0200);
        let seen: u16 = self.bus.read16(0x0300_7FF8);
        let m: u16 = self.bus.wait_mask();
        let wake: bool = if m != 0 {
            pending & m != 0 || seen & m != 0
        } else {
            pending & ie != 0
        };
        if wake {
            self.bus.set_halt(false);
            self.bus.set_wait_mask(0);
        }
    }

    fn spend(&mut self, c: u32)
        requires
            old(self)@.wf(),
        ensures
            final(self)@ == old(self)@.spent(c),
            final(self)@.wf(),
    {
        self.run.slice = self.run.slice.saturating_add(c);
        self.run.left = self.run.left.saturating_sub(c);
    }

    fn step_halted(&mut self)
        requires
            old(self)@.wf(),
        ensures
            final(self)@ == old(self)@.halted(),
            final(self)@.wf(),
    {
        reveal(EmuModel::halted);
        self.timers.reload = self.bus.timer_reloads();
        self.run_timers(64);
        self.bus.apply_timer_starts(&mut self.timers);
        self.draw(64);
        check(&mut self.cpu, &mut self.bus, 64);
        self.wake();
        self.spend(64);
    }

    fn relatch(&mut self)
        requires
            old(self)@.wf(),
        ensures
            final(self)@ == old(self)@.relatched(),
            final(self)@.wf(),
    {
        reveal(EmuModel::relatched);
        reveal(PpuModel::latched);
        if self.ppu.line == 0 && self.ppu.line_cycles < 32 {
            self.ppu.latch_affine_from_bus(&mut self.bus);
        }
    }

    fn check_flush(&mut self)
        requires
            old(self)@.wf(),
        ensures
            final(self)@ == old(self)@.flush_checked(),
            final(self)@.wf(),
    {
        reveal(EmuModel::flush_checked);
        if self.ppu.frame_ready && self.frames_since_flush >= 120 && self.bus.is_dirty() {
            self.frames_since_flush = 0;
            self.flush_due = true;
        }
    }

    fn follow(&mut self, c: u32)
        requires
            old(self)@.wf(),
        ensures
            final(self)@ == old(self)@.followed(c),
            final(self)@.wf(),
    {
        reveal(EmuModel::followed);
        self.run.pending = None;
        self.timers.reload = self.bus.timer_reloads();
        self.bus.apply_timer_starts(&mut self.timers);
        self.run_timers(c);
        self.relatch();
        self.draw(c);
        self.check_flush();
        check(&mut self.cpu, &mut self.bus, c);
        self.spend(c);
    }

    fn end_slice(&mut self)
        requires
            old(self)@.wf(),
        ensures
            final(self)@ == old(self)@.sliced(),
            final(self)@.wf(),
    {
        reveal(EmuModel::sliced);
        if self.run.frame || self.run.slice >= self.run.target {
            self.bus.tick_sound(self.run.slice);
            self.run.slice = 0;
        }
    }

    /// One step of a run; true where it has to stop for the host.
    fn step_once(&mut self) -> (stop: bool)
        requires
            old(self)@.wf(),
            !old(self)@.done(),
        ensures
            (final(self)@, stop) == old(self)@.once(),
            stop ==> final(self)@.run.pending is Some,
            !stop ==> final(self)@.run.pending is None,
            !stop && old(self)@.run.pending is None ==> final(self)@.run.left
                < old(self)@.run.left,
            !stop ==> final(self)@.run.left <= old(self)@.run.left,
            final(self)@.guard == old(self)@.guard,
            final(self)@.wf(),
    {
        reveal(EmuModel::once);
        let ghost m0 = self@;
        if let Some(c) = self.run.pending {
            if self.bus.pending_math().is_some() {
                return true;
            }
            self.follow(c);
            self.end_slice();
            proof {
                lemma_followed(m0, c);
            }
            return false;
        }
        if self.run.slice == 0 {
            self.run.target = min_u32(self.run.left, 64);
        }
        let ghost m1 = self@;
        if self.bus.is_halted() {
            self.step_halted();
            self.end_slice();
            proof {
                lemma_halted(m1);
            }
            return false;
        }
        let c: u32 = self.cpu.step(&mut self.bus);
        if self.bus.pending_math().is_some() {
            self.run.pending = Some(c);
            return true;
        }
        let ghost m2 = self@;
        self.follow(c);
        self.end_slice();
        proof {
            lemma_followed(m2, c);
        }
        false
    }

    /// Steps at least `min_cycles`. While the host owes the result of a BIOS
    /// service there is no answer, and the same run goes on with the next
    /// call; then the answer is whether a video frame was completed.
    pub fn step_cycles(&mut self, min_cycles: u32) -> (r: Option<bool>)
        requires
            old(self)@.wf(),
        ensures
            final(self)@ == old(self)@.cycled(min_cycles),
            r == final(self)@.report(),
            final(self)@.guard == old(self)@.guard,
            final(self)@.wf(),
    {
        reveal(EmuModel::cycled);
        if self.run.left == 0 && self.run.pending.is_none() {
            self.run = Run {
                left: if min_cycles < 1 {
                    1
                } else {
                    min_cycles
                },
                slice: 0,
                target: 0,
                frame: false,
                pending: None,
            };
        }
        let ghost mut fuel: nat = (self.run.left + 1) as nat;
        let ghost goal = self@.advanced(fuel);
        while !(self.run.left == 0 && self.run.pending.is_none())
            invariant
                self@.wf(),
                self@.guard == old(self)@.guard,
                goal == old(self)@.cycled(min_cycles),
                self@.advanced(fuel) == goal,
                fuel >= self.run.left,
                fuel > self.run.left || self.run.pending is None,
            decreases fuel,
        {
            if self.step_once() {
                return None;
            }
            proof {
                fuel = (fuel - 1) as nat;
            }
        }
        Some(self.run.frame)
    }

    /// Runs until one video frame completes; false if it never does. No answer
    /// while the host owes the result of a BIOS service.
    pub fn run_one_frame(&mut self) -> (r: Option<bool>)
        requires
            old(self)@.wf(),
        ensures
            (final(self)@, r) == old(self)@.framed(),
            final(self)@.wf(),
    {
        loop
            invariant
                self@.wf(),
                self@.framed() == old(self)@.framed(),
            decreases 2_000_001 - self.guard,
        {
            let before: u32 = self.guard;
            match self.step_cycles(256) {
                None => {
                    return None;
                },
                Some(frame) => {
                    if frame {
                        // the last samples reach the host ring
                        self.bus.tick_sound(0);
                        self.guard = 0;
                        return Some(true);
                    }
                    if before >= 2_000_000 {
                        self.guard = 0;
                        return Some(false);
                    }
                    self.guard = before + 1;
                },
            }
        }
    }
}

proof fn lemma_followed(m: EmuModel, c: u32)
    ensures
        m.followed(c).sliced().run.left == m.run.left.saturating_sub(c),
        m.followed(c).sliced().run.pending is None,
        m.followed(c).sliced().guard == m.guard,
{
    reveal(EmuModel::followed);
    reveal(EmuModel::sliced);
    reveal(EmuModel::timed);
    reveal(EmuModel::relatched);
    reveal(EmuModel::drawn);
    reveal(EmuModel::flush_checked);
}

proof fn lemma_halted(m: EmuModel)
    ensures
        m.halted().sliced().run.left == m.run.left.saturating_sub(64),
        m.halted().sliced().run.pending == m.run.pending,
        m.halted().sliced().guard == m.guard,
{
    reveal(EmuModel::halted);
    reveal(EmuModel::sliced);
    reveal(EmuModel::timed);
    reveal(EmuModel::drawn);
    reveal(EmuModel::woken);
}

/// What a BIOS file is good for.
#[derive(Clone, Copy, Debug, PartialEq, Eq, Structural)]
pub enum BiosFile {
    /// Not 16 KiB: it is passed over.
    WrongSize,
    /// Used, though its bytes do not add up as the console's do.
    BadSum(u8),
    Good,
}

/// The sum of the first `n` bytes.
pub open spec fn byte_sum(s: Seq<u8>, n: nat) -> nat
    decreases n,
{
    if n == 0 {
        0
    } else {
        byte_sum(s, (n - 1) as nat) + s[n - 1] as nat
    }
}

/// A BIOS has 16 KiB, and the low byte of their sum is 0x80.
pub open spec fn bios_judged(data: Seq<u8>) -> BiosFile {
    let sum = byte_sum(data, data.len()) % 256;
    if data.len() != 0x4000 {
        BiosFile::WrongSize
    } else if sum != 0x80 {
        BiosFile::BadSum(sum as u8)
    } else {
        BiosFile::Good
    }
}

pub fn judge_bios(data: &[u8]) -> (r: BiosFile)
    ensures
        r == bios_judged(data@),
{
    if data.len() != 0x4000 {
        return BiosFile::WrongSize;
    }
    let mut sum: u8 = 0;
    let mut i: usize = 0;
    while i < data.len()
        invariant
            i <= data@.len(),
            sum as nat == byte_sum(data@, i as nat) % 256,
        decreases data@.len() - i,
    {
        sum = sum.wrapping_add(data[i]);
        i += 1;
    }
    if sum != 0x80 {
        BiosFile::BadSum(sum)
    } else {
        BiosFile::Good
    }
}

/// Headless key automation for advancing title screens, menus and overworld.
#[derive(Clone, Copy, Debug)]
pub struct AutoInput {
    pub enabled: bool,
}

/// The buttons of a frame: Start pulses on the title, A pulses through menus,
/// then a small walk with an occasional A.
pub open spec fn auto_keys(frame: u32) -> u16 {
    if frame < 2500 {
        0
    } else if frame < 2800 {
        if (frame - 2500) % 40 < 5 {
            8
        } else {
            0
        }
    } else if frame < 9000 {
        if (frame - 2800) % 50 < 4 {
            1
        } else {
            0
        }
    } else {
        let phase = (frame - 9000) % 240;
        if phase < 4 {
            1
        } else if phase < 60 {
            0x10
        } else if phase < 64 {
            0
        } else if phase < 120 {
            0x80
        } else {
            0
        }
    }
}

impl AutoInput {
    pub fn off() -> (r: Self)
        ensures
            !r.enabled,
    {
        AutoInput { enabled: false }
    }

    /// Phased input: Start on the title, A through menus and dialogue, then a
    /// light D-pad walk.
    pub fn title_advance() -> (r: Self)
        ensures
            r.enabled,
    {
        AutoInput { enabled: true }
    }

    /// Pressed keys of this frame (0 is nothing held).
    pub fn buttons_at(self, frame: u32) -> (r: u16)
        ensures
            r == (if self.enabled {
                auto_keys(frame)
            } else {
                0
            }),
    {
        if !self.enabled {
            return 0;
        }
        if frame < 2500 {
            return 0;
        }
        if frame < 2800 {
            let t: u32 = frame - 2500;
            return if t % 40 < 5 {
                8
            } else {
                0
            };
        }
        if frame < 9000 {
            let t: u32 = frame - 2800;
            return if t % 50 < 4 {
                1
            } else {
                0
            };
        }
        let phase: u32 = (frame - 9000) % 240;
        if phase < 4 {
            1
        } else if phase < 60 {
            0x10
        } else if phase < 64 {
            0
        } else if phase < 120 {
            0x80
        } else {
            0
        }
    }
}

/// What came of one turn of a run.
#[derive(Clone, Copy, Debug, PartialEq, Eq, Structural)]
pub enum FrameTurn {
    /// The host owes the result of a BIOS service.
    Pending,
    Going,
    /// The run is over, with so many frames.
    Done(u32),
}

/// A headless run of frames.
#[derive(Clone, Copy, Debug)]
pub struct FrameRun {
    pub frames: u32,
    pub goal: u32,
    /// Runs of 64 cycles so far; a frame takes about 4400.
    pub guard: u64,
    pub auto_input: AutoInput,
}

impl EmuModel {
    /// Keys released and the battery, where it changed, due to be written.
    pub open spec fn rested(self) -> EmuModel {
        EmuModel {
            bus: self.bus.keys_set(0),
            flush_due: self.flush_due || self.bus.keys_set(0).save_dirty,
            ..self
        }
    }

    /// The automatic keys pressed, where a new run begins.
    pub open spec fn keyed(self, r: FrameRun) -> EmuModel {
        if r.auto_input.enabled && self.done() {
            EmuModel { bus: self.bus.keys_set(auto_keys(r.frames)), ..self }
        } else {
            self
        }
    }

    /// One run of 64 cycles, unless the frames are there or too many had none.
    pub open spec fn frame_turned(self, r: FrameRun) -> (EmuModel, FrameRun, FrameTurn) {
        if r.frames >= r.goal || r.guard > 500_000_000 {
            (self.rested(), r, FrameTurn::Done(r.frames))
        } else {
            let m = self.keyed(r).cycled(64);
            match m.report() {
                None => (m, r, FrameTurn::Pending),
                Some(frame) => (
                    m,
                    FrameRun {
                        frames: if frame {
                            (r.frames + 1) as u32
                        } else {
                            r.frames
                        },
                        guard: (r.guard + 1) as u64,
                        ..r
                    },
                    FrameTurn::Going,
                ),
            }
        }
    }

    /// Turns until the run is done, or the host owes a number.
    pub open spec fn frames_run(self, r: FrameRun) -> (EmuModel, FrameRun, Option<u32>)
        decreases 500_000_001 - r.guard,
    {
        let (m, s, t) = self.frame_turned(r);
        match t {
            FrameTurn::Done(n) => (m, s, Some(n)),
            FrameTurn::Pending => (m, s, None),
            FrameTurn::Going => m.frames_run(s),
        }
    }
}

impl FrameRun {
    pub fn new(n: u32, auto_input: Option<AutoInput>) -> (r: Self)
        ensures
            r.frames == 0,
            r.goal == n,
            r.guard == 0,
            r.auto_input == (match auto_input {
                Some(a) => a,
                None => (AutoInput { enabled: false }),
            }),
    {
        let auto_input = match auto_input {
            Some(a) => a,
            None => AutoInput::off(),
        };
        FrameRun { frames: 0, goal: n, guard: 0, auto_input }
    }
}

impl Emu {
    fn press_auto(&mut self, r: &FrameRun)
        requires
            old(self)@.wf(),
        ensures
            final(self)@ == old(self)@.keyed(*r),
            final(self)@.wf(),
    {
        if r.auto_input.enabled && self.run.left == 0 && self.run.pending.is_none() {
            let keys: u16 = r.auto_input.buttons_at(r.frames);
            self.bus.set_keys_pressed(keys);
        }
    }

    fn rest(&mut self)
        requires
            old(self)@.wf(),
        ensures
            final(self)@ == old(self)@.rested(),
            final(self)@.wf(),
    {
        self.bus.set_keys_pressed(0);
        if self.bus.is_dirty() {
            self.flush_due = true;
        }
    }

    /// One turn of a run of frames: the keys are pressed, and 64 cycles go by.
    /// At the end of the run the keys are let go.
    pub fn frame_turn(&mut self, r: &mut FrameRun) -> (t: FrameTurn)
        requires
            old(self)@.wf(),
        ensures
            (final(self)@, *final(r), t) == old(self)@.frame_turned(*old(r)),
            final(self)@.wf(),
    {
        if r.frames >= r.goal || r.guard > 500_000_000 {
            self.rest();
            return FrameTurn::Done(r.frames);
        }
        self.press_auto(r);
        match self.step_cycles(64) {
            None => FrameTurn::Pending,
            Some(frame) => {
                if frame {
                    r.frames = r.frames + 1;
                }
                r.guard = r.guard + 1;
                FrameTurn::Going
            },
        }
    }

    /// Runs frames with optional key automation; answers how many completed,
    /// or nothing while the host owes the result of a BIOS service.
    pub fn run_frames_with_input(&mut self, r: &mut FrameRun) -> (done: Option<u32>)
        requires
            old(self)@.wf(),
        ensures
            (final(self)@, *final(r), done) == old(self)@.frames_run(*old(r)),
            final(self)@.wf(),
    {
        loop
            invariant
                self@.wf(),
                self@.frames_run(*r) == old(self)@.frames_run(*old(r)),
            decreases 500_000_001 - r.guard,
        {
            match self.frame_turn(r) {
                FrameTurn::Done(n) => {
                    return Some(n);
                },
                FrameTurn::Pending => {
                    return None;
                },
                FrameTurn::Going => {},
            }
        }
    }
}

} // verus!
