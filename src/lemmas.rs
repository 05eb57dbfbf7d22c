use vstd::prelude::*;
use crate::bus::{BusView, HdmaMode, DMA_M_CYCLES};
use crate::ppu::{LcdTiming, PpuView};

verus! {

/// `bytes` written to IF one after another.
pub open spec fn write_if_all(v: BusView, bytes: Seq<u8>) -> BusView
    decreases bytes.len(),
{
    if bytes.len() == 0 {
        v
    } else {
        write_if_all(v, bytes.drop_last()).write(0xFF0F, bytes.last())
    }
}

/// Whatever bytes are written to IF, it reads back with its top three bits set.
pub proof fn lemma_if_upper_bits(v: BusView, bytes: Seq<u8>)
    requires
        v.wf(),
    ensures
        write_if_all(v, bytes).read(0xFF0F) & 0xE0 == 0xE0,
    decreases bytes.len(),
{
    if bytes.len() > 0 {
        lemma_if_upper_bits(v, bytes.drop_last());
        let b = bytes.last();
        assert((0xE0u8 | b) & 0xE0 == 0xE0) by (bit_vector);
    }
}

/// Echo RAM: every address in 0xE000-0xFDFF reads as the one 0x2000 below it.
pub proof fn lemma_echo_ram(v: BusView, addr: int)
    requires
        v.wf(),
        0xE000 <= addr <= 0xFDFF,
    ensures
        v.read(addr) == v.read(addr - 0x2000),
{
}

/// On CGB, after `k` (0..=7) is written to SVBK, 0xD000-0xDFFF reads and writes
/// bank `k`, with 0 standing for bank 1.
pub proof fn lemma_wram_banking(v: BusView, k: u8, off: int, byte: u8)
    requires
        v.wf(),
        v.is_cgb(),
        k <= 7,
        0 <= off < 0x1000,
    ensures
        ({
            let w = v.write(0xFF70, k);
            let bank: int = if k == 0 { 1 } else { k as int };
            &&& w.read(0xD000 + off) == w.wram[bank * 0x1000 + off]
            &&& w.write(0xD000 + off, byte).wram == w.wram.update(bank * 0x1000 + off, byte)
            &&& w.write(0xD000 + off, byte).read(0xD000 + off) == byte
        }),
{
    assert(k & 7 == k) by (bit_vector)
        requires
            k <= 7,
    ;
}

/// The unusable region 0xFEA0-0xFEFF reads 0xFF, and writes to it change nothing.
pub proof fn lemma_empty_region(v: BusView, addr: int, byte: u8)
    requires
        v.wf(),
        0xFEA0 <= addr <= 0xFEFF,
    ensures
        v.read(addr) == 0xFF,
        v.write(addr, byte) == v,
{
}

/// OAM DMA changes OAM and its own tick counter and nothing else.
pub proof fn lemma_dma_frame(v: BusView, n: nat)
    requires
        v.wf_mem(),
    ensures
        v.dma_steps(n) == (BusView {
            ppu: PpuView { oam: v.dma_steps(n).ppu.oam, ..v.ppu },
            dma_ticks: v.dma_steps(n).dma_ticks,
            ..v
        }),
        v.dma_steps(n).wf_mem(),
    decreases n,
{
    if n > 0 {
        lemma_dma_frame(v.dma_tick(), (n - 1) as nat);
    }
}

proof fn lemma_dma_steps_snoc(v: BusView, n: nat)
    ensures
        v.dma_steps(n + 1) == v.dma_steps(n).dma_tick(),
    decreases n,
{
    if n > 0 {
        lemma_dma_steps_snoc(v.dma_tick(), (n - 1) as nat);
    } else {
        assert(v.dma_tick().dma_steps(0) == v.dma_tick());
    }
}

/// Reads outside OAM do not see OAM or the DMA counter.
proof fn lemma_read_outside_oam(s: BusView, u: BusView, x: int)
    requires
        s == (BusView { ppu: PpuView { oam: s.ppu.oam, ..u.ppu }, dma_ticks: s.dma_ticks, ..u }),
        x < 0xFE00 || x > 0xFE9F,
    ensures
        s.read(x) == u.read(x),
{
}

/// Source address of byte `i` of a DMA from page `n`.
pub open spec fn dma_source(n: u8, i: u16) -> int {
    ((((n as u16) << 8) as u16) | i) as int
}

proof fn lemma_dma_source(n: u8, i: u16)
    requires
        i < 0xA0,
    ensures
        dma_source(n, i) == n as int * 256 + i as int,
{
    assert((((n as u16) << 8) as u16) | i == n as u16 * 256 + i) by (bit_vector)
        requires
            i < 0xA0,
    ;
}

/// After `k` ticks from a fresh start, the first `k` OAM bytes hold the source
/// bytes as they read when the transfer began.
proof fn lemma_dma_progress(u: BusView, n: u8, k: nat)
    requires
        u.wf_mem(),
        u.dma_ticks == 0,
        u.dma_start == ((n as u16) << 8) as u16,
        k <= 160,
    ensures
        u.dma_steps(k).dma_ticks == k,
        forall|i: int| 0 <= i < k ==> #[trigger] u.dma_steps(k).ppu.oam[i] == u.read(dma_source(n, i as u16)),
        forall|j: int| k <= j < 0xA0 ==> #[trigger] u.dma_steps(k).ppu.oam[j] == u.ppu.oam[j],
    decreases k,
{
    lemma_dma_frame(u, k);
    if k > 0 {
        let km = (k - 1) as nat;
        lemma_dma_progress(u, n, km);
        lemma_dma_steps_snoc(u, km);
        lemma_dma_frame(u, km);
        let s = u.dma_steps(km);
        let src = dma_source(n, km as u16);
        lemma_dma_source(n, km as u16);
        assert(s.dma_start | s.dma_ticks == ((n as u16) << 8) as u16 | (km as u16));
        if n == 0xFE {
            assert(s.read(src) == s.ppu.oam[km as int]);
            assert(u.read(src) == u.ppu.oam[km as int]);
        } else {
            lemma_read_outside_oam(s, u, src);
        }
        assert(u.dma_steps(k).ppu.oam == s.ppu.oam.update(km as int, u.read(src)));
    }
}

/// A write of `n` to 0xFF46 followed by 159 more M-cycles leaves the engine idle
/// with OAM holding the 160 bytes of page `n`, as they read when it was started;
/// further M-cycles change nothing.
pub proof fn lemma_oam_dma_length(v: BusView, n: u8, extra: nat)
    requires
        v.wf(),
    ensures
        ({
            let started = BusView {
                ppu: PpuView { regs: v.ppu.regs.update(6, n), ..v.ppu },
                dma_start: ((n as u16) << 8) as u16,
                dma_ticks: 0,
                ..v
            };
            let done = v.write(0xFF46, n).dma_steps(159);
            &&& done.dma_ticks == DMA_M_CYCLES
            &&& forall|i: int| 0 <= i < 160 ==> #[trigger] done.ppu.oam[i] == started.read(dma_source(n, i as u16))
            &&& done.dma_steps(extra) == done
        }),
{
    let started = BusView {
        ppu: PpuView { regs: v.ppu.regs.update(6, n), ..v.ppu },
        dma_start: ((n as u16) << 8) as u16,
        dma_ticks: 0,
        ..v
    };
    assert(started.wf_mem());
    lemma_dma_steps_join(started, 1, 159);
    lemma_dma_progress(started, n, 160);
    crate::bus::lemma_dma_idle(started.dma_steps(160), extra);
}

proof fn lemma_dma_steps_join(v: BusView, a: nat, b: nat)
    ensures
        v.dma_steps(a).dma_steps(b) == v.dma_steps(a + b),
    decreases a,
{
    if a > 0 {
        lemma_dma_steps_join(v.dma_tick(), (a - 1) as nat, b);
    }
}

/// Copying bytes of an HDMA block changes VRAM alone.
pub proof fn lemma_copy_frame(v: BusView, n: nat)
    requires
        v.wf_mem(),
    ensures
        v.copy_bytes(n) == (BusView { ppu: PpuView { vram: v.copy_bytes(n).ppu.vram, ..v.ppu }, ..v }),
        v.copy_bytes(n).wf_mem(),
    decreases n,
{
    if n > 0 {
        lemma_copy_frame(v, (n - 1) as nat);
    }
}

/// A run of HDMA blocks changes VRAM and the byte count alone.
pub proof fn lemma_blocks_frame(v: BusView, k: nat)
    requires
        v.wf_mem(),
        v.hdma_bytes + 16 * k <= 0x800,
    ensures
        v.blocks(k) == (BusView {
            ppu: PpuView { vram: v.blocks(k).ppu.vram, ..v.ppu },
            hdma_bytes: v.blocks(k).hdma_bytes,
            ..v
        }),
        v.blocks(k).hdma_bytes == v.hdma_bytes + 16 * k,
        v.blocks(k).wf_mem(),
    decreases k,
{
    if k > 0 {
        lemma_blocks_frame(v, (k - 1) as nat);
        lemma_copy_frame(v.blocks((k - 1) as nat), 16);
    }
}

/// On CGB, a general-purpose transfer started by a write to HDMA5 has finished by
/// the time the write returns: HDMA5 then reads 0xFF.
pub proof fn lemma_hdma5_after_gdma(v: BusView, byte: u8)
    requires
        v.wf(),
        v.is_cgb(),
        v.hdma_mode != HdmaMode::HBlankPaced,
        byte & 0x80 == 0,
    ensures
        v.write(0xFF55, byte).read(0xFF55) == 0xFF,
        v.write(0xFF55, byte).hdma_mode == HdmaMode::Idle,
{
    let n = (byte & 0x7F) as nat + 1;
    let start = BusView {
        hdma5: byte,
        hdma_length: byte & 0x7F,
        hdma_bytes: 0,
        hdma_mode: HdmaMode::GeneralPurpose,
        ..v
    };
    assert(byte & 0x7F <= 0x7F) by (bit_vector);
    lemma_blocks_frame(start, n);
    assert(0x80u8 | 0x7Fu8 == 0xFF) by (bit_vector);
}

/// The bus with the PPU's "entered HBlank" edge set, as after a step that crossed
/// into HBlank.
pub open spec fn at_hblank(s: BusView) -> BusView {
    BusView { ppu: PpuView { lcd: LcdTiming { hblank: true, ..s.ppu.lcd }, ..s.ppu }, ..s }
}

proof fn lemma_hblank_block(s: BusView)
    requires
        s.wf(),
        s.hdma_mode == HdmaMode::HBlankPaced,
    ensures
        at_hblank(s).hdma_step().1 == 32,
        at_hblank(s).hdma_step().0.hdma_bytes == s.hdma_bytes + 16,
        at_hblank(s).hdma_step().0.hdma5 == s.hdma5,
        at_hblank(s).hdma_step().0.model == s.model,
        at_hblank(s).hdma_step().0.wf_mem(),
        s.hdma_bytes + 16 == s.transfer_blocks() * 16 ==> at_hblank(s).hdma_step().0.hdma_mode
            == HdmaMode::Idle && at_hblank(s).hdma_step().0.hdma_length == 0x7F,
        s.hdma_bytes + 16 != s.transfer_blocks() * 16 ==> at_hblank(s).hdma_step().0.hdma_mode
            == HdmaMode::HBlankPaced,
{
    lemma_copy_frame(at_hblank(s), 16);
}

/// An HBlank transfer of three blocks (HDMA5 = 0x82) moves 16 bytes at each of
/// three HBlanks, 48 in all, and is idle after the third; without an HBlank it
/// does not move.
pub proof fn lemma_hdma_pacing(v: BusView)
    requires
        v.wf(),
        v.is_cgb(),
    ensures
        ({
            let w = v.write(0xFF55, 0x82);
            let s1 = at_hblank(w).hdma_step().0;
            let s2 = at_hblank(s1).hdma_step().0;
            let s3 = at_hblank(s2).hdma_step().0;
            &&& !w.ppu.lcd.hblank ==> w.hdma_step() == (w, 0u32)
            &&& s1.hdma_mode == HdmaMode::HBlankPaced && s1.hdma_bytes == 16
            &&& s2.hdma_mode == HdmaMode::HBlankPaced && s2.hdma_bytes == 32
            &&& s3.hdma_mode == HdmaMode::Idle && s3.hdma_bytes == 48
            &&& s3.read(0xFF55) == 0xFF
        }),
{
    assert(0x82u8 & 0x80 != 0 && 0x82u8 & 0x7F == 2) by (bit_vector);
    assert(0x80u8 | 0x7Fu8 == 0xFF) by (bit_vector);
    let w = v.write(0xFF55, 0x82);
    assert(w.transfer_blocks() == 3);
    lemma_hblank_block(w);
    let s1 = at_hblank(w).hdma_step().0;
    assert(s1.wf());
    lemma_hblank_block(s1);
    let s2 = at_hblank(s1).hdma_step().0;
    assert(s2.wf());
    lemma_hblank_block(s2);
}

/// On CGB, arming KEY1 and then executing STOP switches speed: bit 7 of KEY1
/// flips, the arm bit clears, and DIV reads 0.
pub proof fn lemma_speed_switch(v: BusView)
    requires
        v.wf(),
        v.is_cgb(),
    ensures
        ({
            let (s, switched) = v.write(0xFF4D, 0x01).speed_switched();
            &&& switched
            &&& s.read(0xFF4D) & 0x80 == (v.read(0xFF4D) & 0x80) ^ 0x80
            &&& s.read(0xFF4D) & 0x01 == 0
            &&& s.double_speed == !v.double_speed
            &&& s.read(0xFF04) == 0
        }),
{
    let k = v.key1;
    assert((((k & 0x80) | (0x01u8 & 0x01)) & 1 != 0) && ((((k & 0x80) | (0x01u8 & 0x01)) ^ 0x80)
        & 0xFE) & 0x80 == (k & 0x80) ^ 0x80 && ((((k & 0x80) | (0x01u8 & 0x01)) ^ 0x80) & 0xFE)
        & 0x01 == 0) by (bit_vector);
    assert(((0u16 >> 8) as u8) == 0) by (bit_vector);
}

/// A partial step advances the APU frame sequencer by exactly one phase when DIV's
/// sequencer bit (bit 4, or bit 5 in double speed) falls across the step, and
/// leaves it alone otherwise.
pub proof fn lemma_frame_sequencer_edge(v: BusView, t: u32)
    requires
        v.wf(),
    ensures
        ({
            let s = v.partial_tick(t);
            let timer = v.timer.ticks(t as nat).0;
            let bit: u8 = if v.double_speed { 0x20 } else { 0x10 };
            &&& s.timer == timer
            &&& s.apu.frame_sequencer == if v.timer.div_spec() & bit != 0 && timer.div_spec() & bit
                == 0 {
                ((v.apu.frame_sequencer + 1) % 8) as u8
            } else {
                v.apu.frame_sequencer
            }
        }),
{
    lemma_dma_frame(v, (t / 4) as nat);
}

/// The HDMA step at the end of an instruction leaves IF and the joypad alone.
proof fn lemma_hdma_step_frame(v: BusView)
    requires
        v.wf(),
    ensures
        v.hdma_step().0.iflag == v.iflag,
        v.hdma_step().0.joypad == v.joypad,
{
    if v.is_cgb() && v.hdma_mode == HdmaMode::HBlankPaced && v.ppu.lcd.hblank {
        lemma_copy_frame(v, 16);
    }
}

/// With IF clear, an instruction whose partial steps overflow the timer and whose
/// end-of-instruction step enters VBlank, with no STAT or joypad edge, leaves
/// exactly the VBlank and Timer bits requested: IF & 0x1F reads 0x05.
pub proof fn lemma_vblank_and_timer_together(v: BusView, t1: u32, t2: u32)
    requires
        v.wf(),
        v.iflag & 0x1F == 0,
        v.timer.ticks(t1 as nat).1,
        v.partial_tick(t1).post_tick(t2).ppu.lcd.vblank,
        !v.partial_tick(t1).post_tick(t2).ppu.lcd.stat_irq,
        !v.partial_tick(t1).joypad.irq,
    ensures
        v.partial_tick(t1).post_tick(t2).read(0xFF0F) & 0x1F == 0x05,
{
    lemma_dma_frame(v, (t1 / 4) as nat);
    let s1 = v.partial_tick(t1);
    let x = v.iflag;
    assert(s1.iflag == x | 4);
    assert(s1.wf()) by {
        assert((x | 4) & 0xE0 == 0xE0) by (bit_vector)
            requires
                x & 0xE0 == 0xE0,
        ;
    }
    lemma_hdma_step_frame(s1);
    assert((((x | 4) | 1) & 0x1F) == 5) by (bit_vector)
        requires
            x & 0x1F == 0,
    ;
}

/// Partial steps of `ts` T-cycles each, one after another.
pub open spec fn partial_run(v: BusView, ts: Seq<u32>) -> BusView
    decreases ts.len(),
{
    if ts.len() == 0 {
        v
    } else {
        partial_run(v, ts.drop_last()).partial_tick(ts.last())
    }
}

/// The M-cycles that OAM DMA advances over those partial steps.
pub open spec fn dma_cycles_of(ts: Seq<u32>) -> int
    decreases ts.len(),
{
    if ts.len() == 0 {
        0
    } else {
        dma_cycles_of(ts.drop_last()) + ts.last() / 4
    }
}

/// A DMA from page `n` is under way in `s`: the bytes already moved are those
/// that `u` held, and everything below OAM reads as in `u`.
pub open spec fn dma_faithful(s: BusView, u: BusView, n: u8) -> bool {
    &&& s.wf_mem()
    &&& s.dma_start == ((n as u16) << 8) as u16
    &&& forall|i: int| 0 <= i < s.dma_ticks ==> #[trigger] s.ppu.oam[i] == u.read(dma_source(n, i as u16))
    &&& forall|x: int| x < 0xFE00 ==> #[trigger] s.read(x) == u.read(x)
}

proof fn lemma_faithful_tick(s: BusView, u: BusView, n: u8)
    requires
        dma_faithful(s, u, n),
        n < 0xFE,
    ensures
        dma_faithful(s.dma_tick(), u, n),
        s.dma_tick().dma_ticks == if s.dma_ticks < 160 { s.dma_ticks + 1 } else { s.dma_ticks as int },
{
    if s.dma_ticks < 160 {
        let k = s.dma_ticks;
        lemma_dma_source(n, k);
        assert(s.dma_start | s.dma_ticks == ((n as u16) << 8) as u16 | k);
        let t = s.dma_tick();
        assert forall|x: int| x < 0xFE00 implies #[trigger] t.read(x) == u.read(x) by {
            lemma_read_outside_oam(t, s, x);
        }
    }
}

proof fn lemma_faithful_steps(s: BusView, u: BusView, n: u8, m: nat)
    requires
        dma_faithful(s, u, n),
        n < 0xFE,
    ensures
        dma_faithful(s.dma_steps(m), u, n),
        s.dma_steps(m).dma_ticks == if s.dma_ticks + m >= 160 { 160 } else { s.dma_ticks + m },
    decreases m,
{
    if m > 0 {
        lemma_faithful_tick(s, u, n);
        lemma_faithful_steps(s.dma_tick(), u, n, (m - 1) as nat);
    }
}

proof fn lemma_faithful_partial(s: BusView, u: BusView, n: u8, t: u32)
    requires
        dma_faithful(s, u, n),
        n < 0xFE,
    ensures
        dma_faithful(s.partial_tick(t), u, n),
        s.partial_tick(t).dma_ticks == if s.dma_ticks + t / 4 >= 160 { 160 } else { s.dma_ticks + t / 4 },
{
    lemma_faithful_steps(s, u, n, (t / 4) as nat);
    let v = s.dma_steps((t / 4) as nat);
    let p = s.partial_tick(t);
    assert(p.iflag & 0xE0 == 0xE0) by {
        crate::bus::lemma_or_keeps_top(v.iflag, 4);
    }
    assert forall|x: int| x < 0xFE00 implies #[trigger] p.read(x) == u.read(x) by {
        assert(p.read(x) == v.read(x));
    }
}

/// OAM DMA from a page below 0xFE: after the write to 0xFF46 and any partial
/// steps, the engine has moved one byte for each M-cycle up to 160, and once
/// 159 M-cycles have followed the write, OAM holds the page's 160 bytes as they
/// read before the transfer.
pub proof fn lemma_oam_dma_over_partial_steps(v: BusView, n: u8, ts: Seq<u32>)
    requires
        v.wf(),
        n < 0xFE,
    ensures
        ({
            let s = partial_run(v.write(0xFF46, n), ts);
            &&& s.dma_ticks == if 1 + dma_cycles_of(ts) >= 160 { 160 } else { 1 + dma_cycles_of(ts) }
            &&& dma_cycles_of(ts) >= 159 ==> forall|i: int|
                0 <= i < 160 ==> #[trigger] s.ppu.oam[i] == v.read(dma_source(n, i as u16))
        }),
    decreases ts.len(),
{
    if ts.len() == 0 {
        let started = BusView {
            ppu: PpuView { regs: v.ppu.regs.update(6, n), ..v.ppu },
            dma_start: ((n as u16) << 8) as u16,
            dma_ticks: 0,
            ..v
        };
        assert forall|x: int| x < 0xFE00 implies #[trigger] started.read(x) == v.read(x) by {}
        assert(dma_faithful(started, v, n));
        lemma_faithful_steps(started, v, n, 1);
    } else {
        lemma_oam_dma_over_partial_steps(v, n, ts.drop_last());
        lemma_faithful_run(v, n, ts.drop_last());
        lemma_faithful_partial(partial_run(v.write(0xFF46, n), ts.drop_last()), v, n, ts.last());
    }
}

proof fn lemma_faithful_run(v: BusView, n: u8, ts: Seq<u32>)
    requires
        v.wf(),
        n < 0xFE,
    ensures
        dma_faithful(partial_run(v.write(0xFF46, n), ts), v, n),
    decreases ts.len(),
{
    if ts.len() == 0 {
        let started = BusView {
            ppu: PpuView { regs: v.ppu.regs.update(6, n), ..v.ppu },
            dma_start: ((n as u16) << 8) as u16,
            dma_ticks: 0,
            ..v
        };
        assert forall|x: int| x < 0xFE00 implies #[trigger] started.read(x) == v.read(x) by {}
        assert(dma_faithful(started, v, n));
        lemma_faithful_steps(started, v, n, 1);
    } else {
        lemma_faithful_run(v, n, ts.drop_last());
        lemma_faithful_partial(partial_run(v.write(0xFF46, n), ts.drop_last()), v, n, ts.last());
    }
}

/// End-of-instruction steps of `ts` T-cycles each, one after another.
pub open spec fn post_run(v: BusView, ts: Seq<u32>) -> BusView
    decreases ts.len(),
{
    if ts.len() == 0 {
        v
    } else {
        post_run(v, ts.drop_last()).post_tick(ts.last())
    }
}

/// How many of those steps began with the PPU just entered into HBlank.
pub open spec fn hblanks_seen(v: BusView, ts: Seq<u32>) -> int
    decreases ts.len(),
{
    if ts.len() == 0 {
        0
    } else {
        hblanks_seen(v, ts.drop_last()) + if post_run(v, ts.drop_last()).ppu.lcd.hblank {
            1int
        } else {
            0
        }
    }
}

/// A three-block HBlank transfer after `k` HBlanks.
pub open spec fn paced(s: BusView, k: int) -> bool {
    &&& s.wf_mem()
    &&& s.is_cgb()
    &&& s.hdma5 & 0x7F == 2
    &&& 0 <= k
    &&& k < 3 ==> s.hdma_mode == HdmaMode::HBlankPaced && s.hdma_bytes == 16 * k && s.hdma_length
        == 2 - k
    &&& k >= 3 ==> s.hdma_mode == HdmaMode::Idle && s.hdma_bytes == 48 && s.hdma_length == 0x7F
}

proof fn lemma_paced_step(s: BusView, k: int, t: u32)
    requires
        paced(s, k),
    ensures
        paced(s.post_tick(t), if s.ppu.lcd.hblank { k + 1 } else { k }),
{
    assert(0x82u8 & 0x7F == 2) by (bit_vector);
    if s.hdma_mode == HdmaMode::HBlankPaced && s.ppu.lcd.hblank {
        lemma_copy_frame(s, 16);
    }
    let h = s.hdma_step().0;
    let p = s.post_tick(t);
    let x = h.iflag;
    assert(p.iflag & 0xE0 == 0xE0) by {
        assert(((x | 1) | 2) & 0xE0 == 0xE0 && (x | 1) & 0xE0 == 0xE0 && (x | 2) & 0xE0 == 0xE0 && ((x
            | 1) | 0x10) & 0xE0 == 0xE0 && ((x | 2) | 0x10) & 0xE0 == 0xE0 && (x | 0x10) & 0xE0 == 0xE0
            && (((x | 1) | 2) | 0x10) & 0xE0 == 0xE0) by (bit_vector)
            requires
                x & 0xE0 == 0xE0,
        ;
    }
}

proof fn lemma_paced_run(v: BusView, ts: Seq<u32>)
    requires
        paced(v, 0),
    ensures
        paced(post_run(v, ts), hblanks_seen(v, ts)),
    decreases ts.len(),
{
    if ts.len() > 0 {
        lemma_paced_run(v, ts.drop_last());
        lemma_paced_step(post_run(v, ts.drop_last()), hblanks_seen(v, ts.drop_last()), ts.last());
    }
}

/// Over any run of end-of-instruction steps after HDMA5 = 0x82 starts a
/// three-block HBlank transfer, each step that begins in a fresh HBlank moves one
/// 16-byte block and no other step moves any: after `k` such steps the transfer
/// has moved 16 * min(k, 3) bytes, HDMA5 reads 2 - k while it runs, and it is
/// idle, reading 0xFF, from the third on.
pub proof fn lemma_hdma_pacing_over_steps(v: BusView, ts: Seq<u32>)
    requires
        v.wf(),
        v.is_cgb(),
    ensures
        ({
            let w = v.write(0xFF55, 0x82);
            let s = post_run(w, ts);
            let k = hblanks_seen(w, ts);
            &&& k < 3 ==> s.hdma_mode == HdmaMode::HBlankPaced && s.hdma_bytes == 16 * k && s.read(
                0xFF55,
            ) == 2 - k
            &&& k >= 3 ==> s.hdma_mode == HdmaMode::Idle && s.hdma_bytes == 48 && s.read(0xFF55)
                == 0xFF
        }),
{
    assert(0x82u8 & 0x80 != 0 && 0x82u8 & 0x7F == 2) by (bit_vector);
    assert(0x80u8 | 0x7Fu8 == 0xFF && 0u8 | 2u8 == 2 && 0u8 | 1u8 == 1 && 0u8 | 0u8 == 0) by (bit_vector);
    let w = v.write(0xFF55, 0x82);
    assert(paced(w, 0));
    lemma_paced_run(w, ts);
}

} // verus!
