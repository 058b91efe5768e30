use vstd::prelude::*;

verus! {

/// Post-processes a compiled WebAssembly module.
pub struct WasmOptimizer {
    optimization_level: u8,
    enable_lto: bool,
    strip_debug: bool,
}

/// `data` without its zero bytes.
pub open spec fn without_zero_bytes(data: Seq<u8>) -> Seq<u8> {
    data.filter(|b: u8| b != 0)
}

impl WasmOptimizer {
    /// Whether `optimize` strips debug data.
    pub closed spec fn strips_debug(&self) -> bool {
        self.strip_debug
    }

    /// The optimisation level the optimizer was set up with.
    pub closed spec fn level(&self) -> u8 {
        self.optimization_level
    }

    /// An optimizer at level 4 with link-time optimisation that strips debug data.
    pub fn new() -> (o: Self)
        ensures
            o.strips_debug(),
            o.level() == 4,
    {
        WasmOptimizer { optimization_level: 4, enable_lto: true, strip_debug: true }
    }

    /// Optimises `wasm_data` in place: when stripping debug data, every zero
    /// byte is removed. Returns a copy of the result; it cannot fail.
    pub fn optimize(&mut self, wasm_data: &mut Vec<u8>) -> (r: Result<Vec<u8>, String>)
        ensures
            *final(self) == *old(self),
            final(wasm_data)@ == if old(self).strips_debug() {
                without_zero_bytes(old(wasm_data)@)
            } else {
                old(wasm_data)@
            },
            r matches Ok(v) && v@ == final(wasm_data)@,
    {
        if self.strip_debug {
            let mut kept: Vec<u8> = Vec::new();
            let mut i: usize = 0;
            while i < wasm_data.len()
                invariant
                    i <= wasm_data@.len(),
                    wasm_data@ == old(wasm_data)@,
                    kept@ == without_zero_bytes(wasm_data@.subrange(0, i as int)),
                decreases wasm_data@.len() - i,
            {
                let b = wasm_data[i];
                proof {
                    let s = wasm_data@;
                    assert(s.subrange(0, i + 1).drop_last() =~= s.subrange(0, i as int));
                    reveal_with_fuel(Seq::filter, 1);
                }
                if b != 0 {
                    kept.push(b);
                }
                i = i + 1;
            }
            assert(wasm_data@.subrange(0, wasm_data@.len() as int) =~= wasm_data@);
            *wasm_data = kept;
        }
        let mut copy: Vec<u8> = Vec::new();
        let mut j: usize = 0;
        while j < wasm_data.len()
            invariant
                j <= wasm_data@.len(),
                copy@ =~= wasm_data@.subrange(0, j as int),
            decreases wasm_data@.len() - j,
        {
            copy.push(wasm_data[j]);
            j = j + 1;
        }
        Ok(copy)
    }
}

/// Size of a guest page handed out by the memory optimizer.
pub const OPT_PAGE_SIZE: usize = 4096;

/// A pre-allocated pool that backs guest RAM.
pub struct MemoryOptimizer {
    guest_ram_size: usize,
    ram_pool: Vec<u8>,
    pre_allocated: bool,
}

impl MemoryOptimizer {
    /// The bytes of the pool.
    pub closed spec fn pool(&self) -> Seq<u8> {
        self.ram_pool@
    }

    /// Whether the pool counts as pre-allocated.
    pub closed spec fn is_pre_allocated(&self) -> bool {
        self.pre_allocated
    }

    /// The guest RAM size the pool was made for.
    pub closed spec fn ram_size(&self) -> usize {
        self.guest_ram_size
    }

    /// A pool of `guest_ram_size` bytes, zero-filled, marked pre-allocated.
    pub fn new(guest_ram_size: usize) -> (m: Self)
        ensures
            m.pool() == Seq::new(guest_ram_size as nat, |i: int| 0u8),
            m.is_pre_allocated(),
            m.ram_size() == guest_ram_size,
    {
        let ram_pool = vec![0u8; guest_ram_size];
        assert(ram_pool@ =~= Seq::new(guest_ram_size as nat, |i: int| 0u8));
        MemoryOptimizer { guest_ram_size, ram_pool, pre_allocated: true }
    }

    /// Marks the pool as pre-allocated.
    pub fn pre_allocate(&mut self)
        ensures
            final(self).is_pre_allocated(),
            final(self).pool() == old(self).pool(),
            final(self).ram_size() == old(self).ram_size(),
    {
        self.pre_allocated = true;
    }

    /// Hands out page `page_num` of the pool, or `None` when it lies past the
    /// end of the pool.
    pub fn allocate_page(&mut self, page_num: usize) -> (r: Option<&mut [u8]>)
        requires
            page_num * OPT_PAGE_SIZE + OPT_PAGE_SIZE <= usize::MAX,
        ensures
            final(self).is_pre_allocated() == old(self).is_pre_allocated(),
            final(self).ram_size() == old(self).ram_size(),
            (page_num + 1) * OPT_PAGE_SIZE <= old(self).pool().len() ==> (r matches Some(page)
                && page@ == old(self).pool().subrange(page_num * OPT_PAGE_SIZE, (page_num + 1) * OPT_PAGE_SIZE)
                && final(self).pool() == old(self).pool().subrange(0, page_num * OPT_PAGE_SIZE) + final(page)@
                    + old(self).pool().subrange((page_num + 1) * OPT_PAGE_SIZE, old(self).pool().len() as int)),
            (page_num + 1) * OPT_PAGE_SIZE > old(self).pool().len() ==> r is None && final(self).pool() == old(self).pool(),
    {
        let start = page_num * OPT_PAGE_SIZE;
        let end = start + OPT_PAGE_SIZE;
        if end <= self.ram_pool.len() {
            let pool = self.ram_pool.as_mut_slice();
            let (_, rest) = pool.split_at_mut(start);
            let (page, _) = rest.split_at_mut(OPT_PAGE_SIZE);
            Some(page)
        } else {
            None
        }
    }
}

/// Decides whether to skip rendering frames that arrive late. The timing
/// test itself works on floating-point milliseconds and stands with the
/// caller; this keeps the counts.
pub struct FrameSkipper {
    frames_skipped: u64,
    frames_rendered: u64,
    target_fps: u32,
    max_skip: u32,
}

impl FrameSkipper {
    /// Frames skipped so far.
    pub closed spec fn skipped(&self) -> u64 {
        self.frames_skipped
    }

    /// Frames rendered so far.
    pub closed spec fn rendered(&self) -> u64 {
        self.frames_rendered
    }

    /// The target frame rate.
    pub closed spec fn target(&self) -> u32 {
        self.target_fps
    }

    /// The most frames that may be skipped in a row.
    pub closed spec fn max_skipped(&self) -> u32 {
        self.max_skip
    }

    /// A skipper for `target_fps` frames per second, with nothing counted yet
    /// and at most three frames skipped in a row.
    pub fn new(target_fps: u32) -> (f: Self)
        ensures
            f.skipped() == 0,
            f.rendered() == 0,
            f.target() == target_fps,
            f.max_skipped() == 3,
    {
        FrameSkipper { frames_skipped: 0, frames_rendered: 0, target_fps, max_skip: 3 }
    }

    /// The target frame rate.
    pub fn target_fps(&self) -> (r: u32)
        ensures
            r == self.target(),
    {
        self.target_fps
    }

    /// Whether one more frame of the given kind can be counted: what
    /// `record_frame` needs.
    pub fn can_record(&self, late: bool) -> (b: bool)
        ensures
            b == if late { self.skipped() < u64::MAX } else { self.rendered() < u64::MAX },
    {
        if late { self.frames_skipped < u64::MAX } else { self.frames_rendered < u64::MAX }
    }

    /// Counts one frame as skipped (when `late`) or rendered, and returns `late`.
    pub fn record_frame(&mut self, late: bool) -> (r: bool)
        requires
            late ==> old(self).skipped() < u64::MAX,
            !late ==> old(self).rendered() < u64::MAX,
        ensures
            r == late,
            final(self).skipped() == if late { old(self).skipped() + 1 } else { old(self).skipped() as int },
            final(self).rendered() == if late { old(self).rendered() as int } else { old(self).rendered() + 1 },
            final(self).target() == old(self).target(),
            final(self).max_skipped() == old(self).max_skipped(),
    {
        if late {
            self.frames_skipped = self.frames_skipped + 1;
            true
        } else {
            self.frames_rendered = self.frames_rendered + 1;
            false
        }
    }
}

/// Adapts the rendering size to how well the guest keeps up. The
/// performance score is a floating-point value that the caller classifies;
/// this applies the resulting step.
pub struct DynamicResize {
    min_width: u32,
    min_height: u32,
    max_width: u32,
    max_height: u32,
    current_width: u32,
    current_height: u32,
    quality_level: u32,
}

/// How a performance score moves the rendering size.
#[derive(Debug, Clone, Copy, PartialEq, Eq, Structural)]
pub enum ResizeStep {
    /// The score is low (below 30): halve the size.
    Shrink,
    /// The score is high (above 80): grow the size by half.
    Grow,
    /// Anything else: keep the size.
    Keep,
}

impl DynamicResize {
    pub closed spec fn width(&self) -> u32 {
        self.current_width
    }

    pub closed spec fn height(&self) -> u32 {
        self.current_height
    }

    pub closed spec fn quality(&self) -> u32 {
        self.quality_level
    }

    pub closed spec fn bounds(&self) -> (u32, u32, u32, u32) {
        (self.min_width, self.min_height, self.max_width, self.max_height)
    }

    /// Starts at the minimum size with quality level 1.
    pub fn new(min_width: u32, min_height: u32, max_width: u32, max_height: u32) -> (d: Self)
        ensures
            d.width() == min_width,
            d.height() == min_height,
            d.quality() == 1,
            d.bounds() == (min_width, min_height, max_width, max_height),
    {
        DynamicResize {
            min_width,
            min_height,
            max_width,
            max_height,
            current_width: min_width,
            current_height: min_height,
            quality_level: 1,
        }
    }

    /// Applies one adjustment: a shrink halves width and height and lowers
    /// the quality (not below 0) when the width is above its minimum; a grow
    /// multiplies both by 3/2 and raises the quality (not past the maximum)
    /// when the width is below its maximum; otherwise nothing changes.
    pub fn adjust_step(&mut self, step: ResizeStep)
        requires
            step == ResizeStep::Grow && old(self).width() < old(self).bounds().2 ==>
                old(self).width() * 3 <= u32::MAX && old(self).height() * 3 <= u32::MAX,
        ensures
            final(self).bounds() == old(self).bounds(),
            step == ResizeStep::Shrink && old(self).width() > old(self).bounds().0 ==> {
                &&& final(self).width() == old(self).width() / 2
                &&& final(self).height() == old(self).height() / 2
                &&& final(self).quality() == if old(self).quality() > 0 { old(self).quality() - 1 } else { 0 }
            },
            step == ResizeStep::Grow && old(self).width() < old(self).bounds().2 ==> {
                &&& final(self).width() == old(self).width() * 3 / 2
                &&& final(self).height() == old(self).height() * 3 / 2
                &&& final(self).quality() == if old(self).quality() < u32::MAX { old(self).quality() + 1 } else { u32::MAX as int }
            },
            !(step == ResizeStep::Shrink && old(self).width() > old(self).bounds().0)
                && !(step == ResizeStep::Grow && old(self).width() < old(self).bounds().2) ==> {
                &&& final(self).width() == old(self).width()
                &&& final(self).height() == old(self).height()
                &&& final(self).quality() == old(self).quality()
            },
    {
        if step == ResizeStep::Shrink && self.current_width > self.min_width {
            self.current_width = self.current_width / 2;
            self.current_height = self.current_height / 2;
            self.quality_level = self.quality_level.saturating_sub(1);
        } else if step == ResizeStep::Grow && self.current_width < self.max_width {
            self.current_width = (self.current_width * 3) / 2;
            self.current_height = (self.current_height * 3) / 2;
            self.quality_level = self.quality_level.saturating_add(1);
        }
    }

    /// Whether a grow step stays within `u32`: what `adjust_step` needs.
    pub fn grow_fits(&self) -> (b: bool)
        ensures
            b == (self.width() < self.bounds().2 ==> self.width() * 3 <= u32::MAX && self.height() * 3 <= u32::MAX),
    {
        self.current_width >= self.max_width || (self.current_width <= 1431655765 && self.current_height <= 1431655765)
    }

    /// The current width.
    pub fn get_width(&self) -> (w: u32)
        ensures
            w == self.width(),
    {
        self.current_width
    }

    /// The current height.
    pub fn get_height(&self) -> (h: u32)
        ensures
            h == self.height(),
    {
        self.current_height
    }
}

} // verus!
