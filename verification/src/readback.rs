//! # GPU→CPU readback bookkeeping
//!
//! Row layout of texture readbacks, and the double-buffered pool of staging
//! slots used by CPU-path outputs (NDI).
//!
//! Two staging slots rotate in lockstep with the render loop:
//!
//! ```text
//! Frame N:   submit_copy(slot A) ─── GPU copies texture into slot A's buffer
//! Frame N+1: harvest(slot A)     ─── CPU maps slot A (should be ready by now)
//!            submit_copy(slot B) ─── GPU copies texture into slot B's buffer
//! Frame N+2: harvest(slot B)     ─── CPU maps slot B
//! ```
//!
//! The pool here decides which slot is read, which is written, when a
//! staging buffer must be (re)created and how large it is; the caller owns
//! the GPU buffers and map receivers of the two slots and performs the
//! copies.

use vstd::prelude::*;
use vstd::slice::slice_subrange;

verus! {

/// Bytes per BGRA8 pixel.
pub open spec fn bytes_per_pixel() -> int {
    4
}

/// Row pitch that wgpu demands of texture-to-buffer copies.
pub open spec fn row_alignment() -> int {
    256
}

/// Bytes of one tightly packed row of `width` pixels.
pub open spec fn tight_row_bytes(width: int) -> int {
    width * bytes_per_pixel()
}

/// Bytes of one row of `width` pixels, padded to the copy alignment.
pub open spec fn padded_row_bytes(width: int) -> int {
    (tight_row_bytes(width) + row_alignment() - 1) / row_alignment() * row_alignment()
}

/// Wraps `wgpu::COPY_BYTES_PER_ROW_ALIGNMENT`: the alignment that wgpu
/// requires of `bytes_per_row` in texture/buffer copies. wgpu-types defines
/// the constant as 256.
#[verifier::external_body]
fn copy_bytes_per_row_alignment() -> (a: u32)
    ensures
        a == 256,
{
    wgpu::COPY_BYTES_PER_ROW_ALIGNMENT
}

/// Padded bytes per row for a copy of a texture `width` pixels wide.
pub fn padded_bytes_per_row(width: u32) -> (p: u32)
    requires
        tight_row_bytes(width as int) + row_alignment() <= u32::MAX,
    ensures
        p == padded_row_bytes(width as int),
        tight_row_bytes(width as int) <= p,
{
    let align = copy_bytes_per_row_alignment();
    let unpadded = width * 4;
    (unpadded + align - 1) / align * align
}

/// The tightly packed rows that [`strip_row_padding`] extracts from the
/// first `rows` padded rows of `padded`: each row whose bytes lie wholly
/// inside the buffer contributes its first `tight` bytes; a row that runs
/// past the end of the buffer contributes nothing.
pub open spec fn stripped_rows(padded: Seq<u8>, tight: int, pitch: int, rows: int) -> Seq<u8>
    decreases rows,
{
    if rows <= 0 {
        seq![]
    } else {
        let prev = stripped_rows(padded, tight, pitch, rows - 1);
        let start = (rows - 1) * pitch;
        if start + tight <= padded.len() {
            prev + padded.subrange(start, start + tight)
        } else {
            prev
        }
    }
}

/// When the buffer reaches at least to the end of the last row, the stripped
/// output holds exactly `rows` tight rows, and byte `c` of output row `r` is
/// byte `c` of padded row `r`: rows keep their order and their bytes, and
/// only the padding is dropped.
pub proof fn lemma_stripped_rows_complete(padded: Seq<u8>, tight: int, pitch: int, rows: int)
    requires
        0 <= tight <= pitch,
        rows >= 0,
        rows > 0 ==> (rows - 1) * pitch + tight <= padded.len(),
    ensures
        stripped_rows(padded, tight, pitch, rows).len() == rows * tight,
        forall|r: int, c: int|
            0 <= r < rows && 0 <= c < tight ==> #[trigger] stripped_rows(
                padded,
                tight,
                pitch,
                rows,
            )[r * tight + c] == padded[r * pitch + c],
    decreases rows,
{
    if rows > 0 {
        let n = rows - 1;
        if n > 0 {
            assert((n - 1) * pitch + tight <= n * pitch + tight) by (nonlinear_arith)
                requires
                    n > 0,
                    pitch >= 0,
            ;
        }
        lemma_stripped_rows_complete(padded, tight, pitch, n);
        let prev = stripped_rows(padded, tight, pitch, n);
        let s = stripped_rows(padded, tight, pitch, rows);
        assert(s == prev + padded.subrange(n * pitch, n * pitch + tight));
        assert(s.len() == prev.len() + tight);
        assert(n * tight + tight == rows * tight) by (nonlinear_arith)
            requires
                n == rows - 1,
        ;
        assert forall|r: int, c: int| 0 <= r < rows && 0 <= c < tight implies #[trigger] s[r
            * tight + c] == padded[r * pitch + c] by {
            if r < n {
                assert(r * tight <= (n - 1) * tight) by (nonlinear_arith)
                    requires
                        r <= n - 1,
                        0 <= tight,
                ;
                assert((n - 1) * tight + tight == n * tight) by (nonlinear_arith);
                assert(0 <= r * tight) by (nonlinear_arith)
                    requires
                        0 <= r,
                        0 <= tight,
                ;
                assert(s[r * tight + c] == prev[r * tight + c]);
            } else {
                assert(r == n);
            }
        }
    } else {
        assert(rows * tight == 0) by (nonlinear_arith)
            requires
                rows == 0,
        ;
    }
}

/// Remove row-alignment padding from a GPU readback buffer.
///
/// wgpu requires rows to be aligned to `COPY_BYTES_PER_ROW_ALIGNMENT` (256)
/// bytes. NDI (and most CPU consumers) expect tightly-packed BGRA rows.
pub fn strip_row_padding(padded: &[u8], width: u32, height: u32) -> (out: Vec<u8>)
    requires
        tight_row_bytes(width as int) + row_alignment() <= usize::MAX,
        tight_row_bytes(width as int) * height <= isize::MAX,
        height > 0 ==> (height - 1) * padded_row_bytes(width as int) + tight_row_bytes(
            width as int,
        ) <= usize::MAX,
    ensures
        out@ == stripped_rows(
            padded@,
            tight_row_bytes(width as int),
            padded_row_bytes(width as int),
            height as int,
        ),
{
    let bytes_per_pixel: usize = 4;
    let tight_row: usize = width as usize * bytes_per_pixel;
    let align: usize = copy_bytes_per_row_alignment() as usize;
    let padded_row: usize = (tight_row + align - 1) / align * align;
    assert(tight_row * height <= isize::MAX);
    let mut out: Vec<u8> = Vec::with_capacity(tight_row * height as usize);
    let rows: usize = height as usize;
    let mut row: usize = 0;
    while row < rows
        invariant
            row <= rows,
            rows == height,
            tight_row == tight_row_bytes(width as int),
            padded_row == padded_row_bytes(width as int),
            rows > 0 ==> (rows - 1) * padded_row + tight_row <= usize::MAX,
            out@ == stripped_rows(padded@, tight_row as int, padded_row as int, row as int),
        decreases rows - row,
    {
        assert(row * padded_row <= (rows - 1) * padded_row) by (nonlinear_arith)
            requires
                row < rows,
        ;
        let src_start: usize = row * padded_row;
        let src_end: usize = src_start + tight_row;
        if src_end <= padded.len() {
            let part = slice_subrange(padded, src_start, src_end);
            let ghost before = out@;
            let mut i: usize = 0;
            while i < part.len()
                invariant
                    i <= part@.len(),
                    out@ == before + part@.subrange(0, i as int),
                decreases part@.len() - i,
            {
                out.push(part[i]);
                i = i + 1;
                assert(part@.subrange(0, i as int) =~= part@.subrange(0, i - 1).push(
                    part@[i - 1],
                ));
            }
            assert(part@.subrange(0, part@.len() as int) =~= part@);
        }
        row = row + 1;
    }
    out
}


/// Bookkeeping of one staging slot.
#[derive(Debug, Clone, Copy, PartialEq, Eq, Structural)]
pub struct ReadbackSlot {
    /// Size in bytes of the slot's staging buffer.
    pub capacity: u64,
    /// Width of the texture last copied into the slot.
    pub width: u32,
    /// Height of the texture last copied into the slot.
    pub height: u32,
    /// A copy has been submitted and the map callback is awaited.
    pub pending: bool,
}

/// What [`ReadbackPool::submit_copy`] asks the caller to do.
#[derive(Debug, Clone, PartialEq)]
pub struct CopyPlan {
    /// The slot to copy into.
    pub slot: usize,
    /// Whether the slot's staging buffer must be (re)created, with
    /// `buffer_size` bytes, before the copy.
    pub recreate_buffer: bool,
    /// Bytes needed for the copy.
    pub buffer_size: u64,
    /// Padded bytes per row of the copy.
    pub padded_bytes_per_row: u32,
}

/// The abstract state of a [`ReadbackPool`].
pub ghost struct ReadbackPoolView {
    pub slots: Seq<Option<ReadbackSlot>>,
    pub harvest_idx: int,
    pub write_idx: int,
}

/// Double-buffered pool of staging slots.
#[derive(Debug, Clone, PartialEq)]
pub struct ReadbackPool {
    slots: Vec<Option<ReadbackSlot>>,
    /// Index of the slot to harvest next frame.
    harvest_idx: usize,
    /// Index of the slot to write into this frame.
    write_idx: usize,
}

impl View for ReadbackPool {
    type V = ReadbackPoolView;

    closed spec fn view(&self) -> ReadbackPoolView {
        ReadbackPoolView {
            slots: self.slots@,
            harvest_idx: self.harvest_idx as int,
            write_idx: self.write_idx as int,
        }
    }
}

/// Well-formedness of a pool state: two slots, both indices naming one.
pub open spec fn pool_wf(p: ReadbackPoolView) -> bool {
    &&& p.slots.len() == 2
    &&& 0 <= p.harvest_idx < 2
    &&& 0 <= p.write_idx < 2
}

/// Bytes needed to copy a `width`×`height` texture with padded rows.
pub open spec fn copy_size(width: int, height: int) -> int {
    padded_row_bytes(width) * height
}

/// Whether a slot must get a new staging buffer before a copy of `size`
/// bytes: it has none, its buffer is too small, or its buffer still awaits
/// an earlier map.
pub open spec fn needs_new_buffer(slot: Option<ReadbackSlot>, size: int) -> bool {
    match slot {
        None => true,
        Some(s) => s.capacity < size || s.pending,
    }
}

/// The pool after a copy of a `width`×`height` texture is submitted.
pub open spec fn after_submit(p: ReadbackPoolView, width: u32, height: u32) -> ReadbackPoolView {
    let w = p.write_idx;
    let size = copy_size(width as int, height as int);
    let cap = if needs_new_buffer(p.slots[w], size) {
        size as u64
    } else {
        p.slots[w]->0.capacity
    };
    ReadbackPoolView {
        slots: p.slots.update(
            w,
            Some(ReadbackSlot { capacity: cap, width: width, height: height, pending: true }),
        ),
        harvest_idx: w,
        write_idx: 1 - w,
    }
}

/// The plan handed to the caller for that copy.
pub open spec fn submit_plan(p: ReadbackPoolView, width: u32, height: u32) -> CopyPlan {
    let size = copy_size(width as int, height as int);
    CopyPlan {
        slot: p.write_idx as usize,
        recreate_buffer: needs_new_buffer(p.slots[p.write_idx], size),
        buffer_size: size as u64,
        padded_bytes_per_row: padded_row_bytes(width as int) as u32,
    }
}

/// Whether the slot to harvest awaits a map (only then is its receiver
/// polled).
pub open spec fn harvest_pending(p: ReadbackPoolView) -> bool {
    match p.slots[p.harvest_idx] {
        Some(s) => s.pending,
        None => false,
    }
}

/// What a harvest returns when the map of the awaited slot is `ready`:
/// the slot to read and the dimensions of the copy it holds.
pub open spec fn harvest_result(p: ReadbackPoolView, ready: bool) -> Option<(usize, u32, u32)> {
    if harvest_pending(p) && ready {
        Some((p.harvest_idx as usize, p.slots[p.harvest_idx]->0.width, p.slots[p.harvest_idx]->0.height))
    } else {
        None
    }
}

/// The pool after such a harvest: a harvested slot is available again.
pub open spec fn after_harvest(p: ReadbackPoolView, ready: bool) -> ReadbackPoolView {
    if harvest_pending(p) && ready {
        ReadbackPoolView {
            slots: p.slots.update(
                p.harvest_idx,
                Some(ReadbackSlot { pending: false, ..p.slots[p.harvest_idx]->0 }),
            ),
            ..p
        }
    } else {
        p
    }
}

/// The limits under which the size arithmetic of a copy stays in `u32`.
pub open spec fn copy_fits(width: u32, height: u32) -> bool {
    &&& tight_row_bytes(width as int) + row_alignment() <= u32::MAX
    &&& copy_size(width as int, height as int) <= u32::MAX
}

impl ReadbackPool {
    /// Well-formedness of the pool.
    pub open spec fn wf(&self) -> bool {
        pool_wf(self@)
    }

    /// An empty pool: no slot has a buffer yet; both indices at slot 0.
    pub fn new() -> (p: Self)
        ensures
            p.wf(),
            p@.slots == seq![None::<ReadbackSlot>, None::<ReadbackSlot>],
            p@.harvest_idx == 0,
            p@.write_idx == 0,
    {
        ReadbackPool { slots: vec![None, None], harvest_idx: 0, write_idx: 0 }
    }

    /// The slot whose map receiver the caller polls before harvesting, if
    /// the slot to harvest awaits a map.
    pub fn harvest_candidate(&self) -> (slot: Option<usize>)
        requires
            self.wf(),
        ensures
            slot == (if harvest_pending(self@) {
                Some(self@.harvest_idx as usize)
            } else {
                None
            }),
    {
        match self.slots[self.harvest_idx] {
            Some(s) => if s.pending {
                Some(self.harvest_idx)
            } else {
                None
            },
            None => None,
        }
    }

    /// Attempt to harvest a completed readback from the previous frame.
    ///
    /// `ready` is whether the map of the slot named by
    /// [`harvest_candidate`](Self::harvest_candidate) has completed. Returns
    /// the slot to read with the width and height of its copy, or `None` when
    /// nothing is ready; never waits.
    pub fn harvest_previous(&mut self, ready: bool) -> (r: Option<(usize, u32, u32)>)
        requires
            old(self).wf(),
        ensures
            final(self).wf(),
            r == harvest_result(old(self)@, ready),
            final(self)@ == after_harvest(old(self)@, ready),
    {
        let i = self.harvest_idx;
        match self.slots[i] {
            None => None,
            Some(s) => {
                if !s.pending || !ready {
                    None
                } else {
                    self.slots.set(i, Some(ReadbackSlot { pending: false, ..s }));
                    Some((i, s.width, s.height))
                }
            },
        }
    }

    /// Submit a copy of a `width`×`height` texture into the current write
    /// slot, then advance both indices: the slot just written is harvested
    /// next, and the other slot is written next.
    pub fn submit_copy(&mut self, width: u32, height: u32) -> (plan: CopyPlan)
        requires
            old(self).wf(),
            copy_fits(width, height),
        ensures
            final(self).wf(),
            plan == submit_plan(old(self)@, width, height),
            final(self)@ == after_submit(old(self)@, width, height),
    {
        let padded = padded_bytes_per_row(width);
        let size = (padded * height) as u64;
        let w = self.write_idx;
        let recreate = match self.slots[w] {
            None => true,
            Some(s) => s.capacity < size || s.pending,
        };
        let capacity = if recreate {
            size
        } else {
            match self.slots[w] {
                Some(s) => s.capacity,
                None => size,
            }
        };
        self.slots.set(w, Some(ReadbackSlot { capacity, width, height, pending: true }));
        self.harvest_idx = w;
        self.write_idx = 1 - w;
        CopyPlan { slot: w, recreate_buffer: recreate, buffer_size: size, padded_bytes_per_row: padded }
    }
}

/// A harvest that follows a submitted copy, once the copy's map is ready,
/// reads the slot that was written and reports the dimensions of that copy;
/// the slot is then available again, and the pool stays well formed.
pub proof fn law_harvest_returns_submitted_copy(p: ReadbackPoolView, width: u32, height: u32)
    requires
        pool_wf(p),
    ensures
        pool_wf(after_submit(p, width, height)),
        harvest_pending(after_submit(p, width, height)),
        harvest_result(after_submit(p, width, height), true) == Some(
            (p.write_idx as usize, width, height),
        ),
        after_harvest(after_submit(p, width, height), true).slots[p.write_idx]->0.pending == false,
        harvest_result(after_submit(p, width, height), false) is None,
{
}

/// The two slots alternate: two submits in a row write both slots and
/// bring the write index back where it was, and a submit never touches the
/// slot that is read next frame.
pub proof fn law_slots_alternate(p: ReadbackPoolView, w1: u32, h1: u32, w2: u32, h2: u32)
    requires
        pool_wf(p),
    ensures
        after_submit(p, w1, h1).harvest_idx == p.write_idx,
        after_submit(p, w1, h1).write_idx == 1 - p.write_idx,
        after_submit(after_submit(p, w1, h1), w2, h2).write_idx == p.write_idx,
        after_submit(after_submit(p, w1, h1), w2, h2).slots[p.write_idx] == after_submit(
            p,
            w1,
            h1,
        ).slots[p.write_idx],
        after_submit(p, w1, h1).slots[1 - p.write_idx] == p.slots[1 - p.write_idx],
{
}

/// After a submit, the written slot's buffer is large enough for the copy.
pub proof fn law_buffer_covers_copy(p: ReadbackPoolView, width: u32, height: u32)
    requires
        pool_wf(p),
        copy_fits(width, height),
    ensures
        after_submit(p, width, height).slots[p.write_idx]->0.capacity >= copy_size(
            width as int,
            height as int,
        ),
{
}

} // verus!
