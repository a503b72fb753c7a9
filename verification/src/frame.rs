//! Per-frame bookkeeping: the frame uniform, the ping-pong roles of the two
//! accumulation buffers, the size of the compute dispatch and the frame rate.

use vstd::prelude::*;
use crate::bind_groups::GroupSlot;
use crate::bytes::{is_memory_image, memory_image};
use crate::resource::{ResourceAllocator, ResourceId};
use crate::scheduler::FrameScheduler;

verus! {

/// Side length, in pixels, of the square tile that one workgroup covers.
pub const TILE_SIZE: u32 = 8;

/// Time between two frame-rate reports, in nanoseconds.
pub const REPORT_INTERVAL_NANOS: u64 = 1_000_000_000;

/// The uniform block that every frame hands to the compute program: the
/// frame counter, the number of ticks since the view last changed, and two
/// words that are not used.
#[derive(Clone, Copy, PartialEq, Eq, Debug)]
pub struct FrameUniform {
    pub global_frame_info: [u32; 4],
}

/// The frame counter after one more frame; it wraps around.
pub open spec fn next_frame(frame: u32) -> u32 {
    if frame == u32::MAX {
        0
    } else {
        (frame + 1) as u32
    }
}

/// The tick counter after one more tick: zero if the view changed in the
/// tick, else one more, short of overflowing.
pub open spec fn next_since_moved(since_moved: u32, changed: bool) -> u32 {
    if changed {
        0
    } else if since_moved == u32::MAX {
        since_moved
    } else {
        (since_moved + 1) as u32
    }
}

/// The accumulation pairing of a frame: buffer A is read and buffer B written
/// in even frames, the other way round in odd ones.
pub open spec fn spec_ping_pong(frame: u32) -> GroupSlot {
    if frame % 2 == 0 {
        GroupSlot::AReadBWrite
    } else {
        GroupSlot::BReadAWrite
    }
}

/// The accumulation pairing of a frame.
#[verifier::when_used_as_spec(spec_ping_pong)]
pub fn ping_pong(frame: u32) -> (slot: GroupSlot)
    ensures
        slot == spec_ping_pong(frame),
{
    if frame % 2 == 0 {
        GroupSlot::AReadBWrite
    } else {
        GroupSlot::BReadAWrite
    }
}

/// The pairing depends on the parity of the frame counter alone: the next
/// frame has the other pairing, the one after it the same again, also where
/// the counter wraps around.
pub proof fn lemma_ping_pong_alternates(frame: u32)
    ensures
        spec_ping_pong(next_frame(frame)) != spec_ping_pong(frame),
        spec_ping_pong(next_frame(next_frame(frame))) == spec_ping_pong(frame),
        forall|other: u32| other % 2 == frame % 2 ==> spec_ping_pong(other) == spec_ping_pong(frame),
{
}

/// Number of tiles needed to cover `extent` pixels.
pub open spec fn spec_workgroup_count(extent: u32) -> int {
    (extent + TILE_SIZE - 1) / (TILE_SIZE as int)
}

/// Number of workgroups along an axis of `extent` pixels: the extent divided
/// by the tile size, rounded up.
pub fn workgroup_count(extent: u32) -> (count: u32)
    ensures
        count == spec_workgroup_count(extent),
        count * TILE_SIZE >= extent,
        extent > 0 ==> (count - 1) * TILE_SIZE < extent,
{
    if extent % TILE_SIZE == 0 {
        extent / TILE_SIZE
    } else {
        extent / TILE_SIZE + 1
    }
}

impl FrameUniform {
    /// The number of the frame.
    pub open spec fn frame(&self) -> u32 {
        self.global_frame_info[0]
    }

    /// The number of ticks since the view last changed.
    pub open spec fn since_moved(&self) -> u32 {
        self.global_frame_info[1]
    }

    /// The block of frame zero.
    pub fn new() -> (r: FrameUniform)
        ensures
            r.global_frame_info@ == seq![0u32, 0u32, 0u32, 0u32],
    {
        let r = FrameUniform { global_frame_info: [0, 0, 0, 0] };
        assert(r.global_frame_info@ =~= seq![0u32, 0u32, 0u32, 0u32]);
        r
    }

    /// Counts one more frame.
    pub fn begin_frame(&mut self)
        ensures
            final(self).global_frame_info@ == old(self).global_frame_info@.update(
                0,
                next_frame(old(self).frame()),
            ),
    {
        let frame = self.global_frame_info[0];
        let next = if frame == u32::MAX {
            0
        } else {
            frame + 1
        };
        self.global_frame_info = [
            next,
            self.global_frame_info[1],
            self.global_frame_info[2],
            self.global_frame_info[3],
        ];
        assert(self.global_frame_info@ =~= old(self).global_frame_info@.update(0, next));
    }

    /// Counts one more tick, in which the view did or did not change.
    pub fn record_tick(&mut self, changed: bool)
        ensures
            final(self).global_frame_info@ == old(self).global_frame_info@.update(
                1,
                next_since_moved(old(self).since_moved(), changed),
            ),
    {
        let since = self.global_frame_info[1];
        let next = if changed {
            0
        } else if since == u32::MAX {
            since
        } else {
            since + 1
        };
        self.global_frame_info = [
            self.global_frame_info[0],
            next,
            self.global_frame_info[2],
            self.global_frame_info[3],
        ];
        assert(self.global_frame_info@ =~= old(self).global_frame_info@.update(1, next));
    }

    /// The accumulation pairing of the current frame.
    pub fn ping_pong(&self) -> (slot: GroupSlot)
        ensures
            slot == spec_ping_pong(self.frame()),
    {
        ping_pong(self.global_frame_info[0])
    }

    /// The sixteen bytes that are written to the GPU buffer.
    pub fn to_bytes(&self) -> (bytes: Vec<u8>)
        ensures
            is_memory_image(bytes@, self.global_frame_info@),
    {
        let mut words: Vec<u32> = Vec::new();
        words.push(self.global_frame_info[0]);
        words.push(self.global_frame_info[1]);
        words.push(self.global_frame_info[2]);
        words.push(self.global_frame_info[3]);
        assert(words@ =~= self.global_frame_info@);
        memory_image(&words)
    }
}

/// The tick counter says how many ticks have passed since the view last
/// changed: it is zero after a tick in which it changed, and one more than
/// before after any other tick, as long as it has not reached its maximum.
pub proof fn lemma_since_moved_counts(since_moved: u32, changed: bool)
    ensures
        changed ==> next_since_moved(since_moved, changed) == 0,
        !changed && since_moved < u32::MAX ==> next_since_moved(since_moved, changed)
            == since_moved + 1,
        next_since_moved(since_moved, changed) == 0 ==> changed,
{
}

/// The GPU buffer of the frame uniform and what was last written to it.
#[derive(Clone, Copy, PartialEq, Eq, Debug)]
pub struct FrameBuffer {
    pub id: ResourceId,
    pub contents: FrameUniform,
}

/// What the host learns at the start of a frame.
#[derive(Clone, Copy, PartialEq, Eq, Debug, Structural)]
pub struct Ticks {
    /// Logic ticks that are due before the frame is drawn.
    pub ticks: u32,
    /// Frames counted since the last report, once per report interval.
    pub frames_per_second: Option<u32>,
}

/// Clock, counters and uniform block of the frame loop.
#[derive(Debug)]
pub struct FrameInfo {
    pub scheduler: FrameScheduler,
    /// Time since the last frame-rate report, in nanoseconds.
    pub since_report: u64,
    /// Frames since the last frame-rate report.
    pub frame_count: u32,
    pub frame_uniform: FrameUniform,
    pub frame_buffer: FrameBuffer,
}

/// Sum of two durations, short of overflowing.
pub open spec fn saturating_sum(a: u64, b: u64) -> u64 {
    if a + b > u64::MAX {
        u64::MAX
    } else {
        (a + b) as u64
    }
}

/// One more frame in the count, short of overflowing.
pub open spec fn saturating_next(count: u32) -> u32 {
    if count == u32::MAX {
        count
    } else {
        (count + 1) as u32
    }
}

impl FrameInfo {
    /// The buffer holds the current uniform block.
    pub open spec fn uploaded(&self) -> bool {
        self.frame_buffer.contents == self.frame_uniform
    }

    /// Counters at zero, a fresh buffer that holds the block of frame zero.
    pub fn new(alloc: &mut ResourceAllocator, scheduler: FrameScheduler) -> (r: FrameInfo)
        requires
            old(alloc).has_room(1),
        ensures
            r.uploaded(),
            r.scheduler == scheduler,
            r.since_report == 0,
            r.frame_count == 0,
            r.frame_uniform.global_frame_info@ == seq![0u32, 0u32, 0u32, 0u32],
            r.frame_buffer.id.0 == old(alloc).next(),
            final(alloc).next() == old(alloc).next() + 1,
    {
        let frame_uniform = FrameUniform::new();
        FrameInfo {
            scheduler,
            since_report: 0,
            frame_count: 0,
            frame_uniform,
            frame_buffer: FrameBuffer { id: alloc.allocate(), contents: frame_uniform },
        }
    }

    /// Records the current uniform block as the contents of the buffer.
    pub fn update_frame_buffer(&mut self)
        ensures
            final(self).uploaded(),
            final(self).frame_buffer.id == old(self).frame_buffer.id,
            final(self).frame_uniform == old(self).frame_uniform,
            final(self).scheduler == old(self).scheduler,
            final(self).since_report == old(self).since_report,
            final(self).frame_count == old(self).frame_count,
    {
        self.frame_buffer.contents = self.frame_uniform;
    }

    /// This is `pre` after `elapsed` nanoseconds since the last frame were
    /// credited and `due` was handed back: the ticks that fit into the time
    /// accumulated are due and the rest is kept; the frame is counted; and
    /// where a report interval has passed since the last report, the frames
    /// counted are handed out and the count starts anew.
    pub open spec fn credited_from(&self, pre: &FrameInfo, elapsed: u64, due: Ticks) -> bool {
        let total = pre.scheduler.accumulator() + crate::scheduler::clamped_elapsed(elapsed);
        let step = pre.scheduler.timestep() as int;
        &&& step > 0
        &&& self.scheduler.timestep() == pre.scheduler.timestep()
        &&& due.ticks as int == total / step
        &&& self.scheduler.accumulator() as int == total % step
        &&& self.scheduler.accumulator() < self.scheduler.timestep()
        &&& self.frame_uniform == pre.frame_uniform
        &&& self.frame_buffer == pre.frame_buffer
        &&& if saturating_sum(pre.since_report, elapsed) >= REPORT_INTERVAL_NANOS {
            &&& due.frames_per_second == Some(saturating_next(pre.frame_count))
            &&& self.frame_count == 0
            &&& self.since_report == 0
        } else {
            &&& due.frames_per_second is None
            &&& self.frame_count == saturating_next(pre.frame_count)
            &&& self.since_report == pre.since_report + elapsed
        }
    }

    /// Credits the time since the last frame: says how many logic ticks are
    /// due, counts the frame, and once a report interval has passed hands
    /// out the number of frames counted and starts counting anew.
    pub fn get_ticks(&mut self, elapsed: u64) -> (r: Ticks)
        ensures
            final(self).credited_from(old(self), elapsed, r),
    {
        let ticks = self.scheduler.advance(elapsed);
        let since: u64 = if elapsed > u64::MAX - self.since_report {
            u64::MAX
        } else {
            self.since_report + elapsed
        };
        let count: u32 = if self.frame_count == u32::MAX {
            u32::MAX
        } else {
            self.frame_count + 1
        };
        if since >= REPORT_INTERVAL_NANOS {
            self.since_report = 0;
            self.frame_count = 0;
            Ticks { ticks, frames_per_second: Some(count) }
        } else {
            self.since_report = since;
            self.frame_count = count;
            Ticks { ticks, frames_per_second: None }
        }
    }
}

} // verus!
