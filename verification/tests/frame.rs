use frame_pipeline::bind_groups::GroupSlot;
use frame_pipeline::frame::{ping_pong, workgroup_count, FrameInfo, FrameUniform, TILE_SIZE};
use frame_pipeline::resource::{ResourceAllocator, ResourceId};
use frame_pipeline::scheduler::FrameScheduler;

#[test]
fn even_frames_read_a_and_write_b() {
    assert_eq!(ping_pong(0), GroupSlot::AReadBWrite);
    assert_eq!(ping_pong(1), GroupSlot::BReadAWrite);
    assert_eq!(ping_pong(2), GroupSlot::AReadBWrite);
    assert_eq!(ping_pong(u32::MAX), GroupSlot::BReadAWrite);
    assert_eq!(ping_pong(u32::MAX - 1), GroupSlot::AReadBWrite);
}

#[test]
fn ping_pong_alternates_frame_by_frame() {
    let mut u = FrameUniform::new();
    for _ in 0..9 {
        let now = u.ping_pong();
        u.begin_frame();
        let next = u.ping_pong();
        u.begin_frame();
        let after = u.ping_pong();
        assert_ne!(now, next);
        assert_eq!(now, after);
        u.begin_frame();
    }
}

#[test]
fn frame_counter_wraps_without_a_crash() {
    let mut u = FrameUniform { global_frame_info: [u32::MAX, 7, 8, 9] };
    assert_eq!(u.ping_pong(), GroupSlot::BReadAWrite);
    u.begin_frame();
    assert_eq!(u.global_frame_info, [0, 7, 8, 9]);
    assert_eq!(u.ping_pong(), GroupSlot::AReadBWrite);
    u.begin_frame();
    assert_eq!(u.global_frame_info, [1, 7, 8, 9]);
}

#[test]
fn ticks_since_the_view_changed_are_counted() {
    let mut u = FrameUniform::new();
    assert_eq!(u.global_frame_info, [0, 0, 0, 0]);
    u.record_tick(false);
    u.record_tick(false);
    u.record_tick(false);
    assert_eq!(u.global_frame_info, [0, 3, 0, 0]);
    u.record_tick(true);
    assert_eq!(u.global_frame_info, [0, 0, 0, 0]);
    u.record_tick(true);
    assert_eq!(u.global_frame_info, [0, 0, 0, 0]);
    u.record_tick(false);
    assert_eq!(u.global_frame_info, [0, 1, 0, 0]);
}

#[test]
fn tick_counter_stops_at_its_maximum() {
    let mut u = FrameUniform { global_frame_info: [5, u32::MAX - 1, 0, 0] };
    u.record_tick(false);
    assert_eq!(u.global_frame_info, [5, u32::MAX, 0, 0]);
    u.record_tick(false);
    assert_eq!(u.global_frame_info, [5, u32::MAX, 0, 0]);
    u.record_tick(true);
    assert_eq!(u.global_frame_info, [5, 0, 0, 0]);
}

#[test]
fn workgroups_cover_the_extent() {
    assert_eq!(TILE_SIZE, 8);
    assert_eq!(workgroup_count(0), 0);
    assert_eq!(workgroup_count(1), 1);
    assert_eq!(workgroup_count(7), 1);
    assert_eq!(workgroup_count(8), 1);
    assert_eq!(workgroup_count(9), 2);
    assert_eq!(workgroup_count(800), 100);
    assert_eq!(workgroup_count(1366), 171);
    assert_eq!(workgroup_count(u32::MAX), 536_870_912);
    assert_eq!(workgroup_count(u32::MAX - 7), 536_870_911);
}

#[test]
fn frame_uniform_bytes_are_its_words_in_memory() {
    let u = FrameUniform { global_frame_info: [1, 0x0102_0304, 0, u32::MAX] };
    let bytes = u.to_bytes();
    let mut expected: Vec<u8> = Vec::new();
    for w in u.global_frame_info {
        expected.extend_from_slice(&w.to_ne_bytes());
    }
    assert_eq!(bytes.len(), 16);
    assert_eq!(bytes, expected);
    let little: Vec<u8> = vec![1, 0, 0, 0, 4, 3, 2, 1, 0, 0, 0, 0, 255, 255, 255, 255];
    let big: Vec<u8> = vec![0, 0, 0, 1, 1, 2, 3, 4, 0, 0, 0, 0, 255, 255, 255, 255];
    assert!(bytes == little || bytes == big);
}

fn frame_info() -> FrameInfo {
    let mut alloc = ResourceAllocator::new();
    FrameInfo::new(&mut alloc, FrameScheduler::new(10).unwrap())
}

#[test]
fn new_frame_info_is_uploaded() {
    let mut alloc = ResourceAllocator::new();
    alloc.allocate();
    let info = FrameInfo::new(&mut alloc, FrameScheduler::new(10).unwrap());
    assert_eq!(info.frame_buffer.id, ResourceId(1));
    assert_eq!(alloc.next(), 2);
    assert_eq!(info.frame_uniform.global_frame_info, [0, 0, 0, 0]);
    assert_eq!(info.frame_buffer.contents, info.frame_uniform);
    assert_eq!(info.frame_count, 0);
    assert_eq!(info.since_report, 0);
}

#[test]
fn update_frame_buffer_copies_the_uniform() {
    let mut info = frame_info();
    info.frame_uniform.begin_frame();
    info.frame_uniform.record_tick(false);
    assert_ne!(info.frame_buffer.contents, info.frame_uniform);
    info.update_frame_buffer();
    assert_eq!(info.frame_buffer.contents, info.frame_uniform);
    assert_eq!(info.frame_buffer.contents.global_frame_info, [1, 1, 0, 0]);
}

#[test]
fn get_ticks_reports_the_frame_rate_once_a_second() {
    let mut info = frame_info();
    let r = info.get_ticks(400_000_000);
    assert_eq!(r.ticks, 25_000_000);
    assert_eq!(r.frames_per_second, None);
    assert_eq!(info.frame_count, 1);
    assert_eq!(info.since_report, 400_000_000);
    let r = info.get_ticks(599_999_999);
    assert_eq!(r.frames_per_second, None);
    assert_eq!(info.frame_count, 2);
    let r = info.get_ticks(1);
    assert_eq!(r.ticks, 0);
    assert_eq!(r.frames_per_second, Some(3));
    assert_eq!(info.frame_count, 0);
    assert_eq!(info.since_report, 0);
    let r = info.get_ticks(u64::MAX);
    assert_eq!(r.frames_per_second, Some(1));
}

#[test]
fn get_ticks_saturates_its_counters() {
    let mut info = frame_info();
    info.frame_count = u32::MAX;
    info.since_report = 5;
    let r = info.get_ticks(3);
    assert_eq!(r.frames_per_second, None);
    assert_eq!(info.frame_count, u32::MAX);
    assert_eq!(info.since_report, 8);
    info.since_report = u64::MAX;
    let r = info.get_ticks(u64::MAX);
    assert_eq!(r.frames_per_second, Some(u32::MAX));
}
