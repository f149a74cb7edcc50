//! The readback stage's arithmetic and bookkeeping: how large the host-side
//! destination of a frame is, how its rows are laid out, and where the bytes
//! that came back are kept.

use crate::buffer::{pushed, ActiveRecorders, FrameEntry, Recorder};
use crate::frame::FrameShape;
use vstd::prelude::*;

verus! {

/// Layout of a frame inside a copy destination.
#[derive(Debug, Clone, Copy, PartialEq, Eq, Structural)]
pub struct DataLayout {
    pub offset: u64,
    pub bytes_per_row: Option<u32>,
    pub rows_per_image: Option<u32>,
}

/// Bytes of one row, as far as 32 bits hold them.
pub open spec fn row_bytes(width: u32, pixel_size: u32) -> int {
    (width * pixel_size) % 0x1_0000_0000
}

/// The layout of a tightly packed frame: rows follow each other at a stride
/// of one row's bytes. A frame of at most one row, or one whose stride is
/// zero, names no stride.
pub fn layout_data(width: u32, height: u32, pixel_size: u32) -> (layout: DataLayout)
    ensures
        layout.offset == 0,
        layout.rows_per_image.is_none(),
        layout.bytes_per_row == if height > 1 && row_bytes(width, pixel_size) != 0 {
            Some(row_bytes(width, pixel_size) as u32)
        } else {
            None
        },
{
    let bytes_per_row: Option<u32> = if height > 1 {
        assert(width * pixel_size <= 0xFFFF_FFFF * 0xFFFF_FFFF) by (nonlinear_arith)
            requires
                0 <= width <= 0xFFFF_FFFF,
                0 <= pixel_size <= 0xFFFF_FFFF,
        ;
        let row: u64 = (width as u64) * (pixel_size as u64);
        let low: u32 = (row % 0x1_0000_0000) as u32;
        if low == 0 {
            None
        } else {
            Some(low)
        }
    } else {
        None
    };
    DataLayout { offset: 0, bytes_per_row, rows_per_image: None }
}

/// Size in bytes of the destination that one frame of the shape is copied
/// into: exactly the frame's bytes, or nothing where 64 bits cannot hold
/// their number.
pub fn readback_size(shape: &FrameShape) -> (size: Option<u64>)
    ensures
        match size {
            Some(n) => n == shape.byte_len(),
            None => shape.byte_len() > u64::MAX,
        },
{
    let w: u128 = shape.width as u128;
    let h: u128 = shape.height as u128;
    let p: u128 = shape.pixel_size as u128;
    assert(w * h <= 0xFFFF_FFFFu128 * 0xFFFF_FFFFu128) by (nonlinear_arith)
        requires
            w <= 0xFFFF_FFFFu128,
            h <= 0xFFFF_FFFFu128,
    ;
    let area: u128 = w * h;
    assert(area * p <= 0xFFFF_FFFE_0000_0001u128 * 0xFFFF_FFFFu128) by (nonlinear_arith)
        requires
            area <= 0xFFFF_FFFE_0000_0001u128,
            p <= 0xFFFF_FFFFu128,
    ;
    let total: u128 = area * p;
    if total > u64::MAX as u128 {
        None
    } else {
        Some(total as u64)
    }
}

/// Keeps the bytes that were read back for the recorder at `index` as its
/// pending frame, in place of the one before. A recorder whose target cannot
/// be resolved, or an index without a recorder, is skipped: nothing changes.
pub fn smuggle_frame(recorders: &mut ActiveRecorders, index: usize, bytes: Vec<u8>) -> (stored: bool)
    ensures
        stored == (index < old(recorders).recorders@.len() && old(recorders).recorders@[index as int].target.is_some()),
        !stored ==> *final(recorders) == *old(recorders),
        stored ==> final(recorders).recorders@ == old(recorders).recorders@.update(
            index as int,
            (Recorder {
                tracking_id: old(recorders).recorders@[index as int].tracking_id,
                target: old(recorders).recorders@[index as int].target,
                last_frame: Some(bytes),
                frames: old(recorders).recorders@[index as int].frames,
            }),
        ),
{
    if index >= recorders.recorders.len() {
        return false;
    }
    if recorders.recorders[index].target.is_none() {
        return false;
    }
    recorders.recorders[index].last_frame = Some(bytes);
    true
}

/// Moves a recorder's pending frame, if it has one, to the back of its queue,
/// tagged with the time since the frame before. The oldest frame leaves a
/// full queue.
pub fn move_camera_buffer(recorder: &mut Recorder, frame_time: u128) -> (moved: bool)
    requires
        old(recorder).frames.wf(),
    ensures
        moved == old(recorder).last_frame.is_some(),
        final(recorder).frames.wf(),
        final(recorder).frames.limit() == old(recorder).frames.limit(),
        final(recorder).tracking_id == old(recorder).tracking_id,
        final(recorder).target == old(recorder).target,
        final(recorder).last_frame.is_none(),
        final(recorder).frames@ == match old(recorder).last_frame {
            Some(bytes) => pushed(
                old(recorder).frames@,
                old(recorder).frames.limit(),
                (FrameEntry { frame_time, texture: bytes }),
            ),
            None => old(recorder).frames@,
        },
{
    match recorder.last_frame.take() {
        Some(bytes) => {
            recorder.frames.push(FrameEntry { frame_time, texture: bytes });
            true
        },
        None => false,
    }
}

} // verus!
