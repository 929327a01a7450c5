use vstd::prelude::*;

use crate::world::{advanced_view, resized_view, CameraFrame, WorldData};

verus! {

/// Side of the square tile of pixels that one compute workgroup shades.
pub const WORKGROUP_SIZE: u32 = 8;

/// What the windowing layer reports to the scene.
///
/// A resize carries the camera quantities derived for the new resolution
/// from the record's own camera parameters.
#[derive(Clone, Copy, Debug)]
pub enum WindowSignal {
    CloseRequested,
    RedrawRequested,
    Resized { width: u32, height: u32, camera: CameraFrame },
    Other,
}

/// What the presentation layer is to do next.
#[derive(Clone, Copy, Debug, PartialEq, Eq, Structural)]
pub enum FrameAction {
    /// Leave the event loop.
    Exit,
    /// Copy the record into the uniform buffer, then dispatch the kernel,
    /// present the image and ask for the next redraw, in that order.
    UploadAndRender,
    /// Bring the resolution-dependent GPU resources (the presentation
    /// surface and the image the kernel writes) to this size before the
    /// next dispatch.
    Reconfigure { width: u32, height: u32 },
    /// Nothing to do.
    Ignore,
}

/// Applies one window signal to the scene record and says what the
/// presentation layer must do.
///
/// A redraw advances the frame counters and asks for an upload followed by
/// a dispatch; a resize rebuilds the record for the new resolution and asks
/// for the GPU resources to follow; a close request asks to exit. Only a
/// redraw or a resize changes the record.
pub fn handle_signal(world: &mut WorldData, signal: WindowSignal) -> (r: FrameAction)
    requires
        old(world).wf(),
        signal is RedrawRequested ==> old(world)@.frame < u32::MAX,
    ensures
        final(world).wf(),
        match signal {
            WindowSignal::CloseRequested => r == FrameAction::Exit && final(world)@ == old(world)@,
            WindowSignal::RedrawRequested => r == FrameAction::UploadAndRender && final(world)@
                == advanced_view(old(world)@),
            WindowSignal::Resized { width, height, camera } => r == (FrameAction::Reconfigure {
                width,
                height,
            }) && final(world)@ == resized_view(old(world)@, width, height, camera),
            WindowSignal::Other => r == FrameAction::Ignore && final(world)@ == old(world)@,
        },
{
    match signal {
        WindowSignal::CloseRequested => FrameAction::Exit,
        WindowSignal::RedrawRequested => {
            world.next_frame();
            FrameAction::UploadAndRender
        },
        WindowSignal::Resized { width, height, camera } => {
            world.update_size(width, height, camera);
            FrameAction::Reconfigure { width, height }
        },
        WindowSignal::Other => FrameAction::Ignore,
    }
}

/// The smallest number of tiles of `tile` pixels that covers `n` pixels.
pub open spec fn tiles_to_cover(n: int, tile: int) -> int {
    (n + tile - 1) / tile
}

/// Number of workgroups to dispatch along each axis so that the tiles cover
/// every pixel of a `width` by `height` image, in a single layer.
pub fn workgroup_counts(width: u32, height: u32) -> (r: (u32, u32, u32))
    ensures
        r.0 as int == tiles_to_cover(width as int, WORKGROUP_SIZE as int),
        r.1 as int == tiles_to_cover(height as int, WORKGROUP_SIZE as int),
        r.2 == 1,
{
    (tiles_for(width), tiles_for(height), 1)
}

fn tiles_for(n: u32) -> (r: u32)
    ensures
        r as int == tiles_to_cover(n as int, WORKGROUP_SIZE as int),
{
    let extra: u32 = if n % WORKGROUP_SIZE != 0 {
        1
    } else {
        0
    };
    n / WORKGROUP_SIZE + extra
}

} // verus!
