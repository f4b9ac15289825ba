//! What the driver asks of the surface to present a frame.

use crate::buffer::BufferLayout;
use vstd::prelude::*;

verus! {

/// One request to the surface that shows the frames.
#[derive(Clone, Copy, Debug, PartialEq, Eq, Structural)]
#[allow(inconsistent_fields)]
pub enum SurfaceRequest {
    /// Attach the frame's buffer.
    Attach,
    /// Mark a region of the buffer as changed, in buffer coordinates.
    DamageBuffer { x: i32, y: i32, width: i32, height: i32 },
    /// Report the surface's size.
    SetSize { width: u32, height: u32 },
    /// Ask to be told when the next frame may be drawn.
    Frame,
    /// Make the requests before this one take effect.
    Commit,
}

/// The requests that present a frame of `width` by `height` pixels, in the
/// order in which they are made: attach the buffer, damage all of it, report
/// its size, ask for the next frame callback, commit.
pub open spec fn commit_plan(width: u32, height: u32) -> Seq<SurfaceRequest> {
    seq![
        SurfaceRequest::Attach,
        SurfaceRequest::DamageBuffer { x: 0, y: 0, width: width as i32, height: height as i32 },
        SurfaceRequest::SetSize { width, height },
        SurfaceRequest::Frame,
        SurfaceRequest::Commit,
    ]
}

/// The requests that present a frame of the given layout: [`commit_plan`]
/// for its width and height.
pub fn commit_sequence(layout: &BufferLayout) -> (requests: Vec<SurfaceRequest>)
    ensures
        requests@ == commit_plan(layout.columns(), layout.rows()),
{
    let width = layout.width();
    let height = layout.height();
    let mut requests: Vec<SurfaceRequest> = Vec::new();
    requests.push(SurfaceRequest::Attach);
    requests.push(SurfaceRequest::DamageBuffer { x: 0, y: 0, width, height });
    requests.push(SurfaceRequest::SetSize { width: width as u32, height: height as u32 });
    requests.push(SurfaceRequest::Frame);
    requests.push(SurfaceRequest::Commit);
    assert(requests@ =~= commit_plan(layout.columns(), layout.rows()));
    requests
}

/// A frame is presented by five requests: the buffer is attached first, the
/// commit comes last, and the damage and the reported size are those of the
/// whole buffer.
pub proof fn lemma_commit_plan_shape(width: u32, height: u32)
    ensures
        commit_plan(width, height).len() == 5,
        commit_plan(width, height).first() == SurfaceRequest::Attach,
        commit_plan(width, height).last() == SurfaceRequest::Commit,
        commit_plan(width, height)[1] == (SurfaceRequest::DamageBuffer {
            x: 0,
            y: 0,
            width: width as i32,
            height: height as i32,
        }),
        commit_plan(width, height)[2] == (SurfaceRequest::SetSize { width, height }),
        commit_plan(width, height)[3] == SurfaceRequest::Frame,
{
}

} // verus!
