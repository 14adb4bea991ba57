//! Keeping a canvas' drawing buffer and viewport in step with its displayed size.

use vstd::prelude::*;

verus! {

/// A width and a height in pixels.
#[derive(Clone, Copy, Debug, PartialEq, Eq, Structural)]
pub struct Extent {
    pub width: u32,
    pub height: u32,
}

/// What a caller must do so that the canvas renders at its displayed size.
#[derive(Clone, Copy, Debug, PartialEq, Eq)]
pub struct ResizePlan {
    /// The drawing-buffer size to set, or `None` where it already matches.
    pub new_size: Option<Extent>,
    /// Width of the viewport rectangle, whose origin is the corner (0, 0).
    pub viewport_width: i32,
    /// Height of the viewport rectangle.
    pub viewport_height: i32,
}

/// Why no plan can be made.
#[derive(Clone, Copy, Debug, PartialEq, Eq, Structural)]
pub enum ResizeError {
    /// The displayed width that was read is below zero.
    NegativeDisplayWidth,
    /// The displayed height that was read is below zero.
    NegativeDisplayHeight,
}

/// Whether a drawing buffer of size `canvas` already has the displayed size.
pub open spec fn matches_display(display_width: int, display_height: int, canvas: Extent) -> bool {
    canvas.width == display_width && canvas.height == display_height
}

/// The plan for a canvas whose displayed size is `display_width` by
/// `display_height` and whose drawing buffer is `canvas`: the buffer takes the
/// displayed size where either side differs, and the viewport covers it.
pub open spec fn resize_plan(display_width: i32, display_height: i32, canvas: Extent) -> Result<ResizePlan, ResizeError> {
    if display_width < 0 {
        Err(ResizeError::NegativeDisplayWidth)
    } else if display_height < 0 {
        Err(ResizeError::NegativeDisplayHeight)
    } else {
        Ok(ResizePlan {
            new_size: if matches_display(display_width as int, display_height as int, canvas) {
                None
            } else {
                Some(Extent { width: display_width as u32, height: display_height as u32 })
            },
            viewport_width: display_width,
            viewport_height: display_height,
        })
    }
}

/// The drawing-buffer size once `plan` has been carried out on `canvas`.
pub open spec fn size_after(canvas: Extent, plan: ResizePlan) -> Extent {
    match plan.new_size {
        Some(e) => e,
        None => canvas,
    }
}

/// Plans a resize from the displayed size read from the page (`client_width`,
/// `client_height`) and the canvas' current drawing-buffer size.
pub fn plan_resize(client_width: i32, client_height: i32, canvas: Extent) -> (r: Result<ResizePlan, ResizeError>)
    ensures
        r == resize_plan(client_width, client_height, canvas),
        r is Ok <==> client_width >= 0 && client_height >= 0,
        r matches Ok(p) ==> size_after(canvas, p) == (Extent { width: client_width as u32, height: client_height as u32 }),
{
    if client_width < 0 {
        return Err(ResizeError::NegativeDisplayWidth);
    }
    if client_height < 0 {
        return Err(ResizeError::NegativeDisplayHeight);
    }
    let display = Extent { width: client_width as u32, height: client_height as u32 };
    let new_size = if canvas.width != display.width || canvas.height != display.height {
        Some(display)
    } else {
        None
    };
    let size = match new_size {
        Some(e) => e,
        None => canvas,
    };
    // The drawing buffer now has the displayed size, which came from an `i32`,
    // so both sides fit the viewport's signed coordinates.
    let viewport_width = size.width as i32;
    let viewport_height = size.height as i32;
    Ok(ResizePlan { new_size, viewport_width, viewport_height })
}

/// Once a plan has been carried out, planning again for the same displayed
/// size changes nothing: the buffer is left alone and the viewport is the same.
pub proof fn lemma_resize_settles(display_width: i32, display_height: i32, canvas: Extent)
    requires
        resize_plan(display_width, display_height, canvas) is Ok,
    ensures
        ({
            let first = resize_plan(display_width, display_height, canvas)->Ok_0;
            let again = resize_plan(display_width, display_height, size_after(canvas, first));
            &&& again is Ok
            &&& again->Ok_0.new_size is None
            &&& again->Ok_0.viewport_width == first.viewport_width
            &&& again->Ok_0.viewport_height == first.viewport_height
        }),
{
}

} // verus!
