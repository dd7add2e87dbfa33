//! The render state: the unit of lifetime management. It owns the GPU
//! context handle, the three working surfaces (final composite target,
//! off-screen scratch, debug overlay), the image asset table, the render
//! options, the viewbox and the cached-frame record, and exposes the
//! mutation and render entry points.

use vstd::prelude::*;

use crate::cache::{CachedSurfaceImage, Snapshot};
use crate::images::{IdTable, ImageInfo};
use crate::math::{div_trunc, Rect, MILLI};
use crate::model::{
    cache_redraw_fin_ops, debug_composite_op, debug_scaled, fill_ops, fills_ops_from,
    render_all_dbg_ops, render_all_drw_ops, render_all_fin_ops, shape_drw_ops, shape_fin_op,
    shape_matrix, visit, visit_children,
};
use crate::ops::{CanvasOp, Matrix, SourceSurface};
use crate::options::{RenderOptions, DPR_MAX};
use crate::shapes::{forest_wf, BlendMode, Fill, Kind, Shape, ShapeTable, ROOT_ID};
use crate::surface::{GpuState, Surface};
use crate::view::{Viewbox, MAX_DIM};

verus! {

/// The error a render entry point can report.
#[derive(Clone, Copy, PartialEq, Eq, Structural, Debug)]
pub enum RenderError {
    /// A cached redraw was asked for with no cached frame available.
    UninitializedCache,
}

impl RenderError {
    /// The error text a host reports.
    pub fn message(&self) -> (m: &'static str)
        ensures
            m@ == "Uninitialized cached surface image"@,
    {
        match self {
            RenderError::UninitializedCache => "Uninitialized cached surface image",
        }
    }
}

/// A physical dimension: a logical dimension scaled by a device-pixel
/// ratio given in thousandths.
pub open spec fn scaled_dim(dim: i32, dpr: u32) -> i32 {
    ((dim * dpr) / (MILLI as int)) as i32
}

/// The aggregate owning the rendering pipeline for one GPU context.
#[derive(Debug)]
pub struct RenderState {
    pub gpu_state: GpuState,
    pub final_surface: Surface,
    pub drawing_surface: Surface,
    pub debug_surface: Surface,
    pub cached_surface_image: Option<CachedSurfaceImage>,
    pub options: RenderOptions,
    pub viewbox: Viewbox,
    pub images: IdTable<ImageInfo>,
    /// How many times the final surface was submitted to the GPU.
    pub flush_count: u64,
    /// Sequence number of the next raster snapshot to be captured.
    pub snapshot_seq: u64,
}

impl RenderState {
    /// The standing invariant: viewbox, options and image table well
    /// formed, the three surfaces of identical pixel dimensions, and any
    /// cached frame carrying a well-formed viewbox.
    pub open spec fn wf(self) -> bool {
        &&& self.viewbox.wf()
        &&& self.options.wf()
        &&& self.images.wf()
        &&& self.drawing_surface.width == self.final_surface.width
        &&& self.drawing_surface.height == self.final_surface.height
        &&& self.debug_surface.width == self.final_surface.width
        &&& self.debug_surface.height == self.final_surface.height
        &&& match self.cached_surface_image {
            Some(c) => c.viewbox.wf(),
            None => true,
        }
    }

    /// The three surfaces hold the same commands and dimensions in `b` as
    /// in `a`.
    pub open spec fn same_surfaces(a: RenderState, b: RenderState) -> bool {
        &&& b.final_surface.width == a.final_surface.width
        &&& b.final_surface.height == a.final_surface.height
        &&& b.final_surface.ops@ == a.final_surface.ops@
        &&& b.drawing_surface.width == a.drawing_surface.width
        &&& b.drawing_surface.height == a.drawing_surface.height
        &&& b.drawing_surface.ops@ == a.drawing_surface.ops@
        &&& b.debug_surface.width == a.debug_surface.width
        &&& b.debug_surface.height == a.debug_surface.height
        &&& b.debug_surface.ops@ == a.debug_surface.ops@
    }

    /// The three surfaces have the same dimensions in `b` as in `a`.
    pub open spec fn same_dims(a: RenderState, b: RenderState) -> bool {
        &&& b.final_surface.width == a.final_surface.width
        &&& b.final_surface.height == a.final_surface.height
        &&& b.drawing_surface.width == a.drawing_surface.width
        &&& b.drawing_surface.height == a.drawing_surface.height
        &&& b.debug_surface.width == a.debug_surface.width
        &&& b.debug_surface.height == a.debug_surface.height
    }

    /// Viewbox, options, image table, cached frame and counters agree
    /// between `a` and `b`.
    pub open spec fn same_config(a: RenderState, b: RenderState) -> bool {
        &&& b.viewbox == a.viewbox
        &&& b.options == a.options
        &&& b.images.wf() == a.images.wf()
        &&& b.images@ == a.images@
        &&& b.cached_surface_image == a.cached_surface_image
        &&& b.gpu_state == a.gpu_state
        &&& b.flush_count == a.flush_count
        &&& b.snapshot_seq == a.snapshot_seq
    }

    /// Allocates the GPU context handle, one target surface at the given
    /// physical size and two same-sized auxiliary surfaces; viewbox at
    /// default zoom and pan, empty image table, default options, no cached
    /// frame.
    pub fn new(width: i32, height: i32) -> (s: RenderState)
        requires
            0 <= width <= MAX_DIM,
            0 <= height <= MAX_DIM,
        ensures
            s.wf(),
            s.gpu_state.alloc_count == 1,
            s.final_surface.width == width,
            s.final_surface.height == height,
            s.final_surface.ops@ == Seq::<CanvasOp>::empty(),
            s.drawing_surface.width == width,
            s.drawing_surface.height == height,
            s.drawing_surface.ops@ == Seq::<CanvasOp>::empty(),
            s.debug_surface.width == width,
            s.debug_surface.height == height,
            s.debug_surface.ops@ == Seq::<CanvasOp>::empty(),
            s.cached_surface_image is None,
            s.options == (RenderOptions { debug_flags: 0, dpr: None }),
            s.viewbox.wf(),
            s.viewbox.width == width,
            s.viewbox.height == height,
            s.viewbox.zoom == MILLI,
            s.viewbox.pan_x == 0,
            s.viewbox.pan_y == 0,
            s.images@ == Map::<u128, ImageInfo>::empty(),
            s.flush_count == 0,
            s.snapshot_seq == 0,
    {
        let mut gpu_state = GpuState::new();
        let final_surface = gpu_state.create_target_surface(width, height);
        let drawing_surface = Surface::with_dimensions(width, height);
        let debug_surface = Surface::with_dimensions(width, height);
        RenderState {
            gpu_state,
            final_surface,
            drawing_surface,
            debug_surface,
            cached_surface_image: None,
            options: RenderOptions::default(),
            viewbox: Viewbox::new(width, height),
            images: IdTable::new(),
            flush_count: 0,
            snapshot_seq: 0,
        }
    }

    /// Stores a decoded image under `id`, overwriting any prior entry.
    /// The host decodes the encoded bytes and hands the result here; a
    /// failed decode never reaches the table.
    pub fn add_image(&mut self, id: u128, image: ImageInfo)
        requires
            old(self).wf(),
        ensures
            final(self).wf(),
            final(self).images@ == old(self).images@.insert(id, image),
            Self::same_surfaces(*old(self), *final(self)),
            final(self).viewbox == old(self).viewbox,
            final(self).options == old(self).options,
            final(self).cached_surface_image == old(self).cached_surface_image,
            final(self).gpu_state == old(self).gpu_state,
            final(self).flush_count == old(self).flush_count,
            final(self).snapshot_seq == old(self).snapshot_seq,
    {
        self.images.insert(id, image);
    }

    /// Pure lookup: whether an image asset is registered under `id`.
    pub fn has_image(&self, id: u128) -> (r: bool)
        ensures
            r == self.images@.dom().contains(id),
    {
        self.images.contains_key(id)
    }

    /// Replaces the debug bitmask; takes effect on the next render.
    pub fn set_debug_flags(&mut self, debug: u32)
        requires
            old(self).wf(),
        ensures
            final(self).wf(),
            final(self).options == (RenderOptions { debug_flags: debug, ..old(self).options }),
            Self::same_surfaces(*old(self), *final(self)),
            final(self).viewbox == old(self).viewbox,
            final(self).images@ == old(self).images@,
            final(self).cached_surface_image == old(self).cached_surface_image,
            final(self).gpu_state == old(self).gpu_state,
            final(self).flush_count == old(self).flush_count,
            final(self).snapshot_seq == old(self).snapshot_seq,
    {
        self.options.debug_flags = debug;
    }

    /// Reallocates all three surfaces at the physical size
    /// `(width, height)` scaled by the device-pixel ratio, and updates the
    /// viewbox's logical size.
    pub fn resize(&mut self, width: i32, height: i32)
        requires
            old(self).wf(),
            0 <= width <= MAX_DIM,
            0 <= height <= MAX_DIM,
            old(self).gpu_state.alloc_count < u64::MAX,
        ensures
            final(self).wf(),
            final(self).gpu_state.alloc_count == old(self).gpu_state.alloc_count + 1,
            final(self).final_surface.width == scaled_dim(width, old(self).options.spec_dpr()),
            final(self).final_surface.height == scaled_dim(height, old(self).options.spec_dpr()),
            final(self).final_surface.ops@ == Seq::<CanvasOp>::empty(),
            final(self).drawing_surface.width == scaled_dim(width, old(self).options.spec_dpr()),
            final(self).drawing_surface.height == scaled_dim(height, old(self).options.spec_dpr()),
            final(self).drawing_surface.ops@ == Seq::<CanvasOp>::empty(),
            final(self).debug_surface.width == scaled_dim(width, old(self).options.spec_dpr()),
            final(self).debug_surface.height == scaled_dim(height, old(self).options.spec_dpr()),
            final(self).debug_surface.ops@ == Seq::<CanvasOp>::empty(),
            final(self).viewbox == (Viewbox {
                width,
                height,
                area: crate::view::spec_view_area(
                    width,
                    height,
                    old(self).viewbox.zoom,
                    old(self).viewbox.pan_x,
                    old(self).viewbox.pan_y,
                ),
                ..old(self).viewbox
            }),
            final(self).options == old(self).options,
            final(self).images@ == old(self).images@,
            final(self).cached_surface_image == old(self).cached_surface_image,
            final(self).flush_count == old(self).flush_count,
            final(self).snapshot_seq == old(self).snapshot_seq,
    {
        let dpr = self.options.dpr();
        proof {
            assert(width * dpr <= 10_000_000_000 && height * dpr <= 10_000_000_000)
                by (nonlinear_arith)
                requires
                    0 <= width <= 100_000,
                    0 <= height <= 100_000,
                    1 <= dpr <= 100_000,
            ;
        }
        let pw: u64 = width as u64 * dpr as u64;
        let ph: u64 = height as u64 * dpr as u64;
        let dpr_width_w: u64 = pw / (MILLI as u64);
        let dpr_height_w: u64 = ph / (MILLI as u64);
        proof {
            assert(dpr_width_w * 1000 <= pw && dpr_height_w * 1000 <= ph) by (nonlinear_arith)
                requires
                    dpr_width_w == pw / 1000,
                    dpr_height_w == ph / 1000,
            ;
        }
        let dpr_width: i32 = dpr_width_w as i32;
        let dpr_height: i32 = dpr_height_w as i32;
        let surface = self.gpu_state.create_target_surface(dpr_width, dpr_height);
        self.final_surface = surface;
        self.drawing_surface = Surface::with_dimensions(dpr_width, dpr_height);
        self.debug_surface = Surface::with_dimensions(dpr_width, dpr_height);
        self.viewbox.set_wh(width, height);
    }

    /// Updates the device-pixel ratio (in thousandths) and reallocates the
    /// surfaces at the new physical size, preserving the logical viewbox.
    /// A call with the ratio already in effect changes nothing — in
    /// particular it allocates no surface.
    pub fn set_dpr(&mut self, dpr: u32)
        requires
            old(self).wf(),
            1 <= dpr <= DPR_MAX,
            old(self).gpu_state.alloc_count < u64::MAX,
        ensures
            final(self).wf(),
            old(self).options.dpr == Some(dpr) ==> *final(self) == *old(self),
            old(self).options.dpr != Some(dpr) ==> {
                &&& final(self).options == (RenderOptions { dpr: Some(dpr), ..old(self).options })
                &&& final(self).gpu_state.alloc_count == old(self).gpu_state.alloc_count + 1
                &&& final(self).final_surface.width == scaled_dim(old(self).viewbox.width, dpr)
                &&& final(self).final_surface.height == scaled_dim(old(self).viewbox.height, dpr)
                &&& final(self).final_surface.ops@ == Seq::<CanvasOp>::empty()
                &&& final(self).drawing_surface.width == scaled_dim(old(self).viewbox.width, dpr)
                &&& final(self).drawing_surface.height == scaled_dim(old(self).viewbox.height, dpr)
                &&& final(self).drawing_surface.ops@ == Seq::<CanvasOp>::empty()
                &&& final(self).debug_surface.width == scaled_dim(old(self).viewbox.width, dpr)
                &&& final(self).debug_surface.height == scaled_dim(old(self).viewbox.height, dpr)
                &&& final(self).debug_surface.ops@ == Seq::<CanvasOp>::empty()
                &&& final(self).viewbox == old(self).viewbox
                &&& final(self).images@ == old(self).images@
                &&& final(self).cached_surface_image == old(self).cached_surface_image
                &&& final(self).flush_count == old(self).flush_count
                &&& final(self).snapshot_seq == old(self).snapshot_seq
            },
    {
        let changed = match self.options.dpr {
            Some(d) => d != dpr,
            None => true,
        };
        if changed {
            self.options.dpr = Some(dpr);
            let width = self.viewbox.width;
            let height = self.viewbox.height;
            self.resize(width, height);
        }
    }

    /// Submits all pending draw commands on the final surface to the GPU.
    pub fn flush(&mut self)
        requires
            old(self).wf(),
            old(self).flush_count < u64::MAX,
        ensures
            final(self).wf(),
            final(self).flush_count == old(self).flush_count + 1,
            Self::same_surfaces(*old(self), *final(self)),
            final(self).viewbox == old(self).viewbox,
            final(self).options == old(self).options,
            final(self).images@ == old(self).images@,
            final(self).cached_surface_image == old(self).cached_surface_image,
            final(self).gpu_state == old(self).gpu_state,
            final(self).snapshot_seq == old(self).snapshot_seq,
    {
        self.flush_count = self.flush_count + 1;
    }

    /// Applies a translation to the drawing surface's canvas.
    pub fn translate(&mut self, dx: i64, dy: i64)
        requires
            old(self).wf(),
        ensures
            final(self).wf(),
            final(self).drawing_surface.ops@ == old(self).drawing_surface.ops@ + seq![
                CanvasOp::Translate { dx, dy },
            ],
            final(self).drawing_surface.width == old(self).drawing_surface.width,
            final(self).drawing_surface.height == old(self).drawing_surface.height,
            final(self).final_surface == old(self).final_surface,
            final(self).debug_surface == old(self).debug_surface,
            Self::same_config(*old(self), *final(self)),
    {
        self.drawing_surface.ops.push(CanvasOp::Translate { dx, dy });
    }

    /// Applies a scale (in thousandths) to the drawing surface's canvas.
    pub fn scale(&mut self, sx: i64, sy: i64)
        requires
            old(self).wf(),
        ensures
            final(self).wf(),
            final(self).drawing_surface.ops@ == old(self).drawing_surface.ops@ + seq![
                CanvasOp::Scale { sx, sy },
            ],
            final(self).drawing_surface.width == old(self).drawing_surface.width,
            final(self).drawing_surface.height == old(self).drawing_surface.height,
            final(self).final_surface == old(self).final_surface,
            final(self).debug_surface == old(self).debug_surface,
            Self::same_config(*old(self), *final(self)),
    {
        self.drawing_surface.ops.push(CanvasOp::Scale { sx, sy });
    }

    /// Erases all three surfaces and resets their canvas transforms.
    pub fn reset_canvas(&mut self)
        requires
            old(self).wf(),
        ensures
            final(self).wf(),
            final(self).drawing_surface.ops@ == old(self).drawing_surface.ops@ + seq![
                CanvasOp::Clear,
                CanvasOp::ResetMatrix,
            ],
            final(self).final_surface.ops@ == old(self).final_surface.ops@ + seq![
                CanvasOp::Clear,
                CanvasOp::ResetMatrix,
            ],
            final(self).debug_surface.ops@ == old(self).debug_surface.ops@ + seq![
                CanvasOp::Clear,
                CanvasOp::ResetMatrix,
            ],
            Self::same_dims(*old(self), *final(self)),
            Self::same_config(*old(self), *final(self)),
    {
        self.drawing_surface.ops.push(CanvasOp::Clear);
        self.drawing_surface.ops.push(CanvasOp::ResetMatrix);
        self.final_surface.ops.push(CanvasOp::Clear);
        self.final_surface.ops.push(CanvasOp::ResetMatrix);
        self.debug_surface.ops.push(CanvasOp::Clear);
        self.debug_surface.ops.push(CanvasOp::ResetMatrix);
    }

    /// Draws one paint layer of a shape onto the drawing surface. An image
    /// fill whose asset is missing from the table is skipped without error.
    fn render_fill(&mut self, fill: &Fill, selrect: Rect, kind: &Kind)
        requires
            old(self).wf(),
        ensures
            final(self).wf(),
            final(self).drawing_surface.ops@ == old(self).drawing_surface.ops@ + fill_ops(
                *fill,
                selrect,
                *kind,
                old(self).images@,
            ),
            final(self).final_surface == old(self).final_surface,
            final(self).debug_surface == old(self).debug_surface,
            final(self).drawing_surface.width == old(self).drawing_surface.width,
            final(self).drawing_surface.height == old(self).drawing_surface.height,
            Self::same_config(*old(self), *final(self)),
    {
        match fill {
            Fill::Image(image_fill) => {
                let present = self.images.get(image_fill.id).is_some();
                if present {
                    self.drawing_surface.ops.push(
                        CanvasOp::DrawImageFill {
                            asset: image_fill.id,
                            fill_width: image_fill.width,
                            fill_height: image_fill.height,
                            rect: selrect,
                            kind: *kind,
                        },
                    );
                }
            },
            Fill::Solid(color) => {
                match kind {
                    Kind::Rect(rect) => {
                        self.drawing_surface.ops.push(
                            CanvasOp::DrawRect { rect: *rect, color: *color },
                        );
                    },
                    Kind::Path(path) => {
                        self.drawing_surface.ops.push(
                            CanvasOp::DrawPath { geometry: path.geometry, color: *color },
                        );
                    },
                }
            },
        }
    }

    /// Renders one shape's own geometry: composes its affine transform
    /// pivoted at the center of its bounding rectangle, draws its fills
    /// back-to-front onto the scratch drawing surface, composites the
    /// scratch surface onto the final surface through the shape's opacity
    /// and blend mode, and clears the scratch surface.
    pub fn render_single_shape(&mut self, shape: &Shape)
        requires
            old(self).wf(),
            shape.wf(),
        ensures
            final(self).wf(),
            final(self).drawing_surface.ops@ == old(self).drawing_surface.ops@ + shape_drw_ops(
                *shape,
                old(self).images@,
            ),
            final(self).final_surface.ops@ == old(self).final_surface.ops@ + seq![
                shape_fin_op(*shape),
            ],
            final(self).debug_surface == old(self).debug_surface,
            Self::same_dims(*old(self), *final(self)),
            Self::same_config(*old(self), *final(self)),
    {
        let (cx, cy) = shape.selrect.center();
        proof {
            assert(-1_000_000_000_000_000 <= shape.scale_x * cx <= 1_000_000_000_000_000
                && -1_000_000_000_000_000 <= shape.skew_x * cy <= 1_000_000_000_000_000
                && -1_000_000_000_000_000 <= shape.skew_y * cx <= 1_000_000_000_000_000
                && -1_000_000_000_000_000 <= shape.scale_y * cy <= 1_000_000_000_000_000)
                by (nonlinear_arith)
                requires
                    -1_000_000 <= shape.scale_x <= 1_000_000,
                    -1_000_000 <= shape.skew_x <= 1_000_000,
                    -1_000_000 <= shape.skew_y <= 1_000_000,
                    -1_000_000 <= shape.scale_y <= 1_000_000,
                    -1_000_000_000 <= cx <= 1_000_000_000,
                    -1_000_000_000 <= cy <= 1_000_000_000,
            ;
        }
        let sum_x: i64 = shape.scale_x * cx + shape.skew_x * cy;
        let sum_y: i64 = shape.skew_y * cx + shape.scale_y * cy;
        let off_x: i64 = div_trunc(sum_x, MILLI as u64);
        let off_y: i64 = div_trunc(sum_y, MILLI as u64);
        let m = Matrix {
            a: shape.scale_x,
            b: shape.skew_x,
            c: shape.translate_x + cx - off_x,
            d: shape.skew_y,
            e: shape.scale_y,
            f: shape.translate_y + cy - off_y,
        };
        proof {
            assert(m == shape_matrix(*shape));
        }
        self.drawing_surface.ops.push(CanvasOp::Concat { m });
        let ghost drw_base = self.drawing_surface.ops@;
        let ghost imgs0 = self.images@;
        let mut i: usize = shape.fills.len();
        while i > 0
            invariant
                old(self).wf(),
                shape.wf(),
                self.wf(),
                0 <= i <= shape.fills@.len(),
                self.drawing_surface.ops@ == drw_base + fills_ops_from(
                    shape.fills@,
                    shape.selrect,
                    shape.kind,
                    imgs0,
                    i as int,
                ),
                imgs0 == old(self).images@,
                self.final_surface == old(self).final_surface,
                self.debug_surface == old(self).debug_surface,
                self.drawing_surface.width == old(self).drawing_surface.width,
                self.drawing_surface.height == old(self).drawing_surface.height,
                Self::same_config(*old(self), *self),
            decreases i,
        {
            i = i - 1;
            let fill = shape.fills[i];
            self.render_fill(&fill, shape.selrect, &shape.kind);
        }
        self.final_surface.ops.push(
            CanvasOp::DrawSurface {
                source: SourceSurface::Drawing,
                opacity: shape.opacity,
                blend: shape.blend_mode,
            },
        );
        self.drawing_surface.ops.push(CanvasOp::Clear);
        proof {
            assert(final(self).drawing_surface.ops@ =~= old(self).drawing_surface.ops@
                + shape_drw_ops(*shape, old(self).images@));
        }
    }

    /// Outlines a shape's bounds on the debug overlay, marked included
    /// (intersecting the visible area) or excluded (culled).
    fn render_debug_shape(&mut self, shape: &Shape, intersected: bool)
        requires
            old(self).wf(),
            shape.selrect.bounded(),
        ensures
            final(self).wf(),
            final(self).debug_surface.ops@ == old(self).debug_surface.ops@ + seq![
                CanvasOp::DebugShapeRect {
                    rect: debug_scaled(shape.selrect),
                    included: intersected,
                },
            ],
            final(self).debug_surface.width == old(self).debug_surface.width,
            final(self).debug_surface.height == old(self).debug_surface.height,
            final(self).final_surface == old(self).final_surface,
            final(self).drawing_surface == old(self).drawing_surface,
            Self::same_config(*old(self), *final(self)),
    {
        let r = shape.selrect;
        let x: i64 = 100 + div_trunc(r.x1, 5);
        let y: i64 = 100 + div_trunc(r.y1, 5);
        let w: i64 = div_trunc(r.x2 - r.x1, 5);
        let h: i64 = div_trunc(r.y2 - r.y1, 5);
        let scaled = Rect { x1: x, y1: y, x2: x + w, y2: y + h };
        self.debug_surface.ops.push(
            CanvasOp::DebugShapeRect { rect: scaled, included: intersected },
        );
    }

    /// Outlines the scaled viewbox on the debug overlay.
    fn render_debug_view(&mut self)
        requires
            old(self).wf(),
        ensures
            final(self).wf(),
            final(self).debug_surface.ops@ == old(self).debug_surface.ops@ + seq![
                CanvasOp::DebugViewRect { rect: debug_scaled(old(self).viewbox.area) },
            ],
            final(self).debug_surface.width == old(self).debug_surface.width,
            final(self).debug_surface.height == old(self).debug_surface.height,
            final(self).final_surface == old(self).final_surface,
            final(self).drawing_surface == old(self).drawing_surface,
            Self::same_config(*old(self), *final(self)),
    {
        proof {
            let w = self.viewbox.width as int;
            let h = self.viewbox.height as int;
            let z = self.viewbox.zoom as int;
            assert(0 <= (w * 1000) / z <= w * 1000 && 0 <= (h * 1000) / z <= h * 1000)
                by (nonlinear_arith)
                requires
                    0 <= w,
                    0 <= h,
                    1 <= z,
            ;
        }
        let r = self.viewbox.area;
        let x: i64 = 100 + div_trunc(r.x1, 5);
        let y: i64 = 100 + div_trunc(r.y1, 5);
        let w: i64 = div_trunc(r.x2 - r.x1, 5);
        let h: i64 = div_trunc(r.y2 - r.y1, 5);
        let scaled = Rect { x1: x, y1: y, x2: x + w, y2: y + h };
        self.debug_surface.ops.push(CanvasOp::DebugViewRect { rect: scaled });
    }

    /// Draws the debug overlay decorations and composites the debug
    /// surface onto the final surface.
    fn render_debug(&mut self)
        requires
            old(self).wf(),
        ensures
            final(self).wf(),
            final(self).debug_surface.ops@ == old(self).debug_surface.ops@ + seq![
                CanvasOp::DebugViewRect { rect: debug_scaled(old(self).viewbox.area) },
            ],
            final(self).final_surface.ops@ == old(self).final_surface.ops@ + seq![
                debug_composite_op(),
            ],
            final(self).drawing_surface == old(self).drawing_surface,
            Self::same_dims(*old(self), *final(self)),
            Self::same_config(*old(self), *final(self)),
    {
        self.render_debug_view();
        self.final_surface.ops.push(
            CanvasOp::DrawSurface {
                source: SourceSurface::Debug,
                opacity: MILLI,
                blend: BlendMode::Normal,
            },
        );
    }

    /// The recursive depth-first walk over the shape forest rooted at `id`.
    ///
    /// A hidden or non-intersecting non-root shape is culled: marked
    /// "excluded" on the debug overlay and skipped together with its whole
    /// subtree. Every other shape is marked "included", rendered (unless it
    /// is the root), and its children visited in order inside a transform
    /// save/restore pair on both the final and drawing surfaces. Returns
    /// whether this shape and every visited descendant was fully contained
    /// in the visible area.
    pub fn render_shape_tree(&mut self, id: u128, shapes: &ShapeTable) -> (is_complete: bool)
        requires
            old(self).wf(),
            shapes.wf(),
            forest_wf(shapes@),
            shapes@.dom().contains(id),
        ensures
            final(self).wf(),
            ({
                let v = visit(shapes@, old(self).images@, old(self).viewbox.area, id);
                &&& final(self).final_surface.ops@ == old(self).final_surface.ops@ + v.fin
                &&& final(self).drawing_surface.ops@ == old(self).drawing_surface.ops@ + v.drw
                &&& final(self).debug_surface.ops@ == old(self).debug_surface.ops@ + v.dbg
                &&& is_complete == v.complete
            }),
            Self::same_dims(*old(self), *final(self)),
            Self::same_config(*old(self), *final(self)),
        decreases u128::MAX - id,
    {
        let shape = shapes.get_present(id);
        proof {
            assert(shapes@.dom().contains(id));
            assert(shapes@[id].wf());
        }
        let is_contained = self.viewbox.area.contains(&shape.selrect);
        let mut is_complete = is_contained;
        if id != ROOT_ID {
            if !shape.selrect.intersects(&self.viewbox.area) || shape.hidden {
                self.render_debug_shape(shape, false);
                return is_complete;
            } else {
                self.render_debug_shape(shape, true);
            }
        }
        self.final_surface.ops.push(CanvasOp::Save);
        self.drawing_surface.ops.push(CanvasOp::Save);
        if id != ROOT_ID {
            self.render_single_shape(shape);
        }
        let ghost fin_base = self.final_surface.ops@;
        let ghost drw_base = self.drawing_surface.ops@;
        let ghost dbg_base = self.debug_surface.ops@;
        let ghost imgs0 = old(self).images@;
        let ghost area0 = old(self).viewbox.area;
        let n: usize = shape.children.len();
        let mut k: usize = 0;
        while k < n
            invariant
                self.wf(),
                shapes.wf(),
                forest_wf(shapes@),
                shapes@.dom().contains(id),
                *shape == shapes@[id],
                n == shape.children@.len(),
                0 <= k <= n,
                imgs0 == old(self).images@,
                area0 == old(self).viewbox.area,
                ({
                    let ch = visit_children(shapes@, imgs0, area0, id, shape.children@, k as int);
                    &&& self.final_surface.ops@ == fin_base + ch.fin
                    &&& self.drawing_surface.ops@ == drw_base + ch.drw
                    &&& self.debug_surface.ops@ == dbg_base + ch.dbg
                    &&& is_complete == (area0.spec_contains(shapes@[id].selrect) && ch.complete)
                }),
                Self::same_dims(*old(self), *self),
                Self::same_config(*old(self), *self),
            decreases n - k,
        {
            let child_id = shape.children[k];
            proof {
                assert(shapes@[id].children@[k as int] == child_id);
                assert(shapes@.dom().contains(child_id) && child_id > id);
            }
            let child_complete = self.render_shape_tree(child_id, shapes);
            is_complete = child_complete && is_complete;
            k = k + 1;
        }
        self.final_surface.ops.push(CanvasOp::Restore);
        self.drawing_surface.ops.push(CanvasOp::Restore);
        proof {
            let v = visit(shapes@, imgs0, area0, id);
            assert(self.final_surface.ops@ =~= old(self).final_surface.ops@ + v.fin);
            assert(self.drawing_surface.ops@ =~= old(self).drawing_surface.ops@ + v.drw);
            assert(self.debug_surface.ops@ =~= old(self).debug_surface.ops@ + v.dbg);
        }
        is_complete
    }

    /// The full render pipeline: clears and resets all surfaces, applies
    /// the composite zoom-and-ratio scale and the pan translation to the
    /// drawing surface, walks the shape forest from the root, replaces the
    /// cached-frame record when asked to (or when none exists yet) —
    /// tagging it complete iff no shape was culled — composites the debug
    /// overlay when it is visible, and flushes the final surface.
    pub fn render_all(&mut self, shapes: &ShapeTable, generate_cached_surface_image: bool)
        requires
            old(self).wf(),
            shapes.wf(),
            forest_wf(shapes@),
            shapes@.dom().contains(ROOT_ID),
            old(self).flush_count < u64::MAX,
            old(self).snapshot_seq < u64::MAX,
        ensures
            final(self).wf(),
            final(self).final_surface.ops@ == old(self).final_surface.ops@ + render_all_fin_ops(
                old(self).viewbox,
                old(self).options,
                shapes@,
                old(self).images@,
            ),
            final(self).drawing_surface.ops@ == old(self).drawing_surface.ops@
                + render_all_drw_ops(
                old(self).viewbox,
                old(self).options,
                shapes@,
                old(self).images@,
            ),
            final(self).debug_surface.ops@ == old(self).debug_surface.ops@ + render_all_dbg_ops(
                old(self).viewbox,
                old(self).options,
                shapes@,
                old(self).images@,
            ),
            final(self).cached_surface_image == (
            if generate_cached_surface_image || old(self).cached_surface_image is None {
                Some(
                    CachedSurfaceImage {
                        image: Snapshot {
                            id: old(self).snapshot_seq,
                            width: old(self).final_surface.width,
                            height: old(self).final_surface.height,
                        },
                        viewbox: old(self).viewbox,
                        has_all_shapes: visit(
                            shapes@,
                            old(self).images@,
                            old(self).viewbox.area,
                            ROOT_ID,
                        ).complete,
                    },
                )
            } else {
                old(self).cached_surface_image
            }),
            final(self).snapshot_seq == (
            if generate_cached_surface_image || old(self).cached_surface_image is None {
                old(self).snapshot_seq + 1
            } else {
                old(self).snapshot_seq as int
            }),
            final(self).flush_count == old(self).flush_count + 1,
            final(self).viewbox == old(self).viewbox,
            final(self).options == old(self).options,
            final(self).images@ == old(self).images@,
            final(self).gpu_state == old(self).gpu_state,
            Self::same_dims(*old(self), *final(self)),
    {
        self.reset_canvas();
        let dpr = self.options.dpr();
        let zoom = self.viewbox.zoom;
        proof {
            assert(zoom * dpr <= 1_000_000_000_000) by (nonlinear_arith)
                requires
                    0 <= zoom <= 10_000_000,
                    0 <= dpr <= 100_000,
            ;
        }
        let comp_w: u64 = (zoom as u64 * dpr as u64) / (MILLI as u64);
        proof {
            assert(comp_w * 1000 <= zoom * dpr) by (nonlinear_arith)
                requires
                    comp_w == (zoom * dpr) / 1000,
            ;
        }
        let comp: i64 = comp_w as i64;
        self.scale(comp, comp);
        let pan_x = self.viewbox.pan_x;
        let pan_y = self.viewbox.pan_y;
        self.translate(pan_x, pan_y);
        let is_complete = self.render_shape_tree(ROOT_ID, shapes);
        if generate_cached_surface_image || self.cached_surface_image.is_none() {
            let snap = Snapshot {
                id: self.snapshot_seq,
                width: self.final_surface.width,
                height: self.final_surface.height,
            };
            self.snapshot_seq = self.snapshot_seq + 1;
            self.cached_surface_image = Some(
                CachedSurfaceImage {
                    image: snap,
                    viewbox: self.viewbox,
                    has_all_shapes: is_complete,
                },
            );
        }
        if self.options.is_debug_visible() {
            self.render_debug();
        }
        self.flush();
        proof {
            assert(self.final_surface.ops@ =~= old(self).final_surface.ops@ + render_all_fin_ops(
                old(self).viewbox,
                old(self).options,
                shapes@,
                old(self).images@,
            ));
            assert(self.drawing_surface.ops@ =~= old(self).drawing_surface.ops@
                + render_all_drw_ops(
                old(self).viewbox,
                old(self).options,
                shapes@,
                old(self).images@,
            ));
            assert(self.debug_surface.ops@ =~= old(self).debug_surface.ops@ + render_all_dbg_ops(
                old(self).viewbox,
                old(self).options,
                shapes@,
                old(self).images@,
            ));
        }
    }

    /// The fast-path redraw: repositions the cached raster snapshot under
    /// the current viewbox — one image blit instead of a tree walk — and
    /// flushes. Reports an error iff no cached frame exists.
    fn render_all_from_cache(&mut self) -> (r: Result<(), RenderError>)
        requires
            old(self).wf(),
            old(self).flush_count < u64::MAX,
        ensures
            final(self).wf(),
            match old(self).cached_surface_image {
                Some(c) => {
                    &&& r is Ok
                    &&& final(self).final_surface.ops@ == old(self).final_surface.ops@
                        + cache_redraw_fin_ops(old(self).viewbox, old(self).options, c)
                    &&& final(self).drawing_surface.ops@ == old(self).drawing_surface.ops@ + seq![
                        CanvasOp::Clear,
                        CanvasOp::ResetMatrix,
                        CanvasOp::Save,
                        CanvasOp::Restore,
                    ]
                    &&& final(self).debug_surface.ops@ == old(self).debug_surface.ops@ + seq![
                        CanvasOp::Clear,
                        CanvasOp::ResetMatrix,
                    ]
                    &&& final(self).flush_count == old(self).flush_count + 1
                },
                None => {
                    &&& r == Err::<(), RenderError>(RenderError::UninitializedCache)
                    &&& final(self).final_surface.ops@ == old(self).final_surface.ops@ + seq![
                        CanvasOp::Clear,
                        CanvasOp::ResetMatrix,
                    ]
                    &&& final(self).drawing_surface.ops@ == old(self).drawing_surface.ops@ + seq![
                        CanvasOp::Clear,
                        CanvasOp::ResetMatrix,
                    ]
                    &&& final(self).debug_surface.ops@ == old(self).debug_surface.ops@ + seq![
                        CanvasOp::Clear,
                        CanvasOp::ResetMatrix,
                    ]
                    &&& final(self).flush_count == old(self).flush_count
                },
            },
            final(self).viewbox == old(self).viewbox,
            final(self).options == old(self).options,
            final(self).images@ == old(self).images@,
            final(self).cached_surface_image == old(self).cached_surface_image,
            final(self).gpu_state == old(self).gpu_state,
            final(self).snapshot_seq == old(self).snapshot_seq,
            Self::same_dims(*old(self), *final(self)),
    {
        self.reset_canvas();
        let cached = match self.cached_surface_image {
            Some(c) => c,
            None => {
                return Err(RenderError::UninitializedCache);
            },
        };
        self.final_surface.ops.push(CanvasOp::Save);
        self.drawing_surface.ops.push(CanvasOp::Save);
        let zoom = self.viewbox.zoom;
        let czoom = cached.viewbox.zoom;
        proof {
            assert(zoom * 1000 <= 10_000_000_000) by (nonlinear_arith)
                requires
                    0 <= zoom <= 10_000_000,
            ;
        }
        let nz_w: u64 = (zoom as u64 * MILLI as u64) / (czoom as u64);
        proof {
            assert(nz_w * czoom <= zoom * 1000) by (nonlinear_arith)
                requires
                    nz_w == (zoom * 1000) / (czoom as int),
                    czoom >= 1,
            ;
        }
        let navigate_zoom: i64 = nz_w as i64;
        let dx_diff: i64 = self.viewbox.pan_x - cached.viewbox.pan_x;
        let dy_diff: i64 = self.viewbox.pan_y - cached.viewbox.pan_y;
        proof {
            assert(-20_000_000_000_000_000 <= czoom * dx_diff <= 20_000_000_000_000_000
                && -20_000_000_000_000_000 <= czoom * dy_diff <= 20_000_000_000_000_000)
                by (nonlinear_arith)
                requires
                    1 <= czoom <= 10_000_000,
                    -2_000_000_000 <= dx_diff <= 2_000_000_000,
                    -2_000_000_000 <= dy_diff <= 2_000_000_000,
            ;
        }
        let nx: i64 = div_trunc(czoom as i64 * dx_diff, MILLI as u64);
        let ny: i64 = div_trunc(czoom as i64 * dy_diff, MILLI as u64);
        let dpr = self.options.dpr();
        proof {
            crate::math::lemma_tdiv_bound(
                czoom as int * dx_diff as int,
                1000,
                20_000_000_000_000_000,
            );
            crate::math::lemma_tdiv_bound(
                czoom as int * dy_diff as int,
                1000,
                20_000_000_000_000_000,
            );
            assert(-2_000_000_000_000_000_000 <= nx * dpr <= 2_000_000_000_000_000_000
                && -2_000_000_000_000_000_000 <= ny * dpr <= 2_000_000_000_000_000_000)
                by (nonlinear_arith)
                requires
                    -20_000_000_000_000 <= nx <= 20_000_000_000_000,
                    -20_000_000_000_000 <= ny <= 20_000_000_000_000,
                    1 <= dpr <= 100_000,
            ;
        }
        let nav_x: i64 = div_trunc(nx * dpr as i64, MILLI as u64);
        let nav_y: i64 = div_trunc(ny * dpr as i64, MILLI as u64);
        self.final_surface.ops.push(CanvasOp::Scale { sx: navigate_zoom, sy: navigate_zoom });
        self.final_surface.ops.push(CanvasOp::Translate { dx: nav_x, dy: nav_y });
        self.final_surface.ops.push(CanvasOp::DrawSnapshot { snapshot: cached.image.id });
        self.final_surface.ops.push(CanvasOp::Restore);
        self.drawing_surface.ops.push(CanvasOp::Restore);
        self.flush();
        proof {
            assert(self.final_surface.ops@ =~= old(self).final_surface.ops@
                + cache_redraw_fin_ops(old(self).viewbox, old(self).options, cached));
            assert(self.drawing_surface.ops@ =~= old(self).drawing_surface.ops@ + seq![
                CanvasOp::Clear,
                CanvasOp::ResetMatrix,
                CanvasOp::Save,
                CanvasOp::Restore,
            ]);
        }
        Ok(())
    }

    /// The viewport-change entry point. With no cached frame this is a
    /// no-op (the host is expected to have rendered fully first). With a
    /// dirty cached frame (incomplete, and the new visible area not inside
    /// the cached one) it falls through to a full render that regenerates
    /// the cache. Otherwise it takes the fast path and redraws from the
    /// cached snapshot without walking the tree. Never reports an error:
    /// the fast path is only taken when a cached frame exists.
    pub fn navigate(&mut self, shapes: &ShapeTable) -> (r: Result<(), RenderError>)
        requires
            old(self).wf(),
            shapes.wf(),
            forest_wf(shapes@),
            shapes@.dom().contains(ROOT_ID),
            old(self).flush_count < u64::MAX,
            old(self).snapshot_seq < u64::MAX,
        ensures
            final(self).wf(),
            r is Ok,
            match old(self).cached_surface_image {
                None => *final(self) == *old(self),
                Some(c) => if c.spec_is_dirty(old(self).viewbox) {
                    &&& final(self).final_surface.ops@ == old(self).final_surface.ops@
                        + render_all_fin_ops(
                        old(self).viewbox,
                        old(self).options,
                        shapes@,
                        old(self).images@,
                    )
                    &&& final(self).drawing_surface.ops@ == old(self).drawing_surface.ops@
                        + render_all_drw_ops(
                        old(self).viewbox,
                        old(self).options,
                        shapes@,
                        old(self).images@,
                    )
                    &&& final(self).debug_surface.ops@ == old(self).debug_surface.ops@
                        + render_all_dbg_ops(
                        old(self).viewbox,
                        old(self).options,
                        shapes@,
                        old(self).images@,
                    )
                    &&& final(self).cached_surface_image == Some(
                        CachedSurfaceImage {
                            image: Snapshot {
                                id: old(self).snapshot_seq,
                                width: old(self).final_surface.width,
                                height: old(self).final_surface.height,
                            },
                            viewbox: old(self).viewbox,
                            has_all_shapes: visit(
                                shapes@,
                                old(self).images@,
                                old(self).viewbox.area,
                                ROOT_ID,
                            ).complete,
                        },
                    )
                    &&& final(self).snapshot_seq == old(self).snapshot_seq + 1
                    &&& final(self).flush_count == old(self).flush_count + 1
                } else {
                    &&& final(self).final_surface.ops@ == old(self).final_surface.ops@
                        + cache_redraw_fin_ops(old(self).viewbox, old(self).options, c)
                    &&& final(self).drawing_surface.ops@ == old(self).drawing_surface.ops@ + seq![
                        CanvasOp::Clear,
                        CanvasOp::ResetMatrix,
                        CanvasOp::Save,
                        CanvasOp::Restore,
                    ]
                    &&& final(self).debug_surface.ops@ == old(self).debug_surface.ops@ + seq![
                        CanvasOp::Clear,
                        CanvasOp::ResetMatrix,
                    ]
                    &&& final(self).cached_surface_image == old(self).cached_surface_image
                    &&& final(self).snapshot_seq == old(self).snapshot_seq
                    &&& final(self).flush_count == old(self).flush_count + 1
                },
            },
            final(self).viewbox == old(self).viewbox,
            final(self).options == old(self).options,
            final(self).images@ == old(self).images@,
            final(self).gpu_state == old(self).gpu_state,
            Self::same_dims(*old(self), *final(self)),
    {
        let cached = self.cached_surface_image;
        match cached {
            None => Ok(()),
            Some(c) => {
                if c.is_dirty(&self.viewbox) {
                    self.render_all(shapes, true);
                    Ok(())
                } else {
                    self.render_all_from_cache()
                }
            },
        }
    }
}

} // verus!
