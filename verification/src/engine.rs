//! Lifecycle of one native engine instance.
//!
//! The host drives an instance through three states: uninitialized, live,
//! released. `create` validates everything the host supplied, converts the
//! geometry, builds the pinpad grid, decodes the colors, takes sole
//! ownership of the one-shot buffer bundle and returns the live instance;
//! `advance` moves it forward by one logical frame; `release` consumes it
//! and reclaims everything it owns. The host must serialize all calls on one
//! instance and must not touch it after release — ownership makes both
//! impossible to get wrong for holders of the value itself; a host that
//! keeps only an integer handle (as the foreign-function layer does) carries
//! that duty itself.

use crate::color::ColorError;
use crate::color::RgbaColor;
use crate::color::color_err_cond;
use crate::color::decode_hex_color;
use crate::color::decoded_hex_color;
use crate::color::valid_hex_color;
use crate::geometry::NdcRect;
use crate::geometry::RectArrayError;
use crate::geometry::rect_array_err_cond;
use crate::geometry::rect_array_ok;
use crate::geometry::rect_at;
use crate::geometry::transform_rect_spec;
use crate::geometry::transform_rects;
use crate::grid::RectGrid;
use crate::grid::build_grid;
use crate::grid::grid_view;
use vstd::prelude::*;

verus! {

/// A platform window: the native window reference, held as an opaque
/// nonzero address, plus its pixel dimensions. Only borrowed for instance
/// creation; the platform owns the window itself.
#[derive(Clone, Copy, Debug, PartialEq, Eq, Structural)]
pub struct WindowHandle {
    pub raw: u64,
    pub width: u32,
    pub height: u32,
}

/// A usable platform window: a nonzero native reference and nonzero pixel
/// dimensions. Anything else is an unrecoverable environment error.
pub open spec fn surface_ok(s: WindowHandle) -> bool {
    s.raw != 0 && s.width >= 1 && s.height >= 1
}

/// The one-shot pair of circuit buffers the host delivers for one creation
/// call. The type has no way to be copied: creation takes it by value, so
/// each bundle can configure exactly one instance.
pub struct BufferBundle {
    pub message_buf: Vec<u8>,
    pub pinpad_buf: Vec<u8>,
}

/// The four roles a host color string fills.
#[derive(Clone, Copy, Debug, PartialEq, Eq, Structural)]
pub enum ColorRole {
    MessageText,
    CircleText,
    CircleFill,
    Background,
}

/// Why creation rejected the host's input. Every variant is a host contract
/// violation or an environment failure; none is recoverable by retrying.
#[derive(Clone, Copy, Debug, PartialEq, Eq, Structural)]
pub enum CreateError {
    /// The platform window reference is null or a dimension is zero.
    InvalidSurface,
    /// The message rectangle array cannot be read as rectangles.
    MessageRects(RectArrayError),
    /// The message rectangle array holds more than one rectangle.
    MessageRectCount,
    /// The pinpad rectangle array cannot be read as rectangles.
    PinpadRects(RectArrayError),
    /// The pinpad rectangle count differs from rows times columns.
    PinpadRectCount,
    /// A color string is malformed; the role names which one.
    InvalidColor(ColorRole, ColorError),
}

/// The mathematical state of a live engine instance.
pub ghost struct EngineModel {
    pub window: WindowHandle,
    pub message_rect: NdcRect,
    pub pinpad: Seq<Seq<NdcRect>>,
    pub pinpad_rows: int,
    pub pinpad_cols: int,
    pub message_text_color: RgbaColor,
    pub circle_text_color: RgbaColor,
    pub circle_color: RgbaColor,
    pub background_color: RgbaColor,
    pub message_buf: Seq<u8>,
    pub pinpad_buf: Seq<u8>,
    pub frames: int,
}

impl EngineModel {
    /// A well formed instance: a usable window, well formed rectangles, a
    /// pinpad grid whose shape matches its dimensions, and a frame count
    /// that a machine counter can hold.
    pub open spec fn wf(self) -> bool {
        &&& surface_ok(self.window)
        &&& self.message_rect.wf()
        &&& self.pinpad_rows >= 0
        &&& self.pinpad_cols >= 0
        &&& self.pinpad.len() == self.pinpad_rows
        &&& forall|r: int|
            0 <= r < self.pinpad.len() ==> (#[trigger] self.pinpad[r]).len() == self.pinpad_cols
        &&& forall|r: int, c: int|
            0 <= r < self.pinpad.len() && 0 <= c < self.pinpad[r].len()
                ==> (#[trigger] self.pinpad[r][c]).wf()
        &&& 0 <= self.frames <= u64::MAX
    }

    /// Whether two states carry the same configuration, whatever their
    /// frame counts.
    pub open spec fn same_config(self, other: EngineModel) -> bool {
        &&& self.window == other.window
        &&& self.message_rect == other.message_rect
        &&& self.pinpad == other.pinpad
        &&& self.pinpad_rows == other.pinpad_rows
        &&& self.pinpad_cols == other.pinpad_cols
        &&& self.message_text_color == other.message_text_color
        &&& self.circle_text_color == other.circle_text_color
        &&& self.circle_color == other.circle_color
        &&& self.background_color == other.background_color
        &&& self.message_buf == other.message_buf
        &&& self.pinpad_buf == other.pinpad_buf
    }

    /// The state after one logical frame: the configuration is untouched
    /// and the frame count grows by one until its counter is exhausted.
    pub open spec fn advanced(self) -> EngineModel {
        EngineModel {
            frames: if self.frames < u64::MAX {
                self.frames + 1
            } else {
                self.frames
            },
            ..self
        }
    }
}

/// The state after `n` logical frames.
pub open spec fn advanced_n(m: EngineModel, n: nat) -> EngineModel
    decreases n,
{
    if n == 0 {
        m
    } else {
        advanced_n(m, (n - 1) as nat).advanced()
    }
}

/// Law: lifecycle. A well formed engine state stays well formed and keeps
/// its whole configuration across any number of advances, so an instance
/// obtained from `create` supports create, then `n` advances, then one
/// release, for every `n`; release itself consumes the instance, which is
/// what makes a second release or a later advance impossible to express.
pub proof fn lemma_lifecycle(m: EngineModel, n: nat)
    requires
        m.wf(),
    ensures
        advanced_n(m, n).wf(),
        advanced_n(m, n).same_config(m),
    decreases n,
{
    if n > 0 {
        lemma_lifecycle(m, (n - 1) as nat);
    }
}

/// The geometry part of the host's creation contract: a usable window, a
/// readable message array holding exactly one rectangle, and a readable
/// pinpad array holding exactly rows times columns rectangles.
pub open spec fn geometry_ok(
    surface: WindowHandle,
    message: Seq<i32>,
    pinpad: Seq<i32>,
    cols: u16,
    rows: u16,
) -> bool {
    &&& surface_ok(surface)
    &&& rect_array_ok(message)
    &&& message.len() / 4 == 1
    &&& rect_array_ok(pinpad)
    &&& pinpad.len() / 4 == cols * rows
}

/// The color part of the host's creation contract: all four strings are
/// well formed hex colors.
pub open spec fn colors_ok(mt: Seq<u8>, ct: Seq<u8>, cf: Seq<u8>, bg: Seq<u8>) -> bool {
    &&& valid_hex_color(mt)
    &&& valid_hex_color(ct)
    &&& valid_hex_color(cf)
    &&& valid_hex_color(bg)
}

/// One live engine instance, as configured by one creation call. The value
/// itself is the capability: whoever owns it may advance it, and releasing
/// it gives it up for good.
pub struct EngineInstance {
    window: WindowHandle,
    message_rect: NdcRect,
    pinpad_grid: RectGrid,
    pinpad_rows: u16,
    pinpad_cols: u16,
    message_text_color: RgbaColor,
    circle_text_color: RgbaColor,
    circle_color: RgbaColor,
    background_color: RgbaColor,
    message_buf: Vec<u8>,
    pinpad_buf: Vec<u8>,
    frame_count: u64,
}

impl View for EngineInstance {
    type V = EngineModel;

    closed spec fn view(&self) -> EngineModel {
        EngineModel {
            window: self.window,
            message_rect: self.message_rect,
            pinpad: grid_view(self.pinpad_grid),
            pinpad_rows: self.pinpad_rows as int,
            pinpad_cols: self.pinpad_cols as int,
            message_text_color: self.message_text_color,
            circle_text_color: self.circle_text_color,
            circle_color: self.circle_color,
            background_color: self.background_color,
            message_buf: self.message_buf@,
            pinpad_buf: self.pinpad_buf@,
            frames: self.frame_count as int,
        }
    }
}

impl EngineInstance {
    /// Builds one live engine instance from everything the host supplied:
    /// validates the window, converts both rectangle arrays to NDC, checks
    /// the message array holds exactly one rectangle and the pinpad array
    /// exactly `pinpad_nb_cols * pinpad_nb_rows`, arranges the pinpad
    /// rectangles into their row-major grid, decodes the four colors, and
    /// takes sole ownership of the buffer bundle. Succeeds exactly on
    /// inputs that meet the host contract, and then captures each input in
    /// the instance unchanged.
    pub fn create(
        surface: WindowHandle,
        message_rects: &Vec<i32>,
        pinpad_rects: &Vec<i32>,
        pinpad_nb_cols: u16,
        pinpad_nb_rows: u16,
        message_text_color: &Vec<u8>,
        circle_text_color: &Vec<u8>,
        circle_color: &Vec<u8>,
        background_color: &Vec<u8>,
        buffers: BufferBundle,
    ) -> (r: Result<EngineInstance, CreateError>)
        ensures
            match r {
                Ok(e) => {
                    &&& geometry_ok(
                        surface,
                        message_rects@,
                        pinpad_rects@,
                        pinpad_nb_cols,
                        pinpad_nb_rows,
                    )
                    &&& colors_ok(
                        message_text_color@,
                        circle_text_color@,
                        circle_color@,
                        background_color@,
                    )
                    &&& e@.window == surface
                    &&& e@.message_rect == transform_rect_spec(
                        rect_at(message_rects@, 0),
                        surface.width,
                        surface.height,
                    )
                    &&& e@.pinpad_rows == pinpad_nb_rows as int
                    &&& e@.pinpad_cols == pinpad_nb_cols as int
                    &&& e@.pinpad.len() == pinpad_nb_rows as int
                    &&& forall|row: int|
                        0 <= row < pinpad_nb_rows ==> (#[trigger] e@.pinpad[row]).len()
                            == pinpad_nb_cols as int
                    &&& forall|row: int, col: int|
                        0 <= row < pinpad_nb_rows && 0 <= col < pinpad_nb_cols
                            ==> #[trigger] e@.pinpad[row][col] == transform_rect_spec(
                            rect_at(pinpad_rects@, col + row * (pinpad_nb_cols as int)),
                            surface.width,
                            surface.height,
                        )
                    &&& e@.message_text_color == decoded_hex_color(message_text_color@)
                    &&& e@.circle_text_color == decoded_hex_color(circle_text_color@)
                    &&& e@.circle_color == decoded_hex_color(circle_color@)
                    &&& e@.background_color == decoded_hex_color(background_color@)
                    &&& e@.message_buf == buffers.message_buf@
                    &&& e@.pinpad_buf == buffers.pinpad_buf@
                    &&& e@.frames == 0
                    &&& e@.wf()
                },
                Err(CreateError::InvalidSurface) => !surface_ok(surface),
                Err(CreateError::MessageRects(e)) => {
                    &&& surface_ok(surface)
                    &&& rect_array_err_cond(message_rects@, e)
                },
                Err(CreateError::MessageRectCount) => {
                    &&& surface_ok(surface)
                    &&& rect_array_ok(message_rects@)
                    &&& message_rects@.len() / 4 != 1
                },
                Err(CreateError::PinpadRects(e)) => {
                    &&& surface_ok(surface)
                    &&& rect_array_ok(message_rects@)
                    &&& message_rects@.len() / 4 == 1
                    &&& rect_array_err_cond(pinpad_rects@, e)
                },
                Err(CreateError::PinpadRectCount) => {
                    &&& surface_ok(surface)
                    &&& rect_array_ok(message_rects@)
                    &&& message_rects@.len() / 4 == 1
                    &&& rect_array_ok(pinpad_rects@)
                    &&& pinpad_rects@.len() / 4 != pinpad_nb_cols * pinpad_nb_rows
                },
                Err(CreateError::InvalidColor(role, ce)) => {
                    &&& geometry_ok(
                        surface,
                        message_rects@,
                        pinpad_rects@,
                        pinpad_nb_cols,
                        pinpad_nb_rows,
                    )
                    &&& match role {
                        ColorRole::MessageText => color_err_cond(message_text_color@, ce),
                        ColorRole::CircleText => {
                            &&& valid_hex_color(message_text_color@)
                            &&& color_err_cond(circle_text_color@, ce)
                        },
                        ColorRole::CircleFill => {
                            &&& valid_hex_color(message_text_color@)
                            &&& valid_hex_color(circle_text_color@)
                            &&& color_err_cond(circle_color@, ce)
                        },
                        ColorRole::Background => {
                            &&& valid_hex_color(message_text_color@)
                            &&& valid_hex_color(circle_text_color@)
                            &&& valid_hex_color(circle_color@)
                            &&& color_err_cond(background_color@, ce)
                        },
                    }
                },
            },
    {
        if surface.raw == 0 || surface.width == 0 || surface.height == 0 {
            return Err(CreateError::InvalidSurface);
        }
        let message_ndc = match transform_rects(message_rects, surface.width, surface.height) {
            Ok(v) => v,
            Err(e) => return Err(CreateError::MessageRects(e)),
        };
        if message_ndc.len() != 1 {
            return Err(CreateError::MessageRectCount);
        }
        let pinpad_ndc = match transform_rects(pinpad_rects, surface.width, surface.height) {
            Ok(v) => v,
            Err(e) => return Err(CreateError::PinpadRects(e)),
        };
        assert((pinpad_nb_rows as int) * (pinpad_nb_cols as int) <= 0xffff * 0xffff)
            by (nonlinear_arith)
            requires
                pinpad_nb_rows <= 0xffff,
                pinpad_nb_cols <= 0xffff,
        ;
        let expected: usize = (pinpad_nb_rows as usize) * (pinpad_nb_cols as usize);
        if pinpad_ndc.len() != expected {
            return Err(CreateError::PinpadRectCount);
        }
        let pinpad_grid = build_grid(&pinpad_ndc, pinpad_nb_rows, pinpad_nb_cols);
        let mtc = match decode_hex_color(message_text_color) {
            Ok(c) => c,
            Err(e) => return Err(CreateError::InvalidColor(ColorRole::MessageText, e)),
        };
        let ctc = match decode_hex_color(circle_text_color) {
            Ok(c) => c,
            Err(e) => return Err(CreateError::InvalidColor(ColorRole::CircleText, e)),
        };
        let cc = match decode_hex_color(circle_color) {
            Ok(c) => c,
            Err(e) => return Err(CreateError::InvalidColor(ColorRole::CircleFill, e)),
        };
        let bc = match decode_hex_color(background_color) {
            Ok(c) => c,
            Err(e) => return Err(CreateError::InvalidColor(ColorRole::Background, e)),
        };
        proof {
            assert forall|row: int, col: int|
                0 <= row < pinpad_nb_rows && 0 <= col
                    < pinpad_nb_cols implies #[trigger] grid_view(pinpad_grid)[row][col]
                == transform_rect_spec(
                rect_at(pinpad_rects@, col + row * (pinpad_nb_cols as int)),
                surface.width,
                surface.height,
            ) by {
                assert(0 <= col + row * (pinpad_nb_cols as int) < pinpad_ndc.len())
                    by (nonlinear_arith)
                    requires
                        0 <= row < pinpad_nb_rows,
                        0 <= col < pinpad_nb_cols,
                        pinpad_ndc.len() == (pinpad_nb_rows as int) * (pinpad_nb_cols as int),
                ;
                assert(grid_view(pinpad_grid)[row][col] == pinpad_ndc[col + row * (pinpad_nb_cols
                    as int)]);
            }
        }
        let message_rect = message_ndc[0];
        Ok(
            EngineInstance {
                window: surface,
                message_rect,
                pinpad_grid,
                pinpad_rows: pinpad_nb_rows,
                pinpad_cols: pinpad_nb_cols,
                message_text_color: mtc,
                circle_text_color: ctc,
                circle_color: cc,
                background_color: bc,
                message_buf: buffers.message_buf,
                pinpad_buf: buffers.pinpad_buf,
                frame_count: 0,
            },
        )
    }

    /// Advances the instance by exactly one logical frame. The frame
    /// counter saturates once it has counted every frame a machine word can
    /// hold; the configuration is never touched.
    pub fn advance(&mut self)
        ensures
            final (self)@ == old(self)@.advanced(),
    {
        if self.frame_count < u64::MAX {
            self.frame_count = self.frame_count + 1;
        }
    }

    /// Releases the instance: consumes it and reclaims everything it owns.
    /// After this call no owning path to the instance is left, so a second
    /// release, or an advance after release, cannot be written.
    pub fn release(self) {
    }

    /// The window the instance was created for.
    pub fn window(&self) -> (r: WindowHandle)
        ensures
            r == self@.window,
    {
        self.window
    }

    /// The message rectangle, in NDC.
    pub fn message_rect(&self) -> (r: NdcRect)
        ensures
            r == self@.message_rect,
    {
        self.message_rect
    }

    /// The number of pinpad grid rows.
    pub fn pinpad_rows(&self) -> (r: u16)
        ensures
            r as int == self@.pinpad_rows,
    {
        self.pinpad_rows
    }

    /// The number of pinpad grid columns.
    pub fn pinpad_cols(&self) -> (r: u16)
        ensures
            r as int == self@.pinpad_cols,
    {
        self.pinpad_cols
    }

    /// The pinpad rectangle at the given row and column, or nothing when
    /// the position lies outside the grid.
    pub fn pinpad_rect(&self, row: u16, col: u16) -> (r: Option<NdcRect>)
        requires
            self@.wf(),
        ensures
            match r {
                Some(v) => row < self@.pinpad_rows && col < self@.pinpad_cols && v
                    == self@.pinpad[row as int][col as int],
                None => row >= self@.pinpad_rows || col >= self@.pinpad_cols,
            },
    {
        if row < self.pinpad_rows && col < self.pinpad_cols {
            Some(self.pinpad_grid.get(row, col))
        } else {
            None
        }
    }

    /// The four colors, in role order: message text, circle text, circle
    /// fill, background.
    pub fn colors(&self) -> (r: (RgbaColor, RgbaColor, RgbaColor, RgbaColor))
        ensures
            r.0 == self@.message_text_color,
            r.1 == self@.circle_text_color,
            r.2 == self@.circle_color,
            r.3 == self@.background_color,
    {
        (self.message_text_color, self.circle_text_color, self.circle_color, self.background_color)
    }

    /// The message circuit buffer, exactly as the creation call received
    /// it.
    pub fn message_buf(&self) -> (r: &Vec<u8>)
        ensures
            r@ == self@.message_buf,
    {
        &self.message_buf
    }

    /// The pinpad circuit buffer, exactly as the creation call received it.
    pub fn pinpad_buf(&self) -> (r: &Vec<u8>)
        ensures
            r@ == self@.pinpad_buf,
    {
        &self.pinpad_buf
    }

    /// How many logical frames the instance has advanced.
    pub fn frame_count(&self) -> (r: u64)
        ensures
            r as int == self@.frames,
    {
        self.frame_count
    }
}

} // verus!
