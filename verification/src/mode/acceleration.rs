//! The 'Acceleration' mode: reads normalized acceleration and displays
//! a direction indicator beside a frame with a rolling ball.
//!
//! The ball's motion is integrated against the wall clock by the board
//! layer (see [`crate::peripherals::BallDynamics`]); the mode stores the
//! offset the simulation reports and renders it.

use vstd::prelude::*;

use crate::display::CmdView;
use crate::display::DisplayList;
use crate::display::DrawCommand;
use crate::geometry::frac;
use crate::geometry::frac_spec;
use crate::geometry::max_int;
use crate::geometry::max_u32;
use crate::geometry::min_int;
use crate::geometry::min_u32;
use crate::geometry::Circle;
use crate::geometry::Point;
use crate::geometry::Rect;
use crate::geometry::Size;
use crate::mode::accel_reading_value;
use crate::peripherals::AccelVec;
use crate::peripherals::PeripheralError;
use crate::style::AppStyle;
use crate::ui::vector_box::vector_box_commands_spec;
use crate::ui::vector_box::MilliVec2;
use crate::ui::vector_box::VectorBox;

verus! {

/// Diameter of the rolling ball, in pixels.
pub const BALL_DIAMETER: u32 = 5;

/// Display state of the acceleration mode.
#[derive(Clone, Copy, Debug, PartialEq, Eq, Structural)]
pub struct AccelerationMode {
    /// The last acceleration reading, if any.
    pub acceleration: Option<AccelVec>,
    /// The ball's offset from the frame center, in pixels.
    pub ball_offset: Point,
}

impl AccelerationMode {
    /// The stored state stays within what the capability contracts
    /// deliver: a normalized acceleration and a bounded ball offset.
    pub open spec fn wf(self) -> bool {
        &&& match self.acceleration {
            Some(a) => a.wf(),
            None => true,
        }
        &&& -4096 <= self.ball_offset.x <= 4096
        &&& -4096 <= self.ball_offset.y <= 4096
    }
}

/// The acceleration projected onto the display plane: flipped on both
/// axes for the physical orientation of display and sensor.
pub open spec fn flipped_spec(a: AccelVec) -> MilliVec2 {
    MilliVec2 { x: (-a.y) as i32, y: (-a.x) as i32 }
}

/// The commands the acceleration mode draws, for a known acceleration:
/// the direction indicator (a framed vector, nine tenths of the area's
/// smaller dimension square) and, five pixels to its right, a square
/// frame (nine tenths of the area's height) holding the ball at its
/// center plus the stored offset; the pair top-aligned and centered in
/// the area. While no acceleration is known, nothing is drawn.
pub open spec fn accel_draw_spec(m: AccelerationMode, area: Rect) -> Seq<CmdView> {
    match m.acceleration {
        None => Seq::empty(),
        Some(a) => {
            let sd = frac_spec(min_int(area.size.width as int, area.size.height as int), 9, 10);
            let frame_h = frac_spec(area.size.height as int, 9, 10);
            let total = Size {
                width: (sd + 5 + frame_h) as u32,
                height: max_int(sd, frame_h) as u32,
            };
            let layout = area.centered_top_left_spec(total);
            let indicator = Rect {
                top_left: layout,
                size: Size { width: sd as u32, height: sd as u32 },
            };
            let frame = Rect {
                top_left: Point { x: (layout.x + sd + 5) as i32, y: layout.y },
                size: Size { width: frame_h as u32, height: frame_h as u32 },
            };
            let ball_center = frame.centered_top_left_spec(
                Size { width: BALL_DIAMETER, height: BALL_DIAMETER },
            );
            let ball = Circle {
                top_left: Point {
                    x: (ball_center.x + m.ball_offset.x) as i32,
                    y: (ball_center.y + m.ball_offset.y) as i32,
                },
                diameter: BALL_DIAMETER,
            };
            vector_box_commands_spec(indicator, flipped_spec(a), 1000) + seq![
                CmdView::RectOutline { rect: frame },
                CmdView::CircleFill { circle: ball },
            ]
        },
    }
}

impl AccelerationMode {
    pub fn new() -> (m: AccelerationMode)
        ensures
            m == (AccelerationMode {
                acceleration: None::<AccelVec>,
                ball_offset: Point { x: 0, y: 0 },
            }),
    {
        AccelerationMode { acceleration: None, ball_offset: Point { x: 0, y: 0 } }
    }

    /// Takes the newest reading: the displayed acceleration is
    /// overwritten with its outcome, and on success the ball moves to
    /// the offset the simulation reports (after a failed reading the
    /// ball stays put).
    pub fn update(&mut self, reading: Result<AccelVec, PeripheralError>, ball_offset: Point)
        requires
            old(self).wf(),
            reading matches Ok(a) ==> a.wf(),
            -4096 <= ball_offset.x <= 4096,
            -4096 <= ball_offset.y <= 4096,
        ensures
            final(self).acceleration == accel_reading_value(reading),
            final(self).ball_offset == if reading is Ok {
                ball_offset
            } else {
                old(self).ball_offset
            },
            final(self).wf(),
    {
        match reading {
            Ok(a) => {
                self.acceleration = Some(a);
                self.ball_offset = ball_offset;
            },
            Err(_) => {
                self.acceleration = None;
            },
        }
    }

    /// Draws the indicator and the ball frame.
    pub fn draw_with_style(&self, style: &AppStyle, draw_area: Rect, out: &mut DisplayList)
        requires
            style.wf(),
            draw_area.draw_ok(),
            self.wf(),
        ensures
            final(out)@ == old(out)@ + accel_draw_spec(*self, draw_area),
    {
        let acc = match self.acceleration {
            Some(a) => a,
            None => {
                return ;
            },
        };
        let smallest = min_u32(draw_area.size.width, draw_area.size.height);
        let sd = frac(smallest, 9, 10);
        let frame_h = frac(draw_area.size.height, 9, 10);
        let total = Size { width: sd + 5 + frame_h, height: max_u32(sd, frame_h) };
        let layout = draw_area.centered_top_left(total);
        let indicator_rect = Rect {
            top_left: layout,
            size: Size { width: sd, height: sd },
        };
        let frame = Rect {
            top_left: Point { x: layout.x + sd as i32 + 5, y: layout.y },
            size: Size { width: frame_h, height: frame_h },
        };
        let indicator = VectorBox::new(
            indicator_rect,
            MilliVec2 { x: -acc.y, y: -acc.x },
            1000,
        );
        indicator.draw_styled(out);
        out.push(DrawCommand::RectOutline { rect: frame });
        let ball_center = frame.centered_top_left(
            Size { width: BALL_DIAMETER, height: BALL_DIAMETER },
        );
        let ball = Circle {
            top_left: Point {
                x: ball_center.x + self.ball_offset.x,
                y: ball_center.y + self.ball_offset.y,
            },
            diameter: BALL_DIAMETER,
        };
        out.push(DrawCommand::CircleFill { circle: ball });
        proof {
            assert(out@ =~= old(out)@ + accel_draw_spec(*self, draw_area));
        }
    }
}

} // verus!
