//! The render target model: a list of drawing commands.
//!
//! A mode never touches the physical display; it appends
//! [`DrawCommand`]s to a [`DisplayList`], and the board layer rasterizes
//! the list onto the screen after every frame. The view of a list is a
//! `Seq<CmdView>`, where text is seen as its character sequence, so a
//! drawing function's contract can state the exact commands it emits.

use vstd::prelude::*;

use crate::geometry::Circle;
use crate::geometry::Point;
use crate::geometry::Rect;

verus! {

/// Spec-level form of one drawing command.
pub enum CmdView {
    RectOutline { rect: Rect },
    RectFill { rect: Rect },
    CircleOutline { circle: Circle },
    CircleFill { circle: Circle },
    Line { start: Point, end: Point },
    /// Text anchored at the top-left corner of its bounding box.
    Text { text: Seq<char>, anchor: Point },
    /// Text drawn with the title font, anchored at its top-left corner.
    TitleText { text: Seq<char>, anchor: Point },
}

/// One drawing command for the board layer to rasterize.
#[derive(Debug, Clone, PartialEq)]
pub enum DrawCommand {
    RectOutline { rect: Rect },
    RectFill { rect: Rect },
    CircleOutline { circle: Circle },
    CircleFill { circle: Circle },
    Line { start: Point, end: Point },
    /// Text in the body font, anchored at the top-left corner of its
    /// bounding box.
    Text { text: String, anchor: Point },
    /// Text in the title font, anchored at its top-left corner.
    TitleText { text: String, anchor: Point },
}

impl View for DrawCommand {
    type V = CmdView;

    open spec fn view(&self) -> CmdView {
        match self {
            DrawCommand::RectOutline { rect } => CmdView::RectOutline { rect: *rect },
            DrawCommand::RectFill { rect } => CmdView::RectFill { rect: *rect },
            DrawCommand::CircleOutline { circle } => CmdView::CircleOutline { circle: *circle },
            DrawCommand::CircleFill { circle } => CmdView::CircleFill { circle: *circle },
            DrawCommand::Line { start, end } => CmdView::Line { start: *start, end: *end },
            DrawCommand::Text { text, anchor } => CmdView::Text {
                text: text@,
                anchor: *anchor,
            },
            DrawCommand::TitleText { text, anchor } => CmdView::TitleText {
                text: text@,
                anchor: *anchor,
            },
        }
    }
}

/// An append-only list of drawing commands; the content of one frame.
pub struct DisplayList {
    commands: Vec<DrawCommand>,
}

impl View for DisplayList {
    type V = Seq<CmdView>;

    closed spec fn view(&self) -> Seq<CmdView> {
        self.commands@.map_values(|c: DrawCommand| c@)
    }
}

impl DisplayList {
    pub fn new() -> (d: DisplayList)
        ensures
            d@ == Seq::<CmdView>::empty(),
    {
        let d = DisplayList { commands: Vec::new() };
        proof {
            assert(d@ =~= Seq::<CmdView>::empty());
        }
        d
    }

    pub fn push(&mut self, c: DrawCommand)
        ensures
            final(self)@ == old(self)@.push(c@),
    {
        let ghost cv = c@;
        self.commands.push(c);
        proof {
            assert(self@ =~= old(self)@.push(cv));
        }
    }

    pub fn len(&self) -> (n: usize)
        ensures
            n == self@.len(),
    {
        self.commands.len()
    }

    /// Empties the list, so one allocation can serve frame after frame.
    pub fn clear(&mut self)
        ensures
            final(self)@ == Seq::<CmdView>::empty(),
    {
        self.commands.clear();
        proof {
            assert(self@ =~= Seq::<CmdView>::empty());
        }
    }

    /// The commands themselves, for the board layer to rasterize.
    pub fn commands(&self) -> (cs: &Vec<DrawCommand>)
        ensures
            cs@.len() == self@.len(),
            forall|i: int| 0 <= i < cs@.len() ==> (#[trigger] cs@[i])@ == self@[i],
    {
        &self.commands
    }
}

} // verus!
