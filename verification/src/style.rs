//! The style bundle shared by the frame compositor and every mode.
//!
//! The physical fonts live with the board layer; the library only needs
//! their metrics (line height and character advance) to lay text out.
//! An [`AppStyle`] is created once at startup and then only read.

use vstd::prelude::*;
use vstd::string::StrSliceExecFns;

use crate::geometry::Size;

verus! {

/// The color of a monochrome display element.
#[derive(Clone, Copy, Debug, PartialEq, Eq, Structural)]
pub enum Color {
    On,
    Off,
}

/// Layout metrics of a monospaced font.
#[derive(Clone, Copy, Debug, PartialEq, Eq, Structural)]
pub struct FontMetrics {
    /// Height of one text line, in pixels.
    pub line_height: u32,
    /// Horizontal advance of one character, in pixels.
    pub char_width: u32,
}

impl FontMetrics {
    pub open spec fn wf(self) -> bool {
        self.line_height <= 256 && self.char_width <= 256
    }

    pub fn new(line_height: u32, char_width: u32) -> (m: FontMetrics)
        ensures
            m == (FontMetrics { line_height, char_width }),
    {
        FontMetrics { line_height, char_width }
    }

    /// The bounding-box size of a single line of text in this font.
    pub open spec fn text_size_spec(self, text: Seq<char>) -> Size {
        Size { width: (text.len() * self.char_width) as u32, height: self.line_height }
    }

    pub fn text_size(&self, text: &str) -> (s: Size)
        requires
            self.wf(),
            text@.len() <= 1024,
        ensures
            s == self.text_size_spec(text@),
    {
        let len: usize = text.unicode_len();
        proof {
            assert(len * self.char_width <= 1024 * 256) by (nonlinear_arith)
                requires
                    len <= 1024,
                    self.char_width <= 256,
            ;
        }
        Size { width: (len as u32) * self.char_width, height: self.line_height }
    }
}

/// Styling information for application elements.
#[derive(Clone, Copy, Debug, PartialEq, Eq, Structural)]
pub struct AppStyle {
    /// Style used for titles.
    pub title_style: FontMetrics,
    /// Style used for general text elements.
    pub text_style: FontMetrics,
    /// Default color for elements.
    pub default_color: Color,
}

impl AppStyle {
    pub open spec fn wf(self) -> bool {
        self.title_style.wf() && self.text_style.wf()
    }

    pub fn new(title_style: FontMetrics, text_style: FontMetrics, default_color: Color) -> (s:
        AppStyle)
        ensures
            s == (AppStyle { title_style, text_style, default_color }),
    {
        AppStyle { title_style, text_style, default_color }
    }
}

} // verus!
