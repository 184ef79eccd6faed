//! The environment table: three label/value rows (temperature,
//! humidity, pressure) spread across the display area.

use vstd::prelude::*;
use vstd::string::StringExecFns;

use crate::display::CmdView;
use crate::display::DisplayList;
use crate::display::DrawCommand;
use crate::geometry::half_diff;
use crate::geometry::half_diff_spec;
use crate::geometry::Point;
use crate::geometry::Rect;
use crate::style::FontMetrics;
use crate::text::centi_digits;
use crate::text::fmt_centi;
use crate::text::lemma_format_lengths;

verus! {

/// One label/value row: the label at the left edge, the value flush
/// with the right edge.
pub open spec fn env_row_spec(
    label: Seq<char>,
    value: Seq<char>,
    style: FontMetrics,
    x: int,
    y: int,
    width: int,
) -> Seq<CmdView> {
    seq![
        CmdView::Text { text: label, anchor: Point { x: x as i32, y: y as i32 } },
        CmdView::Text {
            text: value,
            anchor: Point {
                x: (x + width - style.text_size_spec(value).width) as i32,
                y: y as i32,
            },
        },
    ]
}

/// The three rows of the environment table, two pixels apart, the block
/// centered vertically in the area and spanning its full width.
pub open spec fn env_table_spec(
    temp: Seq<char>,
    hum: Seq<char>,
    pres: Seq<char>,
    style: FontMetrics,
    area: Rect,
) -> Seq<CmdView> {
    let total_h = 3 * style.line_height + 4;
    let y0 = area.top_left.y + half_diff_spec(area.size.height as int, total_h as int);
    let x = area.top_left.x as int;
    let w = area.size.width as int;
    let row_h = style.line_height + 2;
    env_row_spec("Temp.:"@, temp, style, x, y0, w) + env_row_spec(
        "Humidity:"@,
        hum,
        style,
        x,
        y0 + row_h,
        w,
    ) + env_row_spec("Pressure:"@, pres, style, x, y0 + 2 * row_h, w)
}

/// Appends one label/value row to the display list.
fn draw_env_row(
    label: &str,
    value: String,
    style: &FontMetrics,
    x: i32,
    y: i32,
    width: u32,
    out: &mut DisplayList,
)
    requires
        style.wf(),
        label@.len() <= 64,
        value@.len() <= 64,
        -0x500000 <= x <= 0x500000,
        -0x500000 <= y <= 0x500000,
        width <= 0x40000,
    ensures
        final(out)@ == old(out)@ + env_row_spec(
            label@,
            value@,
            *style,
            x as int,
            y as int,
            width as int,
        ),
{
    proof {
        assert(value@.len() * style.char_width <= 64 * 256) by (nonlinear_arith)
            requires
                value@.len() <= 64,
                style.char_width <= 256,
        ;
    }
    let value_w = style.text_size(value.as_str()).width;
    out.push(DrawCommand::Text { text: label.to_owned(), anchor: Point { x, y } });
    out.push(
        DrawCommand::Text {
            text: value,
            anchor: Point { x: x + width as i32 - value_w as i32, y },
        },
    );
    proof {
        assert(out@ =~= old(out)@ + env_row_spec(
            label@,
            value@,
            *style,
            x as int,
            y as int,
            width as int,
        ));
    }
}

/// Appends the three environment rows to the display list.
pub fn draw_env_table(
    temp: String,
    hum: String,
    pres: String,
    style: &FontMetrics,
    area: Rect,
    out: &mut DisplayList,
)
    requires
        style.wf(),
        area.op_ok(),
        temp@.len() <= 64,
        hum@.len() <= 64,
        pres@.len() <= 64,
    ensures
        final(out)@ == old(out)@ + env_table_spec(temp@, hum@, pres@, *style, area),
{
    let ghost temp_view = temp@;
    let ghost hum_view = hum@;
    let ghost pres_view = pres@;
    proof {
        reveal_strlit("Temp.:");
        reveal_strlit("Humidity:");
        reveal_strlit("Pressure:");
    }
    let total_h: u32 = 3 * style.line_height + 4;
    let y0: i32 = area.top_left.y + half_diff(area.size.height, total_h);
    let x: i32 = area.top_left.x;
    let w: u32 = area.size.width;
    let row_h: i32 = (style.line_height + 2) as i32;
    draw_env_row("Temp.:", temp, style, x, y0, w, out);
    draw_env_row("Humidity:", hum, style, x, y0 + row_h, w, out);
    draw_env_row("Pressure:", pres, style, x, y0 + 2 * row_h, w, out);
    proof {
        assert(out@ =~= old(out)@ + env_table_spec(temp_view, hum_view, pres_view, *style, area));
    }
}

/// A table showing a fixed temperature and humidity reading (with the
/// pressure column marked unavailable).
pub struct TemperatureHumidityDisplay {
    /// Temperature in hundredths of a °C.
    pub temperature_centi: i32,
    /// Relative humidity in hundredths of a percent.
    pub humidity_centi: i32,
    /// Font for the table text.
    pub text_style: FontMetrics,
    /// Area the table occupies.
    pub area: Rect,
}

/// The texts the display renders: formatted temperature and humidity,
/// and a placeholder for the pressure column.
pub open spec fn temp_hum_texts_spec(temperature_centi: int, humidity_centi: int) -> (Seq<char>, Seq<
    char,
>, Seq<char>) {
    (centi_digits(temperature_centi) + "°C"@, centi_digits(humidity_centi) + "%"@, "??? kPa"@)
}

impl TemperatureHumidityDisplay {
    pub fn new(temperature_centi: i32, humidity_centi: i32, text_style: FontMetrics, area: Rect)
        -> (d: TemperatureHumidityDisplay)
        ensures
            d == (TemperatureHumidityDisplay { temperature_centi, humidity_centi, text_style, area }),
    {
        TemperatureHumidityDisplay { temperature_centi, humidity_centi, text_style, area }
    }

    pub fn bounds(&self) -> (r: Rect)
        ensures
            r == self.area,
    {
        self.area
    }

    /// Appends the table to the display list.
    pub fn draw(&self, out: &mut DisplayList)
        requires
            self.text_style.wf(),
            self.area.op_ok(),
        ensures
            final(out)@ == old(out)@ + ({
                let (t, h, p) = temp_hum_texts_spec(
                    self.temperature_centi as int,
                    self.humidity_centi as int,
                );
                env_table_spec(t, h, p, self.text_style, self.area)
            }),
    {
        let mut temp = fmt_centi(self.temperature_centi);
        proof {
            reveal_strlit("°C");
            reveal_strlit("%");
            reveal_strlit("??? kPa");
            lemma_format_lengths(self.temperature_centi as int);
            lemma_format_lengths(self.humidity_centi as int);
        }
        temp.append("°C");
        let mut hum = fmt_centi(self.humidity_centi);
        hum.append("%");
        let pres = "??? kPa".to_owned();
        draw_env_table(temp, hum, pres, &self.text_style, self.area, out);
    }
}

} // verus!
