//! The interactive menu's screens: a box 48 columns wide drawn with
//! box-drawing characters, with rows of names and values, status lines and
//! key hints in it. Each function appends to a buffer of characters.
use vstd::prelude::*;

use crate::cli::profile::{Profile, ProfileSettingsView};
use crate::cli::zones::{effect_label, effect_name, ZoneState};
use crate::text::{
    bool_text, chars_of, decimal, push_bool, push_chars, push_decimal, push_repeat, push_str,
    repeat_char, string_from_chars,
};

verus! {

/// Width of the box, borders included.
pub const TOTAL_WIDTH: usize = 48;

/// Columns of text in a box line: the width without the two borders and
/// the leading space.
pub const BOX_TEXT_WIDTH: usize = 45;

/// Columns of text in a line padded between two sides: the width without
/// the borders and the spaces at both ends.
pub const SIDE_TEXT_WIDTH: usize = 44;

/// A horizontal border: corner `left`, the rule, corner `right`.
pub open spec fn frame_line(left: char, right: char) -> Seq<char> {
    seq![left] + repeat_char('─', (TOTAL_WIDTH - 2) as nat) + seq![right, '\n']
}

fn push_frame_line(out: &mut Vec<char>, left: char, right: char)
    ensures
        final(out)@ == old(out)@ + frame_line(left, right),
{
    out.push(left);
    push_repeat(out, '─', TOTAL_WIDTH - 2);
    out.push(right);
    out.push('\n');
    assert(final(out)@ =~= old(out)@ + frame_line(left, right));
}

/// The top border.
pub fn draw_top(out: &mut Vec<char>)
    ensures
        final(out)@ == old(out)@ + frame_line('┌', '┐'),
{
    push_frame_line(out, '┌', '┐');
}

/// The bottom border.
pub fn draw_bottom(out: &mut Vec<char>)
    ensures
        final(out)@ == old(out)@ + frame_line('└', '┘'),
{
    push_frame_line(out, '└', '┘');
}

/// A separator across the box.
pub fn draw_separator(out: &mut Vec<char>)
    ensures
        final(out)@ == old(out)@ + frame_line('├', '┤'),
{
    push_frame_line(out, '├', '┤');
}

/// One line of the box holding `content` (at most 45 columns), padded with
/// spaces to the right border.
pub open spec fn box_line(content: Seq<char>) -> Seq<char> {
    seq!['│', ' '] + content + repeat_char(' ', (BOX_TEXT_WIDTH - content.len()) as nat) + seq![
        '│',
        '\n',
    ]
}

fn push_box_range(out: &mut Vec<char>, src: &Vec<char>, s: usize, e: usize)
    requires
        s <= e <= src@.len(),
        e - s <= BOX_TEXT_WIDTH,
    ensures
        final(out)@ == old(out)@ + box_line(src@.subrange(s as int, e as int)),
{
    let ghost start = out@;
    out.push('│');
    out.push(' ');
    let mut i: usize = s;
    while i < e
        invariant
            s <= i <= e,
            e <= src@.len(),
            out@ == start + seq!['│', ' '] + src@.subrange(s as int, i as int),
        decreases e - i,
    {
        out.push(src[i]);
        assert(out@ =~= start + seq!['│', ' '] + src@.subrange(s as int, i + 1));
        i = i + 1;
    }
    push_repeat(out, ' ', BOX_TEXT_WIDTH - (e - s));
    out.push('│');
    out.push('\n');
    assert(final(out)@ =~= start + box_line(src@.subrange(s as int, e as int)));
}

/// Append one line of the box holding `content` (at most 45 columns).
pub fn push_box_line(out: &mut Vec<char>, content: &str)
    requires
        content@.len() <= BOX_TEXT_WIDTH,
    ensures
        final(out)@ == old(out)@ + box_line(content@),
{
    let chars = chars_of(content);
    push_box_range(out, &chars, 0, chars.len());
    assert(chars@.subrange(0, chars@.len() as int) =~= content@);
}

/// A line cut into pieces of 45 columns, each a line of the box; nothing
/// for an empty line.
pub open spec fn box_chunks(line: Seq<char>) -> Seq<char>
    decreases line.len(),
{
    if line.len() == 0 {
        Seq::empty()
    } else if line.len() <= BOX_TEXT_WIDTH {
        box_line(line)
    } else {
        box_line(line.take(BOX_TEXT_WIDTH as int)) + box_chunks(line.skip(BOX_TEXT_WIDTH as int))
    }
}

fn push_chunks(out: &mut Vec<char>, line: &Vec<char>)
    ensures
        final(out)@ == old(out)@ + box_chunks(line@),
{
    let ghost start = out@;
    let mut s: usize = 0;
    assert(line@.skip(0) =~= line@);
    while s < line.len()
        invariant
            s <= line@.len(),
            start + box_chunks(line@) == out@ + box_chunks(line@.skip(s as int)),
        decreases line@.len() - s,
    {
        let e = if line.len() - s <= BOX_TEXT_WIDTH {
            line.len()
        } else {
            s + BOX_TEXT_WIDTH
        };
        let ghost rest = line@.skip(s as int);
        let ghost before = out@;
        push_box_range(out, line, s, e);
        proof {
            if line@.len() - s <= BOX_TEXT_WIDTH {
                assert(rest =~= line@.subrange(s as int, e as int));
                assert(line@.skip(e as int) =~= Seq::<char>::empty());
            } else {
                assert(rest.take(BOX_TEXT_WIDTH as int) =~= line@.subrange(s as int, e as int));
                assert(rest.skip(BOX_TEXT_WIDTH as int) =~= line@.skip(e as int));
            }
            assert(before + box_chunks(rest) =~= out@ + box_chunks(line@.skip(e as int)));
        }
        s = e;
    }
    assert(line@.skip(s as int) =~= Seq::<char>::empty());
    assert(out@ =~= start + box_chunks(line@));
}

/// `line` without one trailing carriage return.
pub open spec fn strip_cr(line: Seq<char>) -> Seq<char> {
    if line.len() > 0 && line.last() == '\r' {
        line.drop_last()
    } else {
        line
    }
}

/// The box lines of `c` from `i` on, `line` holding the text read since
/// the last line break: each line (a carriage return before its line feed
/// taken off) cut into box lines, empty lines left out.
pub open spec fn box_scan(c: Seq<char>, i: int, line: Seq<char>) -> Seq<char>
    decreases c.len() - i,
{
    if i < 0 || i >= c.len() {
        box_chunks(line)
    } else if c[i] == '\n' {
        box_chunks(strip_cr(line)) + box_scan(c, i + 1, Seq::empty())
    } else {
        box_scan(c, i + 1, line.push(c[i]))
    }
}

/// Text `c` as lines of the box.
pub open spec fn boxed(c: Seq<char>) -> Seq<char> {
    box_scan(c, 0, Seq::empty())
}

/// Append the characters `content` as lines of the box.
pub fn box_chars(out: &mut Vec<char>, content: &Vec<char>)
    ensures
        final(out)@ == old(out)@ + boxed(content@),
{
    let ghost start = out@;
    let ghost c = content@;
    let mut line: Vec<char> = Vec::new();
    let mut i: usize = 0;
    while i < content.len()
        invariant
            c == content@,
            i <= c.len(),
            start + boxed(c) == out@ + box_scan(c, i as int, line@),
        decreases c.len() - i,
    {
        let ch = content[i];
        if ch == '\n' {
            let ghost before = out@;
            let ghost held = line@;
            if line.len() > 0 && line[line.len() - 1] == '\r' {
                line.pop();
            }
            assert(line@ =~= strip_cr(held));
            push_chunks(out, &line);
            line = Vec::new();
            assert(before + box_scan(c, i as int, held) =~= out@ + box_scan(c, i + 1, line@));
        } else {
            line.push(ch);
        }
        i = i + 1;
    }
    push_chunks(out, &line);
    assert(out@ =~= start + boxed(c));
}

/// Append text `content` as lines of the box.
pub fn box_content(out: &mut Vec<char>, content: &str)
    ensures
        final(out)@ == old(out)@ + boxed(content@),
{
    let chars = chars_of(content);
    box_chars(out, &chars);
}

/// A box line with `left` at the left and `right` at the right.
pub open spec fn side_padded(left: Seq<char>, right: Seq<char>) -> Seq<char> {
    seq!['│', ' '] + left + repeat_char(' ', (SIDE_TEXT_WIDTH - left.len() - right.len()) as nat)
        + right + seq![' ', '│', '\n']
}

/// Append a box line with `left` at the left and `right` at the right.
pub fn box_and_side_pad(out: &mut Vec<char>, left: &str, right: &str)
    requires
        left@.len() + right@.len() <= SIDE_TEXT_WIDTH,
    ensures
        final(out)@ == old(out)@ + side_padded(left@, right@),
{
    let ghost start = out@;
    let l = chars_of(left);
    let r = chars_of(right);
    out.push('│');
    out.push(' ');
    push_chars(out, &l);
    push_repeat(out, ' ', SIDE_TEXT_WIDTH - (l.len() + r.len()));
    push_chars(out, &r);
    out.push(' ');
    out.push('│');
    out.push('\n');
    assert(final(out)@ =~= start + side_padded(left@, right@));
}

/// A row of a menu: its name, the value shown, and whether it is shown.
#[derive(Debug, Clone)]
pub struct UiRow {
    pub name: &'static str,
    pub value: String,
    pub visible: bool,
}

impl UiRow {
    /// A row that is shown.
    pub fn new(name: &'static str, value: String) -> (r: Self)
        ensures
            r.name == name,
            r.value@ == value@,
            r.visible,
    {
        UiRow { name, value, visible: true }
    }

    /// A row shown or not.
    pub fn new_with_visibility(name: &'static str, value: String, visible: bool) -> (r: Self)
        ensures
            r.name == name,
            r.value@ == value@,
            r.visible == visible,
    {
        UiRow { name, value, visible }
    }
}

/// A row as plain values: name, value, shown.
pub open spec fn row_view(r: UiRow) -> (Seq<char>, Seq<char>, bool) {
    (r.name@, r.value@, r.visible)
}

/// Rows as plain values.
pub open spec fn row_views(rows: Seq<UiRow>) -> Seq<(Seq<char>, Seq<char>, bool)> {
    rows.map_values(|r: UiRow| row_view(r))
}

/// Width of the widest name among the rows shown.
pub open spec fn name_width(rows: Seq<(Seq<char>, Seq<char>, bool)>) -> nat
    decreases rows.len(),
{
    if rows.len() == 0 {
        0
    } else {
        let w = name_width(rows.drop_last());
        let r = rows.last();
        if r.2 && r.0.len() > w {
            r.0.len()
        } else {
            w
        }
    }
}

/// The text of a row: a cursor mark (` > ` on the selected row), the name
/// padded with spaces to `width`, four spaces, the value.
pub open spec fn option_text(selected: bool, name: Seq<char>, width: nat, value: Seq<char>) -> Seq<
    char,
> {
    (if selected {
        seq![' ', '>', ' ']
    } else {
        seq![' ', ' ', ' ']
    }) + name + repeat_char(
        ' ',
        if name.len() < width {
            (width - name.len()) as nat
        } else {
            0
        },
    ) + seq![' ', ' ', ' ', ' '] + value
}

/// The rows shown, each as lines of the box, the row at `index` selected.
pub open spec fn options_text(rows: Seq<(Seq<char>, Seq<char>, bool)>, index: int, width: nat) -> Seq<
    char,
>
    decreases rows.len(),
{
    if rows.len() == 0 {
        Seq::empty()
    } else {
        let j = rows.len() - 1;
        let r = rows.last();
        options_text(rows.drop_last(), index, width) + if r.2 {
            boxed(option_text(j == index, r.0, width, r.1))
        } else {
            Seq::empty()
        }
    }
}

fn widest_name(rows: &[UiRow]) -> (w: usize)
    ensures
        w == name_width(row_views(rows@)),
{
    let mut w: usize = 0;
    let mut i: usize = 0;
    while i < rows.len()
        invariant
            i <= rows@.len(),
            w == name_width(row_views(rows@.take(i as int))),
        decreases rows@.len() - i,
    {
        assert(row_views(rows@.take(i + 1)).drop_last() =~= row_views(rows@.take(i as int)));
        let n = rows[i].name.unicode_len();
        if rows[i].visible && n > w {
            w = n;
        }
        i = i + 1;
    }
    assert(rows@.take(rows@.len() as int) =~= rows@);
    w
}

/// Append the rows shown, the row at `index` selected, names padded to the
/// widest shown.
pub fn draw_options(out: &mut Vec<char>, index: usize, rows: &[UiRow])
    ensures
        final(out)@ == old(out)@ + options_text(row_views(rows@), index as int, name_width(row_views(rows@))),
{
    let ghost start = out@;
    let width = widest_name(rows);
    let mut i: usize = 0;
    while i < rows.len()
        invariant
            i <= rows@.len(),
            width == name_width(row_views(rows@)),
            out@ == start + options_text(row_views(rows@.take(i as int)), index as int, width as nat),
        decreases rows@.len() - i,
    {
        assert(row_views(rows@.take(i + 1)).drop_last() =~= row_views(rows@.take(i as int)));
        if rows[i].visible {
            let name = chars_of(rows[i].name);
            let mut line: Vec<char> = Vec::new();
            if i == index {
                line.push(' ');
                line.push('>');
                line.push(' ');
            } else {
                line.push(' ');
                line.push(' ');
                line.push(' ');
            }
            push_chars(&mut line, &name);
            let pad = if name.len() < width {
                width - name.len()
            } else {
                0
            };
            push_repeat(&mut line, ' ', pad);
            line.push(' ');
            line.push(' ');
            line.push(' ');
            line.push(' ');
            push_str(&mut line, rows[i].value.as_str());
            assert(line@ =~= option_text(
                i == index,
                rows@[i as int].name@,
                width as nat,
                rows@[i as int].value@,
            ));
            box_chars(out, &line);
        }
        assert(out@ =~= start + options_text(row_views(rows@.take(i + 1)), index as int, width as nat));
        i = i + 1;
    }
    assert(rows@.take(rows@.len() as int) =~= rows@);
}

/// The key hints of the main menu.
pub open spec fn main_hint() -> Seq<char> {
    "[↑/↓] Navigate  [←/→] Change  [q] Quit"@
}

/// The main menu: the device name, the rows, the key hints.
pub open spec fn main_screen(device_name: Seq<char>, index: int, rows: Seq<(Seq<char>, Seq<char>, bool)>) -> Seq<
    char,
> {
    frame_line('┌', '┐') + boxed(device_name) + frame_line('├', '┤') + options_text(
        rows,
        index,
        name_width(rows),
    ) + frame_line('├', '┤') + boxed(main_hint()) + frame_line('└', '┘')
}

/// Append the main menu of device `device_name`, the cursor on row `index`.
pub fn draw_ui(out: &mut Vec<char>, device_name: &str, index: usize, rows: &[UiRow])
    ensures
        final(out)@ == old(out)@ + main_screen(device_name@, index as int, row_views(rows@)),
{
    let ghost start = out@;
    draw_top(out);
    box_content(out, device_name);
    draw_separator(out);
    draw_options(out, index, rows);
    draw_separator(out);
    box_content(out, "[↑/↓] Navigate  [←/→] Change  [q] Quit");
    draw_bottom(out);
    assert(out@ =~= start + main_screen(device_name@, index as int, row_views(rows@)));
}

/// The decimal digits of `n` as a `String`.
pub fn decimal_string(n: u64) -> (s: String)
    ensures
        s@ == decimal(n as nat),
{
    let mut v: Vec<char> = Vec::new();
    push_decimal(&mut v, n);
    assert(v@ =~= decimal(n as nat));
    string_from_chars(&v)
}

/// A brightness (0..=255) as a percentage text, `<percent> %`, rounded down.
pub open spec fn brightness_percentage_text(b: u8) -> Seq<char> {
    decimal((b * 100 / 255) as nat) + seq![' ', '%']
}

/// A brightness (0..=255) as a percentage text, `<percent> %`, rounded down.
pub fn to_brightness_percentage(brightness: u8) -> (s: String)
    ensures
        s@ == brightness_percentage_text(brightness),
{
    let mut v: Vec<char> = Vec::new();
    push_decimal(&mut v, brightness as u64 * 100 / 255);
    v.push(' ');
    v.push('%');
    string_from_chars(&v)
}

/// The rows of the lighting editor for zone `z` (shown as `label`): LED,
/// effect, the three color channels, brightness, speed, whether the zones
/// are linked.
pub open spec fn lighting_rows(z: ZoneState, label: Seq<char>, link: bool) -> Seq<
    (Seq<char>, Seq<char>, bool),
> {
    seq![
        ("LED"@, label, true),
        ("EFFECT"@, effect_label(z.effect), true),
        ("COLOR R"@, decimal(z.color[0] as nat), true),
        ("COLOR G"@, decimal(z.color[1] as nat), true),
        ("COLOR B"@, decimal(z.color[2] as nat), true),
        ("BRIGHTNESS"@, brightness_percentage_text(z.brightness), true),
        ("SPEED"@, decimal(z.speed as nat), true),
        ("LINK ZONES"@, bool_text(link), true),
    ]
}

/// Append the lighting editor's rows for zone `zone` (shown as `label`),
/// the cursor on row `index`.
pub fn draw_lighting_options(
    out: &mut Vec<char>,
    index: usize,
    zone: &ZoneState,
    label: &str,
    link: bool,
)
    ensures
        final(out)@ == old(out)@ + options_text(
            lighting_rows(*zone, label@, link),
            index as int,
            name_width(lighting_rows(*zone, label@, link)),
        ),
{
    let mut link_text: Vec<char> = Vec::new();
    push_bool(&mut link_text, link);
    let rows = vec![
        UiRow::new("LED", label.to_string()),
        UiRow::new("EFFECT", effect_name(zone.effect).to_string()),
        UiRow::new("COLOR R", decimal_string(zone.color[0] as u64)),
        UiRow::new("COLOR G", decimal_string(zone.color[1] as u64)),
        UiRow::new("COLOR B", decimal_string(zone.color[2] as u64)),
        UiRow::new("BRIGHTNESS", to_brightness_percentage(zone.brightness)),
        UiRow::new("SPEED", decimal_string(zone.speed as u64)),
        UiRow::new("LINK ZONES", string_from_chars(&link_text)),
    ];
    assert(link_text@ =~= bool_text(link));
    assert(row_views(rows@) =~= lighting_rows(*zone, label@, link));
    draw_options(out, index, rows.as_slice());
}

/// ` RGB(r, g, b)`, the channels of color `c` in decimal.
pub open spec fn rgb_text(c: [u8; 3]) -> Seq<char> {
    seq![' ', 'R', 'G', 'B', '('] + decimal(c[0] as nat) + seq![','] + seq![' '] + decimal(
        c[1] as nat,
    ) + seq![','] + seq![' '] + decimal(c[2] as nat) + seq![')']
}

/// The terminal escape that sets the background to color `c`.
pub open spec fn background_escape(c: [u8; 3]) -> Seq<char> {
    seq!['\x1b', '[', '4', '8', ';', '2', ';'] + decimal(c[0] as nat) + seq![';'] + decimal(
        c[1] as nat,
    ) + seq![';'] + decimal(c[2] as nat) + seq!['m']
}

/// The line that shows color `c`: a label, a bar in that color, its RGB
/// values.
pub open spec fn color_bar(c: [u8; 3]) -> Seq<char> {
    let label = seq!['C', 'o', 'l', 'o', 'r', ':', ' '];
    let rgb = rgb_text(c);
    seq!['│', ' '] + label + background_escape(c) + repeat_char(
        ' ',
        (TOTAL_WIDTH - 3 - label.len() - rgb.len()) as nat,
    ) + seq!['\x1b', '[', '0', 'm'] + rgb + seq!['│', '\n']
}

proof fn lemma_decimal_short(n: nat)
    requires
        n < 1000,
    ensures
        decimal(n).len() <= 3,
{
    reveal_with_fuel(decimal, 3);
}

fn push_rgb_text(out: &mut Vec<char>, color: [u8; 3])
    ensures
        final(out)@ == old(out)@ + rgb_text(color),
{
    let ghost start = out@;
    out.push(' ');
    out.push('R');
    out.push('G');
    out.push('B');
    out.push('(');
    let ghost a = out@;
    push_decimal(out, color[0] as u64);
    out.push(',');
    out.push(' ');
    let ghost b = out@;
    push_decimal(out, color[1] as u64);
    out.push(',');
    out.push(' ');
    let ghost c = out@;
    push_decimal(out, color[2] as u64);
    out.push(')');
    assert(a =~= start + seq![' ', 'R', 'G', 'B', '(']);
    assert(b =~= a + decimal(color[0] as nat) + seq![','] + seq![' ']);
    assert(c =~= b + decimal(color[1] as nat) + seq![','] + seq![' ']);
    assert(out@ =~= c + decimal(color[2] as nat) + seq![')']);
    assert(out@ =~= start + rgb_text(color));
}

fn push_background_escape(out: &mut Vec<char>, color: [u8; 3])
    ensures
        final(out)@ == old(out)@ + background_escape(color),
{
    let ghost start = out@;
    out.push('\x1b');
    out.push('[');
    out.push('4');
    out.push('8');
    out.push(';');
    out.push('2');
    out.push(';');
    let ghost a = out@;
    push_decimal(out, color[0] as u64);
    out.push(';');
    let ghost b = out@;
    push_decimal(out, color[1] as u64);
    out.push(';');
    let ghost c = out@;
    push_decimal(out, color[2] as u64);
    out.push('m');
    assert(a =~= start + seq!['\x1b', '[', '4', '8', ';', '2', ';']);
    assert(b =~= a + decimal(color[0] as nat) + seq![';']);
    assert(c =~= b + decimal(color[1] as nat) + seq![';']);
    assert(out@ =~= c + decimal(color[2] as nat) + seq!['m']);
    assert(out@ =~= start + background_escape(color));
}

/// Append the line that shows color `color`.
pub fn draw_lighting_color_bar(out: &mut Vec<char>, color: [u8; 3])
    ensures
        final(out)@ == old(out)@ + color_bar(color),
{
    let ghost start = out@;
    let mut rgb: Vec<char> = Vec::new();
    push_rgb_text(&mut rgb, color);
    proof {
        lemma_decimal_short(color[0] as nat);
        lemma_decimal_short(color[1] as nat);
        lemma_decimal_short(color[2] as nat);
    }
    assert(rgb@ =~= rgb_text(color));
    let ghost label = seq!['C', 'o', 'l', 'o', 'r', ':', ' '];
    out.push('│');
    out.push(' ');
    out.push('C');
    out.push('o');
    out.push('l');
    out.push('o');
    out.push('r');
    out.push(':');
    out.push(' ');
    let ghost a = out@;
    assert(a =~= start + seq!['│', ' '] + label);
    push_background_escape(out, color);
    let ghost b = out@;
    push_repeat(out, ' ', TOTAL_WIDTH - 3 - 7 - rgb.len());
    let ghost c = out@;
    out.push('\x1b');
    out.push('[');
    out.push('0');
    out.push('m');
    let ghost d = out@;
    assert(d =~= c + seq!['\x1b', '[', '0', 'm']);
    push_chars(out, &rgb);
    out.push('│');
    out.push('\n');
    assert(out@ =~= d + rgb_text(color) + seq!['│', '\n']);
    assert(out@ =~= start + color_bar(color));
}

/// The status line with its separator, when there is a status.
pub open spec fn status_text(status: Option<Seq<char>>) -> Seq<char> {
    match status {
        Some(m) => boxed(m) + frame_line('├', '┤'),
        None => Seq::empty(),
    }
}

fn draw_status(out: &mut Vec<char>, status: &Option<String>)
    ensures
        final(out)@ == old(out)@ + status_text(
            match status {
                Some(m) => Some(m@),
                None => None,
            },
        ),
{
    match status {
        Some(m) => {
            let ghost start = out@;
            box_content(out, m.as_str());
            draw_separator(out);
            assert(out@ =~= start + boxed(m@) + frame_line('├', '┤'));
        },
        None => {
            assert(out@ =~= old(out)@ + Seq::<char>::empty());
        },
    }
}

/// The key hints of the lighting editor.
pub open spec fn lighting_hint() -> Seq<char> {
    "[↑/↓] Navigate  [←/→] Change  [Bksp] Back"@
}

/// The top of the lighting editor: title and the color of the edited zone.
pub open spec fn lighting_head(z: ZoneState) -> Seq<char> {
    frame_line('┌', '┐') + side_padded("< BACK"@, "LIGHTING"@) + frame_line('├', '┤') + color_bar(
        z.color,
    ) + frame_line('├', '┤')
}

/// The bottom of the lighting editor: the status if any, the key hints.
pub open spec fn lighting_tail(status: Option<Seq<char>>) -> Seq<char> {
    frame_line('├', '┤') + status_text(status) + boxed(lighting_hint()) + frame_line('└', '┘')
}

/// The lighting editor: title, the color of zone `z`, its rows, the status
/// if any, the key hints.
pub open spec fn lighting_screen(
    index: int,
    z: ZoneState,
    label: Seq<char>,
    link: bool,
    status: Option<Seq<char>>,
) -> Seq<char> {
    lighting_head(z) + options_text(
        lighting_rows(z, label, link),
        index,
        name_width(lighting_rows(z, label, link)),
    ) + lighting_tail(status)
}

fn draw_lighting_head(out: &mut Vec<char>, zone: &ZoneState)
    ensures
        final(out)@ == old(out)@ + lighting_head(*zone),
{
    let ghost start = out@;
    proof {
        reveal_strlit("< BACK");
        reveal_strlit("LIGHTING");
    }
    draw_top(out);
    box_and_side_pad(out, "< BACK", "LIGHTING");
    draw_separator(out);
    draw_lighting_color_bar(out, zone.color);
    draw_separator(out);
    assert(out@ =~= start + lighting_head(*zone));
}

fn draw_lighting_tail(out: &mut Vec<char>, status: &Option<String>)
    ensures
        final(out)@ == old(out)@ + lighting_tail(
            match status {
                Some(m) => Some(m@),
                None => None,
            },
        ),
{
    let ghost start = out@;
    draw_separator(out);
    draw_status(out, status);
    box_content(out, "[↑/↓] Navigate  [←/→] Change  [Bksp] Back");
    draw_bottom(out);
    assert(out@ =~= start + lighting_tail(
        match status {
            Some(m) => Some(m@),
            None => None,
        },
    ));
}

/// Append the lighting editor for zone `zone` (shown as `label`), the
/// cursor on row `index`, with status line `status` if any.
pub fn draw_lighting_ui(
    out: &mut Vec<char>,
    index: usize,
    zone: &ZoneState,
    label: &str,
    link: bool,
    status: &Option<String>,
)
    ensures
        final(out)@ == old(out)@ + lighting_screen(
            index as int,
            *zone,
            label@,
            link,
            match status {
                Some(m) => Some(m@),
                None => None,
            },
        ),
{
    let ghost start = out@;
    draw_lighting_head(out, zone);
    let ghost a = out@;
    draw_lighting_options(out, index, zone, label, link);
    let ghost b = out@;
    draw_lighting_tail(out, status);
    assert(out@ =~= start + lighting_screen(
        index as int,
        *zone,
        label@,
        link,
        match status {
            Some(m) => Some(m@),
            None => None,
        },
    ));
}

/// A saved profile as the profile list shows it: its name and a summary.
#[derive(Debug, Clone)]
pub struct ProfileEntry {
    pub name: String,
    pub summary: String,
}

/// Entries as plain values: name, summary.
pub open spec fn entry_views(entries: Seq<ProfileEntry>) -> Seq<(Seq<char>, Seq<char>)> {
    entries.map_values(|e: ProfileEntry| (e.name@, e.summary@))
}

/// The entries, each its name (marked `>` under the cursor at `index`) and
/// its summary indented below.
pub open spec fn entries_text(entries: Seq<(Seq<char>, Seq<char>)>, index: int) -> Seq<char>
    decreases entries.len(),
{
    if entries.len() == 0 {
        Seq::empty()
    } else {
        let j = entries.len() - 1;
        entries_text(entries.drop_last(), index) + boxed(
            (if j == index {
                seq!['>', ' ']
            } else {
                seq![' ', ' ']
            }) + entries.last().0,
        ) + boxed(seq![' ', ' ', ' ', ' '] + entries.last().1)
    }
}

/// The profile list: title, the entries (or a note that there are none),
/// the status if any, the key hints.
pub open spec fn profiles_screen(
    entries: Seq<(Seq<char>, Seq<char>)>,
    index: int,
    status: Option<Seq<char>>,
) -> Seq<char> {
    frame_line('┌', '┐') + side_padded("< BACK"@, "PROFILES"@) + frame_line('├', '┤') + (if entries.len()
        == 0 {
        boxed("(no saved profiles)"@)
    } else {
        entries_text(entries, index)
    }) + frame_line('├', '┤') + status_text(status) + boxed(
        "[↑/↓] Select  [Enter] Apply  [Bksp] Back"@,
    ) + boxed("[n] Save current  [Del] Delete"@) + frame_line('└', '┘')
}

fn draw_entries(out: &mut Vec<char>, entries: &[ProfileEntry], index: usize)
    ensures
        final(out)@ == old(out)@ + entries_text(entry_views(entries@), index as int),
{
    let ghost start = out@;
    let mut i: usize = 0;
    while i < entries.len()
        invariant
            i <= entries@.len(),
            out@ == start + entries_text(entry_views(entries@.take(i as int)), index as int),
        decreases entries@.len() - i,
    {
        assert(entry_views(entries@.take(i + 1)).drop_last() =~= entry_views(
            entries@.take(i as int),
        ));
        let mut head: Vec<char> = Vec::new();
        if i == index {
            head.push('>');
            head.push(' ');
        } else {
            head.push(' ');
            head.push(' ');
        }
        push_str(&mut head, entries[i].name.as_str());
        let mut sub: Vec<char> = Vec::new();
        sub.push(' ');
        sub.push(' ');
        sub.push(' ');
        sub.push(' ');
        push_str(&mut sub, entries[i].summary.as_str());
        assert(head@ =~= (if i == index {
            seq!['>', ' ']
        } else {
            seq![' ', ' ']
        }) + entry_views(entries@.take(i + 1)).last().0);
        assert(sub@ =~= seq![' ', ' ', ' ', ' '] + entry_views(entries@.take(i + 1)).last().1);
        let ghost before = out@;
        box_chars(out, &head);
        box_chars(out, &sub);
        assert(out@ =~= before + boxed(head@) + boxed(sub@));
        assert(out@ =~= start + entries_text(entry_views(entries@.take(i + 1)), index as int));
        i = i + 1;
    }
    assert(entries@.take(entries@.len() as int) =~= entries@);
}

/// Append the profile list, the cursor on entry `index`, with status line
/// `status` if any.
pub fn draw_profiles_ui(
    out: &mut Vec<char>,
    entries: &[ProfileEntry],
    index: usize,
    status: &Option<String>,
)
    ensures
        final(out)@ == old(out)@ + profiles_screen(
            entry_views(entries@),
            index as int,
            match status {
                Some(m) => Some(m@),
                None => None,
            },
        ),
{
    let ghost start = out@;
    proof {
        reveal_strlit("< BACK");
        reveal_strlit("PROFILES");
    }
    draw_top(out);
    box_and_side_pad(out, "< BACK", "PROFILES");
    draw_separator(out);
    let ghost mid = out@;
    if entries.len() == 0 {
        box_content(out, "(no saved profiles)");
    } else {
        draw_entries(out, entries, index);
    }
    let ghost listed = out@;
    draw_separator(out);
    draw_status(out, status);
    box_content(out, "[↑/↓] Select  [Enter] Apply  [Bksp] Back");
    box_content(out, "[n] Save current  [Del] Delete");
    draw_bottom(out);
    assert(out@ =~= start + profiles_screen(
        entry_views(entries@),
        index as int,
        match status {
            Some(m) => Some(m@),
            None => None,
        },
    ));
}

/// The prompt for a new profile's name: the name typed so far with a
/// cursor mark, the error if any, the key hints.
pub open spec fn save_prompt_screen(input: Seq<char>, error: Option<Seq<char>>) -> Seq<char> {
    frame_line('┌', '┐') + side_padded("< BACK"@, "SAVE PROFILE"@) + frame_line('├', '┤') + boxed(
        "Save current settings as:"@,
    ) + boxed("name: "@ + input + seq!['_']) + frame_line('├', '┤') + status_text(error) + boxed(
        "[Enter] Save  [Bksp] Edit  [Esc] Cancel"@,
    ) + frame_line('└', '┘')
}

/// Append the prompt for a new profile's name.
pub fn draw_save_prompt_ui(out: &mut Vec<char>, input: &str, error: &Option<String>)
    ensures
        final(out)@ == old(out)@ + save_prompt_screen(
            input@,
            match error {
                Some(m) => Some(m@),
                None => None,
            },
        ),
{
    let ghost start = out@;
    proof {
        reveal_strlit("< BACK");
        reveal_strlit("SAVE PROFILE");
    }
    draw_top(out);
    box_and_side_pad(out, "< BACK", "SAVE PROFILE");
    draw_separator(out);
    box_content(out, "Save current settings as:");
    let mut line: Vec<char> = Vec::new();
    push_str(&mut line, "name: ");
    push_str(&mut line, input);
    line.push('_');
    assert(line@ =~= "name: "@ + input@ + seq!['_']);
    box_chars(out, &line);
    draw_separator(out);
    draw_status(out, error);
    box_content(out, "[Enter] Save  [Bksp] Edit  [Esc] Cancel");
    draw_bottom(out);
    assert(out@ =~= start + save_prompt_screen(
        input@,
        match error {
            Some(m) => Some(m@),
            None => None,
        },
    ));
}

/// The question whether to delete profile `name`.
pub open spec fn confirm_delete_screen(name: Seq<char>) -> Seq<char> {
    frame_line('┌', '┐') + side_padded("< BACK"@, "DELETE PROFILE"@) + frame_line('├', '┤') + boxed(
        "Delete "@ + name + seq!['?'],
    ) + frame_line('├', '┤') + boxed("[y] Yes  [n] No"@) + frame_line('└', '┘')
}

/// Append the question whether to delete profile `name`.
pub fn draw_confirm_delete_ui(out: &mut Vec<char>, name: &str)
    ensures
        final(out)@ == old(out)@ + confirm_delete_screen(name@),
{
    let ghost start = out@;
    proof {
        reveal_strlit("< BACK");
        reveal_strlit("DELETE PROFILE");
    }
    draw_top(out);
    box_and_side_pad(out, "< BACK", "DELETE PROFILE");
    draw_separator(out);
    let mut line: Vec<char> = Vec::new();
    push_str(&mut line, "Delete ");
    push_str(&mut line, name);
    line.push('?');
    assert(line@ =~= "Delete "@ + name@ + seq!['?']);
    box_chars(out, &line);
    draw_separator(out);
    box_content(out, "[y] Yes  [n] No");
    draw_bottom(out);
    assert(out@ =~= start + confirm_delete_screen(name@));
}

/// The parts of a profile's summary: its DPI, the effect and brightness of
/// its zone for all LEDs, its polling rate, each when it has one.
pub open spec fn summary_parts(s: ProfileSettingsView) -> Seq<Seq<char>> {
    (match s.dpi {
        Some(d) => seq!["DPI "@ + decimal(d.x as nat) + seq!['x'] + decimal(d.y as nat)],
        None => Seq::empty(),
    }) + (match s.global_zone {
        Some(z) => seq![
            effect_label(z.effect) + seq![' '] + decimal((z.brightness * 100 / 255) as nat) + seq![
                '%',
            ],
        ],
        None => Seq::empty(),
    }) + (match s.polling_hz {
        Some(hz) => seq![decimal(hz as nat) + " Hz"@],
        None => Seq::empty(),
    })
}

/// `parts` joined by two spaces.
pub open spec fn joined(parts: Seq<Seq<char>>) -> Seq<char>
    decreases parts.len(),
{
    if parts.len() == 0 {
        Seq::empty()
    } else if parts.len() == 1 {
        parts[0]
    } else {
        joined(parts.drop_last()) + seq![' ', ' '] + parts.last()
    }
}

/// A profile's summary in the profile list: its parts joined by two spaces,
/// or `(no settings)`.
pub open spec fn profile_summary_text(s: ProfileSettingsView) -> Seq<char> {
    if summary_parts(s).len() == 0 {
        "(no settings)"@
    } else {
        joined(summary_parts(s))
    }
}

fn push_part(out: &mut Vec<char>, parts: Ghost<Seq<Seq<char>>>, count: usize, part: &Vec<char>)
    requires
        old(out)@ == joined(parts@),
        count == parts@.len(),
    ensures
        final(out)@ == joined(parts@.push(part@)),
{
    let ghost p = parts@.push(part@);
    assert(p.drop_last() =~= parts@);
    if count > 0 {
        out.push(' ');
        out.push(' ');
    }
    push_chars(out, part);
    assert(final(out)@ =~= joined(p));
}

/// The summary of a profile for the profile list.
pub fn profile_summary_for(profile: &Profile) -> (s: String)
    ensures
        s@ == profile_summary_text(profile.settings@),
{
    let settings = &profile.settings;
    let ghost mut parts: Seq<Seq<char>> = Seq::empty();
    let mut count: usize = 0;
    let mut out: Vec<char> = Vec::new();
    assert(out@ =~= joined(parts));
    if let Some(d) = settings.dpi {
        let mut p: Vec<char> = Vec::new();
        push_str(&mut p, "DPI ");
        push_decimal(&mut p, d.x as u64);
        p.push('x');
        push_decimal(&mut p, d.y as u64);
        assert(p@ =~= "DPI "@ + decimal(d.x as nat) + seq!['x'] + decimal(d.y as nat));
        push_part(&mut out, Ghost(parts), count, &p);
        proof {
            parts = parts.push(p@);
        }
        count = count + 1;
    }
    if let Some(z) = settings.global_zone {
        let mut p: Vec<char> = Vec::new();
        push_str(&mut p, effect_name(z.effect));
        p.push(' ');
        push_decimal(&mut p, z.brightness as u64 * 100 / 255);
        p.push('%');
        assert(p@ =~= effect_label(z.effect) + seq![' '] + decimal((z.brightness * 100 / 255) as nat)
            + seq!['%']);
        push_part(&mut out, Ghost(parts), count, &p);
        proof {
            parts = parts.push(p@);
        }
        count = count + 1;
    }
    if let Some(hz) = settings.polling_hz {
        let mut p: Vec<char> = Vec::new();
        push_decimal(&mut p, hz as u64);
        push_str(&mut p, " Hz");
        assert(p@ =~= decimal(hz as nat) + " Hz"@);
        push_part(&mut out, Ghost(parts), count, &p);
        proof {
            parts = parts.push(p@);
        }
        count = count + 1;
    }
    assert(parts =~= summary_parts(settings@));
    if count == 0 {
        "(no settings)".to_string()
    } else {
        string_from_chars(&out)
    }
}

} // verus!
