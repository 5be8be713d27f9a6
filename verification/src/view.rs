//! What the screens show: the content frame, which section boxes fit, and
//! the text and style of every line the front end draws.
use vstd::prelude::*;
use vstd::string::*;

use crate::app::{App, ItemStateView, Nav};
use crate::software::Rule;
use crate::text::{join_from, join_spec, owned, pad_right, pad_right_spec};
use crate::theme::{self, Color, Style};

verus! {

// ---------------------------------------------------------------------------
// Layout arithmetic
// ---------------------------------------------------------------------------

/// A rectangle of terminal cells.
#[derive(Clone, Copy, PartialEq, Eq, Debug, Structural)]
pub struct Area {
    pub x: u16,
    pub y: u16,
    pub width: u16,
    pub height: u16,
}

/// `v` limited to `[lo, hi]`.
pub open spec fn clamp_spec(v: int, lo: int, hi: int) -> int {
    if v < lo {
        lo
    } else if v > hi {
        hi
    } else {
        v
    }
}

/// `a - b`, or 0 when `b` is larger.
pub open spec fn sat_sub(a: int, b: int) -> int {
    if a >= b {
        a - b
    } else {
        0
    }
}

/// Widest content frame.
pub const MAX_W: u16 = 88;

/// Tallest content frame.
pub const MAX_H: u16 = 38;

/// The content frame inside `full`: at most 88 × 38 cells, always leaving a
/// margin of 2 columns on each side and 1 row above and below when there is
/// room, centered.
pub open spec fn frame_area_spec(full: Area) -> Area {
    let w = clamp_spec(sat_sub(full.width as int, 4), 1, MAX_W as int);
    let h = clamp_spec(sat_sub(full.height as int, 2), 1, MAX_H as int);
    Area {
        x: (full.x + sat_sub(full.width as int, w) / 2) as u16,
        y: (full.y + sat_sub(full.height as int, h) / 2) as u16,
        width: w as u16,
        height: h as u16,
    }
}

/// A centered content frame. Terminals vary wildly in size, so the content
/// is capped to a comfortable size and centered with a margin on every side;
/// on a small terminal it fills the space minus a thin margin.
pub fn frame_area(full: Area) -> (r: Area)
    requires
        full.x + sat_sub(full.width as int, clamp_spec(sat_sub(full.width as int, 4), 1, MAX_W as int))
            / 2 <= u16::MAX,
        full.y + sat_sub(full.height as int, clamp_spec(sat_sub(full.height as int, 2), 1, MAX_H as int))
            / 2 <= u16::MAX,
    ensures
        r == frame_area_spec(full),
{
    let w0 = full.width.saturating_sub(4);
    let w = if w0 < 1 {
        1
    } else if w0 > MAX_W {
        MAX_W
    } else {
        w0
    };
    let h0 = full.height.saturating_sub(2);
    let h = if h0 < 1 {
        1
    } else if h0 > MAX_H {
        MAX_H
    } else {
        h0
    };
    let x = full.x + full.width.saturating_sub(w) / 2;
    let y = full.y + full.height.saturating_sub(h) / 2;
    Area { x, y, width: w, height: h }
}

/// The height of a section box: one line plus borders when collapsed,
/// otherwise its rows plus borders.
pub fn box_height(collapsed: bool, count: usize) -> (h: u16)
    requires
        count + 2 <= u16::MAX,
    ensures
        h == if collapsed {
            3
        } else {
            count + 2
        },
{
    if collapsed {
        3
    } else {
        count as u16 + 2
    }
}

/// Going from box `j` on, with `used` lines taken so far and `last` the last
/// box that fit: the last box that still fits into `avail` lines, stopping at
/// the first box that does not.
pub open spec fn last_fit(h: Seq<u16>, avail: int, j: int, used: int, last: int) -> int
    decreases h.len() - j,
{
    if j < 0 || j >= h.len() {
        last
    } else if used + h[j] <= avail {
        last_fit(h, avail, j + 1, used + h[j], j)
    } else {
        last
    }
}

/// The last box that is fully visible when the view starts at box `start`
/// (at least `start` itself).
pub open spec fn last_fitting(h: Seq<u16>, avail: int, start: int) -> int {
    last_fit(h, avail, start, 0, start)
}

/// The first start box, from `s` on, whose view shows box `cur`.
pub open spec fn start_from(h: Seq<u16>, avail: int, cur: int, s: int) -> int
    decreases cur - s,
{
    if s >= cur || cur <= last_fitting(h, avail, s) {
        s
    } else {
        start_from(h, avail, cur, s + 1)
    }
}

proof fn lemma_last_fit_bounds(h: Seq<u16>, avail: int, j: int, used: int, last: int)
    requires
        0 <= j,
        last < j || j == last,
        0 <= last,
    ensures
        last <= last_fit(h, avail, j, used, last),
        last_fit(h, avail, j, used, last) < h.len() || last_fit(h, avail, j, used, last) == last,
    decreases h.len() - j,
{
    if j < h.len() && used + h[j] <= avail {
        lemma_last_fit_bounds(h, avail, j + 1, used + h[j], j);
    }
}

fn last_fitting_exec(heights: &Vec<u16>, avail: u16, start: usize) -> (last: usize)
    ensures
        last == last_fitting(heights@, avail as int, start as int),
        last >= start,
{
    let mut used: u32 = 0;
    let mut last = start;
    let mut j = start;
    proof {
        lemma_last_fit_bounds(heights@, avail as int, start as int, 0, start as int);
    }
    while j < heights.len()
        invariant
            start <= last,
            last <= j,
            used <= avail,
            last_fitting(heights@, avail as int, start as int) == last_fit(
                heights@,
                avail as int,
                j as int,
                used as int,
                last as int,
            ),
        decreases heights@.len() - j,
    {
        if used + (heights[j] as u32) <= avail as u32 {
            used = used + heights[j] as u32;
            last = j;
            j = j + 1;
        } else {
            return last;
        }
    }
    last
}

/// Which boxes the scan screen shows, scrolling by whole boxes so the box
/// with the cursor is always fully visible: the first and last visible box.
pub fn visible_boxes(heights: &Vec<u16>, avail: u16, cur_box: usize) -> (r: (usize, usize))
    ensures
        r.0 == start_from(heights@, avail as int, cur_box as int, 0),
        r.1 == last_fitting(heights@, avail as int, r.0 as int),
        r.0 <= r.1,
        r.0 <= cur_box <= r.1,
{
    let mut start: usize = 0;
    loop
        invariant
            start <= cur_box,
            start_from(heights@, avail as int, cur_box as int, 0) == start_from(
                heights@,
                avail as int,
                cur_box as int,
                start as int,
            ),
        decreases cur_box - start,
    {
        let last = last_fitting_exec(heights, avail, start);
        if cur_box <= last {
            return (start, last);
        }
        start = start + 1;
    }
}

// ---------------------------------------------------------------------------
// Numbers
// ---------------------------------------------------------------------------

/// The decimal digit for `d`.
pub open spec fn digit_char(d: nat) -> char {
    if d == 0 {
        '0'
    } else if d == 1 {
        '1'
    } else if d == 2 {
        '2'
    } else if d == 3 {
        '3'
    } else if d == 4 {
        '4'
    } else if d == 5 {
        '5'
    } else if d == 6 {
        '6'
    } else if d == 7 {
        '7'
    } else if d == 8 {
        '8'
    } else {
        '9'
    }
}

/// The decimal representation of `n`, as `{}` formats it.
pub open spec fn decimal_spec(n: nat) -> Seq<char>
    decreases n,
{
    if n < 10 {
        seq![digit_char(n)]
    } else {
        decimal_spec(n / 10).push(digit_char(n % 10))
    }
}

fn digit_str(d: usize) -> (s: &'static str)
    requires
        d < 10,
    ensures
        s@ == seq![digit_char(d as nat)],
{
    proof {
        reveal_strlit("0");
        reveal_strlit("1");
        reveal_strlit("2");
        reveal_strlit("3");
        reveal_strlit("4");
        reveal_strlit("5");
        reveal_strlit("6");
        reveal_strlit("7");
        reveal_strlit("8");
        reveal_strlit("9");
    }
    if d == 0 {
        "0"
    } else if d == 1 {
        "1"
    } else if d == 2 {
        "2"
    } else if d == 3 {
        "3"
    } else if d == 4 {
        "4"
    } else if d == 5 {
        "5"
    } else if d == 6 {
        "6"
    } else if d == 7 {
        "7"
    } else if d == 8 {
        "8"
    } else {
        "9"
    }
}

/// `n` written in decimal.
pub fn decimal(n: usize) -> (s: String)
    ensures
        s@ == decimal_spec(n as nat),
    decreases n,
{
    if n < 10 {
        owned(digit_str(n))
    } else {
        let mut s = decimal(n / 10);
        s.append(digit_str(n % 10));
        s
    }
}

// ---------------------------------------------------------------------------
// Scan screen
// ---------------------------------------------------------------------------

/// A piece of text in one style.
pub struct Span {
    pub text: String,
    pub style: Style,
}

/// The mathematical value of a list of spans.
pub open spec fn spans_view(v: Seq<Span>) -> Seq<(Seq<char>, Style)> {
    v.map_values(|s: Span| (s.text@, s.style))
}

/// The checkbox of a tool's row: none before the scan is done or for a tool
/// that is not missing; ticked for a missing required tool (locked in) or a
/// selected one; empty otherwise.
pub open spec fn mark_spec(a: App, i: int) -> Seq<char> {
    if !a.scan_done || !a.missing(i) {
        "    "@
    } else if a.rule_spec(i) == Rule::Required || a.selected@[i] {
        "[X] "@
    } else {
        "[ ] "@
    }
}

/// The status column of a tool's row: an ellipsis while it is checked, the
/// detected version once installed, nothing when missing.
pub open spec fn status_spec(a: App, i: int) -> (Seq<char>, Style) {
    match a.states@[i]@ {
        ItemStateView::Checking => ("…"@, Style { fg: Some(theme::spec_gray()), bg: None, bold: false }),
        ItemStateView::Installed(d) => (
            d,
            Style { fg: Some(theme::spec_good_color()), bg: None, bold: false },
        ),
        ItemStateView::Missing => (
            Seq::empty(),
            Style { fg: Some(theme::spec_gray()), bg: None, bold: false },
        ),
    }
}

/// The bold style of a tool's name.
pub open spec fn bold_style() -> Style {
    Style { fg: None, bg: None, bold: true }
}

/// The spans of a tool's row on the scan screen: checkbox, name, preferred
/// tag and status, in fixed-width columns so they line up down the list.
pub open spec fn scan_line_spec(a: App, i: int) -> Seq<(Seq<char>, Style)> {
    seq![
        (" "@ + mark_spec(a, i), Style { fg: Some(theme::spec_orange()), bg: None, bold: false }),
        (pad_right_spec(a.items@[i].name@, 22), bold_style()),
        (
            pad_right_spec(
                if a.items@[i].preferred {
                    "★ preferred"@
                } else {
                    Seq::empty()
                },
                12,
            ),
            Style { fg: Some(theme::spec_orange()), bg: None, bold: true },
        ),
        status_spec(a, i),
    ]
}

/// The display line for one tool on the scan screen.
pub fn scan_line(app: &App, i: usize) -> (line: Vec<Span>)
    requires
        app.wf(),
        i < app.items@.len(),
    ensures
        spans_view(line@) == scan_line_spec(*app, i as int),
{
    let sw = &app.items[i];
    let (status_text, status_style) = match &app.states[i] {
        crate::app::ItemState::Checking => (owned("…"), theme::dim()),
        crate::app::ItemState::Installed(d) => (d.clone(), theme::good()),
        crate::app::ItemState::Missing => (String::new(), theme::dim()),
    };
    let missing = match &app.states[i] {
        crate::app::ItemState::Missing => true,
        _ => false,
    };
    let mark = if !app.scan_done || !missing {
        "    "
    } else if app.rule_of(i) == Rule::Required || app.selected[i] {
        "[X] "
    } else {
        "[ ] "
    };
    let mut first = owned(" ");
    first.append(mark);
    let star = if sw.preferred {
        "★ preferred"
    } else {
        ""
    };
    proof {
        reveal_strlit("");
    }
    let mut line: Vec<Span> = Vec::new();
    line.push(Span { text: first, style: theme::border() });
    line.push(Span { text: pad_right(sw.name.as_str(), 22), style: Style { fg: None, bg: None, bold: true } });
    line.push(Span { text: pad_right(star, 12), style: theme::title() });
    line.push(Span { text: status_text, style: status_style });
    assert(spans_view(line@) =~= scan_line_spec(*app, i as int));
    line
}

/// The title of a section box: a collapsible section carries ▸ when
/// collapsed and ▾ when expanded.
pub open spec fn box_title_spec(a: App, sec: int) -> Seq<char> {
    let t = a.sections@[sec].title@;
    if a.sections@[sec].collapsible {
        " "@ + (if a.collapsed@[sec] {
            "▸"@
        } else {
            "▾"@
        }) + t
    } else {
        t
    }
}

/// The title of section `sec`'s box.
pub fn box_title(app: &App, sec: usize) -> (t: String)
    requires
        app.wf(),
        sec < app.sections@.len(),
    ensures
        t@ == box_title_spec(*app, sec as int),
{
    let title = &app.sections[sec].title;
    if app.sections[sec].collapsible {
        let arrow = if app.collapsed[sec] {
            "▸"
        } else {
            "▾"
        };
        let mut r = owned(" ");
        r.append(arrow);
        r.append(title.as_str());
        r
    } else {
        title.clone()
    }
}

/// The single line of a collapsed section box, highlighted when the cursor
/// is on it.
pub open spec fn collapsed_text_spec(count: nat, selected: bool) -> (Seq<char>, Style) {
    if selected {
        (
            " > "@ + decimal_spec(count) + " tools — →/space to expand "@,
            Style { fg: Some(Color::Black), bg: Some(theme::spec_orange()), bold: true },
        )
    } else {
        (
            "   "@ + decimal_spec(count) + " tools — →/space to expand"@,
            Style { fg: Some(theme::spec_gray()), bg: None, bold: false },
        )
    }
}

/// The text and style of a collapsed section box.
pub fn collapsed_text(count: usize, selected: bool) -> (r: (String, Style))
    ensures
        (r.0@, r.1) == collapsed_text_spec(count as nat, selected),
{
    if selected {
        let mut t = owned(" > ");
        t.append(decimal(count).as_str());
        t.append(" tools — →/space to expand ");
        (t, theme::highlight())
    } else {
        let mut t = owned("   ");
        t.append(decimal(count).as_str());
        t.append(" tools — →/space to expand");
        (t, theme::dim())
    }
}

/// The index of the box holding the row under the cursor: the last box when
/// the cursor is on the Confirm button below the list, the first box when the
/// cursor is on no row or its section has no box.
pub open spec fn cursor_box_spec(a: App) -> int {
    match a.cursor_nav_spec() {
        Some(n) => match crate::app::row_section(a.items@, n) {
            Some(sec) => match box_of(a, sec, 0) {
                Some(b) => b,
                None => 0,
            },
            None => if a.boxes@.len() > 0 {
                a.boxes@.len() - 1
            } else {
                0
            },
        },
        None => 0,
    }
}

/// The first box, from `k` on, for section `sec`.
pub open spec fn box_of(a: App, sec: usize, k: int) -> Option<int>
    decreases a.boxes@.len() - k,
{
    if k < 0 || k >= a.boxes@.len() {
        None
    } else if a.boxes@[k].0 == sec {
        Some(k)
    } else {
        box_of(a, sec, k + 1)
    }
}

/// Which box holds the row under the cursor.
pub fn cursor_box(app: &App) -> (b: usize)
    requires
        app.wf(),
    ensures
        b == cursor_box_spec(*app),
        app.boxes@.len() > 0 ==> b < app.boxes@.len(),
{
    proof {
        crate::app::lemma_rows_in_range(*app);
    }
    let sec = match app.cursor_nav() {
        Some(Nav::Header(s)) => s,
        Some(Nav::Item(i)) => app.items[i].section,
        Some(Nav::Confirm) => {
            return if app.boxes.len() > 0 {
                app.boxes.len() - 1
            } else {
                0
            };
        },
        None => return 0,
    };
    assert(app.cursor_nav_spec() matches Some(nv) && crate::app::row_section(app.items@, nv) == Some(sec));
    assert(cursor_box_spec(*app) == match box_of(*app, sec, 0) {
        Some(b) => b,
        None => 0,
    });
    let mut k: usize = 0;
    while k < app.boxes.len()
        invariant
            k <= app.boxes@.len(),
            box_of(*app, sec, 0) == box_of(*app, sec, k as int),
            cursor_box_spec(*app) == match box_of(*app, sec, 0) {
                Some(b) => b,
                None => 0,
            },
        decreases app.boxes@.len() - k,
    {
        if app.boxes[k].0 == sec {
            return k;
        }
        k = k + 1;
    }
    0
}

/// The About pane: the description of the tool under the cursor, a hint on
/// a collapsed header, nothing otherwise.
pub open spec fn about_spec(a: App) -> Seq<char> {
    match a.cursor_nav_spec() {
        Some(Nav::Item(i)) => a.items@[i as int].description@,
        Some(Nav::Header(_)) => "Optional tooling — expand to see what's inside."@,
        Some(Nav::Confirm) => "Install the selected tools."@,
        None => Seq::empty(),
    }
}

/// The text of the About pane.
pub fn about_text(app: &App) -> (t: String)
    requires
        app.wf(),
    ensures
        t@ == about_spec(*app),
{
    proof {
        crate::app::lemma_rows_in_range(*app);
    }
    match app.cursor_nav() {
        Some(Nav::Item(i)) => app.items[i].description.clone(),
        Some(Nav::Header(_)) => owned("Optional tooling — expand to see what's inside."),
        Some(Nav::Confirm) => owned("Install the selected tools."),
        None => String::new(),
    }
}

/// How many tools are selected.
pub open spec fn count_selected(s: Seq<bool>, n: int) -> nat
    decreases n,
{
    if n <= 0 {
        0
    } else {
        count_selected(s, n - 1) + if s[n - 1] {
            1nat
        } else {
            0nat
        }
    }
}

/// The footer of the scan screen: the notice when there is one; after the
/// scan, the key hints for the row under the cursor (on the Confirm button,
/// with the number of selected tools); during the scan, a progress note.
pub open spec fn scan_footer_spec(a: App) -> (Seq<char>, Style) {
    match a.notice {
        Some(n) => (" ⚠ "@ + n@, Style { fg: Some(theme::spec_bad_color()), bg: None, bold: false }),
        None => if a.scan_done {
            let n = decimal_spec(count_selected(a.selected@, a.selected@.len() as int));
            (
                match a.cursor_nav_spec() {
                    Some(Nav::Header(_)) => " ↑/↓ move · →/space expand · r rescan · q quit"@,
                    Some(Nav::Confirm) => " ↑/↓ move · enter install "@ + n
                        + " selected · r rescan · q quit"@,
                    _ => " ↑/↓ move · space toggle · ←/→ collapse/expand · r rescan · q quit"@,
                },
                Style { fg: Some(theme::spec_gray()), bg: None, bold: false },
            )
        } else {
            ("scanning your system…"@, Style { fg: Some(theme::spec_gray()), bg: None, bold: false })
        },
    }
}

/// The footer line of the scan screen.
pub fn scan_footer(app: &App) -> (r: (String, Style))
    requires
        app.wf(),
    ensures
        (r.0@, r.1) == scan_footer_spec(*app),
{
    match &app.notice {
        Some(n) => {
            let mut t = owned(" ⚠ ");
            t.append(n.as_str());
            (t, theme::bad())
        },
        None => {
            if app.scan_done {
                let mut count: usize = 0;
                let mut i: usize = 0;
                while i < app.selected.len()
                    invariant
                        i <= app.selected@.len(),
                        count == count_selected(app.selected@, i as int),
                        count <= i,
                    decreases app.selected@.len() - i,
                {
                    if app.selected[i] {
                        count = count + 1;
                    }
                    i = i + 1;
                }
                let t = match app.cursor_nav() {
                    Some(Nav::Header(_)) => owned(" ↑/↓ move · →/space expand · r rescan · q quit"),
                    Some(Nav::Confirm) => {
                        let mut t = owned(" ↑/↓ move · enter install ");
                        t.append(decimal(count).as_str());
                        t.append(" selected · r rescan · q quit");
                        t
                    },
                    _ => owned(" ↑/↓ move · space toggle · ←/→ collapse/expand · r rescan · q quit"),
                };
                (t, theme::dim())
            } else {
                (owned("scanning your system…"), theme::dim())
            }
        },
    }
}

/// Whether the cursor is on the header of collapsed section `sec`.
pub fn header_selected(app: &App, sec: usize) -> (r: bool)
    requires
        app.wf(),
    ensures
        r == (app.cursor_nav_spec() == Some(Nav::Header(sec))),
{
    match app.cursor_nav() {
        Some(Nav::Header(s)) => s == sec,
        _ => false,
    }
}

/// The Confirm button below the list: highlighted when the cursor is on it.
pub open spec fn confirm_button_spec(a: App) -> (Seq<char>, Style) {
    (
        "  Confirm  "@,
        if a.cursor_nav_spec() == Some(Nav::Confirm) {
            Style { fg: Some(Color::Black), bg: Some(theme::spec_orange()), bold: true }
        } else {
            Style { fg: Some(theme::spec_gray()), bg: None, bold: false }
        },
    )
}

/// The label and style of the Confirm button.
pub fn confirm_button(app: &App) -> (r: (String, Style))
    requires
        app.wf(),
    ensures
        (r.0@, r.1) == confirm_button_spec(*app),
{
    let on = match app.cursor_nav() {
        Some(Nav::Confirm) => true,
        _ => false,
    };
    (owned("  Confirm  "), if on {
        theme::highlight()
    } else {
        theme::dim()
    })
}

/// The position of `i` in `order`, searching from `k`.
pub open spec fn position_from(order: Seq<usize>, i: usize, k: int) -> Option<int>
    decreases order.len() - k,
{
    if k < 0 || k >= order.len() {
        None
    } else if order[k] == i {
        Some(k)
    } else {
        position_from(order, i, k + 1)
    }
}

/// The highlighted row inside box `b`: the position of the tool under the
/// cursor when it belongs to the box's section.
pub open spec fn box_cursor_spec(a: App, b: int) -> Option<int> {
    match a.cursor_nav_spec() {
        Some(Nav::Item(i)) => if a.items@[i as int].section == a.boxes@[b].0 {
            position_from(a.boxes@[b].1@, i, 0)
        } else {
            None
        },
        _ => None,
    }
}

/// Which row of box `b` the cursor highlights, if any.
pub fn box_cursor(app: &App, b: usize) -> (r: Option<usize>)
    requires
        app.wf(),
        b < app.boxes@.len(),
    ensures
        match r {
            Some(k) => box_cursor_spec(*app, b as int) == Some(k as int),
            None => box_cursor_spec(*app, b as int) is None,
        },
{
    proof {
        crate::app::lemma_rows_in_range(*app);
    }
    match app.cursor_nav() {
        Some(Nav::Item(i)) => {
            if app.items[i].section == app.boxes[b].0 {
                let order = &app.boxes[b].1;
                assert(box_cursor_spec(*app, b as int) == position_from(order@, i, 0));
                let mut k: usize = 0;
                while k < order.len()
                    invariant
                        k <= order@.len(),
                        box_cursor_spec(*app, b as int) == position_from(order@, i, 0),
                        position_from(order@, i, 0) == position_from(order@, i, k as int),
                    decreases order@.len() - k,
                {
                    if order[k] == i {
                        return Some(k);
                    }
                    k = k + 1;
                }
                None
            } else {
                None
            }
        },
        _ => None,
    }
}

// ---------------------------------------------------------------------------
// Other screens
// ---------------------------------------------------------------------------

/// The header of the non-welcome screens.
pub open spec fn header_spec(dry_run: bool) -> Seq<char> {
    "Tool Installation  1/1"@ + if dry_run {
        "   ·   DRY RUN — nothing will be installed"@
    } else {
        Seq::empty()
    }
}

/// The centered title of the non-welcome screens, "Tool Installation
/// <step>/<total>", with a dry-run warning.
pub fn header_text(dry_run: bool) -> (t: String)
    ensures
        t@ == header_spec(dry_run),
{
    let mut t = owned("Tool Installation  1/1");
    if dry_run {
        t.append("   ·   DRY RUN — nothing will be installed");
    }
    t
}

/// The subtitle of the welcome screen.
pub open spec fn subtitle_spec(label: Seq<char>, dry_run: bool) -> Seq<char> {
    "Onboarding — set up your dev environment  ·  "@ + label + if dry_run {
        "  ·  DRY RUN"@
    } else {
        Seq::empty()
    }
}

/// The welcome-screen subtitle, naming the platform.
pub fn subtitle(app: &App) -> (t: String)
    ensures
        t@ == subtitle_spec(app.platform.label_spec(), app.dry_run),
{
    let mut t = owned("Onboarding — set up your dev environment  ·  ");
    t.append(app.platform.label().as_str());
    if app.dry_run {
        t.append("  ·  DRY RUN");
    }
    t
}

/// The styles of a welcome-screen button: border, fill and label. The
/// active button is a solid orange block; the other has an orange outline
/// and a dim label.
pub open spec fn button_style_spec(active: bool) -> (Style, Option<Style>, Style) {
    let hl = Style { fg: Some(Color::Black), bg: Some(theme::spec_orange()), bold: true };
    if active {
        (Style { fg: Some(theme::spec_orange()), bg: None, bold: false }, Some(hl), hl)
    } else {
        (
            Style { fg: Some(theme::spec_orange()), bg: None, bold: false },
            None,
            Style { fg: Some(theme::spec_gray()), bg: None, bold: false },
        )
    }
}

/// The styles of a welcome-screen button.
pub fn button_style(active: bool) -> (r: (Style, Option<Style>, Style))
    ensures
        r == button_style_spec(active),
{
    if active {
        (theme::accent(), Some(theme::highlight()), theme::highlight())
    } else {
        (theme::border(), None, theme::dim())
    }
}

/// The two welcome-screen buttons, "Get Started" then "Exit", each with its
/// styles: the one selected by `welcome_btn` is drawn active.
pub open spec fn welcome_buttons_spec(a: App) -> Seq<(Seq<char>, (Style, Option<Style>, Style))> {
    seq![
        ("  Get Started  "@, button_style_spec(a.welcome_btn == 0)),
        ("  Exit  "@, button_style_spec(a.welcome_btn == 1)),
    ]
}

/// The welcome-screen buttons with their labels and styles.
pub fn welcome_buttons(app: &App) -> (r: Vec<(String, (Style, Option<Style>, Style))>)
    ensures
        r@.map_values(|b: (String, (Style, Option<Style>, Style))| (b.0@, b.1))
            == welcome_buttons_spec(*app),
{
    let mut r: Vec<(String, (Style, Option<Style>, Style))> = Vec::new();
    r.push((owned("  Get Started  "), button_style(app.welcome_btn == 0)));
    r.push((owned("  Exit  "), button_style(app.welcome_btn == 1)));
    assert(r@.map_values(|b: (String, (Style, Option<Style>, Style))| (b.0@, b.1))
        =~= welcome_buttons_spec(*app));
    r
}

/// A row of the distro picker.
pub fn distro_item(d: &str) -> (t: String)
    ensures
        t@ == "  "@ + d@,
{
    let mut t = owned("  ");
    t.append(d);
    t
}

/// A row of the install step list: the step's mark and title.
pub fn step_line(app: &App, i: usize) -> (r: (String, Style))
    requires
        i < app.steps@.len(),
    ensures
        r.0@ == app.steps@[i as int].state.symbol_spec() + " "@ + app.steps@[i as int].title@,
        r.1 == app.steps@[i as int].state.style_spec(),
{
    let s = &app.steps[i];
    let mut t = owned(s.state.symbol());
    t.append(" ");
    t.append(s.title.as_str());
    (t, s.state.style())
}

/// The last lines of the install output that fit in a pane `height` cells
/// tall (borders take two), joined by line feeds.
pub fn log_tail(app: &App, height: u16) -> (t: String)
    ensures
        t@ == join_spec(
            app.log@.subrange(
                sat_sub(app.log@.len() as int, sat_sub(height as int, 2)),
                app.log@.len() as int,
            ).map_values(|l: String| l@),
            "\n"@,
        ),
{
    let visible = height.saturating_sub(2) as usize;
    let start = app.log.len().saturating_sub(visible);
    join_from(&app.log, start, "\n")
}

/// The line of the summary screen for install step `k`: its mark (✓ done,
/// ✗ failed) and title, in the step's style.
pub open spec fn summary_step_spec(a: App, k: int) -> Seq<(Seq<char>, Style)> {
    seq![
        (
            "  "@ + a.steps@[k].state.symbol_spec() + " "@ + a.steps@[k].title@,
            a.steps@[k].state.style_spec(),
        ),
    ]
}

/// The heading above the follow-up commands.
pub open spec fn follow_heading() -> (Seq<char>, Style) {
    (
        "  Finish up by running these in a NEW terminal:"@,
        Style { fg: Some(theme::spec_orange()), bg: None, bold: true },
    )
}

/// All lines of the summary screen: the result of each install step, then,
/// when there are follow-up commands, a blank line, a heading and the
/// commands.
pub open spec fn summary_spec(a: App) -> Seq<Seq<(Seq<char>, Style)>> {
    let items = Seq::new(a.steps@.len(), |k: int| summary_step_spec(a, k));
    if a.follow_ups@.len() == 0 {
        items
    } else {
        items + seq![seq![(Seq::<char>::empty(), Style { fg: None, bg: None, bold: false })], seq![follow_heading()]]
            + Seq::new(
            a.follow_ups@.len(),
            |k: int|
                seq![
                    (
                        "    $ "@ + a.follow_ups@[k]@,
                        Style { fg: Some(theme::spec_gray()), bg: None, bold: false },
                    ),
                ],
        )
    }
}

/// The mathematical value of a list of lines.
pub open spec fn lines_view(v: Seq<Vec<Span>>) -> Seq<Seq<(Seq<char>, Style)>> {
    v.map_values(|l: Vec<Span>| spans_view(l@))
}

fn summary_step(app: &App, k: usize) -> (line: Vec<Span>)
    requires
        k < app.steps@.len(),
    ensures
        spans_view(line@) == summary_step_spec(*app, k as int),
{
    let st = &app.steps[k];
    let mut t = owned("  ");
    t.append(st.state.symbol());
    t.append(" ");
    t.append(st.title.as_str());
    let mut line: Vec<Span> = Vec::new();
    line.push(Span { text: t, style: st.state.style() });
    assert(spans_view(line@) =~= summary_step_spec(*app, k as int));
    line
}

fn single(text: String, style: Style) -> (line: Vec<Span>)
    ensures
        spans_view(line@) == seq![(text@, style)],
{
    let mut line: Vec<Span> = Vec::new();
    line.push(Span { text, style });
    assert(spans_view(line@) =~= seq![(text@, style)]);
    line
}

/// The lines of the summary screen.
pub fn summary_lines(app: &App) -> (lines: Vec<Vec<Span>>)
    requires
        app.wf(),
    ensures
        lines_view(lines@) == summary_spec(*app),
{
    let n = app.steps.len();
    let mut lines: Vec<Vec<Span>> = Vec::new();
    let mut i: usize = 0;
    while i < n
        invariant
            app.wf(),
            n == app.steps@.len(),
            i <= n,
            lines@.len() == i,
            forall|k: int| 0 <= k < i ==> spans_view((#[trigger] lines@[k])@) == summary_step_spec(*app, k),
        decreases n - i,
    {
        lines.push(summary_step(app, i));
        i = i + 1;
    }
    assert(lines_view(lines@) =~= Seq::new(n as nat, |k: int| summary_step_spec(*app, k)));
    if app.follow_ups.len() > 0 {
        let ghost base = lines_view(lines@);
        let ghost raw = lines@;
        lines.push(single(String::new(), Style { fg: None, bg: None, bold: false }));
        lines.push(
            single(
                owned("  Finish up by running these in a NEW terminal:"),
                Style { fg: Some(theme::orange()), bg: None, bold: true },
            ),
        );
        let ghost f = |j: int|
            seq![
                (
                    "    $ "@ + app.follow_ups@[j]@,
                    Style { fg: Some(theme::spec_gray()), bg: None, bold: false },
                ),
            ];
        let ghost head = raw.len() + 2;
        let ghost prefix = lines_view(lines@);
        assert(prefix =~= base + seq![seq![(Seq::<char>::empty(), Style { fg: None, bg: None, bold: false })], seq![follow_heading()]]);
        let mut k: usize = 0;
        while k < app.follow_ups.len()
            invariant
                app.wf(),
                k <= app.follow_ups@.len(),
                head == raw.len() + 2,
                prefix.len() == head,
                lines@.len() == head + k,
                f == (|j: int|
                    seq![
                        (
                            "    $ "@ + app.follow_ups@[j]@,
                            Style { fg: Some(theme::spec_gray()), bg: None, bold: false },
                        ),
                    ]),
                forall|j: int| 0 <= j < head ==> spans_view((#[trigger] lines@[j])@) == prefix[j],
                forall|j: int| 0 <= j < k ==> spans_view((#[trigger] lines@[head + j])@) == f(j),
            decreases app.follow_ups@.len() - k,
        {
            let mut t = owned("    $ ");
            t.append(app.follow_ups[k].as_str());
            lines.push(single(t, theme::dim()));
            k = k + 1;
        }
        proof {
            let target = prefix + Seq::new(app.follow_ups@.len(), f);
            assert forall|j: int| 0 <= j < lines@.len() implies #[trigger] lines_view(lines@)[j] == target[j] by {
                if j >= head {
                    let q = j - head;
                    assert(lines@[head + q] == lines@[j]);
                }
            }
            assert(lines_view(lines@) =~= target);
        }
    }
    lines
}

} // verus!
