//! The interactive menu: the main rows (DPI, polling rate, lighting,
//! profiles), each a state that a key press steps to a new state and an
//! action for the application to carry out.
use vstd::prelude::*;

use crate::registry::{Capabilities, DeviceDef};

verus! {

broadcast use vstd::array::group_array_axioms;

/// DPI change of one left or right key press.
pub const DPI_STEP: u16 = 50;

/// Lowest DPI the menu steps down to when the device names none.
pub const DEFAULT_DPI_MIN: u16 = 100;

/// Row of the X DPI.
pub const DPI_X_INDEX: usize = 0;

/// Row of the Y DPI.
pub const DPI_Y_INDEX: usize = 1;

/// Row of the polling rate.
pub const POLLING_INDEX: usize = 2;

/// Row that opens the lighting editor.
pub const LIGHTING_INDEX: usize = 3;

/// Row that opens the profile list.
pub const PROFILES_INDEX: usize = 4;

/// Number of main-menu rows.
pub const MENU_ROWS: usize = 5;

/// Number of polling rates the menu steps through.
pub const POLLING_RATES: usize = 3;

/// A key press, as the menus tell keys apart.
#[derive(Debug, Clone, Copy, PartialEq, Eq, Structural)]
pub enum MenuKey {
    /// Arrow up, `w`.
    Up,
    /// Arrow down, `s`.
    Down,
    /// Arrow left, `a`.
    Left,
    /// Arrow right, `d`.
    Right,
    Enter,
    /// Backspace or escape.
    Back,
    Delete,
    /// `n`: save a new profile.
    New,
    /// `q`.
    Quit,
    Other,
}

/// The polling rates the menu steps through, in Hz.
pub open spec fn polling_table() -> Seq<u16> {
    seq![125u16, 500u16, 1000u16]
}

/// The polling rate at place `i` of the table.
pub fn polling_rate_at(i: usize) -> (hz: u16)
    requires
        i < POLLING_RATES,
    ensures
        hz == polling_table()[i as int],
{
    if i == 0 {
        125
    } else if i == 1 {
        500
    } else {
        1000
    }
}

/// Where rate `hz` stands in the table; the first place when it is not in it.
pub open spec fn polling_position(hz: u16) -> usize {
    if hz == 500 {
        1
    } else if hz == 1000 {
        2
    } else {
        0
    }
}

/// The place of rate `hz` in the table (the first place when it is not in it).
pub fn polling_index_of(hz: u16) -> (i: usize)
    ensures
        i == polling_position(hz),
        i < POLLING_RATES,
        hz == 125 || hz == 500 || hz == 1000 ==> polling_table()[i as int] == hz,
{
    if hz == 500 {
        1
    } else if hz == 1000 {
        2
    } else {
        0
    }
}

/// Which main-menu rows a device with capabilities `c` shows: the DPI rows,
/// the polling row and the lighting row by capability; profiles always.
pub open spec fn menu_visibility(c: Capabilities) -> Seq<bool> {
    seq![c.dpi, c.dpi, c.polling_rate, c.lighting, true]
}

/// The main-menu rows a device shows.
pub fn build_menu_visibility(caps: &Capabilities) -> (v: [bool; 5])
    ensures
        v@ == menu_visibility(*caps),
{
    let v = [caps.dpi, caps.dpi, caps.polling_rate, caps.lighting, true];
    assert(v@ =~= menu_visibility(*caps));
    v
}

/// The first visible row at or after `i`; `fallback` when there is none.
pub open spec fn first_visible_from(vis: Seq<bool>, i: int, fallback: int) -> int
    decreases vis.len() - i,
{
    if i < 0 || i >= vis.len() {
        fallback
    } else if vis[i] {
        i
    } else {
        first_visible_from(vis, i + 1, fallback)
    }
}

/// Going up from row `index`: the first visible row `offset`, `offset + 1`,
/// ... rows above it, wrapping round the bottom; `index` when none is.
pub open spec fn row_up_from(vis: Seq<bool>, index: int, offset: int) -> int
    decreases vis.len() + 1 - offset,
{
    if offset < 1 || offset > vis.len() {
        index
    } else {
        let c = (index + vis.len() - offset) % vis.len() as int;
        if vis[c] {
            c
        } else {
            row_up_from(vis, index, offset + 1)
        }
    }
}

/// What `first_visible_from` gives is a visible row from `i` on, or the
/// fallback.
pub proof fn lemma_first_visible_from(vis: Seq<bool>, i: int, fallback: int)
    requires
        0 <= i,
    ensures
        first_visible_from(vis, i, fallback) == fallback || (i <= first_visible_from(vis, i, fallback)
            < vis.len() && vis[first_visible_from(vis, i, fallback)]),
    decreases vis.len() - i,
{
    if i < vis.len() && !vis[i] {
        lemma_first_visible_from(vis, i + 1, fallback);
    }
}

/// What `row_up_from` gives is a visible row, or `index`.
pub proof fn lemma_row_up_from(vis: Seq<bool>, index: int, offset: int)
    requires
        0 <= index < vis.len(),
    ensures
        row_up_from(vis, index, offset) == index || (0 <= row_up_from(vis, index, offset) < vis.len()
            && vis[row_up_from(vis, index, offset)]),
    decreases vis.len() + 1 - offset,
{
    if 1 <= offset <= vis.len() {
        let c = (index + vis.len() - offset) % vis.len() as int;
        if !vis[c] {
            lemma_row_up_from(vis, index, offset + 1);
        }
    }
}

/// The row the cursor starts on: the first visible row, else the first row.
pub fn first_index(vis: &[bool; 5]) -> (r: usize)
    ensures
        r == first_visible_from(vis@, 0, 0),
        r < MENU_ROWS,
{
    let mut i: usize = 0;
    while i < 5
        invariant
            i <= 5,
            vis@.len() == 5,
            first_visible_from(vis@, 0, 0) == first_visible_from(vis@, i as int, 0),
        decreases 5 - i,
    {
        if vis[i] {
            return i;
        }
        i = i + 1;
    }
    0
}

/// The row below `index` that the cursor moves to: the next visible row
/// below, or `index` itself when there is none (no wrap).
pub fn next_row_index_down(vis: &[bool; 5], index: usize) -> (r: usize)
    requires
        index < MENU_ROWS,
    ensures
        r == first_visible_from(vis@, index + 1, index as int),
        r < MENU_ROWS,
{
    let mut i: usize = index + 1;
    while i < 5
        invariant
            index < i <= 5,
            vis@.len() == 5,
            first_visible_from(vis@, index + 1, index as int) == first_visible_from(
                vis@,
                i as int,
                index as int,
            ),
        decreases 5 - i,
    {
        if vis[i] {
            return i;
        }
        i = i + 1;
    }
    index
}

/// The row above `index` that the cursor moves to: the next visible row
/// above, wrapping round from the top to the bottom.
pub fn next_row_index_up(vis: &[bool; 5], index: usize) -> (r: usize)
    requires
        index < MENU_ROWS,
    ensures
        r == row_up_from(vis@, index as int, 1),
        r < MENU_ROWS,
{
    let mut offset: usize = 1;
    while offset <= 5
        invariant
            1 <= offset <= 6,
            index < 5,
            vis@.len() == 5,
            row_up_from(vis@, index as int, 1) == row_up_from(vis@, index as int, offset as int),
        decreases 6 - offset,
    {
        let c = (index + 5 - offset) % 5;
        if vis[c] {
            return c;
        }
        offset = offset + 1;
    }
    index
}

/// What the application does after a main-menu key press.
#[derive(Debug, Clone, Copy, PartialEq, Eq, Structural)]
pub enum MenuAction {
    /// Nothing to do.
    Stay,
    /// Leave the menu.
    Quit,
    /// Send this DPI to the device.
    SetDpi { x: u16, y: u16 },
    /// Send this polling rate to the device.
    SetPolling { hz: u16 },
    /// Open the lighting editor.
    OpenLighting,
    /// Open the profile list.
    OpenProfiles,
}

/// The main menu: the cursor row, the DPI and polling rate shown, which rows
/// the device shows, and the DPI bounds that the arrows keep to.
#[derive(Debug, Clone, Copy, PartialEq, Eq)]
pub struct MainMenu {
    pub index: usize,
    pub x: u16,
    pub y: u16,
    pub polling_index: usize,
    pub visible: [bool; 5],
    pub edit_mode: bool,
    pub dpi_min: u16,
    pub dpi_max: u16,
}

/// The DPI after a step down from `v`: unchanged below one step, else one
/// step lower but not below `min`.
pub open spec fn dpi_down(v: u16, min: u16) -> Option<u16> {
    if v < DPI_STEP {
        None
    } else if v - DPI_STEP < min {
        Some(min)
    } else {
        Some((v - DPI_STEP) as u16)
    }
}

/// The DPI after a step up from `v`: unchanged when one step more passes
/// `max`.
pub open spec fn dpi_up(v: u16, max: u16) -> Option<u16> {
    if v + DPI_STEP > max {
        None
    } else {
        Some((v + DPI_STEP) as u16)
    }
}

/// The menu with DPI row `index` (X or Y) set to `v`.
pub open spec fn with_dpi(m: MainMenu, v: u16) -> MainMenu {
    if m.index == DPI_X_INDEX {
        MainMenu { x: v, ..m }
    } else {
        MainMenu { y: v, ..m }
    }
}

/// The new DPI of the cursor's DPI row after a left (`up == false`) or
/// right key press.
pub open spec fn dpi_after(m: MainMenu, up: bool) -> Option<u16> {
    let v = if m.index == DPI_X_INDEX {
        m.x
    } else {
        m.y
    };
    if up {
        dpi_up(v, m.dpi_max)
    } else {
        dpi_down(v, m.dpi_min)
    }
}

/// The new polling place after a left (`up == false`) or right key press.
pub open spec fn polling_after(p: usize, up: bool) -> Option<usize> {
    if up {
        if p + 1 < POLLING_RATES {
            Some((p + 1) as usize)
        } else {
            None
        }
    } else {
        if p == 0 {
            None
        } else {
            Some((p - 1) as usize)
        }
    }
}

/// A left or right key press: on a DPI row a DPI step, on the polling row a
/// step through the table, elsewhere nothing.
pub open spec fn main_change(m: MainMenu, up: bool) -> (MainMenu, MenuAction) {
    if m.index == DPI_X_INDEX || m.index == DPI_Y_INDEX {
        match dpi_after(m, up) {
            Some(v) => {
                let n = with_dpi(m, v);
                (n, MenuAction::SetDpi { x: n.x, y: n.y })
            },
            None => (m, MenuAction::Stay),
        }
    } else if m.index == POLLING_INDEX {
        match polling_after(m.polling_index, up) {
            Some(p) => (
                MainMenu { polling_index: p, ..m },
                MenuAction::SetPolling { hz: polling_table()[p as int] },
            ),
            None => (m, MenuAction::Stay),
        }
    } else {
        (m, MenuAction::Stay)
    }
}

/// The main menu after key `key`, and what the application does.
pub open spec fn main_step(m: MainMenu, key: MenuKey) -> (MainMenu, MenuAction) {
    match key {
        MenuKey::Quit => (m, MenuAction::Quit),
        MenuKey::Up => (
            MainMenu { index: row_up_from(m.visible@, m.index as int, 1) as usize, ..m },
            MenuAction::Stay,
        ),
        MenuKey::Down => (
            MainMenu {
                index: first_visible_from(m.visible@, m.index + 1, m.index as int) as usize,
                ..m
            },
            MenuAction::Stay,
        ),
        MenuKey::Left => main_change(m, false),
        MenuKey::Right => main_change(m, true),
        MenuKey::Enter => if m.index == LIGHTING_INDEX {
            (m, MenuAction::OpenLighting)
        } else if m.index == PROFILES_INDEX {
            (m, MenuAction::OpenProfiles)
        } else {
            (MainMenu { edit_mode: !m.edit_mode, ..m }, MenuAction::Stay)
        },
        _ => (m, MenuAction::Stay),
    }
}

/// The lowest DPI of a device: its own, else the default.
pub open spec fn dpi_min_of(def: DeviceDef) -> u16 {
    match def.dpi_min {
        Some(v) => v,
        None => DEFAULT_DPI_MIN,
    }
}

/// The highest DPI of a device, cut to 16 bits: its own, else the largest
/// 16-bit value.
pub open spec fn dpi_max_of(def: DeviceDef) -> u16 {
    match def.dpi_max {
        Some(v) => v as u16,
        None => u16::MAX,
    }
}

impl MainMenu {
    /// The cursor is on a row and the polling place is in the table.
    pub open spec fn wf(&self) -> bool {
        self.index < MENU_ROWS && self.polling_index < POLLING_RATES
    }

    /// The menu of device `def` showing DPI `x` by `y` and polling rate
    /// `polling`, with the cursor on the first row it shows.
    pub fn new(def: &DeviceDef, x: u16, y: u16, polling: u16) -> (m: Self)
        ensures
            m.wf(),
            m.visible@ == menu_visibility(def.capabilities),
            m.index == first_visible_from(m.visible@, 0, 0),
            m.x == x,
            m.y == y,
            m.polling_index == polling_position(polling),
            !m.edit_mode,
            m.dpi_min == dpi_min_of(*def),
            m.dpi_max == dpi_max_of(*def),
    {
        let visible = build_menu_visibility(&def.capabilities);
        let index = first_index(&visible);
        let dpi_min = match def.dpi_min {
            Some(v) => v,
            None => DEFAULT_DPI_MIN,
        };
        let dpi_max = match def.dpi_max {
            Some(v) => v as u16,
            None => u16::MAX,
        };
        MainMenu {
            index,
            x,
            y,
            polling_index: polling_index_of(polling),
            visible,
            edit_mode: false,
            dpi_min,
            dpi_max,
        }
    }

    /// Step the menu by key `key`; the cursor only ever moves to a row the
    /// device shows, and a DPI within the device's bounds stays within them.
    pub fn step(&mut self, key: MenuKey) -> (a: MenuAction)
        requires
            old(self).wf(),
        ensures
            (*final(self), a) == main_step(*old(self), key),
            final(self).wf(),
            final(self).visible == old(self).visible,
            old(self).visible@[old(self).index as int] ==> final(self).visible@[final(self).index as int],
            old(self).dpi_min <= old(self).x <= old(self).dpi_max ==> final(self).dpi_min
                <= final(self).x <= final(self).dpi_max,
            old(self).dpi_min <= old(self).y <= old(self).dpi_max ==> final(self).dpi_min
                <= final(self).y <= final(self).dpi_max,
    {
        proof {
            lemma_first_visible_from(self.visible@, self.index + 1, self.index as int);
            lemma_row_up_from(self.visible@, self.index as int, 1);
        }
        match key {
            MenuKey::Quit => MenuAction::Quit,
            MenuKey::Up => {
                self.index = next_row_index_up(&self.visible, self.index);
                MenuAction::Stay
            },
            MenuKey::Down => {
                self.index = next_row_index_down(&self.visible, self.index);
                MenuAction::Stay
            },
            MenuKey::Left => self.change(false),
            MenuKey::Right => self.change(true),
            MenuKey::Enter => {
                if self.index == LIGHTING_INDEX {
                    MenuAction::OpenLighting
                } else if self.index == PROFILES_INDEX {
                    MenuAction::OpenProfiles
                } else {
                    self.edit_mode = !self.edit_mode;
                    MenuAction::Stay
                }
            },
            _ => MenuAction::Stay,
        }
    }

    fn change(&mut self, up: bool) -> (a: MenuAction)
        requires
            old(self).wf(),
        ensures
            (*final(self), a) == main_change(*old(self), up),
            final(self).wf(),
    {
        if self.index == DPI_X_INDEX || self.index == DPI_Y_INDEX {
            let v = if self.index == DPI_X_INDEX {
                self.x
            } else {
                self.y
            };
            let next = if up {
                if v as u32 + DPI_STEP as u32 > self.dpi_max as u32 {
                    None
                } else {
                    Some(v + DPI_STEP)
                }
            } else {
                if v < DPI_STEP {
                    None
                } else if v - DPI_STEP < self.dpi_min {
                    Some(self.dpi_min)
                } else {
                    Some(v - DPI_STEP)
                }
            };
            match next {
                Some(n) => {
                    if self.index == DPI_X_INDEX {
                        self.x = n;
                    } else {
                        self.y = n;
                    }
                    MenuAction::SetDpi { x: self.x, y: self.y }
                },
                None => MenuAction::Stay,
            }
        } else if self.index == POLLING_INDEX {
            if up {
                if self.polling_index + 1 < POLLING_RATES {
                    self.polling_index = self.polling_index + 1;
                    MenuAction::SetPolling { hz: polling_rate_at(self.polling_index) }
                } else {
                    MenuAction::Stay
                }
            } else {
                if self.polling_index == 0 {
                    MenuAction::Stay
                } else {
                    self.polling_index = self.polling_index - 1;
                    MenuAction::SetPolling { hz: polling_rate_at(self.polling_index) }
                }
            }
        } else {
            MenuAction::Stay
        }
    }
}

/// What the application does after a key press in the profile list.
#[derive(Debug, Clone, Copy, PartialEq, Eq, Structural)]
pub enum ProfilesAction {
    /// Nothing to do.
    Stay,
    /// Back to the main menu.
    Leave,
    /// Apply the profile at this place.
    Apply { index: usize },
    /// Ask, then delete the profile at this place.
    Delete { index: usize },
    /// Ask for a name and save the current settings.
    Save,
}

/// The cursor after key `key` in a list of `count` profiles, and what the
/// application does: back or `q` leaves, up and down move within the list,
/// enter applies and delete deletes the profile under the cursor (nothing
/// when the list is empty), `n` saves.
pub open spec fn profiles_key(index: usize, count: usize, key: MenuKey) -> (usize, ProfilesAction) {
    match key {
        MenuKey::Back | MenuKey::Quit => (index, ProfilesAction::Leave),
        MenuKey::Up => (if index > 0 {
            (index - 1) as usize
        } else {
            index
        }, ProfilesAction::Stay),
        MenuKey::Down => (if index + 1 < count {
            (index + 1) as usize
        } else {
            index
        }, ProfilesAction::Stay),
        MenuKey::Enter => (index, if count == 0 {
            ProfilesAction::Stay
        } else {
            ProfilesAction::Apply { index }
        }),
        MenuKey::Delete => (index, if count == 0 {
            ProfilesAction::Stay
        } else {
            ProfilesAction::Delete { index }
        }),
        MenuKey::New => (index, ProfilesAction::Save),
        _ => (index, ProfilesAction::Stay),
    }
}

/// Step the profile list's cursor by key `key`; the cursor stays in the
/// list.
pub fn profiles_menu_step(index: usize, count: usize, key: MenuKey) -> (r: (usize, ProfilesAction))
    requires
        index < count || index == 0,
    ensures
        r == profiles_key(index, count, key),
        r.0 < count || r.0 == 0,
{
    match key {
        MenuKey::Back | MenuKey::Quit => (index, ProfilesAction::Leave),
        MenuKey::Up => (if index > 0 {
            index - 1
        } else {
            index
        }, ProfilesAction::Stay),
        MenuKey::Down => (if count > 0 && index < count - 1 {
            index + 1
        } else {
            index
        }, ProfilesAction::Stay),
        MenuKey::Enter => (index, if count == 0 {
            ProfilesAction::Stay
        } else {
            ProfilesAction::Apply { index }
        }),
        MenuKey::Delete => (index, if count == 0 {
            ProfilesAction::Stay
        } else {
            ProfilesAction::Delete { index }
        }),
        MenuKey::New => (index, ProfilesAction::Save),
        _ => (index, ProfilesAction::Stay),
    }
}

/// The cursor after a deletion left `count` profiles: one place up when it
/// stood past the end.
pub fn index_after_delete(index: usize, count: usize) -> (r: usize)
    ensures
        r == (if index >= count && index > 0 {
            index - 1
        } else {
            index as int
        }),
{
    if index >= count && index > 0 {
        index - 1
    } else {
        index
    }
}

} // verus!
