use vstd::prelude::*;

verus! {

/// Lines of the terminal taken by the menu's title.
pub const MENU_HEADER_ROWS: usize = 2;

/// The selected entry of a list of programs shown in a terminal, and the first
/// entry on screen. A terminal of `rows` lines shows `rows - 2` entries below
/// the title.
#[derive(Clone, Copy, Debug, PartialEq, Eq, Structural)]
pub struct MenuCursor {
    pub selected: usize,
    pub scroll: usize,
}

impl MenuCursor {
    /// The first entry, at the top.
    pub fn new() -> (r: Self)
        ensures
            r.selected == 0,
            r.scroll == 0,
    {
        MenuCursor { selected: 0, scroll: 0 }
    }

    /// Moves the selection up one entry; from the first entry it wraps to the
    /// last one and scrolls to the end of the list.
    pub fn up(&mut self, len: usize, rows: usize)
        requires
            len > 0,
            rows >= MENU_HEADER_ROWS,
        ensures
            final(self).selected == if old(self).selected == 0 {
                len - 1
            } else {
                old(self).selected - 1
            },
            final(self).scroll == if old(self).scroll == 0 && old(self).selected == 0 {
                if len + MENU_HEADER_ROWS > rows {
                    len + MENU_HEADER_ROWS - rows
                } else {
                    0
                }
            } else if old(self).scroll == old(self).selected {
                if old(self).scroll > 0 {
                    old(self).scroll - 1
                } else {
                    0
                }
            } else {
                old(self).scroll as int
            },
    {
        if self.scroll == 0 && self.selected == 0 {
            let shown = rows - MENU_HEADER_ROWS;
            self.scroll = len.saturating_sub(shown);
        } else if self.scroll == self.selected {
            self.scroll = self.scroll.saturating_sub(1);
        }
        if self.selected == 0 {
            self.selected = len - 1;
        } else {
            self.selected = self.selected - 1;
        }
    }

    /// Moves the selection down one entry; from the last entry it wraps to the
    /// first one and scrolls to the top. The view scrolls by one when the
    /// selection leaves the bottom of the screen.
    pub fn down(&mut self, len: usize, rows: usize)
        requires
            old(self).selected < len,
            rows >= MENU_HEADER_ROWS,
            old(self).scroll + rows <= usize::MAX,
        ensures
            final(self).selected == if old(self).selected + 1 == len {
                0
            } else {
                old(self).selected + 1
            },
            final(self).scroll == if final(self).selected == 0 {
                0
            } else if final(self).selected >= old(self).scroll + rows - MENU_HEADER_ROWS {
                old(self).scroll + 1
            } else {
                old(self).scroll as int
            },
    {
        self.selected = if self.selected + 1 == len {
            0
        } else {
            self.selected + 1
        };
        if self.selected == 0 {
            self.scroll = 0;
        } else if self.selected >= self.scroll + rows - MENU_HEADER_ROWS {
            self.scroll = self.scroll + 1;
        }
    }

    /// The entry shown on screen line `line` (counted below the title), if
    /// the list reaches that far.
    pub fn entry_at(&self, line: usize, len: usize) -> (r: Option<usize>)
        ensures
            r == if self.scroll + line < len {
                Some((self.scroll + line) as usize)
            } else {
                None::<usize>
            },
    {
        if line < len && self.scroll < len - line {
            Some(self.scroll + line)
        } else {
            None
        }
    }
}

} // verus!
