//! The editor state: a document, a cursor with sticky-column memory, a
//! viewport scroll offset, a status, and the Normal/Insert mode. Movement is
//! specified by pure state functions that the executable operations are
//! proved to implement exactly.

use vstd::prelude::*;
use vstd::string::StringExecFns;
use crate::boundaries::Boundaries;
use crate::cluster::char_to_string;
use crate::document::{
    cluster_inserted, deleted_at, line_split, render_clamped, spec_text, Document, Row,
};
use crate::position::{Position, PositionHistory};

verus! {

/// What the editor reports to its surroundings: a status-bar message, a
/// request to end the session, or nothing.
pub enum EditorStatus {
    Message(String),
    Exit,
    Idle,
}

#[derive(Clone, Copy, PartialEq, Eq, Structural)]
pub enum EditorMode {
    Normal,
    Insert,
}

/// `a - b`, clamped at zero.
pub open spec fn sat_sub(a: int, b: int) -> int {
    if a >= b {
        a - b
    } else {
        0
    }
}

/// A sum clamped to the machine range, as saturating addition computes it.
pub open spec fn sat_cap(a: int) -> int {
    if a > usize::MAX as int {
        usize::MAX as int
    } else {
        a
    }
}

pub open spec fn min_int(a: int, b: int) -> int {
    if a <= b {
        a
    } else {
        b
    }
}

/// The canonical horizontal rescroll: a cursor left of the scroll offset
/// resets the offset to zero; one at or past the right edge becomes the
/// rightmost visible column; otherwise the offset stays.
pub open spec fn rescrolled_column(column: int, scroll: int, width: int) -> int {
    if column < scroll {
        0
    } else if column >= scroll + width {
        column - width + 1
    } else {
        scroll
    }
}

pub struct Editor {
    pub document: Document,
    pub position: Position,
    pub scroll_offset: Position,
    pub status: EditorStatus,
    pub mode: EditorMode,
}

impl Editor {
    /// The cursor always rests on a row, never past the row's end, and never
    /// left of the horizontal scroll offset.
    pub open spec fn wf(self) -> bool {
        &&& self.document.wf()
        &&& (self.position.row as int) < self.document.rows@.len()
        &&& self.position.column as int <= self.document.spec_row_len(self.position.row as int)
        &&& self.scroll_offset.column <= self.position.column
    }

    /// The cursor cell lies inside the viewport rectangle anchored at the
    /// scroll offset.
    pub open spec fn cursor_visible(self, b: Boundaries) -> bool {
        &&& self.scroll_offset.row <= self.position.row
        &&& (self.position.row as int) < self.scroll_offset.row + b.height
        &&& self.scroll_offset.column <= self.position.column
        &&& (self.position.column as int) < self.scroll_offset.column + b.width
    }
}

/// The state after moving the cursor up by `offset`: row and, when the
/// cursor sat at or above the scroll offset, the scroll offset both drop by
/// `offset` (clamped at zero); the column is recomputed from the sticky
/// column and the target row's length; the horizontal scroll is recomputed.
pub open spec fn move_up_state(e: Editor, b: Boundaries, offset: usize) -> Editor {
    if e.position.row == 0 {
        e
    } else {
        let new_row = sat_sub(e.position.row as int, offset as int);
        let new_scroll_row = if e.position.row <= e.scroll_offset.row {
            sat_sub(e.scroll_offset.row as int, offset as int)
        } else {
            e.scroll_offset.row as int
        };
        let new_col = min_int(
            e.position.history.column as int,
            e.document.spec_row_len(new_row) as int,
        );
        let new_scroll_col = rescrolled_column(
            new_col,
            e.scroll_offset.column as int,
            b.width as int,
        );
        Editor {
            position: Position {
                row: new_row as usize,
                column: new_col as usize,
                history: e.position.history,
            },
            scroll_offset: Position {
                row: new_scroll_row as usize,
                column: new_scroll_col as usize,
                history: e.scroll_offset.history,
            },
            ..e
        }
    }
}

/// The state after moving the cursor down by `offset`: the move happens only
/// when the target row exists; the scroll offset advances when the cursor
/// would otherwise cross the bottom edge; column and horizontal scroll are
/// recomputed as for a move up.
pub open spec fn move_down_state(e: Editor, b: Boundaries, offset: usize) -> Editor {
    if (e.position.row as int) + (offset as int) < e.document.rows@.len() {
        let new_row = (e.position.row as int) + (offset as int);
        let new_scroll_row = if new_row >= sat_cap(
            (e.scroll_offset.row as int) + (b.height as int),
        ) {
            sat_cap((e.scroll_offset.row as int) + (offset as int))
        } else {
            e.scroll_offset.row as int
        };
        let new_col = min_int(
            e.position.history.column as int,
            e.document.spec_row_len(new_row) as int,
        );
        let new_scroll_col = rescrolled_column(
            new_col,
            e.scroll_offset.column as int,
            b.width as int,
        );
        Editor {
            position: Position {
                row: new_row as usize,
                column: new_col as usize,
                history: e.position.history,
            },
            scroll_offset: Position {
                row: new_scroll_row as usize,
                column: new_scroll_col as usize,
                history: e.scroll_offset.history,
            },
            ..e
        }
    } else {
        e
    }
}

/// The state after moving the cursor left by `offset`: inside a row the
/// column drops by `offset` (clamped at zero) and becomes the sticky column;
/// at column zero the cursor moves to the end of the previous row, pulling
/// the vertical scroll up by one when the cursor sat at the top edge. The
/// horizontal scroll is recomputed either way.
pub open spec fn move_left_state(e: Editor, b: Boundaries, offset: usize) -> Editor {
    if e.position.column > 0 {
        let new_col = sat_sub(e.position.column as int, offset as int);
        let new_scroll_col = rescrolled_column(
            new_col,
            e.scroll_offset.column as int,
            b.width as int,
        );
        Editor {
            position: Position {
                row: e.position.row,
                column: new_col as usize,
                history: PositionHistory {
                    row: e.position.history.row,
                    column: new_col as usize,
                },
            },
            scroll_offset: Position {
                row: e.scroll_offset.row,
                column: new_scroll_col as usize,
                history: e.scroll_offset.history,
            },
            ..e
        }
    } else if offset != 0 && e.position.row > 0 {
        let new_scroll_row = if e.position.row == e.scroll_offset.row {
            e.scroll_offset.row - 1
        } else {
            e.scroll_offset.row as int
        };
        let new_row = e.position.row - 1;
        let new_col = e.document.spec_row_len(new_row as int) as int;
        let new_scroll_col = rescrolled_column(
            new_col,
            e.scroll_offset.column as int,
            b.width as int,
        );
        Editor {
            position: Position {
                row: new_row as usize,
                column: new_col as usize,
                history: PositionHistory {
                    row: e.position.history.row,
                    column: new_col as usize,
                },
            },
            scroll_offset: Position {
                row: new_scroll_row as usize,
                column: new_scroll_col as usize,
                history: e.scroll_offset.history,
            },
            ..e
        }
    } else {
        e
    }
}

/// The state after moving the cursor right by `offset`: short of the row's
/// end the column advances by `offset`, clamped to the row length, and
/// becomes the sticky column; at the row's end the cursor moves to the start
/// of the next row when one exists, the horizontal scroll resets, and the
/// vertical scroll advances by one when the cursor would otherwise cross the
/// bottom edge and rows remain below the viewport.
pub open spec fn move_right_state(e: Editor, b: Boundaries, offset: usize) -> Editor {
    let rl = e.document.spec_row_len(e.position.row as int) as int;
    if (e.position.column as int) < rl {
        let new_col = min_int((e.position.column as int) + (offset as int), rl);
        let new_scroll_col = rescrolled_column(
            new_col,
            e.scroll_offset.column as int,
            b.width as int,
        );
        Editor {
            position: Position {
                row: e.position.row,
                column: new_col as usize,
                history: PositionHistory {
                    row: e.position.history.row,
                    column: new_col as usize,
                },
            },
            scroll_offset: Position {
                row: e.scroll_offset.row,
                column: new_scroll_col as usize,
                history: e.scroll_offset.history,
            },
            ..e
        }
    } else if offset != 0 {
        let cap = sat_cap((e.scroll_offset.row as int) + (b.height as int));
        let new_scroll_row = if (e.position.row as int) + (offset as int) >= cap && cap
            < e.document.rows@.len() {
            (e.scroll_offset.row as int) + 1
        } else {
            e.scroll_offset.row as int
        };
        if (e.position.row as int) + 1 < e.document.rows@.len() {
            Editor {
                position: Position {
                    row: (e.position.row + 1) as usize,
                    column: 0,
                    history: PositionHistory { row: e.position.history.row, column: 0 },
                },
                scroll_offset: Position {
                    row: new_scroll_row as usize,
                    column: 0,
                    history: e.scroll_offset.history,
                },
                ..e
            }
        } else {
            Editor {
                scroll_offset: Position {
                    row: new_scroll_row as usize,
                    column: e.scroll_offset.column,
                    history: e.scroll_offset.history,
                },
                ..e
            }
        }
    } else {
        e
    }
}

impl Editor {
    /// A fresh editor on the given document: cursor and scroll at the
    /// origin, no status, Normal mode.
    pub fn new(document: Document) -> (e: Editor)
        requires
            document.wf(),
        ensures
            e.wf(),
            e.document == document,
            e.position.row == 0 && e.position.column == 0,
            e.position.history.row == 0 && e.position.history.column == 0,
            e.scroll_offset.row == 0 && e.scroll_offset.column == 0,
            e.mode == EditorMode::Normal,
            e.status matches EditorStatus::Idle,
    {
        let origin = Position { row: 0, column: 0, history: PositionHistory { row: 0, column: 0 } };
        Editor {
            document,
            position: origin,
            scroll_offset: origin,
            status: EditorStatus::Idle,
            mode: EditorMode::Normal,
        }
    }

    /// Applies the canonical horizontal rescroll to the current column.
    fn rescroll_horizontal(&mut self, b: Boundaries)
        requires
            b.wf(),
        ensures
            *final(self) == (Editor {
                scroll_offset: Position {
                    row: old(self).scroll_offset.row,
                    column: rescrolled_column(
                        old(self).position.column as int,
                        old(self).scroll_offset.column as int,
                        b.width as int,
                    ) as usize,
                    history: old(self).scroll_offset.history,
                },
                ..*old(self)
            }),
    {
        if self.position.column < self.scroll_offset.column {
            self.scroll_offset.column = 0;
        } else {
            let over = match self.scroll_offset.column.checked_add(b.width as usize) {
                Some(cap) => self.position.column >= cap,
                None => false,
            };
            if over {
                self.scroll_offset.column = self.position.column - (b.width as usize) + 1;
            }
        }
    }

    /// Moves the cursor up by `offset`, clamped at the first row.
    pub fn move_up(&mut self, b: Boundaries, offset: usize)
        requires
            old(self).wf(),
            b.wf(),
        ensures
            *final(self) == move_up_state(*old(self), b, offset),
            final(self).wf(),
    {
        if self.position.row > 0 {
            if self.position.row <= self.scroll_offset.row {
                self.scroll_offset.row = self.scroll_offset.row.saturating_sub(offset);
            }
            self.position.row = self.position.row.saturating_sub(offset);
            let rl = self.document.row_len(self.position.row);
            self.position.column = if self.position.history.column <= rl {
                self.position.history.column
            } else {
                rl
            };
            self.rescroll_horizontal(b);
        }
    }

    /// Moves the cursor down by `offset`; moves only when the target row
    /// exists.
    pub fn move_down(&mut self, b: Boundaries, offset: usize)
        requires
            old(self).wf(),
            b.wf(),
        ensures
            *final(self) == move_down_state(*old(self), b, offset),
            final(self).wf(),
    {
        if self.position.row.saturating_add(offset) < self.document.rows.len() {
            let new_row = self.position.row + offset;
            let over = match self.scroll_offset.row.checked_add(b.height as usize) {
                Some(cap) => new_row >= cap,
                None => false,
            };
            if over {
                self.scroll_offset.row = self.scroll_offset.row.saturating_add(offset);
            }
            self.position.row = new_row;
            let rl = self.document.row_len(new_row);
            self.position.column = if self.position.history.column <= rl {
                self.position.history.column
            } else {
                rl
            };
            self.rescroll_horizontal(b);
        }
    }

    /// Moves the cursor left by `offset`; from column zero it moves to the
    /// end of the previous row.
    pub fn move_left(&mut self, b: Boundaries, offset: usize)
        requires
            old(self).wf(),
            b.wf(),
        ensures
            *final(self) == move_left_state(*old(self), b, offset),
            final(self).wf(),
    {
        if self.position.column > 0 {
            let new_col = self.position.column.saturating_sub(offset);
            self.position.column = new_col;
            self.position.history.column = new_col;
            self.rescroll_horizontal(b);
        } else if offset != 0 {
            if self.position.row == self.scroll_offset.row && self.scroll_offset.row > 0 {
                self.scroll_offset.row = self.scroll_offset.row - 1;
            }
            if self.position.row > 0 {
                self.position.row = self.position.row - 1;
                let rl = self.document.row_len(self.position.row);
                self.position.column = rl;
                self.position.history.column = rl;
                self.rescroll_horizontal(b);
            }
        }
    }

    /// Moves the cursor right by `offset`, clamped to the row's end; from
    /// the row's end it moves to the start of the next row.
    pub fn move_right(&mut self, b: Boundaries, offset: usize)
        requires
            old(self).wf(),
            b.wf(),
        ensures
            *final(self) == move_right_state(*old(self), b, offset),
            final(self).wf(),
    {
        let rl = self.document.row_len(self.position.row);
        if self.position.column < rl {
            let new_col = if offset <= rl - self.position.column {
                self.position.column + offset
            } else {
                rl
            };
            self.position.column = new_col;
            self.position.history.column = new_col;
            self.rescroll_horizontal(b);
        } else if offset != 0 {
            let n = self.document.rows.len();
            let cap = self.scroll_offset.row.saturating_add(b.height as usize);
            if self.position.row.saturating_add(offset) >= cap && cap < n {
                self.scroll_offset.row = self.scroll_offset.row + 1;
            }
            if self.position.row + 1 < n {
                self.position.row = self.position.row + 1;
                self.position.column = 0;
                self.position.history.column = 0;
                self.scroll_offset.column = 0;
            }
        }
    }
}

/// One key event, reduced to the plain form the editor consumes: direction
/// keys, editing keys, or a character together with its Control flag.
#[derive(Clone, Copy, PartialEq, Eq, Structural)]
pub enum KeyInput {
    Up,
    Down,
    Left,
    Right,
    Home,
    End,
    Char(char, bool),
    Enter,
    Delete,
    Backspace,
    Escape,
}

/// The mode transition table: in Normal mode, `i`, `o` and `O` enter Insert
/// mode; in Insert mode, Escape returns to Normal; every other key leaves
/// the mode alone.
pub open spec fn next_mode(m: EditorMode, k: KeyInput) -> EditorMode {
    match m {
        EditorMode::Normal => match k {
            KeyInput::Char(c, _) => if c == 'i' || c == 'o' || c == 'O' {
                EditorMode::Insert
            } else {
                EditorMode::Normal
            },
            _ => EditorMode::Normal,
        },
        EditorMode::Insert => match k {
            KeyInput::Escape => EditorMode::Normal,
            _ => EditorMode::Insert,
        },
    }
}

/// Whether a character key does anything in Normal mode.
pub open spec fn normal_char_acts(c: char, ctrl: bool) -> bool {
    ||| (c == 'q' && ctrl)
    ||| c == 'i'
    ||| c == 'o'
    ||| c == 'O'
    ||| (c == 's' && ctrl)
    ||| c == 'k'
    ||| c == 'j'
    ||| c == 'h'
    ||| c == 'l'
}

impl Editor {
    /// Interprets one key event against the current mode, moving the cursor,
    /// editing the document, or switching mode; returns whether a save was
    /// requested (the one action the editor cannot perform itself).
    pub fn handle_key(&mut self, b: Boundaries, k: KeyInput) -> (save_requested: bool)
        requires
            old(self).wf(),
            b.wf(),
        ensures
            final(self).wf(),
            final(self).mode == next_mode(old(self).mode, k),
            save_requested == (old(self).mode == EditorMode::Normal && k == KeyInput::Char(
                's',
                true,
            )),
            k == KeyInput::Up ==> *final(self) == move_up_state(*old(self), b, 1),
            k == KeyInput::Down ==> *final(self) == move_down_state(*old(self), b, 1),
            k == KeyInput::Left ==> *final(self) == move_left_state(*old(self), b, 1),
            k == KeyInput::Right ==> *final(self) == move_right_state(*old(self), b, 1),
            k == KeyInput::Home ==> *final(self) == move_left_state(
                *old(self),
                b,
                old(self).position.column,
            ),
            k == KeyInput::End ==> *final(self) == move_right_state(
                *old(self),
                b,
                sat_sub(
                    old(self).document.spec_row_len(old(self).position.row as int) as int,
                    old(self).position.column as int,
                ) as usize,
            ),
            k == KeyInput::Char('q', true) ==> *final(self) == (Editor {
                status: EditorStatus::Exit,
                ..*old(self)
            }),
            old(self).mode == EditorMode::Normal ==> {
                &&& k matches KeyInput::Char('i', _) ==> *final(self) == (Editor {
                    mode: EditorMode::Insert,
                    ..*old(self)
                })
                &&& k matches KeyInput::Char('o', _) ==> ({
                    let d1 = final(self).document;
                    let r = old(self).position.row as int;
                    &&& d1.rows@.len() == old(self).document.rows@.len() + 1
                    &&& d1.rows@[r + 1].wf()
                    &&& d1.rows@[r + 1]@.len() == 0
                    &&& forall|i: int| 0 <= i <= r ==> d1.rows@[i] == old(self).document.rows@[i]
                    &&& forall|i: int|
                        r + 1 < i < d1.rows@.len() ==> d1.rows@[i] == old(self).document.rows@[i
                            - 1]
                    &&& d1.path == old(self).document.path
                    &&& d1.modified == old(self).document.modified
                    &&& *final(self) == move_down_state(
                        Editor { document: d1, mode: EditorMode::Insert, ..*old(self) },
                        b,
                        1,
                    )
                })
                &&& k matches KeyInput::Char('O', _) ==> ({
                    let d1 = final(self).document;
                    let r = old(self).position.row as int;
                    &&& d1.rows@.len() == old(self).document.rows@.len() + 1
                    &&& d1.rows@[r].wf()
                    &&& d1.rows@[r]@.len() == 0
                    &&& forall|i: int| 0 <= i < r ==> d1.rows@[i] == old(self).document.rows@[i]
                    &&& forall|i: int|
                        r < i < d1.rows@.len() ==> d1.rows@[i] == old(self).document.rows@[i - 1]
                    &&& d1.path == old(self).document.path
                    &&& d1.modified == old(self).document.modified
                    &&& *final(self) == move_left_state(
                        Editor { document: d1, mode: EditorMode::Insert, ..*old(self) },
                        b,
                        old(self).position.column,
                    )
                })
                &&& k == KeyInput::Char('s', true) ==> *final(self) == *old(self)
                &&& k matches KeyInput::Char('k', _) ==> *final(self) == move_up_state(
                    *old(self),
                    b,
                    1,
                )
                &&& k matches KeyInput::Char('j', _) ==> *final(self) == move_down_state(
                    *old(self),
                    b,
                    1,
                )
                &&& k matches KeyInput::Char('h', _) ==> *final(self) == move_left_state(
                    *old(self),
                    b,
                    1,
                )
                &&& k matches KeyInput::Char('l', _) ==> *final(self) == move_right_state(
                    *old(self),
                    b,
                    1,
                )
                &&& (k matches KeyInput::Char(c, ctrl) && !normal_char_acts(c, ctrl))
                    ==> *final(self) == *old(self)
                &&& (k == KeyInput::Enter || k == KeyInput::Delete || k == KeyInput::Backspace || k
                    == KeyInput::Escape) ==> *final(self) == *old(self)
            },
            old(self).mode == EditorMode::Insert ==> {
                &&& k matches KeyInput::Char(c, ctrl) ==> !(c == 'q' && ctrl) ==> ({
                    let d1 = final(self).document;
                    &&& d1.wf()
                    &&& (c == '\n' ==> line_split(old(self).document, d1, old(self).position))
                    &&& (c != '\n' ==> cluster_inserted(
                        old(self).document,
                        d1,
                        old(self).position,
                        c,
                    ))
                    &&& *final(self) == move_right_state(
                        Editor { document: d1, ..*old(self) },
                        b,
                        1,
                    )
                })
                &&& k == KeyInput::Enter ==> ({
                    let d1 = final(self).document;
                    &&& d1.wf()
                    &&& line_split(old(self).document, d1, old(self).position)
                    &&& *final(self) == move_right_state(
                        Editor { document: d1, ..*old(self) },
                        b,
                        1,
                    )
                })
                &&& k == KeyInput::Delete ==> ({
                    let d1 = final(self).document;
                    &&& deleted_at(old(self).document, d1, old(self).position)
                    &&& *final(self) == (Editor { document: d1, ..*old(self) })
                })
                &&& k == KeyInput::Backspace ==> ({
                    if old(self).position.row > 0 || old(self).position.column > 0 {
                        let e1 = move_left_state(*old(self), b, 1);
                        let d1 = final(self).document;
                        &&& deleted_at(old(self).document, d1, e1.position)
                        &&& *final(self) == (Editor {
                            document: d1,
                            position: e1.position,
                            scroll_offset: e1.scroll_offset,
                            ..*old(self)
                        })
                    } else {
                        *final(self) == *old(self)
                    }
                })
                &&& k == KeyInput::Escape ==> *final(self) == (Editor {
                    mode: EditorMode::Normal,
                    ..*old(self)
                })
            },
    {
        match k {
            KeyInput::Up => {
                self.move_up(b, 1);
                false
            },
            KeyInput::Down => {
                self.move_down(b, 1);
                false
            },
            KeyInput::Left => {
                self.move_left(b, 1);
                false
            },
            KeyInput::Right => {
                self.move_right(b, 1);
                false
            },
            KeyInput::Home => {
                let c = self.position.column;
                self.move_left(b, c);
                false
            },
            KeyInput::End => {
                let rl = self.document.row_len(self.position.row);
                let c = self.position.column;
                self.move_right(b, rl.saturating_sub(c));
                false
            },
            KeyInput::Char('q', true) => {
                self.status = EditorStatus::Exit;
                false
            },
            _ => match self.mode {
                EditorMode::Normal => self.handle_normal_key(b, k),
                EditorMode::Insert => {
                    self.handle_insert_key(b, k);
                    false
                },
            },
        }
    }

    /// Normal-mode dispatch for the keys that are not plain movement.
    fn handle_normal_key(&mut self, b: Boundaries, k: KeyInput) -> (save_requested: bool)
        requires
            old(self).wf(),
            b.wf(),
            old(self).mode == EditorMode::Normal,
            !(k matches KeyInput::Up),
            !(k matches KeyInput::Down),
            !(k matches KeyInput::Left),
            !(k matches KeyInput::Right),
            !(k matches KeyInput::Home),
            !(k matches KeyInput::End),
            k != KeyInput::Char('q', true),
        ensures
            final(self).wf(),
            final(self).mode == next_mode(old(self).mode, k),
            save_requested == (k == KeyInput::Char('s', true)),
            k matches KeyInput::Char('i', _) ==> *final(self) == (Editor {
                mode: EditorMode::Insert,
                ..*old(self)
            }),
            k matches KeyInput::Char('o', _) ==> ({
                let d1 = final(self).document;
                let r = old(self).position.row as int;
                &&& d1.rows@.len() == old(self).document.rows@.len() + 1
                &&& d1.rows@[r + 1].wf()
                &&& d1.rows@[r + 1]@.len() == 0
                &&& forall|i: int| 0 <= i <= r ==> d1.rows@[i] == old(self).document.rows@[i]
                &&& forall|i: int|
                    r + 1 < i < d1.rows@.len() ==> d1.rows@[i] == old(self).document.rows@[i - 1]
                &&& d1.path == old(self).document.path
                &&& d1.modified == old(self).document.modified
                &&& *final(self) == move_down_state(
                    Editor { document: d1, mode: EditorMode::Insert, ..*old(self) },
                    b,
                    1,
                )
            }),
            k matches KeyInput::Char('O', _) ==> ({
                let d1 = final(self).document;
                let r = old(self).position.row as int;
                &&& d1.rows@.len() == old(self).document.rows@.len() + 1
                &&& d1.rows@[r].wf()
                &&& d1.rows@[r]@.len() == 0
                &&& forall|i: int| 0 <= i < r ==> d1.rows@[i] == old(self).document.rows@[i]
                &&& forall|i: int|
                    r < i < d1.rows@.len() ==> d1.rows@[i] == old(self).document.rows@[i - 1]
                &&& d1.path == old(self).document.path
                &&& d1.modified == old(self).document.modified
                &&& *final(self) == move_left_state(
                    Editor { document: d1, mode: EditorMode::Insert, ..*old(self) },
                    b,
                    old(self).position.column,
                )
            }),
            k == KeyInput::Char('s', true) ==> *final(self) == *old(self),
            k matches KeyInput::Char('k', _) ==> *final(self) == move_up_state(*old(self), b, 1),
            k matches KeyInput::Char('j', _) ==> *final(self) == move_down_state(*old(self), b, 1),
            k matches KeyInput::Char('h', _) ==> *final(self) == move_left_state(*old(self), b, 1),
            k matches KeyInput::Char('l', _) ==> *final(self) == move_right_state(
                *old(self),
                b,
                1,
            ),
            (k matches KeyInput::Char(c, ctrl) && !normal_char_acts(c, ctrl)) ==> *final(self)
                == *old(self),
            (k == KeyInput::Enter || k == KeyInput::Delete || k == KeyInput::Backspace || k
                == KeyInput::Escape) ==> *final(self) == *old(self),
    {
        match k {
            KeyInput::Char(c, ctrl) => {
                if c == 'q' {
                    // a plain q does nothing; the quit chord never reaches here
                    false
                } else if c == 'i' {
                    self.mode = EditorMode::Insert;
                    false
                } else if c == 'o' {
                    let n = self.document.rows.len();
                    let at = self.position.row;
                    proof {
                        // binds the row count to a machine word, so `at + 1` fits
                        assert(at < n);
                    }
                    self.document.rows.insert(at + 1, Row::empty());
                    self.mode = EditorMode::Insert;
                    proof {
                        assert forall|i: int| 0 <= i < self.document.rows@.len() implies (
                        #[trigger] self.document.rows@[i]).wf() by {
                            if i <= at as int {
                                assert(self.document.rows@[i] == old(self).document.rows@[i]);
                            } else if i > at as int + 1 {
                                assert(self.document.rows@[i] == old(self).document.rows@[i - 1]);
                            }
                        }
                        assert(self.document.rows@[self.position.row as int] == old(
                            self,
                        ).document.rows@[self.position.row as int]);
                        assert(self.wf());
                    }
                    self.move_down(b, 1);
                    false
                } else if c == 'O' {
                    let at = self.position.row;
                    self.document.rows.insert(at, Row::empty());
                    self.mode = EditorMode::Insert;
                    if self.position.column > 0 {
                        self.position.column = 0;
                        self.position.history.column = 0;
                        self.scroll_offset.column = 0;
                    }
                    proof {
                        assert forall|i: int| 0 <= i < self.document.rows@.len() implies (
                        #[trigger] self.document.rows@[i]).wf() by {
                            if i > at as int {
                                assert(self.document.rows@[i] == old(self).document.rows@[i - 1]);
                            }
                        }
                    }
                    false
                } else if c == 's' {
                    ctrl
                } else if c == 'k' {
                    self.move_up(b, 1);
                    false
                } else if c == 'j' {
                    self.move_down(b, 1);
                    false
                } else if c == 'h' {
                    self.move_left(b, 1);
                    false
                } else if c == 'l' {
                    self.move_right(b, 1);
                    false
                } else {
                    false
                }
            },
            _ => false,
        }
    }

    /// Insert-mode dispatch for the keys that are not plain movement.
    fn handle_insert_key(&mut self, b: Boundaries, k: KeyInput)
        requires
            old(self).wf(),
            b.wf(),
            old(self).mode == EditorMode::Insert,
            !(k matches KeyInput::Up),
            !(k matches KeyInput::Down),
            !(k matches KeyInput::Left),
            !(k matches KeyInput::Right),
            !(k matches KeyInput::Home),
            !(k matches KeyInput::End),
            k != KeyInput::Char('q', true),
        ensures
            final(self).wf(),
            final(self).mode == next_mode(old(self).mode, k),
            k matches KeyInput::Char(c, _) ==> ({
                let d1 = final(self).document;
                &&& d1.wf()
                &&& (c == '\n' ==> line_split(old(self).document, d1, old(self).position))
                &&& (c != '\n' ==> cluster_inserted(old(self).document, d1, old(self).position, c))
                &&& *final(self) == move_right_state(Editor { document: d1, ..*old(self) }, b, 1)
            }),
            k == KeyInput::Enter ==> ({
                let d1 = final(self).document;
                &&& d1.wf()
                &&& line_split(old(self).document, d1, old(self).position)
                &&& *final(self) == move_right_state(Editor { document: d1, ..*old(self) }, b, 1)
            }),
            k == KeyInput::Delete ==> ({
                let d1 = final(self).document;
                &&& deleted_at(old(self).document, d1, old(self).position)
                &&& *final(self) == (Editor { document: d1, ..*old(self) })
            }),
            k == KeyInput::Backspace ==> ({
                if old(self).position.row > 0 || old(self).position.column > 0 {
                    let e1 = move_left_state(*old(self), b, 1);
                    let d1 = final(self).document;
                    &&& deleted_at(old(self).document, d1, e1.position)
                    &&& *final(self) == (Editor {
                        document: d1,
                        position: e1.position,
                        scroll_offset: e1.scroll_offset,
                        ..*old(self)
                    })
                } else {
                    *final(self) == *old(self)
                }
            }),
            k == KeyInput::Escape ==> *final(self) == (Editor {
                mode: EditorMode::Normal,
                ..*old(self)
            }),
    {
        match k {
            KeyInput::Char(c, _) => {
                self.document.insert(self.position, c);
                self.move_right(b, 1);
            },
            KeyInput::Enter => {
                self.document.insert(self.position, '\n');
                self.move_right(b, 1);
            },
            KeyInput::Delete => {
                self.document.delete(self.position);
            },
            KeyInput::Backspace => {
                if self.position.row > 0 || self.position.column > 0 {
                    self.move_left(b, 1);
                    self.document.delete(self.position);
                }
            },
            KeyInput::Escape => {
                self.mode = EditorMode::Normal;
            },
            _ => {
            },
        }
    }
}

/// After a vertical move that actually moved, the column is the sticky
/// column clamped to the target row's length.
pub proof fn lemma_vertical_move_sticky_column(e: Editor, b: Boundaries, offset: usize)
    ensures
        e.position.row > 0 ==> move_up_state(e, b, offset).position.column as int == min_int(
            e.position.history.column as int,
            e.document.spec_row_len(sat_sub(e.position.row as int, offset as int)) as int,
        ),
        (e.position.row as int) + (offset as int) < e.document.rows@.len() ==> move_down_state(
            e,
            b,
            offset,
        ).position.column as int == min_int(
            e.position.history.column as int,
            e.document.spec_row_len((e.position.row as int) + (offset as int)) as int,
        ),
{
}

/// A visible cursor stays visible across a move up, provided the offset does
/// not carry the cursor above the scroll row, and the recomputed column does
/// not land left of the scroll offset while at or beyond the viewport width.
pub proof fn lemma_move_up_keeps_cursor_visible(e: Editor, b: Boundaries, offset: usize)
    requires
        e.wf(),
        b.wf(),
        e.cursor_visible(b),
        e.position.row <= e.scroll_offset.row || offset <= e.position.row - e.scroll_offset.row,
        move_up_state(e, b, offset).position.column >= e.scroll_offset.column || (move_up_state(
            e,
            b,
            offset,
        ).position.column as int) < b.width,
    ensures
        move_up_state(e, b, offset).cursor_visible(b),
{
}

/// A visible cursor stays visible across a move down, provided the
/// recomputed column does not land left of the scroll offset while at or
/// beyond the viewport width.
pub proof fn lemma_move_down_keeps_cursor_visible(e: Editor, b: Boundaries, offset: usize)
    requires
        e.wf(),
        b.wf(),
        e.cursor_visible(b),
        e.document.rows@.len() <= usize::MAX as int,
        move_down_state(e, b, offset).position.column >= e.scroll_offset.column || (
        move_down_state(e, b, offset).position.column as int) < b.width,
    ensures
        move_down_state(e, b, offset).cursor_visible(b),
{
}

/// A visible cursor stays visible across a move left, provided the new
/// column does not land left of the scroll offset while at or beyond the
/// viewport width.
pub proof fn lemma_move_left_keeps_cursor_visible(e: Editor, b: Boundaries, offset: usize)
    requires
        e.wf(),
        b.wf(),
        e.cursor_visible(b),
        move_left_state(e, b, offset).position.column >= e.scroll_offset.column || (move_left_state(
            e,
            b,
            offset,
        ).position.column as int) < b.width,
    ensures
        move_left_state(e, b, offset).cursor_visible(b),
{
}

/// A visible cursor stays visible across any move right.
pub proof fn lemma_move_right_keeps_cursor_visible(e: Editor, b: Boundaries, offset: usize)
    requires
        e.wf(),
        b.wf(),
        e.cursor_visible(b),
        e.document.rows@.len() <= usize::MAX as int,
    ensures
        move_right_state(e, b, offset).cursor_visible(b),
{
}

/// The decimal digit character for `d < 10`.
pub open spec fn dec_digit(d: nat) -> char {
    if d == 0 {
        '0'
    } else if d == 1 {
        '1'
    } else if d == 2 {
        '2'
    } else if d == 3 {
        '3'
    } else if d == 4 {
        '4'
    } else if d == 5 {
        '5'
    } else if d == 6 {
        '6'
    } else if d == 7 {
        '7'
    } else if d == 8 {
        '8'
    } else {
        '9'
    }
}

/// The decimal digits of `n`, most significant first.
pub open spec fn dec_rep(n: nat) -> Seq<char>
    decreases n,
{
    if n < 10 {
        seq![dec_digit(n)]
    } else {
        dec_rep(n / 10).push(dec_digit(n % 10))
    }
}

fn digit_char(d: usize) -> (c: char)
    requires
        d < 10,
    ensures
        c == dec_digit(d as nat),
{
    if d == 0 {
        '0'
    } else if d == 1 {
        '1'
    } else if d == 2 {
        '2'
    } else if d == 3 {
        '3'
    } else if d == 4 {
        '4'
    } else if d == 5 {
        '5'
    } else if d == 6 {
        '6'
    } else if d == 7 {
        '7'
    } else if d == 8 {
        '8'
    } else {
        '9'
    }
}

/// The decimal representation of `n`.
pub fn usize_to_string(n: usize) -> (r: String)
    ensures
        r@ == dec_rep(n as nat),
    decreases n,
{
    if n < 10 {
        char_to_string(digit_char(n))
    } else {
        let mut s = usize_to_string(n / 10);
        let d = char_to_string(digit_char(n % 10));
        s.append(d.as_str());
        proof {
            assert(dec_rep((n / 10) as nat).push(dec_digit((n % 10) as nat)) =~= dec_rep(
                (n / 10) as nat,
            ) + seq![dec_digit((n % 10) as nat)]);
        }
        s
    }
}

/// The status message reporting a completed save.
pub open spec fn save_ok_message(path: Seq<char>, rows: nat, bytes: nat) -> Seq<char> {
    "'"@ + path + "' saved, "@ + dec_rep(rows) + "L "@ + dec_rep(bytes) + "B"@
}

/// The status message reporting a failed save.
pub open spec fn save_err_message(err: Seq<char>) -> Seq<char> {
    "Could not save the document: "@ + err
}

impl EditorStatus {
    /// True exactly when the session should end.
    pub fn is_exit(&self) -> (r: bool)
        ensures
            r == (self matches EditorStatus::Exit),
    {
        match self {
            EditorStatus::Exit => true,
            _ => false,
        }
    }

    /// The status-bar text: the message when there is one, otherwise empty.
    pub fn text(&self) -> (r: String)
        ensures
            self matches EditorStatus::Message(m) ==> r@ == m@,
            self matches EditorStatus::Exit ==> r@ == Seq::<char>::empty(),
            self matches EditorStatus::Idle ==> r@ == Seq::<char>::empty(),
    {
        match self {
            EditorStatus::Message(m) => m.clone(),
            _ => String::new(),
        }
    }
}

impl EditorMode {
    /// The mode's status-bar label.
    pub fn text(&self) -> (r: String)
        ensures
            *self == EditorMode::Normal ==> r@ == "normal"@,
            *self == EditorMode::Insert ==> r@ == "insert"@,
    {
        match self {
            EditorMode::Normal => String::from_str("normal"),
            EditorMode::Insert => String::from_str("insert"),
        }
    }
}

impl Editor {
    /// The cursor's cell on screen: its document position less the scroll
    /// offset, clamped at zero. Column first, then row.
    pub fn cursor_screen_position(&self) -> (p: (usize, usize))
        ensures
            p.0 as int == sat_sub(self.position.column as int, self.scroll_offset.column as int),
            p.1 as int == sat_sub(self.position.row as int, self.scroll_offset.row as int),
    {
        (
            self.position.column.saturating_sub(self.scroll_offset.column),
            self.position.row.saturating_sub(self.scroll_offset.row),
        )
    }

    /// The rows in view: starting at the vertical scroll offset, at most
    /// `height` rows, each clipped to the `width` columns that begin at the
    /// horizontal scroll offset.
    pub fn visible_rows(&self, b: Boundaries) -> (v: Vec<String>)
        requires
            self.wf(),
            b.wf(),
        ensures
            v@.len() == min_int(
                b.height as int,
                sat_sub(self.document.rows@.len() as int, self.scroll_offset.row as int),
            ),
            forall|i: int|
                0 <= i < v@.len() ==> (#[trigger] v@[i])@ == render_clamped(
                    self.document.rows@[self.scroll_offset.row + i]@,
                    self.scroll_offset.column as int,
                    sat_cap((self.scroll_offset.column as int) + (b.width as int)),
                ),
    {
        let start = self.scroll_offset.column;
        let end = start.saturating_add(b.width as usize);
        let n = self.document.rows.len();
        let remaining = n.saturating_sub(self.scroll_offset.row);
        let count = if (b.height as usize) <= remaining {
            b.height as usize
        } else {
            remaining
        };
        let mut v: Vec<String> = Vec::new();
        let mut i: usize = 0;
        while i < count
            invariant
                self.wf(),
                i <= count,
                count as int <= sat_sub(n as int, self.scroll_offset.row as int),
                n == self.document.rows@.len(),
                start == self.scroll_offset.column,
                end as int == sat_cap((self.scroll_offset.column as int) + (b.width as int)),
                v@.len() == i,
                forall|j: int|
                    0 <= j < i as int ==> (#[trigger] v@[j])@ == render_clamped(
                        self.document.rows@[self.scroll_offset.row + j]@,
                        self.scroll_offset.column as int,
                        end as int,
                    ),
            decreases count - i,
        {
            v.push(self.document.rows[self.scroll_offset.row + i].render(start, end));
            i = i + 1;
        }
        v
    }

    /// Serialises the document for a save, first giving it a placeholder
    /// path when it never had one. Returns the text that the save writes.
    pub fn prepare_save(&mut self) -> (text: String)
        requires
            old(self).wf(),
        ensures
            final(self).wf(),
            final(self).document.path is Some,
            old(self).document.path is Some ==> final(self).document.path == old(
                self,
            ).document.path,
            old(self).document.path is None ==> final(self).document.path->0@ == "temp"@,
            final(self).document.rows == old(self).document.rows,
            final(self).document.modified == old(self).document.modified,
            final(self).position == old(self).position,
            final(self).scroll_offset == old(self).scroll_offset,
            final(self).mode == old(self).mode,
            final(self).status == old(self).status,
            text@ == spec_text(final(self).document),
    {
        if self.document.path.is_none() {
            self.document.path = Some(String::from_str("temp"));
        }
        self.document.save_text()
    }

    /// Records the outcome of writing the document: on success the modified
    /// flag clears and the status reports the path, the row count and the
    /// bytes written; on failure the status reports the error and the
    /// document is untouched.
    pub fn save(&mut self, outcome: Result<usize, String>)
        requires
            old(self).wf(),
            old(self).document.path is Some,
        ensures
            final(self).wf(),
            final(self).position == old(self).position,
            final(self).scroll_offset == old(self).scroll_offset,
            final(self).mode == old(self).mode,
            final(self).document.rows == old(self).document.rows,
            final(self).document.path == old(self).document.path,
            outcome matches Ok(n) ==> !final(self).document.modified && (final(self).status
                matches EditorStatus::Message(m) && m@ == save_ok_message(
                old(self).document.path->0@,
                old(self).document.rows@.len(),
                n as nat,
            )),
            outcome matches Err(e) ==> final(self).document.modified == old(
                self,
            ).document.modified && (final(self).status matches EditorStatus::Message(m) && m@
                == save_err_message(e@)),
    {
        match outcome {
            Ok(n) => {
                self.document.modified = false;
                let mut m = String::from_str("'");
                match &self.document.path {
                    Some(p) => m.append(p.as_str()),
                    None => {},
                }
                m.append("' saved, ");
                let rows = usize_to_string(self.document.rows.len());
                m.append(rows.as_str());
                m.append("L ");
                let bytes = usize_to_string(n);
                m.append(bytes.as_str());
                m.append("B");
                proof {
                    assert(m@ =~= save_ok_message(
                        old(self).document.path->0@,
                        old(self).document.rows@.len(),
                        n as nat,
                    ));
                }
                self.status = EditorStatus::Message(m);
            },
            Err(e) => {
                let mut m = String::from_str("Could not save the document: ");
                m.append(e.as_str());
                self.status = EditorStatus::Message(m);
            },
        }
    }
}

} // verus!
