use vstd::prelude::*;
use crate::editor::{TextEditor, VimMode, EditorStyle, PendingOperator, CommandKind};
use crate::command::{Request, line_number, parse_line_number};
use crate::visual::{CaseChange, joined_n, cut_text, selection_deleted, selection_indented, selection_outdented, selection_case_changed};
use crate::buffer::copy_range;

verus! {

/// An editing action, already decoded from raw input.
#[derive(Debug, Clone, Copy, PartialEq, Eq, Structural)]
pub enum Key {
    Char(char),
    Ctrl(char),
    Esc,
    Enter,
    Backspace,
    Delete,
    Tab,
    Left,
    Right,
    Up,
    Down,
    Home,
    End,
    PageUp,
    PageDown,
}

/// The repeat count typed so far: its value when it is a number of at least 1, else 1.
pub open spec fn count_value(digits: Seq<char>) -> nat {
    match line_number(digits) {
        Some(n) => if n >= 1 {
            n
        } else {
            1
        },
        None => 1,
    }
}

/// Keys that move the cursor in the Visual modes.
pub open spec fn visual_motion(key: Key) -> bool {
    match key {
        Key::Char(c) => c == 'h' || c == 'j' || c == 'k' || c == 'l' || c == 'w' || c == 'b' || c
            == 'e' || c == '0' || c == '$' || c == '^' || c == 'G' || c == 'g',
        Key::Left | Key::Right | Key::Up | Key::Down | Key::Home | Key::End => true,
        _ => false,
    }
}

impl TextEditor {
    /// Take the repeat count typed so far (1 when there is none) and clear it.
    pub fn get_count(&mut self) -> (n: usize)
        requires
            old(self).wf(),
        ensures
            final(self).wf(),
            n as nat == count_value(old(self).count_buffer@),
            n >= 1,
            *final(self) == (TextEditor { count_buffer: final(self).count_buffer, ..*old(self) }),
            final(self).count_buffer@.len() == 0,
    {
        let n = match parse_line_number(&self.count_buffer) {
            Some(n) => if n >= 1 {
                n
            } else {
                1
            },
            None => 1,
        };
        self.count_buffer = Vec::new();
        n
    }

    /// Delete from the cursor's line to the end of the buffer (dG).
    pub fn delete_to_last_line(&mut self)
        requires
            old(self).wf(),
        ensures
            final(self).wf(),
            final(self).recorded(old(self)),
            final(self).register() == old(self).text().subrange(
                old(self).cursor_row as int,
                old(self).lines@.len() as int,
            ),
            final(self).clipboard_is_line,
            final(self).modified,
            ({
                let rest = old(self).text().subrange(0, old(self).cursor_row as int);
                final(self).text() == (if rest.len() == 0 {
                    seq![Seq::<char>::empty()]
                } else {
                    rest
                })
            }),
    {
        let n = self.lines.len() - self.cursor_row;
        self.delete_lines(n);
        assert(old(self).text().subrange(
            old(self).lines@.len() as int,
            old(self).lines@.len() as int,
        ) =~= Seq::<Seq<char>>::empty());
        assert(old(self).text().subrange(0, old(self).cursor_row as int) + Seq::<Seq<char>>::empty()
            =~= old(self).text().subrange(0, old(self).cursor_row as int));
    }

    /// Delete from the first line to the cursor's line (dgg).
    pub fn delete_to_first_line(&mut self)
        requires
            old(self).wf(),
        ensures
            final(self).wf(),
            final(self).recorded(old(self)),
            final(self).register() == old(self).text().subrange(0, old(self).cursor_row + 1),
            final(self).clipboard_is_line,
            final(self).modified,
            ({
                let rest = old(self).text().subrange(
                    old(self).cursor_row + 1,
                    old(self).lines@.len() as int,
                );
                final(self).text() == (if rest.len() == 0 {
                    seq![Seq::<char>::empty()]
                } else {
                    rest
                })
            }),
            final(self).cursor_row == 0,
            final(self).cursor_col == 0,
    {
        self.save_undo();
        let n = self.lines.len();
        assert(self.cursor_row < n);
        let end = self.cursor_row + 1;
        self.clipboard = copy_range(&self.lines, 0, end);
        self.clipboard_is_line = true;
        let ghost t0 = self.text();
        self.cursor_row = 0;
        self.cursor_col = 0;
        let mut k: usize = 0;
        let ghost saved = *self;
        while k < end
            invariant
                k <= end <= t0.len(),
                self.text() == t0.subrange(k as int, t0.len() as int),
                self.lines@.len() == t0.len() - k,
                *self == (TextEditor { lines: self.lines, ..saved }),
            decreases end - k,
        {
            self.remove_line(0);
            assert(self.text() =~= t0.subrange(k + 1, t0.len() as int));
            k = k + 1;
        }
        if self.lines.len() == 0 {
            self.insert_line(0, Vec::new());
            assert(self.text() =~= seq![Seq::<char>::empty()]);
        }
        self.modified = true;
    }

    /// Handle one editing action in the current style and mode. The returned
    /// request tells the caller what to do outside the engine (save, quit,
    /// reload, copy to the system clipboard).
    pub fn handle_key(&mut self, key: Key) -> (req: Request)
        requires
            old(self).wf(),
        ensures
            final(self).wf(),
            old(self).editor_style == EditorStyle::Vim && old(self).mode == VimMode::Insert ==> {
                &&& req == Request::Continue
                &&& key == Key::Esc ==> final(self).mode == VimMode::Normal
                &&& (key matches Key::Char(_)) ==> final(self).text() == old(self).text().update(
                    old(self).cursor_row as int,
                    old(self).current_line().insert(old(self).cursor_col as int, key->Char_0),
                )
            },
            old(self).editor_style == EditorStyle::Vim && old(self).mode == VimMode::Command ==> {
                &&& key == Key::Esc ==> final(self).mode == VimMode::Normal && final(self).text()
                    == old(self).text()
                &&& (key matches Key::Char(_)) && old(self).command_kind != CommandKind::ReplaceChar
                    ==> final(self).command_buffer@ == old(self).command_buffer@.push(key->Char_0)
            },
            old(self).editor_style == EditorStyle::Vim && old(self).mode == VimMode::Normal ==> {
                &&& req == Request::Continue
                &&& old(self).pending_op == PendingOperator::Nothing && !old(self).g_pending && key
                    == Key::Char(':') ==> final(self).mode == VimMode::Command
                &&& old(self).pending_op == PendingOperator::Nothing && !old(self).g_pending && key
                    == Key::Char('i') ==> final(self).mode == VimMode::Insert
            },
            old(self).editor_style == EditorStyle::Vim && (old(self).mode == VimMode::Visual
                || old(self).mode == VimMode::VisualLine) ==> {
                &&& (key == Key::Char('d') || key == Key::Char('x')) ==> final(self).register()
                    == old(self).selected() && final(self).mode == VimMode::Normal
                &&& key == Key::Char('y') ==> final(self).register() == old(self).selected()
                    && req == Request::CopyRegister
            },
            old(self).editor_style == EditorStyle::Nano && !old(self).nano_search_mode ==> {
                &&& (key == Key::Ctrl('o') || key == Key::Ctrl('O')) ==> req == Request::Save
                &&& (key matches Key::Char(_)) ==> final(self).text() == old(self).text().update(
                    old(self).cursor_row as int,
                    old(self).current_line().insert(old(self).cursor_col as int, key->Char_0),
                )
            },
    {
        match self.editor_style {
            EditorStyle::Nano => self.handle_nano_key(key),
            EditorStyle::Vim => match self.mode {
                VimMode::Normal => self.handle_normal_key(key),
                VimMode::Insert => {
                    self.handle_insert_key(key);
                    Request::Continue
                },
                VimMode::Command => self.handle_command_key(key),
                VimMode::Visual | VimMode::VisualLine => self.handle_visual_key(key),
            },
        }
    }

    /// Keys of Insert mode.
    pub fn handle_insert_key(&mut self, key: Key)
        requires
            old(self).wf(),
        ensures
            final(self).wf(),
            key == Key::Esc ==> final(self).mode == VimMode::Normal,
            (key matches Key::Char(c)) ==> final(self).text() == old(self).text().update(
                old(self).cursor_row as int,
                old(self).current_line().insert(old(self).cursor_col as int, key->Char_0),
            ),
    {
        match key {
            Key::Esc => self.enter_normal_mode(),
            Key::Char(c) => self.insert_char(c),
            Key::Enter => self.insert_newline(),
            Key::Backspace => self.backspace(),
            Key::Delete => self.delete_char(),
            Key::Tab => {
                self.insert_char(' ');
                self.insert_char(' ');
                self.insert_char(' ');
                self.insert_char(' ');
            },
            Key::Left => self.move_cursor_left(),
            Key::Right => self.move_cursor_right(),
            Key::Up => self.move_cursor_up(),
            Key::Down => self.move_cursor_down(),
            Key::Home => self.move_to_line_start(),
            Key::End => self.move_to_line_end(),
            _ => {},
        }
    }

    /// Keys of Command mode: the command line, a search prompt, or the
    /// character of a replace (r).
    pub fn handle_command_key(&mut self, key: Key) -> (req: Request)
        requires
            old(self).wf(),
        ensures
            final(self).wf(),
            key == Key::Esc ==> final(self).mode == VimMode::Normal && final(self).text()
                == old(self).text() && req == Request::Continue,
            (key matches Key::Char(_)) && old(self).command_kind != CommandKind::ReplaceChar
                ==> final(self).command_buffer@ == old(self).command_buffer@.push(key->Char_0)
                && req == Request::Continue,
            key == Key::Enter && old(self).command_kind != CommandKind::ReplaceChar ==> final(self).mode == VimMode::Normal,
            key == Key::Enter && (old(self).command_kind == CommandKind::SearchForward
                || old(self).command_kind == CommandKind::SearchBackward) ==> {
                &&& req == Request::Continue
                &&& final(self).text() == old(self).text()
                &&& old(self).command_buffer@.len() > 0 ==> final(self).search_pattern@ == old(self).command_buffer@
            },
            key == Key::Backspace && old(self).command_kind != CommandKind::ReplaceChar ==> {
                &&& final(self).command_buffer@ == (if old(self).command_buffer@.len() == 0 {
                    old(self).command_buffer@
                } else {
                    old(self).command_buffer@.drop_last()
                })
                &&& final(self).text() == old(self).text()
                &&& req == Request::Continue
                &&& (old(self).command_kind == CommandKind::Ex && final(self).command_buffer@.len()
                    == 0) ==> final(self).mode == VimMode::Normal
            },
            (key matches Key::Char(_)) && old(self).command_kind == CommandKind::ReplaceChar
                ==> final(self).mode == VimMode::Normal && req == Request::Continue && ({
                let s = old(self).current_line();
                let c = old(self).cursor_col as int;
                c < s.len() ==> final(self).text() == old(self).text().update(
                    old(self).cursor_row as int,
                    s.update(c, key->Char_0),
                )
            }),
    {
        if matches!(self.command_kind, CommandKind::ReplaceChar) {
            match key {
                Key::Char(c) => {
                    self.replace_char(c);
                    self.enter_normal_mode();
                },
                Key::Esc => self.enter_normal_mode(),
                _ => {},
            }
            return Request::Continue;
        }
        let is_search = matches!(self.command_kind, CommandKind::SearchForward) || matches!(
            self.command_kind,
            CommandKind::SearchBackward,
        );
        match key {
            Key::Esc => {
                self.enter_normal_mode();
                Request::Continue
            },
            Key::Char(c) => {
                self.append_command_char(c);
                Request::Continue
            },
            Key::Backspace => {
                self.backspace_command();
                if self.command_buffer.len() == 0 && !is_search {
                    self.enter_normal_mode();
                }
                Request::Continue
            },
            Key::Enter => {
                if is_search {
                    self.execute_search();
                    Request::Continue
                } else {
                    self.execute_command()
                }
            },
            _ => Request::Continue,
        }
    }

    /// Keys of the Visual modes: motions extend the selection; operators
    /// act on it and return to Normal mode.
    pub fn handle_visual_key(&mut self, key: Key) -> (req: Request)
        requires
            old(self).wf(),
        ensures
            final(self).wf(),
            (key == Key::Esc || key == Key::Char('v') || key == Key::Char('V')) ==> final(self).mode
                == VimMode::Normal && final(self).text() == old(self).text(),
            (key == Key::Char('d') || key == Key::Char('x')) ==> {
                &&& selection_deleted(*old(self), *final(self))
                &&& final(self).recorded(old(self))
                &&& final(self).register() == old(self).selected()
                &&& final(self).mode == VimMode::Normal
                &&& req == Request::Continue
            },
            (key == Key::Char('c') || key == Key::Char('s')) ==> {
                &&& final(self).text() == cut_text(*old(self))
                &&& final(self).recorded(old(self))
                &&& final(self).register() == old(self).selected()
                &&& final(self).mode == VimMode::Insert
            },
            key == Key::Char('y') ==> {
                &&& final(self).register() == old(self).selected()
                &&& final(self).text() == old(self).text()
                &&& final(self).mode == VimMode::Normal
                &&& req == Request::CopyRegister
            },
            key != Key::Char('y') ==> req == Request::Continue,
            key == Key::Char('>') ==> selection_indented(*old(self), *final(self)) && final(self).recorded(
                old(self),
            ) && final(self).mode == VimMode::Normal,
            key == Key::Char('<') ==> selection_outdented(*old(self), *final(self)) && final(self).recorded(
                old(self),
            ) && final(self).mode == VimMode::Normal,
            key == Key::Char('~') ==> selection_case_changed(
                *old(self),
                CaseChange::Toggle,
                *final(self),
            ) && final(self).mode == VimMode::Normal,
            key == Key::Char('u') ==> selection_case_changed(
                *old(self),
                CaseChange::Lower,
                *final(self),
            ) && final(self).mode == VimMode::Normal,
            key == Key::Char('U') ==> selection_case_changed(
                *old(self),
                CaseChange::Upper,
                *final(self),
            ) && final(self).mode == VimMode::Normal,
            key == Key::Char('J') ==> {
                let (sr, sc, er, ec) = old(self).selection();
                &&& final(self).text() == joined_n(old(self).text(), sr, (er - sr) as nat)
                &&& final(self).recorded(old(self))
                &&& final(self).mode == VimMode::Normal
            },
            visual_motion(key) ==> {
                &&& final(self).text() == old(self).text()
                &&& final(self).mode == old(self).mode
                &&& final(self).visual_start_row == old(self).visual_start_row
                &&& final(self).visual_start_col == old(self).visual_start_col
            },
    {
        match key {
            Key::Esc | Key::Char('v') | Key::Char('V') => self.enter_normal_mode(),
            Key::Char('h') | Key::Left => self.move_cursor_left(),
            Key::Char('j') | Key::Down => self.move_cursor_down(),
            Key::Char('k') | Key::Up => self.move_cursor_up(),
            Key::Char('l') | Key::Right => self.move_cursor_right(),
            Key::Char('w') => self.move_word_forward(),
            Key::Char('b') => self.move_word_backward(),
            Key::Char('e') => self.move_word_end(),
            Key::Char('0') | Key::Home => self.move_to_line_start(),
            Key::Char('$') | Key::End => self.move_to_line_end(),
            Key::Char('^') => self.move_to_first_nonblank(),
            Key::Char('G') => self.move_to_last_line(),
            Key::Char('g') => self.move_to_first_line(),
            Key::Char('d') | Key::Char('x') => self.delete_visual_selection(),
            Key::Char('y') => {
                self.yank_visual_selection();
                return Request::CopyRegister;
            },
            Key::Char('c') | Key::Char('s') => {
                self.delete_visual_selection();
                self.enter_insert_mode();
            },
            Key::Char('>') => self.indent_visual_selection(),
            Key::Char('<') => self.outdent_visual_selection(),
            Key::Char('~') => self.change_case_visual_selection(CaseChange::Toggle),
            Key::Char('u') => self.change_case_visual_selection(CaseChange::Lower),
            Key::Char('U') => self.change_case_visual_selection(CaseChange::Upper),
            Key::Char('J') => self.join_visual_selection(),
            _ => {},
        }
        Request::Continue
    }
}

} // verus!
