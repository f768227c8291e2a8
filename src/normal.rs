use vstd::prelude::*;
use vstd::string::StringExecFns;
use crate::editor::{TextEditor, VimMode, PendingOperator, CommandKind, min_nat};
use crate::command::Request;
use crate::keys::{Key, count_value};
use crate::edit::char_deleted;
use crate::edit_more::word_deleted;
use crate::text::string_of;

verus! {

/// The key completes the pending operator: it repeats it, or is `$`, `w`, `G` or `g` after `d`.
pub open spec fn completes(op: PendingOperator, key: Key) -> bool {
    match (op, key) {
        (PendingOperator::Delete, Key::Char(c)) => c == 'd' || c == '$' || c == 'w' || c == 'G'
            || c == 'g',
        (PendingOperator::Yank, Key::Char(c)) => c == 'y' || c == '$',
        (PendingOperator::Change, Key::Char(c)) => c == 'c' || c == '$',
        (PendingOperator::Indent, Key::Char(c)) => c == '>',
        (PendingOperator::Outdent, Key::Char(c)) => c == '<',
        _ => false,
    }
}

/// The operator a key starts in Normal mode, if any.
pub open spec fn operator_of(key: Key) -> PendingOperator {
    match key {
        Key::Char('d') => PendingOperator::Delete,
        Key::Char('y') => PendingOperator::Yank,
        Key::Char('c') => PendingOperator::Change,
        Key::Char('>') => PendingOperator::Indent,
        Key::Char('<') => PendingOperator::Outdent,
        _ => PendingOperator::Nothing,
    }
}

/// The buffer once lines `from..to` are gone; one empty line is left when none remain.
pub open spec fn without_lines(t: Seq<Seq<char>>, from: int, to: int) -> Seq<Seq<char>> {
    let rest = t.subrange(0, from) + t.subrange(to, t.len() as int);
    if rest.len() == 0 {
        seq![Seq::<char>::empty()]
    } else {
        rest
    }
}

/// `n` is `o` after `key` completed or abandoned the pending operator with
/// the count typed so far.
pub open spec fn operator_finished(o: TextEditor, key: Key, n: TextEditor) -> bool {
    let op = o.pending_op;
    let t = o.text();
    let row = o.cursor_row as int;
    let s = o.current_line();
    let cnt = count_value(o.count_buffer@);
    let end = min_nat((row + cnt) as nat, t.len()) as int;
    let c = min_nat(o.cursor_col as nat, s.len()) as int;
    &&& n.pending_op == PendingOperator::Nothing
    &&& n.count_buffer@.len() == 0
    &&& !completes(op, key) ==> n.text() == t && n.cursor_row == o.cursor_row && n.cursor_col
        == o.cursor_col && n.mode == o.mode
    &&& op == PendingOperator::Delete && key == Key::Char('d') ==> {
        &&& n.register() == t.subrange(row, end)
        &&& n.clipboard_is_line
        &&& n.text() == without_lines(t, row, end)
        &&& n.recorded(&o)
    }
    &&& op == PendingOperator::Yank && key == Key::Char('y') ==> {
        &&& n.register() == t.subrange(row, end)
        &&& n.clipboard_is_line
        &&& n.text() == t
    }
    &&& op == PendingOperator::Change && key == Key::Char('c') ==> {
        &&& n.text() == t.update(row, Seq::<char>::empty())
        &&& n.register() == seq![s]
        &&& n.mode == VimMode::Insert
        &&& n.recorded(&o)
    }
    &&& op == PendingOperator::Delete && key == Key::Char('$') ==> {
        &&& n.text() == t.update(row, s.subrange(0, c))
        &&& n.register() == seq![s.subrange(c, s.len() as int)]
        &&& !n.clipboard_is_line
        &&& n.recorded(&o)
    }
    &&& op == PendingOperator::Delete && key == Key::Char('w') && cnt == 1 ==> word_deleted(o, n)
    &&& op == PendingOperator::Delete && key == Key::Char('G') ==> {
        &&& n.text() == without_lines(t, row, t.len() as int)
        &&& n.register() == t.subrange(row, t.len() as int)
        &&& n.clipboard_is_line
        &&& n.recorded(&o)
    }
    &&& op == PendingOperator::Delete && key == Key::Char('g') ==> {
        &&& n.text() == without_lines(t, 0, row + 1)
        &&& n.register() == t.subrange(0, row + 1)
        &&& n.clipboard_is_line
        &&& n.cursor_row == 0
        &&& n.cursor_col == 0
        &&& n.recorded(&o)
    }
}

impl TextEditor {
    /// One step of a repeatable Normal-mode command.
    fn repeat_step(&mut self, key: Key)
        requires
            old(self).wf(),
        ensures
            final(self).wf(),
            final(self).mode == old(self).mode,
    {
        match key {
            Key::Char('h') | Key::Left => self.move_cursor_left(),
            Key::Char('j') | Key::Down => self.move_cursor_down(),
            Key::Char('k') | Key::Up => self.move_cursor_up(),
            Key::Char('l') | Key::Right => self.move_cursor_right(),
            Key::Char('w') => self.move_word_forward(),
            Key::Char('b') => self.move_word_backward(),
            Key::Char('e') => self.move_word_end(),
            Key::Char('x') => self.delete_char(),
            Key::Char('X') => self.delete_char_before(),
            Key::Char('J') => self.join_lines(),
            Key::Char('~') => self.toggle_case(),
            Key::Char('n') => self.search_next(),
            Key::Char('N') => self.search_prev(),
            Key::Char('>') => self.indent_line(),
            Key::Char('<') => self.outdent_line(),
            _ => {},
        }
    }

    /// Run a repeatable command `n` times.
    fn repeat(&mut self, key: Key, n: usize)
        requires
            old(self).wf(),
        ensures
            final(self).wf(),
            final(self).mode == old(self).mode,
    {
        let mut i: usize = 0;
        while i < n
            invariant
                self.wf(),
                self.mode == old(self).mode,
            decreases n - i,
        {
            self.repeat_step(key);
            i = i + 1;
        }
    }

    /// Complete or abandon the pending operator with `key`.
    fn finish_operator(&mut self, key: Key)
        requires
            old(self).wf(),
            old(self).pending_op != PendingOperator::Nothing,
        ensures
            final(self).wf(),
            operator_finished(*old(self), key, *final(self)),
    {
        let op = self.pending_op;
        self.pending_op = PendingOperator::Nothing;
        let count = self.get_count();
        match (op, key) {
            (PendingOperator::Delete, Key::Char('d')) => self.delete_lines(count),
            (PendingOperator::Yank, Key::Char('y')) => self.yank_lines(count),
            (PendingOperator::Change, Key::Char('c')) => self.substitute_line(),
            (PendingOperator::Indent, Key::Char('>')) => self.repeat(Key::Char('>'), count),
            (PendingOperator::Outdent, Key::Char('<')) => self.repeat(Key::Char('<'), count),
            (PendingOperator::Delete, Key::Char('$')) => self.delete_to_end(),
            (PendingOperator::Yank, Key::Char('$')) => self.yank_to_end(),
            (PendingOperator::Change, Key::Char('$')) => self.change_to_end(),
            (PendingOperator::Delete, Key::Char('w')) => if count == 1 {
                self.delete_word();
            } else {
                let mut i: usize = 0;
                while i < count
                    invariant
                        self.wf(),
                    decreases count - i,
                {
                    self.delete_word();
                    i = i + 1;
                }
            },
            (PendingOperator::Delete, Key::Char('G')) => self.delete_to_last_line(),
            (PendingOperator::Delete, Key::Char('g')) => self.delete_to_first_line(),
            _ => {
                self.status_message = String::from_str("-- NORMAL --");
            },
        }
        self.pending_op = PendingOperator::Nothing;
        self.count_buffer = Vec::new();
    }

    /// Set an operator pending, shown in the status line.
    fn start_operator(&mut self, op: PendingOperator, shown: char)
        requires
            old(self).wf(),
        ensures
            final(self).wf(),
            *final(self) == (TextEditor {
                pending_op: op,
                status_message: final(self).status_message,
                ..*old(self)
            }),
            final(self).status_message@ == seq![shown],
    {
        self.pending_op = op;
        let mut v: Vec<char> = Vec::new();
        v.push(shown);
        self.status_message = string_of(v.as_slice());
    }

    /// Keys of Normal mode: a count prefix, an operator waiting for its
    /// motion, the second key of `gg`, or a command.
    pub fn handle_normal_key(&mut self, key: Key) -> (req: Request)
        requires
            old(self).wf(),
            old(self).mode == VimMode::Normal,
        ensures
            final(self).wf(),
            req == Request::Continue,
            (key matches Key::Char(c) && (('1' <= c && c <= '9') || (c == '0'
                && old(self).count_buffer@.len() > 0)))
                ==> final(self).count_buffer@ == old(self).count_buffer@.push(key->Char_0)
                && *final(self) == (TextEditor {
                count_buffer: final(self).count_buffer,
                status_message: final(self).status_message,
                ..*old(self)
            }),
            old(self).pending_op != PendingOperator::Nothing && !(key matches Key::Char(c) && '0'
                <= c <= '9') ==> operator_finished(*old(self), key, *final(self)),
            old(self).pending_op == PendingOperator::Nothing && !old(self).g_pending && operator_of(key)
                != PendingOperator::Nothing ==> *final(self) == (TextEditor {
                pending_op: operator_of(key),
                status_message: final(self).status_message,
                ..*old(self)
            }),
            old(self).pending_op == PendingOperator::Nothing && old(self).g_pending && key
                == Key::Char('g') ==> {
                let cnt = count_value(old(self).count_buffer@);
                &&& final(self).text() == old(self).text()
                &&& final(self).cursor_row == (if cnt > 1 {
                    min_nat((cnt - 1) as nat, (old(self).lines@.len() - 1) as nat)
                } else {
                    0
                })
                &&& final(self).cursor_col == 0
                &&& !final(self).g_pending
            },
            old(self).pending_op == PendingOperator::Nothing && !old(self).g_pending && key
                == Key::Char('g') && count_value(old(self).count_buffer@) <= 1 ==> final(self).g_pending
                && final(self).text() == old(self).text(),
            old(self).pending_op == PendingOperator::Nothing && !old(self).g_pending && key
                == Key::Char('x') && count_value(old(self).count_buffer@) == 1 ==> char_deleted(
                *old(self),
                *final(self),
            ),
            old(self).pending_op == PendingOperator::Nothing && !old(self).g_pending && key
                == Key::Char('u') ==> if old(self).undo_stack@.len() > 0 {
                final(self).undone_from(old(self)) && final(self).status_message@ == "Undo"@
            } else {
                final(self).text() == old(self).text() && final(self).status_message@
                    == "Already at oldest change"@
            },
            old(self).pending_op == PendingOperator::Nothing && !old(self).g_pending && key
                == Key::Char(':') ==> final(self).mode == VimMode::Command && final(self).command_kind
                == CommandKind::Ex,
            old(self).pending_op == PendingOperator::Nothing && !old(self).g_pending && key
                == Key::Char('i') ==> final(self).mode == VimMode::Insert && final(self).text()
                == old(self).text(),
            old(self).pending_op == PendingOperator::Nothing && key == Key::Char('u')
                && !(old(self).g_pending) ==> final(self).mode == VimMode::Normal,
    {
        if let Key::Char(c) = key {
            if ('1' <= c && c <= '9') || (c == '0' && self.count_buffer.len() > 0) {
                self.count_buffer.push(c);
                self.status_message = string_of(self.count_buffer.as_slice());
                return Request::Continue;
            }
        }
        if !matches!(self.pending_op, PendingOperator::Nothing) {
            self.finish_operator(key);
            self.g_pending = false;
            return Request::Continue;
        }
        if self.g_pending {
            self.g_pending = false;
            if key == Key::Char('g') {
                let count = self.get_count();
                if count > 1 {
                    self.move_to_line(count);
                } else {
                    self.move_to_first_line();
                }
                self.status_message = String::from_str("-- NORMAL --");
                return Request::Continue;
            }
        }
        match key {
            Key::Char('d') => {
                self.start_operator(PendingOperator::Delete, 'd');
                return Request::Continue;
            },
            Key::Char('y') => {
                self.start_operator(PendingOperator::Yank, 'y');
                return Request::Continue;
            },
            Key::Char('c') => {
                self.start_operator(PendingOperator::Change, 'c');
                return Request::Continue;
            },
            Key::Char('>') => {
                self.start_operator(PendingOperator::Indent, '>');
                return Request::Continue;
            },
            Key::Char('<') => {
                self.start_operator(PendingOperator::Outdent, '<');
                return Request::Continue;
            },
            _ => {},
        }
        let count = self.get_count();
        match key {
            Key::Char('h') | Key::Left | Key::Char('j') | Key::Down | Key::Char('k') | Key::Up
            | Key::Char('l') | Key::Right | Key::Char('w') | Key::Char('b') | Key::Char('e')
            | Key::Char('X') | Key::Char('J') | Key::Char('~') | Key::Char('n') | Key::Char('N') => self.repeat(key, count),
            Key::Char('x') => if count == 1 {
                self.delete_char();
            } else {
                self.repeat(key, count);
            },
            Key::Char('0') | Key::Home => self.move_to_line_start(),
            Key::Char('^') => self.move_to_first_nonblank(),
            Key::Char('$') | Key::End => self.move_to_line_end(),
            Key::Char('g') => {
                if count > 1 {
                    self.move_to_line(count);
                } else {
                    self.g_pending = true;
                    self.status_message = String::from_str("g");
                }
            },
            Key::Char('G') => {
                if count > 1 {
                    self.move_to_line(count);
                } else {
                    self.move_to_last_line();
                }
            },
            Key::Char('%') => self.move_to_matching_bracket(),
            Key::Char('D') => self.delete_to_end(),
            Key::Char('Y') => self.yank_line(),
            Key::Char('C') => self.change_to_end(),
            Key::Char('p') => self.paste_after(),
            Key::Char('P') => self.paste_before(),
            Key::Char('r') => {
                self.mode = VimMode::Command;
                self.command_kind = CommandKind::ReplaceChar;
                self.command_buffer = Vec::new();
                self.status_message = String::from_str("r");
            },
            Key::Char('s') => self.substitute_char(),
            Key::Char('S') => self.substitute_line(),
            Key::Char('u') => self.undo(),
            Key::Ctrl('r') => self.redo(),
            Key::Char('/') => self.start_search_forward(),
            Key::Char('?') => self.start_search_backward(),
            Key::Char('*') => self.search_word_under_cursor(),
            Key::Char('v') => self.enter_visual_mode(),
            Key::Char('V') => self.enter_visual_line_mode(),
            Key::Char('i') => self.enter_insert_mode(),
            Key::Char('I') => {
                self.move_to_first_nonblank();
                self.enter_insert_mode();
            },
            Key::Char('a') => {
                self.enter_insert_mode();
                self.move_cursor_right();
            },
            Key::Char('A') => {
                self.enter_insert_mode();
                self.move_to_line_end();
            },
            Key::Char('o') => self.open_line_below(),
            Key::Char('O') => self.open_line_above(),
            Key::Char(':') => self.enter_command_mode(),
            Key::Esc => {
                self.pending_op = PendingOperator::Nothing;
                self.count_buffer = Vec::new();
                self.status_message = String::from_str("-- NORMAL --");
            },
            _ => {},
        }
        Request::Continue
    }
}

} // verus!
