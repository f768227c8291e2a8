use vstd::prelude::*;
use vstd::string::StringExecFns;
use crate::editor::TextEditor;
use crate::command::Request;
use crate::keys::Key;
use crate::search::prefixed;
use crate::text::{decimal, decimal_chars, string_of, chars_of, concat_chars};

verus! {

/// The nano-style position report: `Line R, Col C, N lines total`, 1-based.
pub open spec fn position_report(row: nat, col: nat, total: nat) -> Seq<char> {
    "Line "@ + decimal(row + 1) + ", Col "@ + decimal(col + 1) + ", "@ + decimal(total)
        + " lines total"@
}

fn position_message(row: usize, col: usize, total: usize) -> (r: String)
    requires
        row < usize::MAX,
        col < usize::MAX,
    ensures
        r@ == position_report(row as nat, col as nat, total as nat),
{
    let a = chars_of("Line ");
    let b = decimal_chars(row + 1);
    let c = chars_of(", Col ");
    let d = decimal_chars(col + 1);
    let e = chars_of(", ");
    let f = decimal_chars(total);
    let g = chars_of(" lines total");
    let ab = concat_chars(&a, &b);
    let abc = concat_chars(&ab, &c);
    let abcd = concat_chars(&abc, &d);
    let abcde = concat_chars(&abcd, &e);
    let abcdef = concat_chars(&abcde, &f);
    let all = concat_chars(&abcdef, &g);
    string_of(all.as_slice())
}

impl TextEditor {
    /// Keys of the nano style: text goes in directly, Ctrl combinations run
    /// commands, and a search prompt can be open.
    pub fn handle_nano_key(&mut self, key: Key) -> (req: Request)
        requires
            old(self).wf(),
        ensures
            final(self).wf(),
            !old(self).nano_search_mode && (key == Key::Ctrl('x') || key == Key::Ctrl('X')) ==> if old(self).modified {
                &&& req == Request::Continue
                &&& final(self).status_message@
                    == "Modified! Save first (^O) or use ESC to exit without saving"@
            } else {
                req == Request::Quit
            },
            !old(self).nano_search_mode && (key == Key::Ctrl('o') || key == Key::Ctrl('O')) ==> req
                == Request::Save,
            !old(self).nano_search_mode && (key matches Key::Char(_)) ==> final(self).text()
                == old(self).text().update(
                old(self).cursor_row as int,
                old(self).current_line().insert(old(self).cursor_col as int, key->Char_0),
            ),
            !old(self).nano_search_mode && (key == Key::Ctrl('k') || key == Key::Ctrl('K')) ==> {
                &&& final(self).register() == seq![old(self).current_line()]
                &&& final(self).clipboard_is_line
                &&& final(self).status_message@ == "Line cut"@
            },
            !old(self).nano_search_mode && (key == Key::Ctrl('u') || key == Key::Ctrl('U')) ==> {
                &&& old(self).clipboard@.len() > 0 ==> final(self).recorded(old(self))
                    && final(self).modified
                &&& final(self).status_message@ == "Pasted"@
            },
            !old(self).nano_search_mode && (key == Key::Ctrl('w') || key == Key::Ctrl('W')) ==> {
                &&& final(self).nano_search_mode
                &&& final(self).command_buffer@.len() == 0
                &&& final(self).text() == old(self).text()
                &&& final(self).status_message@ == "Search: "@
            },
            !old(self).nano_search_mode && (key == Key::Ctrl('z') || key == Key::Ctrl('Z'))
                && old(self).undo_stack@.len() > 0 ==> final(self).undone_from(old(self)),
            !old(self).nano_search_mode && key == Key::Esc ==> if old(self).modified {
                &&& req == Request::Continue
                &&& final(self).text() == old(self).text()
                &&& final(self).status_message@
                    == "Modified! Press ESC again to discard, ^O to save"@
            } else {
                req == Request::Quit
            },
            !old(self).nano_search_mode && key == Key::Enter ==> {
                let s = old(self).current_line();
                let c = old(self).cursor_col as int;
                let row = old(self).cursor_row as int;
                &&& final(self).text() == old(self).text().update(row, s.subrange(0, c)).insert(
                    row + 1,
                    s.subrange(c, s.len() as int),
                )
                &&& final(self).cursor_row == row + 1
                &&& final(self).cursor_col == 0
            },
            !old(self).nano_search_mode && key == Key::Backspace && old(self).cursor_col > 0 ==> {
                let s = old(self).current_line();
                let c = old(self).cursor_col as int;
                &&& final(self).text() == old(self).text().update(
                    old(self).cursor_row as int,
                    s.remove(c - 1),
                )
                &&& final(self).cursor_col == c - 1
            },
            !old(self).nano_search_mode && (key == Key::Left || key == Key::Right || key == Key::Up
                || key == Key::Down) ==> final(self).text() == old(self).text() && req
                == Request::Continue,
            !old(self).nano_search_mode && key == Key::Left ==> final(self).cursor_col == (if old(self).cursor_col > 0 {
                old(self).cursor_col - 1
            } else {
                0
            }),
            old(self).nano_search_mode && key == Key::Enter ==> final(self).search_pattern@
                == old(self).command_buffer@ && !final(self).nano_search_mode,
    {
        if self.nano_search_mode {
            match key {
                Key::Esc => {
                    self.nano_search_mode = false;
                    self.command_buffer = Vec::new();
                    self.status_message = String::from_str("Search cancelled");
                },
                Key::Enter => {
                    let p = crate::text::copy_chars(&self.command_buffer, 0, self.command_buffer.len());
                    assert(self.command_buffer@.subrange(0, self.command_buffer@.len() as int)
                        =~= self.command_buffer@);
                    self.search_pattern = p;
                    self.nano_search_mode = false;
                    self.command_buffer = Vec::new();
                    self.search_next();
                },
                Key::Char(c) => {
                    self.command_buffer.push(c);
                    self.status_message = prefixed("Search: ", &self.command_buffer);
                },
                Key::Backspace => {
                    self.command_buffer.pop();
                    self.status_message = prefixed("Search: ", &self.command_buffer);
                },
                _ => {},
            }
            return Request::Continue;
        }
        match key {
            Key::Ctrl('x') | Key::Ctrl('X') => {
                if self.modified {
                    self.status_message = String::from_str(
                        "Modified! Save first (^O) or use ESC to exit without saving",
                    );
                } else {
                    return Request::Quit;
                }
            },
            Key::Ctrl('o') | Key::Ctrl('O') => {
                return Request::Save;
            },
            Key::Ctrl('k') | Key::Ctrl('K') => {
                self.delete_line();
                self.status_message = String::from_str("Line cut");
            },
            Key::Ctrl('u') | Key::Ctrl('U') => {
                self.paste_after();
                self.status_message = String::from_str("Pasted");
            },
            Key::Ctrl('w') | Key::Ctrl('W') => {
                self.nano_search_mode = true;
                self.command_buffer = Vec::new();
                self.status_message = String::from_str("Search: ");
            },
            Key::Ctrl('g') | Key::Ctrl('G') => {
                self.status_message = String::from_str(
                    "^X:Exit ^O:Save ^K:Cut ^U:Paste ^W:Search ^\\:Replace ^T:Vim",
                );
            },
            Key::Ctrl('\\') => {
                self.status_message = String::from_str(
                    "Replace: Use :s/old/new/g in Vim mode (^T to switch)",
                );
            },
            Key::Ctrl('a') | Key::Ctrl('A') => self.move_to_line_start(),
            Key::Ctrl('e') | Key::Ctrl('E') => self.move_to_line_end(),
            Key::Ctrl('y') | Key::Ctrl('Y') => self.move_page_up(),
            Key::Ctrl('v') | Key::Ctrl('V') => self.move_page_down(),
            Key::Ctrl('_') => {
                self.status_message = String::from_str(
                    "Go to line: (not implemented in nano mode, use :n in Vim mode)",
                );
            },
            Key::Ctrl('c') | Key::Ctrl('C') => {
                let total = self.lines.len();
                if self.cursor_col < usize::MAX {
                    self.status_message = position_message(self.cursor_row, self.cursor_col, total);
                }
            },
            Key::Ctrl('z') | Key::Ctrl('Z') => self.undo(),
            Key::Ctrl('t') | Key::Ctrl('T') => self.toggle_editor_style(),
            Key::Esc => {
                if self.modified {
                    self.status_message = String::from_str(
                        "Modified! Press ESC again to discard, ^O to save",
                    );
                } else {
                    return Request::Quit;
                }
            },
            Key::Char(c) => self.insert_char(c),
            Key::Enter => self.insert_newline(),
            Key::Backspace => self.backspace(),
            Key::Delete => self.delete_char(),
            Key::Tab => {
                self.insert_char(' ');
                self.insert_char(' ');
                self.insert_char(' ');
                self.insert_char(' ');
            },
            Key::Left => self.move_cursor_left(),
            Key::Right => self.move_cursor_right(),
            Key::Up => self.move_cursor_up(),
            Key::Down => self.move_cursor_down(),
            Key::Home => self.move_to_line_start(),
            Key::End => self.move_to_line_end(),
            Key::PageUp => self.move_page_up(),
            Key::PageDown => self.move_page_down(),
            _ => {},
        }
        Request::Continue
    }
}

} // verus!
