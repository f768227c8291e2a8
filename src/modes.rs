use vstd::prelude::*;
use vstd::string::StringExecFns;
use crate::editor::{TextEditor, VimMode, EditorStyle, PendingOperator, CommandKind, min_nat};
use crate::text::string_of;

verus! {

/// The character that opens the command line of a kind.
pub open spec fn prompt_char(k: CommandKind) -> char {
    match k {
        CommandKind::Ex => ':',
        CommandKind::SearchForward => '/',
        CommandKind::SearchBackward => '?',
        CommandKind::ReplaceChar => 'r',
    }
}

fn prompt_of(k: CommandKind) -> (c: char)
    ensures
        c == prompt_char(k),
{
    match k {
        CommandKind::Ex => ':',
        CommandKind::SearchForward => '/',
        CommandKind::SearchBackward => '?',
        CommandKind::ReplaceChar => 'r',
    }
}

impl TextEditor {
    /// Toggle between Vim and Nano editor styles.
    pub fn toggle_editor_style(&mut self)
        requires
            old(self).wf(),
        ensures
            final(self).wf(),
            old(self).editor_style == EditorStyle::Vim ==> {
                &&& final(self).editor_style == EditorStyle::Nano
                &&& final(self).mode == VimMode::Insert
                &&& final(self).status_message@
                    == "-- NANO MODE -- ^X:Exit ^O:Save ^K:Cut ^U:Paste ^W:Search"@
            },
            old(self).editor_style == EditorStyle::Nano ==> {
                &&& final(self).editor_style == EditorStyle::Vim
                &&& final(self).mode == VimMode::Normal
                &&& final(self).status_message@ == "-- NORMAL --"@
            },
            final(self).pending_op == PendingOperator::Nothing,
            final(self).count_buffer@.len() == 0,
            !final(self).nano_search_mode,
            final(self).text() == old(self).text(),
            final(self).cursor_row == old(self).cursor_row,
            final(self).cursor_col == min_nat(old(self).cursor_col as nat, final(self).col_limit()),
    {
        match self.editor_style {
            EditorStyle::Vim => {
                self.editor_style = EditorStyle::Nano;
                self.mode = VimMode::Insert;
                self.status_message = String::from_str(
                    "-- NANO MODE -- ^X:Exit ^O:Save ^K:Cut ^U:Paste ^W:Search",
                );
            },
            EditorStyle::Nano => {
                self.editor_style = EditorStyle::Vim;
                self.mode = VimMode::Normal;
                self.status_message = String::from_str("-- NORMAL --");
            },
        }
        self.pending_op = PendingOperator::Nothing;
        self.g_pending = false;
        self.count_buffer = Vec::new();
        self.nano_search_mode = false;
        self.clamp_cursor_col();
    }

    pub fn enter_insert_mode(&mut self)
        requires
            old(self).wf(),
        ensures
            final(self).wf(),
            *final(self) == (TextEditor {
                mode: VimMode::Insert,
                pending_op: PendingOperator::Nothing,
                g_pending: false,
                count_buffer: final(self).count_buffer,
                status_message: final(self).status_message,
                ..*old(self)
            }),
            final(self).count_buffer@.len() == 0,
            final(self).status_message@ == "-- INSERT --"@,
    {
        self.mode = VimMode::Insert;
        self.pending_op = PendingOperator::Nothing;
        self.g_pending = false;
        self.count_buffer = Vec::new();
        self.status_message = String::from_str("-- INSERT --");
    }

    pub fn enter_normal_mode(&mut self)
        requires
            old(self).wf_but_col(),
        ensures
            final(self).wf(),
            *final(self) == (TextEditor {
                mode: VimMode::Normal,
                pending_op: PendingOperator::Nothing,
                g_pending: false,
                count_buffer: final(self).count_buffer,
                command_buffer: final(self).command_buffer,
                status_message: final(self).status_message,
                cursor_col: final(self).cursor_col,
                ..*old(self)
            }),
            final(self).count_buffer@.len() == 0,
            final(self).command_buffer@.len() == 0,
            final(self).status_message@ == "-- NORMAL --"@,
            final(self).cursor_col == min_nat(old(self).cursor_col as nat, final(self).col_limit()),
    {
        self.mode = VimMode::Normal;
        self.pending_op = PendingOperator::Nothing;
        self.g_pending = false;
        self.count_buffer = Vec::new();
        self.command_buffer = Vec::new();
        self.status_message = String::from_str("-- NORMAL --");
        self.clamp_cursor_col();
    }

    /// Open the command line for a kind of command.
    fn open_command_line(&mut self, kind: CommandKind)
        requires
            old(self).wf(),
        ensures
            final(self).wf(),
            *final(self) == (TextEditor {
                mode: VimMode::Command,
                command_kind: kind,
                pending_op: PendingOperator::Nothing,
                g_pending: false,
                count_buffer: final(self).count_buffer,
                command_buffer: final(self).command_buffer,
                status_message: final(self).status_message,
                cursor_col: final(self).cursor_col,
                ..*old(self)
            }),
            final(self).count_buffer@.len() == 0,
            final(self).command_buffer@.len() == 0,
            final(self).status_message@ == seq![prompt_char(kind)],
            final(self).cursor_col == min_nat(old(self).cursor_col as nat, final(self).col_limit()),
    {
        self.mode = VimMode::Command;
        self.command_kind = kind;
        self.pending_op = PendingOperator::Nothing;
        self.g_pending = false;
        self.count_buffer = Vec::new();
        self.command_buffer = Vec::new();
        let mut p: Vec<char> = Vec::new();
        p.push(prompt_of(kind));
        self.status_message = string_of(p.as_slice());
        self.clamp_cursor_col();
    }

    pub fn enter_command_mode(&mut self)
        requires
            old(self).wf(),
        ensures
            final(self).wf(),
            final(self).mode == VimMode::Command,
            final(self).command_kind == CommandKind::Ex,
            final(self).command_buffer@.len() == 0,
            final(self).status_message@ == ":"@,
            final(self).text() == old(self).text(),
            final(self).cursor_row == old(self).cursor_row,
    {
        self.open_command_line(CommandKind::Ex);
        proof {
            reveal_strlit(":");
        }
    }

    /// Start forward search (/).
    pub fn start_search_forward(&mut self)
        requires
            old(self).wf(),
        ensures
            final(self).wf(),
            final(self).mode == VimMode::Command,
            final(self).command_kind == CommandKind::SearchForward,
            final(self).search_direction,
            final(self).command_buffer@.len() == 0,
            final(self).status_message@ == "/"@,
            final(self).text() == old(self).text(),
            final(self).cursor_row == old(self).cursor_row,
    {
        self.open_command_line(CommandKind::SearchForward);
        self.search_direction = true;
        proof {
            reveal_strlit("/");
        }
    }

    /// Start backward search (?).
    pub fn start_search_backward(&mut self)
        requires
            old(self).wf(),
        ensures
            final(self).wf(),
            final(self).mode == VimMode::Command,
            final(self).command_kind == CommandKind::SearchBackward,
            !final(self).search_direction,
            final(self).command_buffer@.len() == 0,
            final(self).status_message@ == "?"@,
            final(self).text() == old(self).text(),
            final(self).cursor_row == old(self).cursor_row,
    {
        self.open_command_line(CommandKind::SearchBackward);
        self.search_direction = false;
        proof {
            reveal_strlit("?");
        }
    }

    pub fn enter_visual_mode(&mut self)
        requires
            old(self).wf(),
        ensures
            final(self).wf(),
            final(self).mode == VimMode::Visual,
            final(self).visual_start_row == final(self).cursor_row,
            final(self).visual_start_col == final(self).cursor_col,
            final(self).cursor_row == old(self).cursor_row,
            final(self).cursor_col == min_nat(old(self).cursor_col as nat, final(self).col_limit()),
            final(self).text() == old(self).text(),
            final(self).pending_op == PendingOperator::Nothing,
            final(self).count_buffer@.len() == 0,
            final(self).status_message@ == "-- VISUAL --"@,
    {
        self.mode = VimMode::Visual;
        self.clamp_cursor_col();
        self.visual_start_row = self.cursor_row;
        self.visual_start_col = self.cursor_col;
        self.pending_op = PendingOperator::Nothing;
        self.g_pending = false;
        self.count_buffer = Vec::new();
        self.status_message = String::from_str("-- VISUAL --");
    }

    pub fn enter_visual_line_mode(&mut self)
        requires
            old(self).wf(),
        ensures
            final(self).wf(),
            final(self).mode == VimMode::VisualLine,
            final(self).visual_start_row == final(self).cursor_row,
            final(self).visual_start_col == 0,
            final(self).cursor_row == old(self).cursor_row,
            final(self).cursor_col == min_nat(old(self).cursor_col as nat, final(self).col_limit()),
            final(self).text() == old(self).text(),
            final(self).pending_op == PendingOperator::Nothing,
            final(self).count_buffer@.len() == 0,
            final(self).status_message@ == "-- VISUAL LINE --"@,
    {
        self.mode = VimMode::VisualLine;
        self.clamp_cursor_col();
        self.visual_start_row = self.cursor_row;
        self.visual_start_col = 0;
        self.pending_op = PendingOperator::Nothing;
        self.g_pending = false;
        self.count_buffer = Vec::new();
        self.status_message = String::from_str("-- VISUAL LINE --");
    }

    /// Show the command line: its prompt and what was typed.
    fn show_command_line(&mut self)
        ensures
            final(self).status_message@ == seq![prompt_char(old(self).command_kind)]
                + old(self).command_buffer@,
            *final(self) == (TextEditor {
                status_message: final(self).status_message,
                ..*old(self)
            }),
    {
        let mut p: Vec<char> = Vec::new();
        p.push(prompt_of(self.command_kind));
        let mut i: usize = 0;
        while i < self.command_buffer.len()
            invariant
                i <= self.command_buffer@.len(),
                p@ == seq![prompt_char(self.command_kind)] + self.command_buffer@.take(i as int),
            decreases self.command_buffer@.len() - i,
        {
            p.push(self.command_buffer[i]);
            i = i + 1;
        }
        assert(self.command_buffer@.take(i as int) =~= self.command_buffer@);
        self.status_message = string_of(p.as_slice());
    }

    pub fn append_command_char(&mut self, c: char)
        requires
            old(self).wf(),
        ensures
            final(self).wf(),
            final(self).command_buffer@ == old(self).command_buffer@.push(c),
            final(self).status_message@ == seq![prompt_char(old(self).command_kind)]
                + final(self).command_buffer@,
            *final(self) == (TextEditor {
                command_buffer: final(self).command_buffer,
                status_message: final(self).status_message,
                ..*old(self)
            }),
    {
        self.command_buffer.push(c);
        self.show_command_line();
    }

    pub fn backspace_command(&mut self)
        requires
            old(self).wf(),
        ensures
            final(self).wf(),
            final(self).command_buffer@ == (if old(self).command_buffer@.len() == 0 {
                old(self).command_buffer@
            } else {
                old(self).command_buffer@.drop_last()
            }),
            final(self).status_message@ == seq![prompt_char(old(self).command_kind)]
                + final(self).command_buffer@,
            *final(self) == (TextEditor {
                command_buffer: final(self).command_buffer,
                status_message: final(self).status_message,
                ..*old(self)
            }),
    {
        self.command_buffer.pop();
        self.show_command_line();
    }
}

} // verus!
