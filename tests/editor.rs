use modal_editor::{Key, PendingOperator, Request, TextEditor, VimMode, EditorStyle};

fn keys(ed: &mut TextEditor, text: &str) -> Request {
    let mut last = Request::Continue;
    for c in text.chars() {
        last = ed.handle_key(Key::Char(c));
    }
    last
}

fn command(ed: &mut TextEditor, cmd: &str) -> Request {
    ed.handle_key(Key::Char(':'));
    keys(ed, cmd);
    ed.handle_key(Key::Enter)
}

fn lines(ed: &TextEditor) -> Vec<String> {
    ed.lines.iter().map(|l| l.iter().collect()).collect()
}

#[test]
fn delete_word_forward_scenario() {
    let mut ed = TextEditor::new("hello world".to_string(), None);
    keys(&mut ed, "dw");
    assert_eq!(ed.get_content(), "world");
    assert_eq!(ed.get_clipboard_text(), "hello ");
    assert!(!ed.clipboard_is_line);
    assert_eq!((ed.cursor_row, ed.cursor_col), (0, 0));
}

#[test]
fn delete_two_lines_scenario() {
    let mut ed = TextEditor::new("one\ntwo\nthree".to_string(), None);
    keys(&mut ed, "2dd");
    assert_eq!(lines(&ed), vec!["three"]);
    assert!(ed.clipboard_is_line);
    assert_eq!(ed.get_clipboard_text(), "one\ntwo");
    assert_eq!(ed.status_line(), "2 lines deleted");
}

#[test]
fn visual_delete_across_lines_scenario() {
    let mut ed = TextEditor::new("abc\ndef".to_string(), None);
    keys(&mut ed, "l");
    keys(&mut ed, "v");
    assert_eq!((ed.visual_start_row, ed.visual_start_col), (0, 1));
    keys(&mut ed, "j");
    assert_eq!((ed.cursor_row, ed.cursor_col), (1, 1));
    assert_eq!(ed.get_visual_selection(), (0, 1, 1, 1));
    keys(&mut ed, "d");
    // Columns 1 of both lines are inside the selection: "a" + "f" survive.
    assert_eq!(lines(&ed), vec!["af"]);
    assert_eq!(ed.mode, VimMode::Normal);
    assert!(!ed.clipboard_is_line);
    assert_eq!(ed.get_clipboard_text(), "bc\nde");
}

#[test]
fn substitute_all_lines_scenario() {
    let mut ed = TextEditor::new("foo foo\nbar".to_string(), None);
    let r = command(&mut ed, "%s/foo/baz/g");
    assert_eq!(r, Request::Continue);
    assert_eq!(lines(&ed), vec!["baz baz", "bar"]);
    assert_eq!(ed.status_line(), "2 substitution(s) made");
    assert!(ed.is_modified());
}

#[test]
fn search_wraps_scenario() {
    let mut ed = TextEditor::new("a\nb\nc".to_string(), None);
    keys(&mut ed, "G");
    assert_eq!(ed.cursor_row, 2);
    keys(&mut ed, "/b");
    ed.handle_key(Key::Enter);
    assert_eq!((ed.cursor_row, ed.cursor_col), (1, 0));
    assert_eq!(ed.status_line(), "/b (wrapped)");
}

#[test]
fn quit_with_changes_scenario() {
    let mut ed = TextEditor::new("x".to_string(), None);
    keys(&mut ed, "x");
    assert!(ed.is_modified());
    let r = command(&mut ed, "q");
    assert_eq!(r, Request::Continue);
    assert_eq!(ed.status_line(), "No write since last change (use :q! to force)");
    assert_eq!(ed.mode, VimMode::Normal);
    assert_eq!(command(&mut ed, "q!"), Request::Quit);
    let mut clean = TextEditor::new("x".to_string(), None);
    assert_eq!(command(&mut clean, "q"), Request::Quit);
    assert_eq!(command(&mut clean, "q!"), Request::Quit);
}

#[test]
fn undo_restores_buffer_and_cursor() {
    let mut ed = TextEditor::new("hello\nworld".to_string(), None);
    keys(&mut ed, "jll");
    let before = lines(&ed);
    let cursor = (ed.cursor_row, ed.cursor_col);
    ed.delete_line();
    assert_eq!(lines(&ed), vec!["hello"]);
    ed.undo();
    assert_eq!(lines(&ed), before);
    assert_eq!((ed.cursor_row, ed.cursor_col), cursor);
    assert_eq!(ed.status_line(), "Undo");
    ed.redo();
    assert_eq!(lines(&ed), vec!["hello"]);
    assert_eq!(ed.status_line(), "Redo");
}

#[test]
fn undo_and_redo_on_empty_history() {
    let mut ed = TextEditor::new("abc".to_string(), None);
    ed.undo();
    assert_eq!(ed.status_line(), "Already at oldest change");
    ed.redo();
    assert_eq!(ed.status_line(), "Already at newest change");
    assert_eq!(ed.get_content(), "abc");
}

#[test]
fn undo_history_is_bounded() {
    let mut ed = TextEditor::new("".to_string(), None);
    ed.enter_insert_mode();
    for _ in 0..150 {
        ed.insert_char('a');
    }
    assert_eq!(ed.undo_stack.len(), 100);
    assert_eq!(ed.redo_stack.len(), 0);
    for _ in 0..100 {
        ed.undo();
    }
    assert_eq!(ed.lines[0].len(), 50);
    ed.undo();
    assert_eq!(ed.status_line(), "Already at oldest change");
}

#[test]
fn new_edit_clears_redo() {
    let mut ed = TextEditor::new("ab".to_string(), None);
    ed.delete_char();
    ed.undo();
    assert_eq!(ed.redo_stack.len(), 1);
    ed.delete_char();
    assert_eq!(ed.redo_stack.len(), 0);
}

#[test]
fn buffer_never_empty() {
    let mut ed = TextEditor::new("".to_string(), None);
    assert_eq!(ed.line_count(), 1);
    keys(&mut ed, "dd");
    assert_eq!(ed.line_count(), 1);
    let mut ed = TextEditor::new("a\nb".to_string(), None);
    keys(&mut ed, "5dd");
    assert_eq!(lines(&ed), vec![""]);
    assert_eq!(ed.get_clipboard_text(), "a\nb");
    let mut ed = TextEditor::new("only".to_string(), None);
    ed.delete_line();
    assert_eq!(lines(&ed), vec![""]);
    assert_eq!(ed.get_clipboard_text(), "only");
}

#[test]
fn new_splits_like_str_lines() {
    let ed = TextEditor::new("a\r\nb\n".to_string(), None);
    assert_eq!(lines(&ed), vec!["a", "b"]);
    let ed = TextEditor::new("\n\nx".to_string(), None);
    assert_eq!(lines(&ed), vec!["", "", "x"]);
    assert_eq!(ed.get_content(), "\n\nx");
    assert_eq!(ed.status_line(), "-- NORMAL --");
    assert!(!ed.is_modified());
}

#[test]
fn cursor_stays_in_bounds_per_mode() {
    let mut ed = TextEditor::new("abc".to_string(), None);
    keys(&mut ed, "$");
    assert_eq!(ed.cursor_col, 2);
    keys(&mut ed, "A");
    assert_eq!(ed.mode, VimMode::Insert);
    assert_eq!(ed.cursor_col, 3);
    ed.handle_key(Key::Esc);
    assert_eq!(ed.mode, VimMode::Normal);
    assert_eq!(ed.cursor_col, 2);
    keys(&mut ed, "lll");
    assert_eq!(ed.cursor_col, 2);
}

#[test]
fn multibyte_characters_are_single_columns() {
    let mut ed = TextEditor::new("héllo wörld".to_string(), None);
    keys(&mut ed, "w");
    assert_eq!(ed.cursor_col, 6);
    keys(&mut ed, "x");
    assert_eq!(ed.get_content(), "héllo örld");
    assert_eq!(ed.get_clipboard_text(), "w");
    assert_eq!(modal_editor::char_count_pub("héllo"), 5);
}

#[test]
fn word_motions() {
    let mut ed = TextEditor::new("foo.bar  baz\n  next".to_string(), None);
    keys(&mut ed, "w");
    assert_eq!(ed.cursor_col, 3);
    keys(&mut ed, "w");
    assert_eq!(ed.cursor_col, 4);
    keys(&mut ed, "w");
    assert_eq!(ed.cursor_col, 9);
    keys(&mut ed, "w");
    assert_eq!((ed.cursor_row, ed.cursor_col), (1, 2));
    keys(&mut ed, "b");
    assert_eq!((ed.cursor_row, ed.cursor_col), (1, 0));
    keys(&mut ed, "b");
    assert_eq!((ed.cursor_row, ed.cursor_col), (0, 11));
    keys(&mut ed, "b");
    assert_eq!(ed.cursor_col, 9);
    keys(&mut ed, "0e");
    assert_eq!(ed.cursor_col, 2);
    keys(&mut ed, "e");
    assert_eq!(ed.cursor_col, 3);
}

#[test]
fn counts_and_line_jumps() {
    let mut ed = TextEditor::new("1\n2\n3\n4\n5".to_string(), None);
    keys(&mut ed, "3j");
    assert_eq!(ed.cursor_row, 3);
    keys(&mut ed, "gg");
    assert_eq!(ed.cursor_row, 0);
    keys(&mut ed, "G");
    assert_eq!(ed.cursor_row, 4);
    keys(&mut ed, "2G");
    assert_eq!(ed.cursor_row, 1);
    command(&mut ed, "4");
    assert_eq!(ed.cursor_row, 3);
    command(&mut ed, "99");
    assert_eq!(ed.cursor_row, 4);
    command(&mut ed, "0");
    assert_eq!(ed.cursor_row, 0);
    command(&mut ed, "$");
    assert_eq!(ed.cursor_row, 4);
}

#[test]
fn pending_operator_abandoned_by_other_key() {
    let mut ed = TextEditor::new("abc\ndef".to_string(), None);
    keys(&mut ed, "d");
    assert_eq!(ed.pending_op, PendingOperator::Delete);
    keys(&mut ed, "j");
    assert_eq!(ed.pending_op, PendingOperator::Nothing);
    assert_eq!(ed.cursor_row, 0);
    assert_eq!(lines(&ed), vec!["abc", "def"]);
}

#[test]
fn delete_to_buffer_ends() {
    let mut ed = TextEditor::new("a\nb\nc\nd".to_string(), None);
    keys(&mut ed, "jj");
    keys(&mut ed, "dG");
    assert_eq!(lines(&ed), vec!["a", "b"]);
    assert_eq!(ed.get_clipboard_text(), "c\nd");
    let mut ed = TextEditor::new("a\nb\nc\nd".to_string(), None);
    keys(&mut ed, "j");
    keys(&mut ed, "dg");
    assert_eq!(lines(&ed), vec!["c", "d"]);
    assert_eq!((ed.cursor_row, ed.cursor_col), (0, 0));
}

#[test]
fn operator_to_line_end() {
    let mut ed = TextEditor::new("hello world".to_string(), None);
    keys(&mut ed, "w");
    keys(&mut ed, "y$");
    assert_eq!(ed.get_clipboard_text(), "world");
    assert_eq!(ed.status_line(), "Yanked to end of line");
    keys(&mut ed, "d$");
    assert_eq!(ed.get_content(), "hello ");
    assert_eq!(ed.cursor_col, 5);
    let mut ed = TextEditor::new("hello world".to_string(), None);
    keys(&mut ed, "wC");
    assert_eq!(ed.mode, VimMode::Insert);
    assert_eq!(ed.get_content(), "hello ");
}

#[test]
fn yank_and_paste_lines() {
    let mut ed = TextEditor::new("one\ntwo".to_string(), None);
    keys(&mut ed, "yy");
    assert_eq!(ed.status_line(), "1 lines yanked");
    keys(&mut ed, "p");
    assert_eq!(lines(&ed), vec!["one", "one", "two"]);
    assert_eq!(ed.cursor_row, 1);
    keys(&mut ed, "G");
    keys(&mut ed, "P");
    assert_eq!(lines(&ed), vec!["one", "one", "one", "two"]);
    ed.yank_line();
    assert_eq!(ed.status_line(), "1 line yanked");
}

#[test]
fn paste_characters() {
    let mut ed = TextEditor::new("abc".to_string(), None);
    keys(&mut ed, "x");
    assert_eq!(ed.get_content(), "bc");
    keys(&mut ed, "p");
    assert_eq!(ed.get_content(), "bac");
    assert_eq!(ed.cursor_col, 1);
    keys(&mut ed, "P");
    assert_eq!(ed.get_content(), "baac");
}

#[test]
fn paste_text_from_outside() {
    let mut ed = TextEditor::new("abcd".to_string(), None);
    keys(&mut ed, "ll");
    ed.paste_text("X\nYY\nZ");
    assert_eq!(lines(&ed), vec!["abX", "YY", "Zcd"]);
    assert_eq!((ed.cursor_row, ed.cursor_col), (2, 1));
    assert_eq!(ed.mode, VimMode::Insert);
    let mut ed = TextEditor::new("ab".to_string(), None);
    ed.paste_text("--");
    assert_eq!(ed.get_content(), "--ab");
    assert_eq!(ed.cursor_col, 2);
}

#[test]
fn join_and_indent() {
    let mut ed = TextEditor::new("foo\n   bar\n".to_string(), None);
    keys(&mut ed, "J");
    assert_eq!(ed.get_content(), "foo bar");
    assert_eq!(ed.cursor_col, 3);
    keys(&mut ed, ">>");
    assert_eq!(ed.get_content(), "    foo bar");
    keys(&mut ed, "<<");
    assert_eq!(ed.get_content(), "foo bar");
    let mut ed = TextEditor::new("  x".to_string(), None);
    ed.outdent_line();
    assert_eq!(ed.get_content(), "x");
    let mut ed = TextEditor::new("\nbar".to_string(), None);
    ed.join_lines();
    assert_eq!(ed.get_content(), "bar");
}

#[test]
fn replace_and_toggle_case() {
    let mut ed = TextEditor::new("abc".to_string(), None);
    keys(&mut ed, "rX");
    assert_eq!(ed.get_content(), "Xbc");
    assert_eq!(ed.mode, VimMode::Normal);
    keys(&mut ed, "l~");
    assert_eq!(ed.get_content(), "XBc");
    assert_eq!(ed.cursor_col, 2);
    keys(&mut ed, "~");
    assert_eq!(ed.get_content(), "XBC");
    assert_eq!(ed.cursor_col, 2);
}

#[test]
fn insert_mode_editing() {
    let mut ed = TextEditor::new("ac".to_string(), None);
    keys(&mut ed, "li");
    keys(&mut ed, "b");
    assert_eq!(ed.get_content(), "abc");
    ed.handle_key(Key::Enter);
    assert_eq!(lines(&ed), vec!["ab", "c"]);
    ed.handle_key(Key::Backspace);
    assert_eq!(lines(&ed), vec!["abc"]);
    assert_eq!(ed.cursor_col, 2);
    ed.handle_key(Key::Tab);
    assert_eq!(ed.get_content(), "ab    c");
    ed.handle_key(Key::Esc);
    keys(&mut ed, "o");
    assert_eq!(lines(&ed), vec!["ab    c", ""]);
    assert_eq!(ed.mode, VimMode::Insert);
    ed.handle_key(Key::Esc);
    keys(&mut ed, "O");
    assert_eq!(lines(&ed), vec!["ab    c", "", ""]);
}

#[test]
fn search_forward_backward_and_word() {
    let mut ed = TextEditor::new("foo bar\nbar foo\nfoo".to_string(), None);
    keys(&mut ed, "/foo");
    ed.handle_key(Key::Enter);
    assert_eq!((ed.cursor_row, ed.cursor_col), (1, 4));
    assert_eq!(ed.status_line(), "/foo");
    keys(&mut ed, "n");
    assert_eq!((ed.cursor_row, ed.cursor_col), (2, 0));
    keys(&mut ed, "N");
    assert_eq!((ed.cursor_row, ed.cursor_col), (1, 4));
    assert_eq!(ed.status_line(), "?foo");
    keys(&mut ed, "gg*");
    assert_eq!((ed.cursor_row, ed.cursor_col), (1, 4));
    keys(&mut ed, "/zzz");
    ed.handle_key(Key::Enter);
    assert_eq!(ed.status_line(), "Pattern not found: zzz");
    assert_eq!((ed.cursor_row, ed.cursor_col), (1, 4));
    let mut fresh = TextEditor::new("x".to_string(), None);
    keys(&mut fresh, "n");
    assert_eq!(fresh.status_line(), "No search pattern");
}

#[test]
fn bracket_matching() {
    let mut ed = TextEditor::new("f(a, (b))\n{\n  x\n}".to_string(), None);
    keys(&mut ed, "l%");
    assert_eq!((ed.cursor_row, ed.cursor_col), (0, 8));
    keys(&mut ed, "%");
    assert_eq!((ed.cursor_row, ed.cursor_col), (0, 1));
    keys(&mut ed, "j0%");
    assert_eq!((ed.cursor_row, ed.cursor_col), (3, 0));
    keys(&mut ed, "%");
    assert_eq!((ed.cursor_row, ed.cursor_col), (1, 0));
    let mut lone = TextEditor::new("(x".to_string(), None);
    keys(&mut lone, "%");
    assert_eq!((lone.cursor_row, lone.cursor_col), (0, 0));
}

#[test]
fn substitute_variants_and_errors() {
    let mut ed = TextEditor::new("aa aa\naa".to_string(), None);
    command(&mut ed, "s/aa/b/");
    assert_eq!(lines(&ed), vec!["b aa", "aa"]);
    assert_eq!(ed.status_line(), "1 substitution(s) made");
    command(&mut ed, "%s/aa/c");
    assert_eq!(lines(&ed), vec!["b c", "c"]);
    command(&mut ed, "s/zz/y/g");
    assert_eq!(ed.status_line(), "Pattern not found: zz");
    command(&mut ed, "s/nothing");
    assert_eq!(ed.status_line(), "Invalid substitute command");
    command(&mut ed, "frobnicate");
    assert_eq!(ed.status_line(), "Unknown command: frobnicate");
    assert_eq!(ed.mode, VimMode::Normal);
    assert_eq!(lines(&ed), vec!["b c", "c"]);
}

#[test]
fn save_and_reload_requests() {
    let mut ed = TextEditor::new("a".to_string(), None);
    assert_eq!(command(&mut ed, "w"), Request::Save);
    assert_eq!(command(&mut ed, "wq"), Request::SaveAndQuit);
    assert_eq!(command(&mut ed, "x"), Request::SaveAndQuit);
    assert_eq!(command(&mut ed, "e!"), Request::Reload);
    keys(&mut ed, "x");
    ed.finish_save(Err("disk full".to_string()));
    assert_eq!(ed.status_line(), "Error: disk full");
    assert!(ed.is_modified());
    ed.finish_save(Ok(()));
    assert_eq!(ed.status_line(), "File saved");
    assert!(!ed.is_modified());
    ed.finish_reload(Ok("new\ntext".to_string()));
    assert_eq!(lines(&ed), vec!["new", "text"]);
    assert_eq!(ed.undo_stack.len(), 0);
    ed.finish_reload(Err("gone".to_string()));
    assert_eq!(ed.status_line(), "Error reloading file: gone");
    assert_eq!(lines(&ed), vec!["new", "text"]);
    command(&mut ed, "noh");
    assert_eq!(ed.status_line(), "Search highlighting cleared");
    command(&mut ed, "set nu");
    assert_eq!(ed.status_line(), "Line numbers are always shown");
}

#[test]
fn visual_line_operations() {
    let mut ed = TextEditor::new("a\nb\nc".to_string(), None);
    keys(&mut ed, "Vj");
    assert_eq!(ed.get_visual_selection(), (0, 0, 1, 1));
    assert_eq!(ed.get_visual_selection_text(), "a\nb");
    assert_eq!(ed.handle_key(Key::Char('y')), Request::CopyRegister);
    assert_eq!(ed.status_line(), "2 lines yanked");
    assert!(ed.clipboard_is_line);
    keys(&mut ed, "Vjd");
    assert_eq!(lines(&ed), vec!["c"]);
    keys(&mut ed, "V>");
    assert_eq!(lines(&ed), vec!["    c"]);
    keys(&mut ed, "V<");
    assert_eq!(lines(&ed), vec!["c"]);
}

#[test]
fn visual_case_and_join() {
    let mut ed = TextEditor::new("abc def\nghi".to_string(), None);
    keys(&mut ed, "vlU");
    assert_eq!(lines(&ed), vec!["ABc def", "ghi"]);
    keys(&mut ed, "vu");
    assert_eq!(lines(&ed), vec!["Abc def", "ghi"]);
    keys(&mut ed, "vj~");
    assert_eq!(lines(&ed), vec!["ABC DEF", "GHi"]);
    keys(&mut ed, "ggvjJ");
    assert_eq!(lines(&ed), vec!["ABC DEF GHi"]);
    assert_eq!(ed.get_visual_selection_text(), "");
}

#[test]
fn command_line_editing() {
    let mut ed = TextEditor::new("a".to_string(), None);
    keys(&mut ed, ":ab");
    assert_eq!(ed.status_line(), ":ab");
    ed.handle_key(Key::Backspace);
    assert_eq!(ed.status_line(), ":a");
    ed.handle_key(Key::Backspace);
    assert_eq!(ed.mode, VimMode::Normal);
    keys(&mut ed, "/x");
    ed.handle_key(Key::Esc);
    assert_eq!(ed.mode, VimMode::Normal);
    assert_eq!(ed.status_line(), "-- NORMAL --");
}

#[test]
fn nano_style_editing() {
    let mut ed = TextEditor::new("ab".to_string(), None);
    ed.toggle_editor_style();
    assert_eq!(ed.editor_style, EditorStyle::Nano);
    assert_eq!(ed.mode, VimMode::Insert);
    ed.handle_key(Key::Char('x'));
    assert_eq!(ed.get_content(), "xab");
    assert_eq!(ed.handle_key(Key::Ctrl('x')), Request::Continue);
    assert_eq!(ed.status_line(), "Modified! Save first (^O) or use ESC to exit without saving");
    assert_eq!(ed.handle_key(Key::Ctrl('o')), Request::Save);
    ed.handle_key(Key::Ctrl('c'));
    assert_eq!(ed.status_line(), "Line 1, Col 2, 1 lines total");
    ed.handle_key(Key::Ctrl('k'));
    assert_eq!(ed.get_content(), "");
    ed.handle_key(Key::Ctrl('u'));
    assert_eq!(lines(&ed), vec!["", "xab"]);
    ed.handle_key(Key::Ctrl('w'));
    keys(&mut ed, "ab");
    ed.handle_key(Key::Enter);
    assert_eq!((ed.cursor_row, ed.cursor_col), (1, 1));
    ed.toggle_editor_style();
    assert_eq!(ed.editor_style, EditorStyle::Vim);
    assert_eq!(ed.mode, VimMode::Normal);
    let mut clean = TextEditor::new("".to_string(), None);
    clean.toggle_editor_style();
    assert_eq!(clean.handle_key(Key::Ctrl('x')), Request::Quit);
}

#[test]
fn count_prefix_is_consumed() {
    let mut ed = TextEditor::new("abcdef".to_string(), None);
    keys(&mut ed, "3x");
    assert_eq!(ed.get_content(), "def");
    assert_eq!(ed.get_count(), 1);
    keys(&mut ed, "12");
    assert_eq!(ed.status_line(), "12");
    assert_eq!(ed.get_count(), 12);
    assert_eq!(ed.get_count(), 1);
}

#[test]
fn current_line_in_place() {
    let mut ed = TextEditor::new("abc\ndef".to_string(), None);
    keys(&mut ed, "j");
    ed.get_current_line_mut().push('!');
    assert_eq!(lines(&ed), vec!["abc", "def!"]);
    assert_eq!(ed.get_current_line(), "def!");
}

#[test]
fn characterwise_multiline_paste_splits_lines() {
    let mut ed = TextEditor::new("abc\ndef\nXY".to_string(), None);
    keys(&mut ed, "lvjy");
    assert_eq!(ed.get_clipboard_text(), "bc\nde");
    assert!(!ed.clipboard_is_line);
    keys(&mut ed, "G");
    keys(&mut ed, "p");
    assert_eq!(lines(&ed), vec!["abc", "def", "Xbc", "deY"]);
    assert_eq!((ed.cursor_row, ed.cursor_col), (3, 2));
    ed.undo();
    assert_eq!(lines(&ed), vec!["abc", "def", "XY"]);
    keys(&mut ed, "P");
    assert_eq!(lines(&ed), vec!["abc", "def", "bc", "deXY"]);
}

#[test]
fn visual_join_is_one_undo_step() {
    let mut ed = TextEditor::new("a\nb\nc\nd".to_string(), None);
    keys(&mut ed, "Vjjj");
    keys(&mut ed, "J");
    assert_eq!(lines(&ed), vec!["a b c d"]);
    assert_eq!(ed.undo_stack.len(), 1);
    keys(&mut ed, "u");
    assert_eq!(lines(&ed), vec!["a", "b", "c", "d"]);
}

#[test]
fn failed_substitution_records_no_history() {
    let mut ed = TextEditor::new("abc".to_string(), None);
    command(&mut ed, "s/zz/y/");
    assert_eq!(ed.undo_stack.len(), 0);
    assert!(!ed.is_modified());
    command(&mut ed, "s/b/y/");
    assert_eq!(ed.undo_stack.len(), 1);
    assert_eq!(ed.get_content(), "ayc");
}

#[test]
fn substitute_char_keeps_column() {
    let mut ed = TextEditor::new("abc".to_string(), None);
    keys(&mut ed, "$s");
    assert_eq!(ed.get_content(), "ab");
    assert_eq!(ed.mode, VimMode::Insert);
    assert_eq!(ed.cursor_col, 2);
    assert_eq!(ed.get_clipboard_text(), "c");
    assert!(!ed.clipboard_is_line);
}

#[test]
fn search_records_start_and_clears_command_line() {
    let mut ed = TextEditor::new("xx b\nb".to_string(), None);
    keys(&mut ed, "$");
    keys(&mut ed, "/b");
    ed.handle_key(Key::Enter);
    assert_eq!((ed.last_search_row, ed.last_search_col), (0, 3));
    assert!(ed.command_buffer.is_empty());
    assert_eq!((ed.cursor_row, ed.cursor_col), (1, 0));
}

#[test]
fn count_travels_with_operator() {
    let mut ed = TextEditor::new("one\ntwo\nthree".to_string(), None);
    keys(&mut ed, "2");
    keys(&mut ed, "d");
    assert_eq!(ed.pending_op, PendingOperator::Delete);
    assert_eq!(ed.count_buffer, vec!['2']);
    assert_eq!(ed.mode, VimMode::Normal);
    keys(&mut ed, "d");
    assert_eq!(ed.pending_op, PendingOperator::Nothing);
    assert!(ed.count_buffer.is_empty());
    assert_eq!(lines(&ed), vec!["three"]);
}
