use multiline_term::lazy::Diff;
use multiline_term::lazy::LazyRenderer;
use multiline_term::ops::TermOp;
use multiline_term::renderer::FullRenderer;
use multiline_term::renderer::PreviousDrawState;
use multiline_term::renderer::Renderer;
use multiline_term::state::Cursor;
use multiline_term::state::PrefixGutter;
use multiline_term::state::TermState;

fn state(lines: &[&str], line: usize, index: usize) -> TermState {
    TermState {
        buffers: lines.iter().map(|s| s.to_string()).collect(),
        cursor: Cursor { line, index },
    }
}

fn plain() -> FullRenderer<PrefixGutter> {
    FullRenderer::new()
}

fn with_prefix(p: &str) -> FullRenderer<PrefixGutter> {
    FullRenderer::with_gutter(PrefixGutter { prefix: p.to_string() })
}

#[test]
fn empty_draw_has_height_one_and_one_gutter_write() {
    let mut r = with_prefix("> ");
    let t = state(&[], 0, 0);
    r.draw(&t);
    assert_eq!(r.pds().height, 1);
    assert_eq!(r.take_ops(), vec![TermOp::Write("> ".to_string())]);
}

#[test]
fn empty_draw_without_gutter_writes_nothing() {
    let mut r = plain();
    let t = state(&[], 0, 0);
    r.draw(&t);
    assert_eq!(r.pds().height, 1);
    assert_eq!(r.take_ops(), vec![]);
}

#[test]
fn draw_emits_lines_in_order_without_trailing_break() {
    let mut r = plain();
    let t = state(&["hello", "ab"], 1, 2);
    r.draw(&t);
    assert_eq!(
        r.take_ops(),
        vec![
            TermOp::Write("hello".to_string()),
            TermOp::WriteLine("".to_string()),
            TermOp::Write("ab".to_string()),
        ]
    );
}

#[test]
fn draw_with_gutter_prefixes_every_line() {
    let mut r = with_prefix(" | ");
    let t = state(&["a", "b"], 1, 1);
    r.draw(&t);
    assert_eq!(
        r.take_ops(),
        vec![
            TermOp::Write(" | ".to_string()),
            TermOp::Write("a".to_string()),
            TermOp::WriteLine("".to_string()),
            TermOp::Write(" | ".to_string()),
            TermOp::Write("b".to_string()),
        ]
    );
}

#[test]
fn draw_repositions_cursor_after_painting() {
    let mut r = plain();
    let t = state(&["hello", "ab"], 0, 3);
    r.draw(&t);
    assert_eq!(
        r.take_ops(),
        vec![
            TermOp::Write("hello".to_string()),
            TermOp::WriteLine("".to_string()),
            TermOp::Write("ab".to_string()),
            TermOp::MoveUp(1),
            TermOp::MoveRight(1),
        ]
    );
    assert_eq!(r.pds(), PreviousDrawState { height: 2, cursor: Cursor { line: 0, index: 3 } });
}

#[test]
fn draw_clamps_stale_cursor_index_to_line_length() {
    let mut r = plain();
    let t = state(&["hello", "ab"], 1, 10);
    r.draw(&t);
    assert_eq!(r.pds().cursor, Cursor { line: 1, index: 2 });
}

#[test]
fn clear_draw_moves_down_clears_line_then_preceding_lines() {
    let mut r = plain();
    let t = state(&["a", "b", "c"], 1, 1);
    r.draw(&t);
    r.take_ops();
    r.clear_draw(&t);
    assert_eq!(
        r.take_ops(),
        vec![TermOp::MoveDown(1), TermOp::ClearLine, TermOp::ClearLastLines(2)]
    );
    assert_eq!(r.pds(), PreviousDrawState { height: 0, cursor: Cursor { line: 0, index: 0 } });
}

#[test]
fn clear_draw_after_empty_draw_issues_no_moves() {
    let mut r = plain();
    let t = state(&[], 0, 0);
    r.draw(&t);
    r.take_ops();
    r.clear_draw(&t);
    assert_eq!(r.take_ops(), vec![TermOp::ClearLine, TermOp::ClearLastLines(0)]);
    assert_eq!(r.pds().height, 0);
}

#[test]
fn full_redraw_is_clear_then_draw() {
    let mut r = plain();
    let t = state(&["ab"], 0, 1);
    r.draw(&t);
    r.take_ops();
    let t2 = state(&["cd"], 0, 2);
    r.redraw(&t2);
    assert_eq!(
        r.take_ops(),
        vec![
            TermOp::ClearLine,
            TermOp::ClearLastLines(0),
            TermOp::Write("cd".to_string()),
        ]
    );
}

#[test]
fn cursor_moves_of_zero_issue_no_operation() {
    let mut r = plain();
    r.move_cursor_up(0);
    r.move_cursor_down(0);
    r.move_cursor_left(0);
    r.move_cursor_right(0);
    assert_eq!(r.take_ops(), vec![]);
}

#[test]
fn move_cursor_to_line_issues_single_relative_move() {
    let mut r = plain();
    let t = state(&["a", "b", "c"], 2, 1);
    r.draw(&t);
    r.take_ops();
    r.move_cursor_to_line(0);
    assert_eq!(r.take_ops(), vec![TermOp::MoveUp(2)]);
    assert_eq!(r.pds().cursor.line, 0);
    r.move_cursor_to_line(1);
    assert_eq!(r.take_ops(), vec![TermOp::MoveDown(1)]);
    r.move_cursor_to_line(1);
    assert_eq!(r.take_ops(), vec![]);
}

#[test]
fn move_cursor_to_index_issues_single_relative_move() {
    let mut r = plain();
    let t = state(&["hello"], 0, 5);
    r.draw(&t);
    r.take_ops();
    r.move_cursor_to_index(2);
    assert_eq!(r.take_ops(), vec![TermOp::MoveLeft(3)]);
    r.move_cursor_to_index(4);
    assert_eq!(r.take_ops(), vec![TermOp::MoveRight(2)]);
    assert_eq!(r.pds().cursor.index, 4);
}

#[test]
fn move_cursor_to_end_and_start() {
    let mut r = plain();
    let t = state(&["hello"], 0, 2);
    r.draw(&t);
    r.take_ops();
    // draw left the shadow cursor at the clamped logical index 2
    r.move_cursor_to_end(&t);
    assert_eq!(r.take_ops(), vec![TermOp::MoveRight(3)]);
    assert_eq!(r.pds().cursor.index, 5);
    r.move_cursor_to_start(&t);
    assert_eq!(r.take_ops(), vec![TermOp::MoveLeft(2)]);
    assert_eq!(r.pds().cursor.index, 3);
}

#[test]
fn move_cursor_to_bottom_targets_last_drawn_line() {
    let mut r = plain();
    let t = state(&["a", "b", "c"], 0, 1);
    r.draw(&t);
    r.take_ops();
    r.move_cursor_to_bottom();
    assert_eq!(r.take_ops(), vec![TermOp::MoveDown(2)]);
    assert_eq!(r.pds().cursor.line, 2);
}

#[test]
fn diff_classification_scenarios() {
    let mut r = LazyRenderer::wrap(plain());
    let t = state(&["a", "b"], 1, 1);
    r.draw(&t);
    r.take_ops();
    assert_eq!(r.find_diff(&t), Diff::NoChange);
    assert_eq!(r.find_diff(&state(&["a", "b"], 0, 0)), Diff::RedrawCursor);
    assert_eq!(r.find_diff(&state(&["a", "x"], 1, 1)), Diff::RedrawLine(1));
    assert_eq!(r.find_diff(&state(&["a", "b", "c"], 1, 1)), Diff::RedrawAll);
    assert_eq!(r.find_diff(&state(&["x", "y"], 1, 1)), Diff::RedrawAll);
}

#[test]
fn single_line_redraw_touches_only_that_line() {
    let mut r = LazyRenderer::wrap(plain());
    let t = state(&["ab", "cd"], 0, 2);
    r.draw(&t);
    r.take_ops();
    let t2 = state(&["ab", "xy"], 0, 2);
    r.redraw(&t2);
    let ops = r.take_ops();
    assert_eq!(
        ops,
        vec![
            TermOp::MoveDown(1),
            TermOp::ClearLine,
            TermOp::Write("xy".to_string()),
            TermOp::MoveUp(1),
        ]
    );
    // no line break, no multi-line clear, and no write before reaching line 1
    assert!(ops.iter().all(|op| !matches!(op, TermOp::WriteLine(_) | TermOp::ClearLastLines(_))));
}

#[test]
fn single_line_redraw_with_gutter_redraws_gutter_once() {
    let mut r = LazyRenderer::wrap(with_prefix("> "));
    let t = state(&["ab", "cd"], 1, 2);
    r.draw(&t);
    r.take_ops();
    let t2 = state(&["ab", "xyz"], 1, 3);
    r.redraw(&t2);
    let ops = r.take_ops();
    let gutters = ops
        .iter()
        .filter(|op| matches!(op, TermOp::Write(s) if s == "> "))
        .count();
    assert_eq!(gutters, 1);
    assert_eq!(
        ops,
        vec![
            TermOp::ClearLine,
            TermOp::Write("> ".to_string()),
            TermOp::Write("xyz".to_string()),
        ]
    );
}

#[test]
fn cursor_only_redraw_moves_without_painting() {
    let mut r = LazyRenderer::wrap(plain());
    let t = state(&["hello", "ab"], 1, 2);
    r.draw(&t);
    r.take_ops();
    let t2 = state(&["hello", "ab"], 0, 1);
    r.redraw(&t2);
    assert_eq!(r.take_ops(), vec![TermOp::MoveUp(1), TermOp::MoveLeft(1)]);
}

#[test]
fn redraw_twice_issues_nothing_on_second_call() {
    let mut r = LazyRenderer::wrap(with_prefix("| "));
    let t = state(&["one", "two"], 0, 1);
    r.draw(&t);
    r.take_ops();
    r.redraw(&t);
    r.take_ops();
    r.redraw(&t);
    assert_eq!(r.take_ops(), vec![]);
}

#[test]
fn redraw_twice_with_stale_cursor_issues_nothing_on_second_call() {
    let mut r = LazyRenderer::wrap(plain());
    let t = state(&["ab"], 0, 9);
    r.draw(&t);
    r.take_ops();
    r.redraw(&t);
    assert_eq!(r.take_ops(), vec![]);
    r.redraw(&t);
    assert_eq!(r.take_ops(), vec![]);
}

#[test]
fn length_change_forces_full_redraw() {
    let mut r = LazyRenderer::wrap(plain());
    let t = state(&["a"], 0, 1);
    r.draw(&t);
    r.take_ops();
    let t2 = state(&["a", "b"], 1, 1);
    r.redraw(&t2);
    assert_eq!(
        r.take_ops(),
        vec![
            TermOp::ClearLine,
            TermOp::ClearLastLines(0),
            TermOp::Write("a".to_string()),
            TermOp::WriteLine("".to_string()),
            TermOp::Write("b".to_string()),
        ]
    );
}

#[test]
fn round_trip_matches_direct_draw_of_final_state() {
    // a history of mutations and redraws, then clear + draw
    let mut a = LazyRenderer::wrap(with_prefix(": "));
    let t1 = state(&["a"], 0, 1);
    a.draw(&t1);
    a.take_ops();
    let t2 = state(&["a", "b"], 1, 1);
    a.redraw(&t2);
    a.take_ops();
    let t3 = state(&["a", "x"], 1, 1);
    a.redraw(&t3);
    a.take_ops();
    a.clear_draw(&t3);
    a.take_ops();
    a.draw(&t3);
    let history_ops = a.take_ops();

    // a direct draw of the final state on a fresh renderer
    let mut b = LazyRenderer::wrap(with_prefix(": "));
    b.draw(&t3);
    assert_eq!(history_ops, b.take_ops());
}

#[test]
fn default_shadow_state_is_cleared() {
    let pds = PreviousDrawState::default();
    assert_eq!(pds, PreviousDrawState { height: 0, cursor: Cursor::default() });
}

#[test]
fn state_accessors_expose_buffer_and_cursor() {
    let t = state(&["hello", "ab"], 1, 1);
    assert_eq!(t.buffers().len(), 2);
    assert_eq!(*t.cursor(), Cursor { line: 1, index: 1 });
    assert_eq!(t.current_line_len(), 2);
    let empty = TermState::new();
    assert_eq!(empty.buffers().len(), 0);
}

#[test]
fn default_renderers_start_clean() {
    let mut r: FullRenderer<PrefixGutter> = FullRenderer::default();
    assert_eq!(r.pds(), PreviousDrawState::default());
    assert_eq!(r.take_ops(), vec![]);
    let mut l: LazyRenderer<PrefixGutter> = LazyRenderer::default();
    assert_eq!(l.take_ops(), vec![]);
}
