use tree::terminal::{CellWrite, Color, VirtTerminal};

fn write_at(writes: &[CellWrite], row: usize, col: usize) -> Option<CellWrite> {
    let mut found = None;
    for w in writes {
        if w.row == row && w.col == col {
            assert!(found.is_none(), "cell written more than once per flush");
            found = Some(*w);
        }
    }
    found
}

#[test]
fn fresh_terminal_flushes_nothing() {
    let mut t = VirtTerminal::new(3, 2);
    let writes = t.flush();
    assert_eq!(writes.len(), 0);
}

#[test]
fn flush_emits_only_changed_cells() {
    let mut t = VirtTerminal::new(3, 1);
    t.change_cell(0, 1, 'x', Color::Reset, Color::DarkGrey);
    let writes = t.flush();
    assert_eq!(writes.len(), 1);
    let w = write_at(&writes, 0, 1).unwrap();
    assert_eq!(w.cell.content, 'x');
    assert_eq!(w.cell.fg, Color::Reset);
    assert_eq!(w.cell.bg, Color::DarkGrey);
}

#[test]
fn same_content_twice_emits_nothing() {
    let mut t = VirtTerminal::new(3, 1);
    t.change_cell(0, 1, 'x', Color::Reset, Color::Reset);
    let first = t.flush();
    assert_eq!(first.len(), 1);
    // assemble exactly the same frame again
    t.change_cell(0, 1, 'x', Color::Reset, Color::Reset);
    let second = t.flush();
    assert_eq!(second.len(), 0);
}

#[test]
fn dropping_content_emits_the_reverted_cell() {
    let mut t = VirtTerminal::new(3, 1);
    t.change_cell(0, 2, 'y', Color::Reset, Color::Reset);
    t.flush();
    // the next frame is left blank: the one lit cell must be blanked again
    let writes = t.flush();
    assert_eq!(writes.len(), 1);
    let w = write_at(&writes, 0, 2).unwrap();
    assert_eq!(w.cell.content, ' ');
}

#[test]
fn resize_forces_full_redraw() {
    let mut t = VirtTerminal::new(2, 2);
    t.change_cell(0, 0, 'a', Color::Reset, Color::Reset);
    t.flush();
    t.resize(3, 2);
    assert_eq!(t.width, 3);
    assert_eq!(t.height, 2);
    let writes = t.flush();
    assert_eq!(writes.len(), 6);
    for row in 0..2 {
        for col in 0..3 {
            let w = write_at(&writes, row, col).unwrap();
            assert_eq!(w.cell.content, ' ');
            assert_eq!(w.cell.fg, Color::Reset);
            assert_eq!(w.cell.bg, Color::Reset);
        }
    }
    // and the redraw happens only once
    let after = t.flush();
    assert_eq!(after.len(), 0);
}

#[test]
fn flush_carries_frame_to_previous() {
    let mut t = VirtTerminal::new(2, 1);
    t.change_cell(0, 0, 'a', Color::Reset, Color::Reset);
    t.flush();
    assert_eq!(t.old_cells[0][0].content, 'a');
    assert_eq!(t.new_cells[0][0].content, ' ');
}
