//! Which rows a memory dump shows.

use rusty_c64::dump::{dump_lines, DumpLine};

fn rows(fill: &[u8]) -> Vec<u8> {
    fill.iter().flat_map(|byte| [*byte; 16]).collect()
}

#[test]
fn equal_rows_are_shown_once() {
    assert_eq!(
        dump_lines(&rows(&[0; 16])),
        vec![DumpLine::Row(0), DumpLine::Gap, DumpLine::End(15)]
    );
}

#[test]
fn a_change_after_left_out_rows_is_marked() {
    assert_eq!(
        dump_lines(&rows(&[1, 1, 1, 2, 3, 3])),
        vec![
            DumpLine::Row(0),
            DumpLine::Gap,
            DumpLine::Row(3),
            DumpLine::Row(4),
            DumpLine::Gap,
            DumpLine::End(5),
        ]
    );
}

#[test]
fn rows_that_all_differ_are_all_shown() {
    assert_eq!(
        dump_lines(&rows(&[1, 2, 3])),
        vec![DumpLine::Row(0), DumpLine::Row(1), DumpLine::Row(2)]
    );
}

#[test]
fn a_first_row_of_ff_is_left_out_without_a_mark() {
    assert_eq!(dump_lines(&rows(&[0xff, 7])), vec![DumpLine::Row(1)]);
    assert_eq!(
        dump_lines(&rows(&[0xff, 0xff, 7])),
        vec![DumpLine::Gap, DumpLine::Row(2)]
    );
    assert_eq!(dump_lines(&rows(&[0xff])), vec![DumpLine::Gap, DumpLine::End(0)]);
}

#[test]
fn bytes_behind_the_last_whole_row_are_not_shown() {
    let mut bytes = rows(&[5]);
    bytes.extend_from_slice(&[1, 2, 3]);
    assert_eq!(dump_lines(&bytes), vec![DumpLine::Row(0)]);
    assert!(dump_lines(&vec![1, 2, 3]).is_empty());
    assert!(dump_lines(&Vec::new()).is_empty());
}
