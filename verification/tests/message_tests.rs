use snake_game::game::Game;
use snake_game::high_score::{decode_high_score, encode_high_score};
use snake_game::message::MessageLine;

fn board(width: u16) -> Game {
    let mut g = Game::new(40, 12, 0, false);
    g.width = width;
    g
}

fn line(column: u16, row: u16, start: usize, end: usize) -> MessageLine {
    MessageLine { column, row, start, end }
}

#[test]
fn short_message_is_one_centred_line() {
    let g = board(40);
    // 40 - 2 - 6 = 32 characters fit.
    assert!(!g.message_wraps(32, 3));
    assert!(g.message_layout_fits(32, 3, 120));
    assert_eq!(g.message_layout(32, 3, 120), vec![line(14, 5, 0, 32)]);
    assert_eq!(g.message_layout(10, 3, 80), vec![line(4, 5, 0, 10)]);
}

#[test]
fn long_message_is_cut_at_the_field_width() {
    let g = board(40);
    assert!(g.message_wraps(70, 3));
    assert!(g.message_layout_fits(70, 3, 0));
    assert_eq!(
        g.message_layout(70, 3, 0),
        vec![line(4, 5, 0, 32), line(4, 6, 32, 64), line(4, 7, 64, 70)]
    );
    assert_eq!(g.message_layout(64, 3, 0), vec![line(4, 5, 0, 32), line(4, 6, 32, 64)]);
}

#[test]
fn narrow_field_cuts_one_byte_a_line() {
    let g = board(6);
    assert!(g.message_wraps(3, 3));
    assert_eq!(
        g.message_layout(3, 3, 0),
        vec![line(4, 5, 0, 1), line(4, 6, 1, 2), line(4, 7, 2, 3)]
    );
}

#[test]
fn wrapped_lines_cover_the_message() {
    let g = board(100);
    let len = 500;
    let lines = g.message_layout(len, 3, 0);
    assert_eq!(lines[0].start, 0);
    for pair in lines.windows(2) {
        assert_eq!(pair[0].end, pair[1].start);
        assert_eq!(pair[0].row + 1, pair[1].row);
    }
    assert_eq!(lines.last().unwrap().end, len);
    assert!(lines.iter().all(|l| l.end - l.start <= 92));
}

#[test]
fn layout_overflow_is_detected() {
    let g = board(40);
    assert!(!g.message_layout_fits(10, u16::MAX, 0));
    assert!(!g.message_layout_fits(usize::MAX, 3, 0));
    assert!(!g.message_layout_fits(32 * 65531, 3, 0));
    assert!(g.message_layout_fits(32 * 65530, 3, 0));
}

#[test]
fn high_score_bytes_are_a_varint() {
    assert_eq!(encode_high_score(0), vec![0]);
    assert_eq!(encode_high_score(250), vec![250]);
    assert_eq!(encode_high_score(251), vec![251, 251, 0]);
    assert_eq!(encode_high_score(300), vec![251, 44, 1]);
    assert_eq!(encode_high_score(65535), vec![251, 255, 255]);
    assert_eq!(encode_high_score(65536), vec![252, 0, 0, 1, 0]);
    assert_eq!(encode_high_score(u32::MAX), vec![252, 255, 255, 255, 255]);
}

#[test]
fn high_score_is_read_back() {
    for score in [0, 1, 42, 250, 251, 1000, 65535, 65536, 1 << 24, u32::MAX] {
        assert_eq!(decode_high_score(&encode_high_score(score)), score);
        let mut with_tail = encode_high_score(score);
        with_tail.extend_from_slice(&[9, 9, 9]);
        assert_eq!(decode_high_score(&with_tail), score);
    }
}

#[test]
fn unreadable_high_score_is_zero() {
    assert_eq!(decode_high_score(&[]), 0);
    assert_eq!(decode_high_score(&[251, 1]), 0);
    assert_eq!(decode_high_score(&[252, 1, 2, 3]), 0);
    assert_eq!(decode_high_score(&[253, 1, 0, 0, 0, 0, 0, 0, 0]), 0);
    assert_eq!(decode_high_score(&[255]), 0);
    assert_eq!(decode_high_score(&[0, 0, 0, 0]), 0);
    assert_eq!(decode_high_score(&[251, 1, 0]), 1);
}
