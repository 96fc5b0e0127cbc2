use wrenched::buffer::{Buffer, BufferView};

fn is_break_char(c: char) -> bool {
    matches!(c, '\n' | '\u{0B}' | '\u{0C}' | '\r' | '\u{85}' | '\u{2028}' | '\u{2029}')
}

fn ends_line_at(text: &[char], i: usize) -> bool {
    is_break_char(text[i]) && !(text[i] == '\r' && i + 1 < text.len() && text[i + 1] == '\n')
}

fn line_of(text: &[char], n: usize) -> usize {
    (0..n.min(text.len())).filter(|&i| ends_line_at(text, i)).count()
}

fn line_start(text: &[char], line: usize) -> usize {
    (0..text.len()).filter(|&i| line_of(text, i) < line).count()
}

fn sample(seed: u64, len: usize) -> String {
    let alphabet = [
        'a', 'b', ' ', '\n', '\r', '\n', '\r', 'é', '\u{2028}', '\u{85}', '\u{0B}', '\u{0C}',
        '\u{2029}', 'z', '\u{1F600}', '\t',
    ];
    let mut state = seed;
    let mut text = String::new();
    for _ in 0..len {
        state = state.wrapping_mul(6364136223846793005).wrapping_add(1442695040888963407);
        text.push(alphabet[((state >> 33) % alphabet.len() as u64) as usize]);
    }
    text
}

fn check_against_model(buf: &Buffer, expected: &str) {
    let chars: Vec<char> = expected.chars().collect();
    assert_eq!(buf.text(), expected);
    assert_eq!(buf.len_chars(), chars.len());
    assert_eq!(buf.len_bytes(), expected.len());
    let lines = line_of(&chars, chars.len()) + 1;
    assert_eq!(buf.len_lines(), lines);
    let mut breaks = 0;
    for offset in 0..=chars.len() {
        assert_eq!(buf.char_to_line(offset), breaks);
        if offset < chars.len() && ends_line_at(&chars, offset) {
            breaks += 1;
        }
    }
    let mut starts = vec![0];
    for i in 0..chars.len() {
        if ends_line_at(&chars, i) {
            starts.push(i + 1);
        }
    }
    assert_eq!(starts.len(), lines);
    for (line, start) in starts.iter().enumerate() {
        assert_eq!(buf.line_to_char(line), *start);
    }
    assert_eq!(buf.line_to_char(lines), starts[lines - 1]);
    assert_eq!(buf.line_to_char(lines + 5), starts[lines - 1]);
    let mut byte_idx = 0;
    for (offset, c) in chars.iter().enumerate() {
        assert_eq!(buf.char_to_byte(offset), byte_idx);
        for inner in 0..c.len_utf8() {
            assert_eq!(buf.byte_to_char(byte_idx + inner), offset);
        }
        byte_idx += c.len_utf8();
    }
    assert_eq!(buf.char_to_byte(chars.len()), expected.len());
    assert_eq!(buf.byte_to_char(expected.len()), chars.len());
    assert_eq!(buf.byte_to_char(expected.len() + 9), chars.len());
}

#[test]
fn small_texts_agree_with_the_line_model() {
    for text in ["", "a", "\n", "\r", "\r\n", "\n\r", "\r\r\n\n", "a\r\nb\rc\nd", "x\u{85}\u{2028}y"] {
        let chars: Vec<char> = text.chars().collect();
        let last = line_of(&chars, chars.len());
        for line in 0..chars.len() + 3 {
            let buf = Buffer::from_string(text);
            assert_eq!(buf.line_to_char(line), line_start(&chars, line.min(last)));
        }
        check_against_model(&Buffer::from_string(text), text);
    }
}

#[test]
fn long_texts_agree_with_the_line_model() {
    for seed in 0..6 {
        let text = sample(seed, 3000);
        check_against_model(&Buffer::from_string(&text), &text);
        check_against_model(&Buffer::load(std::path::PathBuf::from("p"), text.as_bytes()).unwrap(), &text);
    }
}

#[test]
fn edited_texts_agree_with_the_line_model() {
    let mut expected: Vec<char> = sample(11, 2500).chars().collect();
    let start: String = expected.iter().collect();
    let mut buf = Buffer::from_string(&start);
    let mut state: u64 = 99;
    for round in 0..60 {
        state = state.wrapping_mul(6364136223846793005).wrapping_add(1442695040888963407);
        let at = ((state >> 33) as usize) % (expected.len() + 1);
        if round % 3 == 2 {
            let end = (at + 1 + round * 7).min(expected.len());
            buf.remove(at..end);
            expected.drain(at..end);
        } else {
            let piece = match round % 8 {
                0 | 2 | 6 => "\n".to_string(),
                4 => sample(state, 9000),
                _ => sample(state, 40),
            };
            buf.insert(at, &piece);
            let tail = expected.split_off(at);
            expected.extend(piece.chars());
            expected.extend(tail);
        }
        if round % 10 == 9 {
            let text: String = expected.iter().collect();
            check_against_model(&buf, &text);
        }
    }
    let text: String = expected.iter().collect();
    check_against_model(&buf, &text);
}

#[test]
fn a_line_feed_put_after_a_carriage_return_joins_it() {
    let mut buf = Buffer::from_string("a\rb");
    assert_eq!(buf.len_lines(), 2);
    assert_eq!(buf.char_to_line(2), 1);
    buf.insert(2, "\n");
    check_against_model(&buf, "a\r\nb");
    assert_eq!(buf.len_lines(), 2);
    assert_eq!(buf.char_to_line(2), 0);
    assert_eq!(buf.line_to_char(1), 3);
    buf.remove(1..2);
    check_against_model(&buf, "a\nb");
}

#[test]
fn end_of_line_agrees_with_the_line_model() {
    let text = sample(5, 400);
    let chars: Vec<char> = text.chars().collect();
    let buf = Buffer::from_string(&text);
    for offset in 0..=chars.len() {
        let mut view = BufferView::new(&buf);
        view.goto_char(&buf, offset);
        view.move_point_end_of_line(&buf);
        let line = line_of(&chars, offset);
        let expected = if line == 0 { chars.len() } else { line_start(&chars, line + 1) - 1 };
        assert_eq!(view.point(), expected..expected);
        view.goto_char(&buf, offset);
        view.move_point_start_of_line(&buf);
        let start = line_start(&chars, line);
        assert_eq!(view.point(), start..start);
        assert!(start <= offset);
    }
}
