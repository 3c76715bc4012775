//! The text and buffer helpers held against the standard library on many inputs.

use serial_mcp_server::utils::{BufferUtils, DataConverter, StringUtils};

struct Random(u64);

impl Random {
    fn next(&mut self) -> u64 {
        self.0 ^= self.0 << 13;
        self.0 ^= self.0 >> 7;
        self.0 ^= self.0 << 17;
        self.0
    }

    fn below(&mut self, n: usize) -> usize {
        (self.next() % n as u64) as usize
    }

    fn text(&mut self, alphabet: &[char], max_len: usize) -> String {
        let len = self.below(max_len + 1);
        (0..len).map(|_| alphabet[self.below(alphabet.len())]).collect()
    }

    fn bytes(&mut self, alphabet: &[u8], max_len: usize) -> Vec<u8> {
        let len = self.below(max_len + 1);
        (0..len).map(|_| alphabet[self.below(alphabet.len())]).collect()
    }
}

fn unescape_by_the_book(data: &str) -> Result<String, String> {
    let mut result = String::new();
    let mut chars = data.chars().peekable();
    while let Some(c) = chars.next() {
        if c == '\\' {
            match chars.next() {
                Some('n') => result.push('\n'),
                Some('r') => result.push('\r'),
                Some('t') => result.push('\t'),
                Some('0') => result.push('\0'),
                Some('\\') => result.push('\\'),
                Some('x') => {
                    let hex_chars: String = chars.by_ref().take(2).collect();
                    if hex_chars.len() == 2 {
                        match u8::from_str_radix(&hex_chars, 16) {
                            Ok(byte) => result.push(byte as char),
                            Err(_) => return Err(format!("Encoding error: Invalid hex escape: \\x{}", hex_chars)),
                        }
                    } else {
                        return Err("Encoding error: Incomplete hex escape".to_string());
                    }
                }
                Some(other) => return Err(format!("Encoding error: Unknown escape sequence: \\{}", other)),
                None => return Err("Encoding error: Incomplete escape sequence".to_string()),
            }
        } else {
            result.push(c);
        }
    }
    Ok(result)
}

#[test]
fn escapes_are_read_back_by_the_book() {
    let alphabet = ['\\', '\\', 'x', 'x', 'n', 'r', 't', '0', '4', 'a', 'F', 'g', '+', '-', 'é', '日', ' ', '\n'];
    let mut random = Random(0x9E3779B97F4A7C15);
    for _ in 0..20000 {
        let text = random.text(&alphabet, 12);
        let got = DataConverter::unescape_string(&text).map_err(|e| e.to_string());
        assert_eq!(got, unescape_by_the_book(&text), "for {:?}", text);
    }
}

#[test]
fn escaping_and_unescaping_give_the_text_back() {
    let alphabet = ['\\', 'x', 'n', '0', '\n', '\r', '\t', '\0', '\x01', '\x1b', '\x7f', 'a', 'é', '日', '"'];
    let mut random = Random(0xD1B54A32D192ED03);
    for _ in 0..5000 {
        let text = random.text(&alphabet, 16);
        let escaped = DataConverter::escape_string(&text);
        assert_eq!(DataConverter::unescape_string(&escaped).unwrap(), text, "for {:?}", text);
    }
}

fn find_by_the_book(buffer: &[u8], pattern: &[u8]) -> Option<usize> {
    if pattern.is_empty() || buffer.len() < pattern.len() {
        return None;
    }
    buffer.windows(pattern.len()).position(|window| window == pattern)
}

fn split_by_the_book(buffer: &[u8], delimiter: &[u8]) -> Vec<Vec<u8>> {
    if delimiter.is_empty() {
        return vec![buffer.to_vec()];
    }
    let mut result = Vec::new();
    let mut start = 0;
    while let Some(pos) = find_by_the_book(&buffer[start..], delimiter) {
        let absolute_pos = start + pos;
        result.push(buffer[start..absolute_pos].to_vec());
        start = absolute_pos + delimiter.len();
    }
    if start < buffer.len() {
        result.push(buffer[start..].to_vec());
    }
    result
}

#[test]
fn buffers_are_searched_and_cut_by_the_book() {
    let mut random = Random(0x2545F4914F6CDD1D);
    for _ in 0..20000 {
        let buffer = random.bytes(b"ab,", 14);
        let pattern = random.bytes(b"ab,", 3);
        assert_eq!(BufferUtils::find_pattern(&buffer, &pattern), find_by_the_book(&buffer, &pattern));
        assert_eq!(BufferUtils::split_by_delimiter(&buffer, &pattern), split_by_the_book(&buffer, &pattern));
        let sum = buffer.iter().fold(0u8, |acc, &b| acc.wrapping_add(b));
        let xor = buffer.iter().fold(0u8, |acc, &b| acc ^ b);
        assert_eq!(BufferUtils::checksum_sum(&buffer), sum);
        assert_eq!(BufferUtils::checksum_xor(&buffer), xor);
    }
}

#[test]
fn texts_are_shortened_and_cleaned_by_the_book() {
    let alphabet = ['a', 'b', ' ', '.', '\n', '\t', '\x07', '\u{9b}', 'é', '日', '\u{1F600}'];
    let mut random = Random(0xA0761D6478BD642F);
    for _ in 0..20000 {
        let text = random.text(&alphabet, 10);
        let clean: String = text
            .chars()
            .map(|c| if c.is_control() && c != '\n' && c != '\r' && c != '\t' { '?' } else { c })
            .collect();
        assert_eq!(StringUtils::sanitize(&text), clean);

        let max_len = random.below(16);
        // Shortening must not cut a character in two.
        if text.len() > max_len && max_len > 3 && !text.is_char_boundary(max_len - 3) {
            continue;
        }
        let short = if text.len() <= max_len {
            text.to_string()
        } else if max_len <= 3 {
            "...".to_string()
        } else {
            format!("{}...", &text[..max_len - 3])
        };
        assert_eq!(StringUtils::truncate(&text, max_len), short, "for {:?} and {}", text, max_len);
    }
}
