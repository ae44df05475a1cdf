use uberlog::reassembly::reassemble_chunk;
use uberlog::reassembly::split_buffer;
use uberlog::reassembly::strip_nul_bytes;

fn feed(chunks: &[&[u8]]) -> (Vec<Vec<u8>>, Vec<u8>) {
    let mut lines: Vec<Vec<u8>> = Vec::new();
    let mut tail: Option<Vec<u8>> = None;
    for chunk in chunks {
        let (mut done, rest) = reassemble_chunk(tail.take(), chunk.to_vec());
        lines.append(&mut done);
        tail = Some(rest);
    }
    (lines, tail.unwrap_or_default())
}

#[test]
fn incomplete_tail_is_retained() {
    let (lines, tail) = reassemble_chunk(None, b"abc".to_vec());
    assert!(lines.is_empty());
    assert_eq!(tail, b"abc".to_vec());
    let (lines, tail) = reassemble_chunk(Some(tail), b"def\n".to_vec());
    assert_eq!(lines, vec![b"abcdef\n".to_vec()]);
    assert!(tail.is_empty());
}

#[test]
fn lines_keep_their_newline() {
    let (lines, tail) = split_buffer(&b"one\ntwo\nthr".to_vec());
    assert_eq!(lines, vec![b"one\n".to_vec(), b"two\n".to_vec()]);
    assert_eq!(tail, b"thr".to_vec());
}

#[test]
fn empty_buffer_yields_nothing() {
    let (lines, tail) = split_buffer(&Vec::new());
    assert!(lines.is_empty());
    assert!(tail.is_empty());
    let (lines, tail) = reassemble_chunk(None, Vec::new());
    assert!(lines.is_empty());
    assert!(tail.is_empty());
    let (lines, tail) = reassemble_chunk(Some(b"ab".to_vec()), Vec::new());
    assert!(lines.is_empty());
    assert_eq!(tail, b"ab".to_vec());
}

#[test]
fn empty_lines_are_lines() {
    let (lines, tail) = split_buffer(&b"\n\na\n".to_vec());
    assert_eq!(lines, vec![b"\n".to_vec(), b"\n".to_vec(), b"a\n".to_vec()]);
    assert!(tail.is_empty());
}

#[test]
fn nul_bytes_are_stripped() {
    assert_eq!(strip_nul_bytes(&vec![0, b'a', 0, 0, b'b', 0]), b"ab".to_vec());
    assert_eq!(strip_nul_bytes(&vec![0, 0, 0]), Vec::<u8>::new());
    assert_eq!(strip_nul_bytes(&b"plain\n".to_vec()), b"plain\n".to_vec());
    assert_eq!(strip_nul_bytes(&Vec::new()), Vec::<u8>::new());
}

#[test]
fn nul_inside_text_is_destroyed_not_escaped() {
    let (lines, tail) = reassemble_chunk(None, b"a\0b\n\0c".to_vec());
    assert_eq!(lines, vec![b"ab\n".to_vec()]);
    assert_eq!(tail, b"c".to_vec());
}

#[test]
fn a_chunk_of_padding_completes_nothing() {
    let (lines, tail) = reassemble_chunk(Some(b"par".to_vec()), vec![0; 200]);
    assert!(lines.is_empty());
    assert_eq!(tail, b"par".to_vec());
}

#[test]
fn reassembly_ignores_the_split_pattern() {
    let stream: &[u8] = b"first line\nsecond\n\nfourth line here\n";
    let whole = feed(&[stream]);
    assert_eq!(
        whole.0,
        vec![
            b"first line\n".to_vec(),
            b"second\n".to_vec(),
            b"\n".to_vec(),
            b"fourth line here\n".to_vec(),
        ]
    );
    assert!(whole.1.is_empty());
    // split at every position
    for cut in 0..=stream.len() {
        let (a, b) = stream.split_at(cut);
        assert_eq!(feed(&[a, b]), whole, "cut at {}", cut);
    }
    // split at every pair of positions
    for first in 0..=stream.len() {
        for second in first..=stream.len() {
            let parts: [&[u8]; 3] = [&stream[..first], &stream[first..second], &stream[second..]];
            assert_eq!(feed(&parts), whole);
        }
    }
    // one byte at a time
    let bytes: Vec<&[u8]> = stream.chunks(1).collect();
    assert_eq!(feed(&bytes), whole);
}

#[test]
fn reassembly_splits_exactly_at_a_newline() {
    assert_eq!(
        feed(&[b"ab", b"\n", b"cd\n"]),
        (vec![b"ab\n".to_vec(), b"cd\n".to_vec()], Vec::new())
    );
    assert_eq!(
        feed(&[b"ab\n", b"cd\n"]),
        (vec![b"ab\n".to_vec(), b"cd\n".to_vec()], Vec::new())
    );
}

#[test]
fn reassembly_keeps_a_split_multibyte_sequence_together() {
    // U+00E9 is 0xC3 0xA9 in UTF-8; the chunk boundary falls inside it.
    let (lines, tail) = feed(&[b"caf\xC3", b"\xA9\n"]);
    assert_eq!(lines, vec![b"caf\xC3\xA9\n".to_vec()]);
    assert!(tail.is_empty());
}

#[test]
fn stripping_is_indifferent_to_chunk_boundaries() {
    let a: &[u8] = b"al\0pha\0\nbe";
    let b: &[u8] = b"\0ta\n\0gam\0";
    let joined: Vec<u8> = [a, b].concat();
    let after = feed(&[&joined]);
    let before = feed(&[&strip_nul_bytes(&a.to_vec()), &strip_nul_bytes(&b.to_vec())]);
    let chunked = feed(&[a, b]);
    assert_eq!(after, before);
    assert_eq!(after, chunked);
    assert_eq!(after.0, vec![b"alpha\n".to_vec(), b"beta\n".to_vec()]);
    assert_eq!(after.1, b"gam".to_vec());
}

#[test]
fn a_tail_with_leftover_nul_is_cleaned_with_the_next_chunk() {
    let (lines, tail) = reassemble_chunk(Some(vec![b'x', 0, b'y']), b"z\n".to_vec());
    assert_eq!(lines, vec![b"xyz\n".to_vec()]);
    assert!(tail.is_empty());
}
