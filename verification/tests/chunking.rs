use gptbot::text::{chunk_reply, contains_substring, str_eq};

#[test]
fn chunking_three_ordered_chunks() {
    // a reply of length 4500 at a 2000-unit boundary
    let reply: String = std::iter::repeat('x').take(4500).collect();
    let chunks = chunk_reply(&reply, 2000);
    assert_eq!(chunks.len(), 3);
    assert_eq!(chunks[0].chars().count(), 2000);
    assert_eq!(chunks[1].chars().count(), 2000);
    assert_eq!(chunks[2].chars().count(), 500);
    let joined: String = chunks.concat();
    assert_eq!(joined, reply);
}

#[test]
fn chunking_preserves_multi_byte_characters() {
    // 4500 two-byte characters: a byte-wise split at 2000 would cut one apart
    let reply: String = std::iter::repeat('é').take(4500).collect();
    let chunks = chunk_reply(&reply, 2000);
    assert_eq!(chunks.len(), 3);
    for c in &chunks {
        assert!(std::str::from_utf8(c.as_bytes()).is_ok());
    }
    let joined: String = chunks.concat();
    assert_eq!(joined, reply);
}

#[test]
fn chunking_short_reply_is_one_chunk() {
    let chunks = chunk_reply("Hi!", 2000);
    assert_eq!(chunks.len(), 1);
    assert_eq!(chunks[0], "Hi!");
}

#[test]
fn chunking_empty_reply_is_no_chunks() {
    let chunks = chunk_reply("", 2000);
    assert_eq!(chunks.len(), 0);
}

#[test]
fn chunking_exact_boundary() {
    let reply: String = std::iter::repeat('y').take(4000).collect();
    let chunks = chunk_reply(&reply, 2000);
    assert_eq!(chunks.len(), 2);
    assert_eq!(chunks[0].chars().count(), 2000);
    assert_eq!(chunks[1].chars().count(), 2000);
}

#[test]
fn substring_search() {
    assert!(contains_substring(
        "This model's maximum context length is 4097 tokens, your prompt is too long",
        "is too long"
    ));
    assert!(!contains_substring("rate limit reached", "is too long"));
    assert!(contains_substring("anything", ""));
    assert!(!contains_substring("ab", "abc"));
}

#[test]
fn string_equality() {
    assert!(str_eq("gpt", "gpt"));
    assert!(!str_eq("gpt", "image"));
    assert!(!str_eq("gpt", "gp"));
    assert!(str_eq("", ""));
}
