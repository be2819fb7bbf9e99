use nitrogen::ErrorValue;
use nitrogen::Frame;
use nitrogen::Nitro;
use nitrogen::TextError;

#[test]
fn frame_new_message_and_trace() {
    let f = Frame::new(&TextError::new(String::from("boom")), "a.rs", 10, 5);
    assert_eq!(f.len(), 1);
    assert_eq!(f.message(), "boom");
    assert_eq!(f.trace(), "\n  0 | [a.rs 10:5]: boom");
    let g = Frame::new(&TextError::new(String::from("deep")), "dir/long_name.rs", 4294967295, 100);
    assert_eq!(g.trace(), "\n  0 | [dir/long_name.rs 4294967295:100]: deep");
}

#[test]
fn new_builds_one_frame_chain() {
    let n = Nitro::new(TextError::new(String::from("boom")), 7u32, "a.rs", 10, 5);
    assert_eq!(n.chain_len(), 1);
    assert_eq!(n.as_error().display_text(), "boom");
    assert_eq!(n.trace(), "\n  0 | [a.rs 10:5]: boom");
}

#[test]
fn without_ctx_builds_one_frame_chain() {
    let n = Nitro::without_ctx(TextError::new(String::from("lost")), "b.rs", 2, 30);
    assert_eq!(n.chain_len(), 1);
    assert_eq!(n.as_error().display_text(), "lost");
    assert_eq!(n.trace(), "\n  0 | [b.rs 2:30]: lost");
}

#[test]
fn raise_adds_frames_newest_first() {
    let n = Nitro::without_ctx(TextError::new(String::from("io failed")), "io.rs", 1, 2);
    let n = n.raise(TextError::new(String::from("query failed")), "db.rs", 3, 4);
    let n = n.raise(TextError::new(String::from("request failed")), "web.rs", 5, 6);
    assert_eq!(n.chain_len(), 3);
    assert_eq!(n.as_error().display_text(), "request failed");
    assert_eq!(
        n.trace(),
        "\n  0 | [web.rs 5:6]: request failed\
         \n  1 | [db.rs 3:4]: query failed\
         \n  2 | [io.rs 1:2]: io failed"
    );
}

#[test]
fn raise_many_pads_positions_to_width_two() {
    let mut n = Nitro::without_ctx(TextError::new(String::from("e0")), "x.rs", 1, 1);
    for i in 1..12u32 {
        n = n.raise(TextError::new(format!("e{}", i)), "x.rs", i + 1, 1);
    }
    assert_eq!(n.chain_len(), 12);
    let trace = n.trace();
    assert!(trace.starts_with("\n  0 | [x.rs 12:1]: e11"));
    assert!(trace.contains("\n  9 | [x.rs 3:1]: e2"));
    assert!(trace.contains("\n 10 | [x.rs 2:1]: e1"));
    assert!(trace.ends_with("\n 11 | [x.rs 1:1]: e0"));
}

#[test]
fn raise_moves_context_through_unchanged() {
    let n = Nitro::new(TextError::new(String::from("inner")), 41u32, "a.rs", 1, 1);
    let n = n.raise(TextError::new(String::from("outer")), "a.rs", 2, 1);
    let mut seen: Option<u32> = None;
    let _ = n.map_ctx(|c| {
        seen = Some(c);
        c
    });
    assert_eq!(seen, Some(41));
}

#[test]
fn map_ctx_changes_only_the_context() {
    let n = Nitro::new(TextError::new(String::from("inner")), 1u32, "a.rs", 1, 2);
    let n = n.raise(TextError::new(String::from("outer")), "b.rs", 3, 4);
    let before = n.trace();
    let n = n.map_ctx(|c| format!("request {}", c));
    assert_eq!(n.trace(), before);
    assert_eq!(n.chain_len(), 2);
    assert_eq!(n.as_error().display_text(), "outer");
    let mut seen = String::new();
    let _ = n.map_ctx(|c| {
        seen = c;
    });
    assert_eq!(seen, "request 1");
}

#[test]
fn as_error_tracks_the_newest_error() {
    let n = Nitro::without_ctx(TextError::new(String::from("first")), "a.rs", 1, 1);
    assert_eq!(n.as_error().display_text(), "first");
    let n = n.raise(TextError::new(String::from("second")), "a.rs", 2, 1);
    assert_eq!(n.as_error().display_text(), "second");
    let n = n.map_ctx(|c| c);
    assert_eq!(n.as_error().display_text(), "second");
}
