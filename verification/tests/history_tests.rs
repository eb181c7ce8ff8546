//! History storage, the navigation cursor's boundary behaviour, and the
//! editor facade's history management.

use copperline::history::{Cursor, History};
use copperline::Copperline;

#[test]
fn push_get_remove_clear() {
    let mut h = History::new();
    assert_eq!(h.len(), 0);
    h.push("one".to_string());
    h.push("two".to_string());
    assert_eq!(h.len(), 2);
    assert_eq!(h.get(0), Some(&"one".to_string()));
    assert_eq!(h.get(1), Some(&"two".to_string()));
    assert_eq!(h.get(2), None);
    assert_eq!(h.remove(0), Some("one".to_string()));
    assert_eq!(h.get(0), Some(&"two".to_string()));
    assert_eq!(h.remove(5), None);
    h.clear();
    assert_eq!(h.len(), 0);
}

#[test]
fn cursor_incr_clamps_at_oldest() {
    let mut h = History::new();
    h.push("one".to_string());
    h.push("two".to_string());
    let mut c = Cursor::new();
    assert!(c.is_live());
    assert!(c.incr(&h)); // live -> most recent
    assert!(c.incr(&h)); // -> oldest
    // at the oldest boundary: no move, offset unchanged
    assert!(!c.incr(&h));
    assert_eq!(c.get(&h), Some(&"one".to_string()));
}

#[test]
fn cursor_decr_clamps_at_live() {
    let mut h = History::new();
    h.push("one".to_string());
    let mut c = Cursor::new();
    // at the live boundary: no move
    assert!(!c.decr(&h));
    assert!(c.is_live());
    assert!(c.incr(&h));
    assert!(c.decr(&h)); // back to live
    assert!(c.is_live());
    assert!(!c.decr(&h));
}

#[test]
fn cursor_incr_on_empty_history_stays_live() {
    let h = History::new();
    let mut c = Cursor::new();
    assert!(!c.incr(&h));
    assert!(c.is_live());
    assert_eq!(c.get(&h), None);
}

#[test]
fn cursor_get_counts_from_most_recent() {
    let mut h = History::new();
    h.push("one".to_string());
    h.push("two".to_string());
    h.push("three".to_string());
    let mut c = Cursor::new();
    c.incr(&h);
    assert_eq!(c.get(&h), Some(&"three".to_string()));
    c.incr(&h);
    assert_eq!(c.get(&h), Some(&"two".to_string()));
    c.incr(&h);
    assert_eq!(c.get(&h), Some(&"one".to_string()));
}

#[test]
fn copperline_history_management() {
    let mut cl = Copperline::new_from_raw_fds(0, 1);
    assert_eq!(cl.input_fd(), 0);
    assert_eq!(cl.output_fd(), 1);
    assert_eq!(cl.get_current_history_length(), 0);
    cl.add_history("alpha".to_string());
    cl.add_history("beta".to_string());
    assert_eq!(cl.get_current_history_length(), 2);
    assert_eq!(cl.get_history_item(0), Some(&"alpha".to_string()));
    assert_eq!(cl.get_history_item(9), None);
    assert_eq!(cl.remove_history_item(0), Some("alpha".to_string()));
    assert_eq!(cl.get_history_item(0), Some(&"beta".to_string()));
    cl.clear_history();
    assert_eq!(cl.get_current_history_length(), 0);
}
