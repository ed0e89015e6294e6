use clipboard_queue::format::Format;
use clipboard_queue::queue::ClipboardQueue;
use clipboard_queue::record::Data;

fn text(s: &str) -> Data {
    Data::build(Format::UnicodeText, s.as_bytes().to_vec(), Some(String::from(s))).unwrap()
}

fn texts(q: &ClipboardQueue) -> Vec<String> {
    q.snapshot().iter().map(|d| d.get_data()).collect()
}

#[test]
fn new_queue_is_empty() {
    let q = ClipboardQueue::new();
    assert_eq!(q.len(), 0);
    assert!(q.is_empty());
    assert!(q.snapshot().is_empty());
    assert!(q.get(0).is_none());
}

#[test]
fn fifo_order() {
    let mut q = ClipboardQueue::new();
    let names = ["one", "two", "three", "four", "five"];
    for n in names {
        q.push_back(text(n));
    }
    assert_eq!(q.len(), 5);
    for n in names {
        assert_eq!(q.pop_front().unwrap().get_data(), n);
    }
    assert!(q.is_empty());
    assert!(q.pop_front().is_none());
}

#[test]
fn fifo_order_interleaved() {
    let mut q = ClipboardQueue::new();
    q.push_back(text("a"));
    q.push_back(text("b"));
    assert_eq!(q.pop_front().unwrap().get_data(), "a");
    q.push_back(text("c"));
    assert_eq!(q.pop_front().unwrap().get_data(), "b");
    assert_eq!(q.pop_front().unwrap().get_data(), "c");
    assert!(q.pop_front().is_none());
}

#[test]
fn pop_from_empty_queue_is_nothing() {
    let mut q = ClipboardQueue::new();
    assert!(q.pop_front().is_none());
    assert!(q.pop_front().is_none());
    assert_eq!(q.len(), 0);
    assert!(q.is_empty());
}

#[test]
fn push_back_does_not_deduplicate() {
    let mut q = ClipboardQueue::new();
    q.push_back(text("same"));
    q.push_back(text("same"));
    assert_eq!(q.len(), 2);
    assert_eq!(texts(&q), vec!["same", "same"]);
}

#[test]
fn remove_at_valid_index() {
    let mut q = ClipboardQueue::new();
    for n in ["a", "b", "c", "d"] {
        q.push_back(text(n));
    }
    q.remove_at(1);
    assert_eq!(texts(&q), vec!["a", "c", "d"]);
    q.remove_at(2);
    assert_eq!(texts(&q), vec!["a", "c"]);
    q.remove_at(0);
    assert_eq!(texts(&q), vec!["c"]);
    q.remove_at(0);
    assert!(q.is_empty());
}

#[test]
fn remove_at_stale_index_is_a_no_op() {
    let mut q = ClipboardQueue::new();
    q.remove_at(0);
    assert!(q.is_empty());
    q.push_back(text("a"));
    q.push_back(text("b"));
    q.remove_at(2);
    q.remove_at(7);
    q.remove_at(usize::MAX);
    assert_eq!(texts(&q), vec!["a", "b"]);
}

#[test]
fn clear_removes_all() {
    let mut q = ClipboardQueue::new();
    q.clear();
    assert!(q.is_empty());
    for n in ["a", "b", "c"] {
        q.push_back(text(n));
    }
    q.clear();
    assert_eq!(q.len(), 0);
    assert!(q.pop_front().is_none());
    q.push_back(text("d"));
    assert_eq!(texts(&q), vec!["d"]);
}

#[test]
fn snapshot_and_get_leave_the_queue_alone() {
    let mut q = ClipboardQueue::new();
    for n in ["a", "b", "c"] {
        q.push_back(text(n));
    }
    let snap = q.snapshot();
    assert_eq!(snap.len(), 3);
    assert_eq!(snap[0].get_data(), "a");
    assert_eq!(snap[2].get_content(), b"c".to_vec());
    assert_eq!(q.get(1).unwrap().get_data(), "b");
    assert!(q.get(3).is_none());
    assert_eq!(q.len(), 3);
    assert_eq!(q.pop_front().unwrap().get_data(), "a");
}
