use rustproto::registry::register_source;
use rustproto::registry::FileSource;
use rustproto::registry::Registry;
use rustproto::registry::Source;

#[test]
fn identities_start_at_one_and_increase() {
    let mut reg: Registry<FileSource> = Registry::new();
    let h1 = register_source(&mut reg, FileSource::new(String::from("/tmp/a.mp4")));
    let h2 = register_source(&mut reg, FileSource::new(String::from("/tmp/b.mp4")));
    let h3 = register_source(&mut reg, FileSource::new(String::from("/tmp/c.mp4")));
    assert_eq!(h1.id(), 1);
    assert_eq!(h2.id(), 2);
    assert_eq!(h3.id(), 3);
    assert_eq!(reg.len(), 3);
}

#[test]
fn urls_embed_the_identity() {
    let mut reg: Registry<FileSource> = Registry::new();
    let h1 = register_source(&mut reg, FileSource::new(String::from("/tmp/a.mp4")));
    let h2 = register_source(&mut reg, FileSource::new(String::from("/tmp/b.mp4")));
    assert_eq!(h1.url(), "myproto://1");
    assert_eq!(h2.url(), "myproto://2");
}

#[test]
fn release_removes_exactly_one_entry() {
    let mut reg: Registry<FileSource> = Registry::new();
    let h1 = register_source(&mut reg, FileSource::new(String::from("/tmp/a.mp4")));
    let h2 = register_source(&mut reg, FileSource::new(String::from("/tmp/b.mp4")));
    let id1 = h1.id();
    let id2 = h2.id();
    h1.release(&mut reg);
    assert!(reg.lookup(id1).is_none());
    assert!(reg.lookup(id2).is_some());
    assert_eq!(reg.len(), 1);
    h2.release(&mut reg);
    assert!(reg.lookup(id2).is_none());
    assert_eq!(reg.len(), 0);
}

#[test]
fn identities_are_not_reused_after_release() {
    let mut reg: Registry<FileSource> = Registry::new();
    let h1 = register_source(&mut reg, FileSource::new(String::from("/tmp/a.mp4")));
    let id1 = h1.id();
    h1.release(&mut reg);
    let h2 = register_source(&mut reg, FileSource::new(String::from("/tmp/b.mp4")));
    assert_ne!(h2.id(), id1);
    assert_eq!(h2.id(), 2);
}

#[test]
fn cancel_on_missing_entry_is_a_no_op() {
    let mut reg: Registry<FileSource> = Registry::new();
    let h = register_source(&mut reg, FileSource::new(String::from("/tmp/a.mp4")));
    let weak = h.cancel_handle();
    // On a live entry the request reaches the source (a no-op for files).
    h.cancel(&reg);
    h.release(&mut reg);
    // The entry is gone; both cancellation paths must simply do nothing.
    weak.cancel(&reg);
    rustproto::registry::cancel_source(&reg, 1);
    rustproto::registry::cancel_source(&reg, 999);
}

#[test]
fn file_source_defaults() {
    let source = FileSource::new(String::from("/tmp/a.mp4"));
    assert_eq!(source.path(), "/tmp/a.mp4");
    assert!(!source.is_streamed());
    source.cancel();
}
