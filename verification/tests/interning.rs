use persil::StringInterner;

#[test]
fn intern_equal_content_yields_equal_id() {
    let mut interner = StringInterner::new();
    let a = interner.intern("expression");
    let b = interner.intern("expression");
    assert_eq!(a, b);
    assert_eq!(interner.len(), 1);
}

#[test]
fn intern_distinct_content_yields_distinct_ids() {
    let mut interner = StringInterner::new();
    let a = interner.intern("parse");
    let b = interner.intern("expr");
    assert_ne!(a, b);
    assert_eq!(a, 0);
    assert_eq!(b, 1);
    assert_eq!(interner.len(), 2);
    assert_eq!(interner.intern("parse"), 0);
    assert_eq!(interner.intern("expr"), 1);
    assert_eq!(interner.len(), 2);
}

#[test]
fn intern_regardless_of_order() {
    let mut first = StringInterner::new();
    let x1 = first.intern("factorial");
    let x2 = first.intern("factorial");

    let mut second = StringInterner::new();
    second.intern("other");
    let y1 = second.intern("factorial");
    second.intern("another");
    let y2 = second.intern("factorial");

    assert_eq!(x1, x2);
    assert_eq!(y1, y2);
}

#[test]
fn lookup_returns_interned_content() {
    let mut interner = StringInterner::new();
    let id = interner.intern("calculations");
    assert_eq!(interner.lookup(id), "calculations");
}

#[test]
fn empty_interner_has_no_entries() {
    let interner = StringInterner::new();
    assert_eq!(interner.len(), 0);
}
