use reborrow::{AsPseudoMut, AsPseudoRef, I32Ref, I32RefMut, I32TupleRef, I32TupleRefMut, IntoConst, Reborrow, ReborrowMut, Ref};

#[test]
fn named_record_scenario() {
    let i = 0;
    let mut one = 1;
    let mut two = 2;
    let mut r = I32RefMut { i, j: &mut one, k: &mut two };
    {
        let n = r.rb_mut();
        assert_eq!(n.i, 0);
        assert_eq!((*n.j, *n.k), (1, 2));
    }
    {
        let q: I32Ref = r.rb();
        assert_eq!((q.i, *q.j, *q.k), (0, 1, 2));
    }
    let q: I32Ref = r.into_const();
    assert_eq!((q.i, *q.j, *q.k), (0, 1, 2));
    drop(q);
    assert_eq!((one, two), (1, 2));
}

#[test]
fn named_record_writes_survive_narrowing() {
    let mut a = 1;
    let mut b = 2;
    let mut r = I32RefMut { i: 5, j: &mut a, k: &mut b };
    {
        let n = r.rb_mut();
        *n.j = 10;
        *n.k += 1;
    }
    {
        let mut n = r.rb_mut();
        let m = n.rb_mut();
        *m.j += 1;
    }
    assert_eq!((r.i, *r.j, *r.k), (5, 11, 3));
    drop(r);
    assert_eq!((a, b), (11, 3));
}

#[test]
fn tuple_record_matches_named() {
    let mut a = 1;
    let mut b = 2;
    let mut c = 1;
    let mut d = 2;
    let mut named = I32RefMut { i: 0, j: &mut a, k: &mut b };
    let mut tuple = I32TupleRefMut(0, &mut c, &mut d);
    {
        let n = named.rb_mut();
        *n.j = 7;
        let t = tuple.rb_mut();
        *t.1 = 7;
    }
    let q = named.rb();
    let p: I32TupleRef = tuple.rb();
    assert_eq!((q.i, *q.j, *q.k), (p.0, *p.1, *p.2));
    let q = named.into_const();
    let p = tuple.into_const();
    assert_eq!((q.i, *q.j, *q.k), (0, 7, 2));
    assert_eq!((p.0, *p.1, *p.2), (0, 7, 2));
}

#[test]
fn shared_record_rb_twice_equals_once() {
    let a = 1;
    let b = 2;
    let mut r = I32RefMut { i: 3, j: &mut 1, k: &mut 2 };
    let once = r.rb();
    let twice = once.rb();
    assert_eq!((once.i, *once.j, *once.k), (twice.i, *twice.j, *twice.k));
    assert!(std::ptr::eq(once.j, twice.j));
    let s = I32Ref { i: 4, j: &a, k: &b };
    let s2 = s.rb();
    assert!(std::ptr::eq(s2.j, &a));
    let _ = r.rb_mut();
}

#[test]
fn shared_records_copy_through() {
    let a = 1;
    let b = 2;
    let mut s = I32Ref { i: 4, j: &a, k: &b };
    let m = s.rb_mut();
    assert_eq!((m.i, *m.j, *m.k), (4, 1, 2));
    let c = s.into_const();
    assert!(std::ptr::eq(c.k, &b));
    let mut t = I32TupleRef(4, &a, &b);
    let tm = t.rb_mut();
    assert_eq!((tm.0, *tm.1, *tm.2), (4, 1, 2));
    let u = t.as_pseudo_mut();
    assert!(std::ptr::eq(u.1, &a));
    let x = String::from("x");
    let y = String::from("y");
    let mut g = Ref { i: 1, j: &x, k: &y };
    let h = g.rb_mut();
    assert_eq!(h.j.as_str(), "x");
    let h2 = g.rb();
    assert_eq!(h2.k.as_str(), "y");
    let gc = g;
    let g2 = gc.into_const();
    assert_eq!(g2.i, 1);
}

#[test]
fn record_adapters() {
    let mut a = 1;
    let mut b = 2;
    let mut r = I32RefMut { i: 0, j: &mut a, k: &mut b };
    {
        let m = r.as_pseudo_mut();
        *m.k = 20;
    }
    let q = r.as_pseudo_ref();
    assert_eq!((q.i, *q.j, *q.k), (0, 1, 20));
}
