use finalizable::{Finalizable, Finalized, Residual, Working};
use std::ops::ControlFlow;

#[test]
fn new_then_get_and_flag() {
    for b in [false, true] {
        let v = Finalizable::new(7u32, b);
        assert_eq!(v.is_finalized(), b);
        assert_eq!(v.is_working(), !b);
        assert_eq!(v.get(), 7);
    }
    assert_eq!(Finalizable::new("x", true), Finalized("x"));
    assert_eq!(Finalizable::new("x", false), Working("x"));
}

#[test]
fn finalize_is_idempotent() {
    for v in [Working(1), Finalized(2)] {
        assert_eq!(v.finalize().finalize(), v.finalize());
    }
    assert_eq!(Working(5).finalize(), Finalized(5));
    assert_eq!(Finalized(5).finalize(), Finalized(5));
}

#[test]
fn map_leaves_finalized_alone_and_never_calls() {
    let mut calls = 0;
    let r = Finalized(10).map(|x| {
        calls += 1;
        x * 2
    });
    assert_eq!(r, Finalized(10));
    assert_eq!(calls, 0);
    let r = Working(10).map(|x| {
        calls += 1;
        x * 2
    });
    assert_eq!(r, Working(20));
    assert_eq!(calls, 1);
}

#[test]
fn map_and_finalize_transforms_then_locks() {
    assert_eq!(Working(3).map_and_finalize(|x| x + 1), Finalized(4));
    let mut calls = 0;
    let r = Finalized(3).map_and_finalize(|x| {
        calls += 1;
        x + 1
    });
    assert_eq!(r, Finalized(3));
    assert_eq!(calls, 0);
}

#[test]
fn and_then_short_circuits_on_finalized() {
    let mut calls = 0;
    let r = Finalized(1).and_then(|x| {
        calls += 1;
        Working(x + 1)
    });
    assert_eq!(r, Finalized(1));
    assert_eq!(calls, 0);
    assert_eq!(Working(1).and_then(|x| Working(x + 1)), Working(2));
    assert_eq!(Working(1).and_then(|x| Finalized(x + 5)), Finalized(6));
}

#[test]
fn and_then_new_uses_flag() {
    assert_eq!(Working(1).and_then_new(|x| (x + 1, true)), Finalized(2));
    assert_eq!(Working(1).and_then_new(|x| (x + 1, false)), Working(2));
    let mut calls = 0;
    let r = Finalized(1).and_then_new(|x| {
        calls += 1;
        (x + 1, false)
    });
    assert_eq!(r, Finalized(1));
    assert_eq!(calls, 0);
}

#[test]
fn and_returns_other_only_for_working() {
    assert_eq!(Working(1).and(Finalized(9)), Finalized(9));
    assert_eq!(Working(1).and(Working(9)), Working(9));
    assert_eq!(Finalized(1).and(Working(9)), Finalized(1));
}

#[test]
fn set_only_changes_working() {
    assert_eq!(Finalized(1).set(5), Finalized(1));
    assert_eq!(Working(1).set(5), Working(5));
}

#[test]
fn try_get_mut_present_iff_working() {
    let mut w = Working(1);
    match w.try_get_mut() {
        Some(x) => *x += 41,
        None => panic!("a working value lends its payload"),
    }
    assert_eq!(w, Working(42));
    let mut f = Finalized(1);
    assert!(f.try_get_mut().is_none());
    assert_eq!(f, Finalized(1));
}

#[test]
fn extractors_follow_the_tag() {
    assert_eq!(Working(1).working_or_none(), Some(1));
    assert_eq!(Finalized(1).working_or_none(), None);
    assert_eq!(Working(1).finalized_or_none(), None);
    assert_eq!(Finalized(1).finalized_or_none(), Some(1));
    assert_eq!(Working(1).finalized_or_else(|x| x + 100), 101);
    assert_eq!(Finalized(1).finalized_or_else(|x| x + 100), 1);
    assert_eq!(Finalized(8).expect_finalized("must be finalized"), 8);
}

#[test]
fn references_keep_the_tag() {
    let w = Working(String::from("w"));
    let f = Finalized(String::from("f"));
    assert_eq!(w.get_as_ref(), "w");
    assert_eq!(w.as_ref(), Working(&String::from("w")));
    assert_eq!(f.as_ref(), Finalized(&String::from("f")));
    assert_eq!(f.as_ref().cloned(), Finalized(String::from("f")));
    assert_eq!(w.as_ref().cloned(), Working(String::from("w")));
    assert_eq!(Finalized(3).as_ref().copied(), Finalized(3));
    assert_eq!(Working(3).as_ref().copied(), Working(3));
}

#[test]
fn sequence_view_yields_payload_once() {
    for v in [Working(4), Finalized(4)] {
        let mut it = v.into_iter();
        assert_eq!(it.len(), 1);
        assert_eq!(it.next(), Some(4));
        assert_eq!(it.len(), 0);
        assert_eq!(it.next(), None);
        assert_eq!(it.next(), None);
        assert_eq!(it.next_back(), None);
        let mut it = v.iter();
        assert_eq!(it.next_back(), Some(&4));
        assert_eq!(it.next(), None);
    }
}

#[test]
fn sequence_view_by_mutable_reference() {
    let mut f = Finalized(1);
    {
        let mut it = f.iter_mut();
        assert_eq!(it.len(), 1);
        if let Some(x) = it.next() {
            *x = 2;
        }
        assert!(it.next().is_none());
    }
    assert_eq!(f, Finalized(2));
}

#[test]
fn chain_steps_continue_or_stop() {
    assert!(matches!(Working(1).branch(), ControlFlow::Continue(1)));
    assert!(matches!(Finalized(1).branch(), ControlFlow::Break(Residual(1))));
    assert_eq!(Finalizable::from_output(3), Working(3));
    assert_eq!(Finalizable::from_residual(Residual(3)), Finalized(3));
}

#[test]
fn scenario_map_finalize_map_get() {
    let v = Working(3);
    let v = v.map(|x| x + 1);
    assert_eq!(v, Working(4));
    let v = v.finalize();
    assert_eq!(v, Finalized(4));
    let v = v.map(|x| x + 1);
    assert_eq!(v, Finalized(4));
    assert_eq!(v.get(), 4);
}

#[test]
fn scenario_and_then_on_finalized_string() {
    let mut calls = 0;
    let v = Finalized(String::from("a")).and_then(|s| {
        calls += 1;
        Working(s + "b")
    });
    assert_eq!(v, Finalized(String::from("a")));
    assert_eq!(calls, 0);
}

#[test]
fn scenario_finalized_or_default() {
    let v = Working(10);
    assert_eq!(v.finalized_or(0), 0);
    let v = v.finalize();
    assert_eq!(v.finalized_or(0), 10);
}
