use std::borrow::Borrow;

use imprint::{Exists, IntoInner, TyEq, TyFn, TyFnL, Val, imprint};

struct ValF<T>(T);

impl<'a, T> TyFnL<'a> for ValF<T> {
    type Output = Val<'a, T>;
}

struct ResultF;

impl<T> TyFn<T> for ResultF {
    type Output = Result<T, String>;
}

struct OptionF;

impl<T> TyFn<T> for OptionF {
    type Output = Option<T>;
}

#[test]
fn it_works() {
    imprint(42, |m| {
        assert_eq!(m.into_inner(), 42);
        let n = imprint(42, |n| {
            assert_eq!(n.into_inner(), 42);
            m.eq(&n).unwrap().sym().cast(n)
        });
        assert_eq!(m, n);
        imprint(0, |z| {
            assert_eq!(z.into_inner(), 0);
            assert!(m.eq(&z).is_none());
        })
    })
}

#[test]
fn imprint_then_extract_gives_value_back() {
    assert_eq!(imprint(7i64, |x| x.into_inner()), 7);
    assert_eq!(imprint(-1i32, |x| x.into_inner()), -1);
    assert_eq!(imprint(String::from("brand"), |x| x.into_inner()), "brand");
    assert_eq!(imprint(String::new(), |x| x.into_inner()), "");
}

#[test]
fn imprint_returns_what_the_callback_returns() {
    assert_eq!(imprint(3u8, |x| u32::from(x.into_inner()) * 10), 30);
}

#[test]
fn equal_values_from_separate_scopes_give_a_witness() {
    imprint(5u64, |a| {
        imprint(5u64, |b| {
            assert!(a.eq(&b).is_some());
            assert!(b.eq(&a).is_some());
        })
    });
    imprint(String::from("x"), |a| {
        imprint(String::from("x"), |b| {
            assert!(a.eq(&b).is_some());
        })
    });
}

#[test]
fn unequal_values_give_no_witness() {
    imprint(5u64, |a| {
        imprint(6u64, |b| {
            assert!(a.eq(&b).is_none());
            assert!(b.eq(&a).is_none());
        })
    });
    imprint(String::from("x"), |a| {
        imprint(String::from("y"), |b| {
            assert!(a.eq(&b).is_none());
        })
    });
}

#[test]
fn a_container_is_equal_to_itself() {
    imprint(9i16, |a| {
        assert!(a.eq(&a).is_some());
    });
}

#[test]
fn cast_along_witness_keeps_the_value() {
    imprint(42, |m| {
        imprint(42, |n| {
            let eq = m.eq(&n).unwrap();
            let moved = eq.sym().cast(n);
            assert_eq!(moved, m);
            assert_eq!(moved.into_inner(), 42);
        })
    });
}

#[test]
fn sym_round_trip_gives_the_value_back() {
    imprint(11u32, |a| {
        imprint(11u32, |b| {
            let e = a.eq(&b).unwrap();
            let there = e.cast(a);
            let back = e.sym().cast(there);
            assert_eq!(back, a);
            assert_eq!(back.into_inner(), 11);
            let other_way = e.cast(e.sym().cast(b));
            assert_eq!(other_way.into_inner(), 11);
        })
    });
}

#[test]
fn trans_agrees_with_two_steps() {
    imprint(8i32, |a| {
        imprint(8i32, |b| {
            imprint(8i32, |c| {
                let e1 = a.eq(&b).unwrap();
                let e2 = b.eq(&c).unwrap();
                let direct = e1.trans(e2).cast(a);
                let stepwise = e2.cast(e1.cast(a));
                assert_eq!(direct, stepwise);
                assert_eq!(direct.into_inner(), 8);
                assert_eq!(direct, c);
            })
        })
    });
}

#[test]
fn refl_cast_is_the_identity() {
    assert_eq!(TyEq::<i32, i32>::refl().cast(-17), -17);
    assert_eq!(TyEq::<u64, u64>::refl().cast(u64::MAX), u64::MAX);
    assert_eq!(
        TyEq::<String, String>::refl().cast(String::from("same")),
        "same"
    );
    assert_eq!(
        TyEq::<(u8, Option<bool>), (u8, Option<bool>)>::refl().cast((1, Some(true))),
        (1, Some(true))
    );
    assert_eq!(TyEq::<Option<char>, Option<char>>::refl().cast(None), None);
    imprint(4usize, |v| {
        let w = TyEq::refl().cast(v);
        assert_eq!(w, v);
    });
}

#[test]
fn apply_moves_a_value_inside_a_shape() {
    imprint(2u8, |a| {
        imprint(2u8, |b| {
            let e = a.eq(&b).unwrap();
            let moved: Option<Val<u8>> = e.apply::<OptionF>(Some(a));
            assert_eq!(moved, Some(b));
            let none: Option<Val<u8>> = e.apply::<OptionF>(None);
            assert!(none.is_none());
        })
    });
}

#[test]
fn default_containers_share_a_marker() {
    let a: Val<'static, i32> = Default::default();
    let b: Val<'static, i32> = Val::default();
    assert!(a.eq(&b).is_some());
    assert_eq!(a, b);
    assert_eq!(a.into_inner(), 0);
    let s: Val<'static, String> = Default::default();
    assert_eq!(s.into_inner(), "");
}

#[test]
fn default_container_compares_with_imprinted_value() {
    let d: Val<'static, u32> = Default::default();
    imprint(0u32, |z| {
        assert!(d.eq(&z).is_some());
    });
    imprint(1u32, |o| {
        assert!(d.eq(&o).is_none());
    });
}

#[test]
fn container_reads_through_references() {
    imprint(String::from("abc"), |v| {
        assert_eq!(v.len(), 3);
        assert_eq!(v.as_ref(), "abc");
        let s: &String = v.borrow();
        assert_eq!(s, "abc");
        assert_eq!(*v, "abc");
    });
}

#[test]
fn witness_is_copyable() {
    imprint(1i8, |a| {
        imprint(1i8, |b| {
            let e = a.eq(&b).unwrap();
            let f = e.clone();
            assert_eq!(e.cast(a), f.cast(a));
        })
    });
}

#[test]
fn capture_then_open_keeps_the_value() {
    let x: Exists<ValF<i32>> = imprint(42, |v| Exists::new(v));
    assert_eq!(x.with(|w| w.into_inner()), 42);
    let y: Exists<ValF<String>> = imprint(String::from("kept"), |v| Exists::new(v));
    assert_eq!(y.with(|w| w.into_inner()), "kept");
}

#[test]
fn opened_value_compares_with_new_scope() {
    let x: Exists<ValF<u16>> = imprint(300, |v| Exists::new(v));
    let same = x.with(|w| imprint(300u16, |n| w.eq(&n).is_some()));
    assert!(same);
}

#[test]
fn witness_moves_boxes_results_and_triples() {
    imprint(6u32, |a| {
        imprint(6u32, |b| {
            let e = a.eq(&b).unwrap();
            let boxed: Box<Val<u32>> = TyEq::refl().cast(Box::new(a));
            assert_eq!(*boxed, a);
            let ok: Result<Val<u32>, String> = e.apply::<ResultF>(Ok(a));
            assert_eq!(ok, Ok(b));
            let err: Result<Val<u32>, String> = e.apply::<ResultF>(Err(String::from("no")));
            assert_eq!(err, Err(String::from("no")));
        })
    });
    assert_eq!(
        TyEq::<(i8, bool, char), (i8, bool, char)>::refl().cast((-3, false, 'z')),
        (-3, false, 'z')
    );
}
