use slice_jit::actions::{Action, Add, Sub};
use slice_jit::instantiate::{InstantiateError, InstantiateSliceOptions, ModifyInPlace};
use slice_jit::types::IntKind;

fn descriptor(kind: IntKind, actions: Vec<Action>) -> ModifyInPlace {
    ModifyInPlace::new(kind, actions)
}

#[test]
fn end_to_end_wrapping_u64() {
    // Target = u64, actions = (Sub(2), Add(1)), count fixed at 3:
    // 0 - 2 + 1 wraps to the type's maximum value.
    let query = descriptor(
        IntKind::U64,
        vec![Action::Sub(Sub::new(2u64)), Action::Add(Add::new(1u64))],
    );
    let func = query
        .instantiate_slice(InstantiateSliceOptions {
            log: false,
            count: Some(3),
        })
        .unwrap();
    let mut data: Vec<u64> = vec![5, 10, 0];
    func.call_mut(&mut data).unwrap();
    assert_eq!(data, vec![4, 9, 18446744073709551615]);
}

#[test]
fn zero_length_i32() {
    // Target = i32, actions = Add(1), no fixed count: the empty slice is
    // legal, nothing is touched, nothing fails.
    let query = descriptor(IntKind::I32, vec![Action::Add(Add::new(1i32))]);
    let func = query
        .instantiate_slice(InstantiateSliceOptions {
            log: false,
            count: None,
        })
        .unwrap();
    let mut data: Vec<u64> = vec![];
    func.call_mut(&mut data).unwrap();
    assert_eq!(data, Vec::<u64>::new());
}

#[test]
fn fixed_count_contract() {
    // With count = Some(3), a slice of any other length is rejected
    // untouched; a slice of exactly 3 succeeds and mutates all elements.
    let query = descriptor(IntKind::U64, vec![Action::Add(Add::new(1u64))]);
    let func = query
        .instantiate_slice(InstantiateSliceOptions {
            log: false,
            count: Some(3),
        })
        .unwrap();

    let mut short: Vec<u64> = vec![1, 2];
    let violation = func.call_mut(&mut short).unwrap_err();
    assert_eq!(violation.expected, 3);
    assert_eq!(violation.found, 2);
    assert_eq!(short, vec![1, 2]);

    let mut long: Vec<u64> = vec![1, 2, 3, 4];
    assert!(func.call_mut(&mut long).is_err());
    assert_eq!(long, vec![1, 2, 3, 4]);

    let mut exact: Vec<u64> = vec![1, 2, 3];
    func.call_mut(&mut exact).unwrap();
    assert_eq!(exact, vec![2, 3, 4]);
}

#[test]
fn unspecified_count_contract() {
    // With count = None every length is legal: exactly the passed
    // elements are mutated.
    let query = descriptor(IntKind::U64, vec![Action::Add(Add::new(7u64))]);
    let func = query
        .instantiate_slice(InstantiateSliceOptions {
            log: false,
            count: None,
        })
        .unwrap();

    let mut none: Vec<u64> = vec![];
    func.call_mut(&mut none).unwrap();
    assert_eq!(none, Vec::<u64>::new());

    let mut one: Vec<u64> = vec![100];
    func.call_mut(&mut one).unwrap();
    assert_eq!(one, vec![107]);

    let mut many: Vec<u64> = vec![1; 1000];
    func.call_mut(&mut many).unwrap();
    assert_eq!(many, vec![8u64; 1000]);
}

#[test]
fn coverage_every_index_once() {
    // A distinguishing transform: after one application of Add(1) every
    // element was visited exactly once — none skipped, none twice.
    let query = descriptor(IntKind::U64, vec![Action::Add(Add::new(1u64))]);
    let func = query
        .instantiate_slice(InstantiateSliceOptions {
            log: false,
            count: None,
        })
        .unwrap();
    let mut data: Vec<u64> = vec![0; 10];
    func.call_mut(&mut data).unwrap();
    assert_eq!(data, vec![1u64; 10]);
}

#[test]
fn composition_order_u8_wraps() {
    // (Sub(2), Add(1)) over u8 computes (x - 2) + 1 elementwise in the
    // 8-bit modular arithmetic: 0 becomes 255, not 0 + 1 - 2 read some
    // other way.
    let query = descriptor(
        IntKind::U8,
        vec![Action::Sub(Sub::new(2u8)), Action::Add(Add::new(1u8))],
    );
    let func = query
        .instantiate_slice(InstantiateSliceOptions {
            log: false,
            count: None,
        })
        .unwrap();
    let mut data: Vec<u64> = vec![0, 1, 2, 200];
    func.call_mut(&mut data).unwrap();
    assert_eq!(data, vec![255, 0, 1, 199]);
}

#[test]
fn add_twice_is_not_idempotent() {
    // Two separate instantiations of Add(5), applied one after the other,
    // add 10 — the second application is not a cached no-op.
    let first = descriptor(IntKind::U64, vec![Action::Add(Add::new(5u64))])
        .instantiate_slice(InstantiateSliceOptions {
            log: false,
            count: None,
        })
        .unwrap();
    let second = descriptor(IntKind::U64, vec![Action::Add(Add::new(5u64))])
        .instantiate_slice(InstantiateSliceOptions {
            log: false,
            count: None,
        })
        .unwrap();
    let mut data: Vec<u64> = vec![7];
    first.call_mut(&mut data).unwrap();
    second.call_mut(&mut data).unwrap();
    assert_eq!(data, vec![17]);
    assert_ne!(data, vec![12]);
}

#[test]
fn unsupported_kind_fails_fast() {
    // 128-bit constants cannot be materialized: instantiation fails with
    // the typed error before any code is emitted.
    let query = descriptor(IntKind::U128, vec![Action::Add(Add::new(1u64))]);
    let outcome = query.instantiate_slice(InstantiateSliceOptions {
        log: false,
        count: None,
    });
    match outcome {
        Err(err) => assert!(matches!(err, InstantiateError::UnsupportedType)),
        Ok(_) => panic!("a 128-bit element kind must be rejected"),
    }

    let signed = descriptor(IntKind::I128, vec![Action::Sub(Sub::new(1u64))]);
    let outcome = signed.instantiate_slice(InstantiateSliceOptions {
        log: false,
        count: None,
    });
    match outcome {
        Err(err) => assert!(matches!(err, InstantiateError::UnsupportedType)),
        Ok(_) => panic!("a 128-bit element kind must be rejected"),
    }
}

#[test]
fn signed_constant_patterns() {
    // Add(-1) over i32: each cell holds the element's 32-bit pattern, so
    // 0 becomes the pattern of -1 and 5 becomes 4.
    let query = descriptor(IntKind::I32, vec![Action::Add(Add::new(-1i32))]);
    let func = query
        .instantiate_slice(InstantiateSliceOptions {
            log: false,
            count: None,
        })
        .unwrap();
    let mut data: Vec<u64> = vec![0, 5];
    func.call_mut(&mut data).unwrap();
    assert_eq!(data, vec![0xFFFF_FFFF, 4]);
}

#[test]
fn constant_truncates_to_element_width() {
    // A constant wider than the element is truncated to the element
    // width when it is materialized, as the backend does: 300 acts as 44
    // on 8-bit elements.
    let query = descriptor(IntKind::U8, vec![Action::Add(Add::new(300u16))]);
    let func = query
        .instantiate_slice(InstantiateSliceOptions {
            log: false,
            count: None,
        })
        .unwrap();
    let mut data: Vec<u64> = vec![10];
    func.call_mut(&mut data).unwrap();
    assert_eq!(data, vec![54]);
}

#[test]
fn options_are_kept_on_the_handle() {
    // The options fix the calling contract and ride along unchanged; the
    // log flag is observational and changes nothing about the transform.
    let query = descriptor(IntKind::U64, vec![Action::Add(Add::new(1u64))]);
    let with_log = query
        .instantiate_slice(InstantiateSliceOptions {
            log: true,
            count: Some(2),
        })
        .unwrap();
    assert!(with_log.options.log);
    assert_eq!(with_log.options.count, Some(2));

    let quiet = descriptor(IntKind::U64, vec![Action::Add(Add::new(1u64))])
        .instantiate_slice(InstantiateSliceOptions {
            log: false,
            count: None,
        })
        .unwrap();
    assert!(!quiet.options.log);
    let mut data: Vec<u64> = vec![1];
    quiet.call_mut(&mut data).unwrap();
    assert_eq!(data, vec![2]);
}

#[test]
fn fixed_count_zero_with_empty_slice() {
    let query = descriptor(IntKind::U64, vec![Action::Add(Add::new(1u64))]);
    let func = query
        .instantiate_slice(InstantiateSliceOptions {
            log: false,
            count: Some(0),
        })
        .unwrap();
    let mut data: Vec<u64> = vec![];
    func.call_mut(&mut data).unwrap();
    assert_eq!(data, Vec::<u64>::new());
}

#[test]
fn narrow_kinds_wrap_at_their_own_width() {
    // The same action sequence wraps at 8 bits for u8 elements and at 16
    // bits for u16 elements.
    let actions = vec![Action::Add(Add::new(1u64))];
    let narrow = descriptor(IntKind::U8, actions.clone())
        .instantiate_slice(InstantiateSliceOptions {
            log: false,
            count: None,
        })
        .unwrap();
    let mut cells: Vec<u64> = vec![255];
    narrow.call_mut(&mut cells).unwrap();
    assert_eq!(cells, vec![0]);

    let wider = descriptor(IntKind::U16, actions)
        .instantiate_slice(InstantiateSliceOptions {
            log: false,
            count: None,
        })
        .unwrap();
    let mut cells: Vec<u64> = vec![255, 0xFFFF];
    wider.call_mut(&mut cells).unwrap();
    assert_eq!(cells, vec![256, 0]);
}

#[test]
fn signed_underflow_wraps_to_pattern() {
    // Sub(1) over i64: a cell at zero wraps to the pattern of -1.
    let query = descriptor(IntKind::I64, vec![Action::Sub(Sub::new(1i64))]);
    let func = query
        .instantiate_slice(InstantiateSliceOptions {
            log: false,
            count: None,
        })
        .unwrap();
    let mut data: Vec<u64> = vec![0, 1];
    func.call_mut(&mut data).unwrap();
    assert_eq!(data, vec![u64::MAX, 0]);
}

#[test]
fn three_actions_compose_in_declared_order() {
    let query = descriptor(
        IntKind::U64,
        vec![
            Action::Add(Add::new(10u64)),
            Action::Sub(Sub::new(4u64)),
            Action::Add(Add::new(1u64)),
        ],
    );
    let func = query
        .instantiate_slice(InstantiateSliceOptions {
            log: false,
            count: None,
        })
        .unwrap();
    let mut data: Vec<u64> = vec![0, 100];
    func.call_mut(&mut data).unwrap();
    assert_eq!(data, vec![7, 107]);
}

#[test]
fn builders_keep_their_configuration() {
    let add = Add::new(9u64);
    assert_eq!(add.amount, 9);
    let sub = Sub::new(2u8);
    assert_eq!(sub.amount, 2);
    let negative = Add::new(-1i64);
    assert_eq!(negative.amount, u64::MAX);

    let query = descriptor(IntKind::U16, vec![Action::Add(add), Action::Sub(sub)]);
    assert_eq!(query.kind, IntKind::U16);
    assert_eq!(query.actions.len(), 2);
    assert!(matches!(query.actions[0], Action::Add(a) if a.amount == 9));
    assert!(matches!(query.actions[1], Action::Sub(s) if s.amount == 2));
}

#[test]
fn unchecked_call_without_fixed_count() {
    // With no fixed count the unchecked call is legal for any length.
    let query = descriptor(IntKind::U64, vec![Action::Sub(Sub::new(3u64))]);
    let func = query
        .instantiate_slice(InstantiateSliceOptions {
            log: false,
            count: None,
        })
        .unwrap();
    let mut data: Vec<u64> = vec![10, 3, 2];
    func.call_mut_unchecked(&mut data);
    assert_eq!(data, vec![7, 0, u64::MAX]);
}

#[test]
fn empty_action_sequence_is_identity() {
    let query = descriptor(IntKind::U64, vec![]);
    let func = query
        .instantiate_slice(InstantiateSliceOptions {
            log: false,
            count: None,
        })
        .unwrap();
    let mut data: Vec<u64> = vec![3, 1, 4];
    func.call_mut(&mut data).unwrap();
    assert_eq!(data, vec![3, 1, 4]);
}
