use stm32f4_drv::fib::{fire, FiberOutput, Waiter};

#[test]
fn fiber_output_completion() {
    let yielded: FiberOutput<u32> = FiberOutput::Yielded;
    assert!(!yielded.is_complete());
    let complete: FiberOutput<u32> = FiberOutput::Complete(7);
    assert!(complete.is_complete());
    assert!(matches!(complete, FiberOutput::Complete(7)));
}

#[test]
fn chain_polled_in_registration_order() {
    let chain = vec![
        Waiter { id: 10, flag: 0 },
        Waiter { id: 11, flag: 1 },
        Waiter { id: 12, flag: 2 },
    ];

    // The first firing observes the flags of the first and third
    // primitives: both complete, notified in registration order, and only
    // the second stays registered.
    let observed = vec![true, false, true];
    let (done, chain) = fire(chain, &observed);
    assert_eq!(done, vec![10, 12]);
    assert_eq!(chain.len(), 1);
    assert_eq!(chain[0].id, 11);

    // A firing that observes nothing completes nothing.
    let observed = vec![false, false, false];
    let (done, chain) = fire(chain, &observed);
    assert!(done.is_empty());
    assert_eq!(chain.len(), 1);

    // The second primitive's flag is finally observed.
    let observed = vec![false, true, false];
    let (done, chain) = fire(chain, &observed);
    assert_eq!(done, vec![11]);
    assert!(chain.is_empty());
}
