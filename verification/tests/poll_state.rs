use futures_concurrency::utils::poll_state::PollState;
use futures_concurrency::utils::poll_state::PollStates;
use futures_concurrency::utils::poll_state::MAX_INLINE_ENTRIES;

#[test]
fn type_size() {
    assert_eq!(
        std::mem::size_of::<PollStates>(),
        std::mem::size_of::<usize>() * 3
    );
}

#[test]
fn boxed_does_not_allocate_twice() {
    // A store that is too long for the inline form is made in one piece.
    let _ = PollStates::new(MAX_INLINE_ENTRIES + 10);
}

#[test]
fn threshold_decides_the_backing() {
    assert_eq!(MAX_INLINE_ENTRIES, std::mem::size_of::<usize>() * 3 - 2);
    assert!(PollStates::new(0).is_inline());
    assert!(PollStates::new(MAX_INLINE_ENTRIES).is_inline());
    assert!(!PollStates::new(MAX_INLINE_ENTRIES + 1).is_inline());
    assert_eq!(PollStates::new(MAX_INLINE_ENTRIES + 1).len(), MAX_INLINE_ENTRIES + 1);
    assert_eq!(PollStates::new(5).len(), 5);
    assert_eq!(PollStates::new(0).len(), 0);
    assert_eq!(PollStates::new(5).get(4), PollState::Pending);
}

#[test]
fn states_tell_themselves_apart() {
    assert!(PollState::Pending.is_pending());
    assert!(!PollState::Pending.is_done());
    assert!(!PollState::Pending.is_consumed());
    assert!(PollState::Done.is_done());
    assert!(!PollState::Done.is_pending());
    assert!(PollState::Consumed.is_consumed());
    assert!(!PollState::Consumed.is_done());
    assert_eq!(PollState::default(), PollState::Pending);
}

#[test]
fn a_read_gives_the_last_write() {
    for len in [1, 2, MAX_INLINE_ENTRIES, MAX_INLINE_ENTRIES + 1, 100] {
        let mut states = PollStates::new(len);
        let inline = states.is_inline();
        for i in 0..len {
            assert_eq!(states.get(i), PollState::Pending);
        }
        for i in 0..len {
            states.set(i, if i % 2 == 0 { PollState::Done } else { PollState::Consumed });
        }
        states.set(0, PollState::Consumed);
        states.set(len - 1, PollState::Done);
        for i in 0..len {
            let expected = if i == len - 1 {
                PollState::Done
            } else if i == 0 || i % 2 == 1 {
                PollState::Consumed
            } else {
                PollState::Done
            };
            assert_eq!(states.get(i), expected);
        }
        assert_eq!(states.len(), len);
        assert_eq!(states.is_inline(), inline);
    }
}

#[test]
fn the_slices_show_the_slots() {
    for len in [0, 3, MAX_INLINE_ENTRIES, MAX_INLINE_ENTRIES + 5] {
        let mut states = PollStates::new(len);
        assert_eq!(states.deref().len(), len);
        assert_eq!(states.deref_mut().len(), len);
        if len > 0 {
            states.deref_mut()[len - 1] = PollState::Done;
            assert_eq!(states.get(len - 1), PollState::Done);
            assert_eq!(states.deref()[len - 1], PollState::Done);
            states.set(0, PollState::Consumed);
            assert_eq!(states.deref()[0], PollState::Consumed);
        }
        assert!(states.deref().iter().skip(1).rev().skip(1).all(|s| s.is_pending()));
    }
}
