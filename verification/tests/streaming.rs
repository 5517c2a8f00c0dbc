use generic_std::plug::PlugLifetime;
use generic_std::reference::TypedH1Reference;
use generic_std::{Sequence, StreamingIterator};

/// In this free context the item form's projection normalizes, so a plain
/// slice reference can be handed back as the plugged item.
fn plug_slice<'a>(v: &'a [usize]) -> <TypedH1Reference<[usize]> as PlugLifetime<'a>>::T {
    v
}

#[test]
fn self_borrowing_iterator() {
    struct SelfBorrowingIterator {
        buf: [usize; 1],
    }

    impl StreamingIterator for SelfBorrowingIterator {
        type H1Item = TypedH1Reference<[usize]>;

        fn tracks_exhaustion(&self) -> bool {
            true
        }

        fn exhausted(&self) -> bool {
            self.buf[0] == 2
        }

        fn next<'a>(&'a mut self) -> Option<<Self::H1Item as PlugLifetime<'a>>::T>
        where
            Self::H1Item: PlugLifetime<'a>,
        {
            if self.buf[0] == 2 {
                None
            } else {
                self.buf[0] += 1;

                Some(plug_slice(&self.buf))
            }
        }
    }

    let mut iter = SelfBorrowingIterator { buf: [0] };

    assert_eq!(iter.next(), Some([1].as_ref()));
    assert_eq!(iter.next(), Some([2].as_ref()));
    assert_eq!(iter.next(), None);
}

#[test]
fn exhaustion_is_terminal() {
    let v: Vec<u64> = vec![5, 6, 7];
    let mut c = Sequence::iter(&v);
    assert_eq!(c.next(), Some(&5));
    assert_eq!(c.next(), Some(&6));
    assert_eq!(c.next(), Some(&7));
    assert_eq!(c.next(), None);
    assert_eq!(c.next(), None);
}

#[test]
fn empty_sequence_iterator_starts_exhausted() {
    let v: Vec<u64> = Vec::new();
    let mut c = Sequence::iter(&v);
    assert_eq!(c.next(), None);
    assert_eq!(c.next(), None);
}

#[test]
fn identity_form_iterator_matches_plain_iteration() {
    let data: Vec<i32> = vec![1, 2, 3];

    let mut wrapped = data.as_slice().iter();
    let mut plain = data.as_slice().iter();
    for _ in 0..4 {
        let a: Option<&i32> = StreamingIterator::next(&mut wrapped);
        let b: Option<&i32> = Iterator::next(&mut plain);
        assert_eq!(a, b);
    }

    let mut wrapped_range = 0u8..3u8;
    let mut plain_range = 0u8..3u8;
    for _ in 0..4 {
        let a: Option<u8> = StreamingIterator::next(&mut wrapped_range);
        let b: Option<u8> = Iterator::next(&mut plain_range);
        assert_eq!(a, b);
    }
}
