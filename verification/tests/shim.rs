use unaligned::Unaligned;

fn align_of_u64() -> usize {
    core::mem::align_of::<u64>()
}

#[test]
fn round_trip_gives_the_value_back() {
    assert_eq!(Unaligned::new(42u64).into_inner(), 42);
    assert_eq!(Unaligned::new(-7i8).into_inner(), -7);
    assert_eq!(
        Unaligned::new(String::from("Hello world!")).into_inner(),
        "Hello world!"
    );
    assert_eq!(Unaligned::new(vec![1u8, 2, 3]).into_inner(), vec![1u8, 2, 3]);
    assert_eq!(Unaligned::new(()).into_inner(), ());
}

#[test]
fn set_overwrites_the_payload() {
    let mut shim = Unaligned::new(String::from("old"));
    shim.set(String::from("new"));
    assert_eq!(shim.into_inner(), "new");
}

#[test]
fn swap_exchanges_with_an_outside_value() {
    let mut shim = Unaligned::new(1u32);
    let mut outside = 2u32;
    shim.swap(&mut outside);
    assert_eq!(outside, 1);
    assert_eq!(shim.get(), 2);
}

#[test]
fn replace_returns_the_former_payload() {
    let mut shim = Unaligned::new(String::from("Hello"));
    let former = shim.replace(String::from("world"));
    assert_eq!(former, "Hello");
    assert_eq!(shim.into_inner(), "world");
}

#[test]
fn with_mut_hands_on_the_result() {
    let mut value = Unaligned::new(42);
    let sum = value.with_mut(|v| *v + 28);
    assert_eq!(70, sum);
    assert_eq!(42, value.get());
}

#[test]
fn with_mut_writes_the_changed_payload_back() {
    let mut shim = Unaligned::new(vec![1u8]);
    let len = shim.with_mut(|v| {
        v.push(2);
        v.push(3);
        v.len()
    });
    assert_eq!(len, 3);
    assert_eq!(shim.into_inner(), vec![1u8, 2, 3]);
}

#[test]
fn with_mut_identity_leaves_the_payload() {
    let mut shim = Unaligned::new(String::from("same"));
    shim.with_mut(|_v| ());
    assert_eq!(shim.into_inner(), "same");
}

#[test]
fn with_mut_commits_what_was_done_before_a_failure() {
    let mut shim = Unaligned::new(10u64);
    let outcome: Result<(), &str> = shim.with_mut(|v| {
        *v += 5;
        if *v > 12 {
            return Err("too large");
        }
        *v = 0;
        Ok(())
    });
    assert_eq!(outcome, Err("too large"));
    assert_eq!(shim.get(), 15);
}

#[test]
fn with_mut_twice_sees_the_first_change() {
    let mut shim = Unaligned::new(1u64);
    shim.with_mut(|v| *v = 2);
    let seen = shim.with_mut(|v| *v);
    assert_eq!(seen, 2);
}

#[test]
fn take_leaves_the_default() {
    let mut shim = Unaligned::new(String::from("taken"));
    assert_eq!(shim.take(), "taken");
    assert_eq!(shim.into_inner(), "");
    let mut number = Unaligned::new(9u16);
    assert_eq!(number.take(), 9);
    assert_eq!(number.get(), 0);
}

#[test]
fn get_copies_the_payload() {
    let shim = Unaligned::new(0x0102_0304u32);
    assert_eq!(shim.get(), 0x0102_0304);
    assert_eq!(shim.get(), 0x0102_0304);
}

#[test]
fn is_aligned_is_divisibility_by_the_alignment() {
    let align = align_of_u64();
    assert!(Unaligned::<u64>::is_aligned(0));
    assert!(Unaligned::<u64>::is_aligned(align));
    assert!(Unaligned::<u64>::is_aligned(align * 5));
    assert_eq!(Unaligned::<u64>::is_aligned(align + 1), align == 1);
    assert_eq!(Unaligned::<u64>::is_aligned(align * 3 - 1), align == 1);
    assert!(Unaligned::<u8>::is_aligned(1));
    assert!(Unaligned::<u8>::is_aligned(usize::MAX));
    assert!(Unaligned::<u16>::is_aligned(2));
    assert!(!Unaligned::<u16>::is_aligned(3));
    assert!(!Unaligned::<u16>::is_aligned(usize::MAX));
}

#[test]
fn get_aligned_is_there_at_an_aligned_address_only() {
    let shim = Unaligned::new(77u16);
    assert_eq!(shim.get_aligned(0x1000), Some(&77));
    assert_eq!(shim.get_aligned(0x1001), None);
    assert_eq!(shim.get_aligned(0x1002), Some(&77));
}

#[test]
fn get_aligned_answers_the_same_for_the_same_address() {
    let mut shim = Unaligned::new(1u16);
    let first = shim.get_aligned(0x2002).is_some();
    let odd_first = shim.get_aligned(0x2003).is_some();
    shim.set(2);
    assert_eq!(shim.get_aligned(0x2002).is_some(), first);
    assert_eq!(shim.get_aligned(0x2003).is_some(), odd_first);
    let other = Unaligned::new(900u16);
    assert_eq!(other.get_aligned(0x2002).is_some(), first);
    assert_eq!(other.get_aligned(0x2003).is_some(), odd_first);
    assert!(first);
    assert!(!odd_first);
}

#[test]
fn get_aligned_mut_changes_the_payload_in_place() {
    let mut shim = Unaligned::new(5u16);
    match shim.get_aligned_mut(0x10) {
        Some(place) => *place = 6,
        None => panic!("0x10 is aligned for u16"),
    }
    assert_eq!(shim.get(), 6);
    assert!(shim.get_aligned_mut(0x11).is_none());
    assert_eq!(shim.get(), 6);
}

#[test]
fn unchecked_access_reaches_the_payload() {
    let mut shim = Unaligned::new(String::from("a"));
    assert_eq!(shim.get_aligned_unchecked(0), "a");
    shim.get_aligned_unchecked_mut(0).push('b');
    assert_eq!(shim.into_inner(), "ab");
}

#[test]
fn array_of_shims_holds_the_same_values_in_order() {
    let whole = Unaligned::new([10u32, 20, 30, 40]);
    let parts = whole.into_array_of_unaligned();
    assert_eq!(parts.len(), 4);
    assert_eq!(parts[0].get(), 10);
    assert_eq!(parts[1].get(), 20);
    assert_eq!(parts[2].get(), 30);
    assert_eq!(parts[3].get(), 40);
}

#[test]
fn array_round_trip_gives_the_array_back() {
    let whole = [String::from("a"), String::from("b"), String::from("c")];
    let parts = Unaligned::new(whole.clone()).into_array_of_unaligned();
    let back = parts.map(Unaligned::into_inner);
    assert_eq!(back, whole);
    let empty: [Unaligned<u8>; 0] = Unaligned::new([0u8; 0]).into_array_of_unaligned();
    assert_eq!(empty.len(), 0);
    let one = Unaligned::new([7u64]).into_array_of_unaligned();
    assert_eq!(one.map(Unaligned::into_inner), [7u64]);
}

#[test]
fn from_wraps_the_value() {
    let shim: Unaligned<u8> = Unaligned::from(3);
    assert_eq!(shim.get(), 3);
    let other: Unaligned<String> = String::from("x").into();
    assert_eq!(other.into_inner(), "x");
}

#[test]
fn default_wraps_the_default() {
    let shim: Unaligned<u32> = Unaligned::default();
    assert_eq!(shim.get(), 0);
    let text: Unaligned<String> = Default::default();
    assert_eq!(text.into_inner(), "");
}

#[test]
fn a_copy_holds_the_same_payload() {
    let shim = Unaligned::new(12u8);
    let copy = shim;
    let clone = shim.clone();
    assert_eq!(shim.get(), 12);
    assert_eq!(copy.get(), 12);
    assert_eq!(clone.get(), 12);
}
