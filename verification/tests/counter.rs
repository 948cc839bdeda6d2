use divan::counter::{
    AnyCounter, BytesCount, BytesFormat, CharsCount, CounterCollection, ItemsCount,
    KnownCounterKind,
};
use divan::counter::IntoCounter;

#[test]
fn of_iter() {
    assert_eq!(BytesCount::of_iter::<i32>(&[1, 2, 3]), BytesCount::of_slice(&[1, 2, 3]));
}

#[test]
fn of_iter_is_size_times_len() {
    assert_eq!(BytesCount::of_iter::<i32>(&[1, 2, 3]), BytesCount::new(12u32));
    assert_eq!(BytesCount::of_iter::<u8>(&[]), BytesCount::new(0u8));
}

#[test]
fn widening_is_lossless() {
    assert_eq!(ItemsCount::new(255u8), ItemsCount::new(255u64));
    assert_eq!(ItemsCount::new(65535u16), ItemsCount::new(65535u64));
    assert_eq!(ItemsCount::new(4294967295u32), ItemsCount::new(4294967295u64));
    assert_eq!(ItemsCount::new(7usize), ItemsCount::new(7u64));
    assert_eq!(BytesCount::new(0u8), BytesCount::new(0u64));
    assert_eq!(CharsCount::new(12u16), CharsCount::new(12u64));
}

#[test]
fn of_slice_matches_of_val() {
    assert_eq!(BytesCount::of_slice(&[1u32, 2, 3]), BytesCount::of_val(&[1u32, 2, 3]));
    let v: Vec<u16> = vec![1, 2, 3, 4];
    assert_eq!(BytesCount::of_slice(&v), BytesCount::of_val(v.as_slice()));
    assert_eq!(BytesCount::of_slice(&v), BytesCount::new(8u32));
}

#[test]
fn of_static_size() {
    assert_eq!(BytesCount::of::<u64>(), BytesCount::new(8u32));
    assert_eq!(BytesCount::of::<[u32; 5]>(), BytesCount::new(20u32));
    assert_eq!(BytesCount::of_val(&0u16), BytesCount::new(2u32));
}

#[test]
fn of_str_counts_bytes() {
    assert_eq!(BytesCount::of_str("héllo"), BytesCount::new(6u32));
    assert_eq!(BytesCount::of_str(""), BytesCount::new(0u32));
    let owned = String::from("abc");
    assert_eq!(BytesCount::of_str(&owned), BytesCount::new(3u32));
}

#[test]
fn chars_count_code_points() {
    assert_eq!(CharsCount::of_str("héllo"), CharsCount::new(5u32));
    assert_ne!(CharsCount::of_str("héllo"), CharsCount::new(6u32));
    assert_eq!(CharsCount::of_str("hello"), CharsCount::new(5u32));
    assert_eq!(CharsCount::of_str(""), CharsCount::new(0u32));
}

#[test]
fn counter_ordering_is_numeric() {
    let a = BytesCount::new(1u32);
    let b = BytesCount::new(2u32);
    assert!(a < b);
    assert!(b > a);
    assert!(a <= a);
    assert_eq!(a, BytesCount::new(1u64));
    assert_ne!(a, b);

    let c = CharsCount::new(10u32);
    let d = CharsCount::new(10u64);
    assert!(c <= d);
    assert!(c >= d);
    assert_eq!(c, d);

    let e = ItemsCount::new(3u32);
    let f = ItemsCount::new(4u32);
    assert!(e < f);
    assert!(!(f < e));
}

#[test]
fn erased_counters_sort_by_kind_then_count() {
    let b9 = AnyCounter::new(BytesCount::new(9u32));
    let c1 = AnyCounter::new(CharsCount::new(1u32));
    let i5 = AnyCounter::new(ItemsCount::new(5u32));
    assert!(b9 < c1);
    assert!(c1 < i5);
    assert!(b9 < i5);
    assert!(AnyCounter::new(BytesCount::new(1u32)) < AnyCounter::new(BytesCount::new(2u32)));
    assert_eq!(b9, AnyCounter::new(BytesCount::new(9u32)));
}

#[test]
fn erasure_keeps_kind_and_count() {
    let a = AnyCounter::new(BytesCount::new(42u32));
    assert_eq!(a.kind(), KnownCounterKind::Bytes);
    assert_eq!(a.count(), 42u64);

    let b = AnyCounter::new(CharsCount::new(7u32));
    assert_eq!(b.kind(), KnownCounterKind::Chars);
    assert_eq!(b.count(), 7u64);

    let c = AnyCounter::new(ItemsCount::new(9u32));
    assert_eq!(c.kind(), KnownCounterKind::Items);
    assert_eq!(c.count(), 9u64);
}

#[test]
fn into_counter_default_mappings() {
    assert_eq!(5u32.into_counter(), ItemsCount::new(5u32));
    assert_eq!(5u8.into_counter(), ItemsCount::new(5u8));
    assert_eq!(5usize.into_counter(), ItemsCount::new(5usize));
    assert_eq!("abcd".into_counter(), BytesCount::new(4u32));
    let s: &[u16] = &[1, 2];
    assert_eq!(s.into_counter(), BytesCount::new(4u32));
    assert_eq!(BytesCount::new(3u32).into_counter(), BytesCount::new(3u32));
    assert_eq!(CharsCount::new(3u32).into_counter(), CharsCount::new(3u32));
    assert_eq!(ItemsCount::new(3u32).into_counter(), ItemsCount::new(3u32));
}

#[test]
fn replacement_keeps_latest_per_kind() {
    let mut c = CounterCollection::new();
    c.register(ItemsCount::new(1u32));
    c.register(BytesCount::new(100u32));
    c.register(ItemsCount::new(42u32));

    let kinds = c.counter_set().kinds();
    assert_eq!(kinds.len(), 2);
    assert_eq!(kinds, vec![KnownCounterKind::Bytes, KnownCounterKind::Items]);

    let items = c.get(KnownCounterKind::Items).unwrap();
    assert_eq!(items.count(), 42u64);
    let bytes = c.get(KnownCounterKind::Bytes).unwrap();
    assert_eq!(bytes.count(), 100u64);
    assert!(c.get(KnownCounterKind::Chars).is_none());
}

#[test]
fn report_order_ignores_registration_order() {
    let mut c = CounterCollection::new();
    c.register(ItemsCount::new(1u32));
    c.register(CharsCount::new(2u32));
    c.register(BytesCount::new(3u32));
    assert_eq!(
        c.counter_set().kinds(),
        vec![KnownCounterKind::Bytes, KnownCounterKind::Chars, KnownCounterKind::Items]
    );

    let mut d = CounterCollection::new();
    d.register(BytesCount::new(3u32));
    d.register(CharsCount::new(2u32));
    d.register(ItemsCount::new(1u32));
    assert_eq!(
        d.counter_set().kinds(),
        vec![KnownCounterKind::Bytes, KnownCounterKind::Chars, KnownCounterKind::Items]
    );
}

#[test]
fn empty_collection() {
    let c = CounterCollection::new();
    assert_eq!(c.counter_set().kinds().len(), 0);
    assert!(c.get(KnownCounterKind::Bytes).is_none());
    assert!(!c.counter_set().contains(KnownCounterKind::Items));
}

#[test]
fn register_from_erases() {
    let mut c = CounterCollection::new();
    c.register_from(10u32);
    c.register_from("hé");
    let items = c.get(KnownCounterKind::Items).unwrap();
    assert_eq!(items.count(), 10u64);
    let bytes = c.get(KnownCounterKind::Bytes).unwrap();
    assert_eq!(bytes.count(), 3u64);
}

#[test]
fn kind_order_canonical() {
    assert_eq!(
        KnownCounterKind::all(),
        vec![KnownCounterKind::Bytes, KnownCounterKind::Chars, KnownCounterKind::Items]
    );
    assert_eq!(KnownCounterKind::Bytes.index(), 0);
    assert_eq!(KnownCounterKind::Chars.index(), 1);
    assert_eq!(KnownCounterKind::Items.index(), 2);
}

#[test]
fn bytes_format_default_is_decimal() {
    assert_eq!(BytesFormat::default(), BytesFormat::Decimal);
    assert_eq!(BytesFormat::Decimal.name(), "decimal");
    assert_eq!(BytesFormat::Binary.name(), "binary");
    assert_eq!(BytesFormat::all(), vec![BytesFormat::Decimal, BytesFormat::Binary]);
}

#[test]
fn render_decimal() {
    let f = BytesFormat::Decimal;
    assert_eq!(f.render(1_000_000), "1 MB");
    assert_eq!(f.render(0), "0 B");
    assert_eq!(f.render(999), "999 B");
    assert_eq!(f.render(1_000), "1 KB");
    assert_eq!(f.render(1_500), "1.50 KB");
    assert_eq!(f.render(1_010_000), "1.01 MB");
    assert_eq!(f.render(1_000_001), "1.00 MB");
    assert_eq!(f.render(123_456), "123.45 KB");
    assert_eq!(f.render(1_000_000_000), "1 GB");
    assert_eq!(f.render(1_000_000_000_000), "1 TB");
    assert_eq!(f.render(1_000_000_000_000_000), "1 PB");
    assert_eq!(f.render(1_000_000_000_000_000_000), "1 EB");
    assert_eq!(f.render(u64::MAX), "18.44 EB");
}

#[test]
fn render_binary() {
    let f = BytesFormat::Binary;
    assert_eq!(f.render(1_048_576), "1 MiB");
    assert_eq!(f.render(0), "0 B");
    assert_eq!(f.render(1023), "1023 B");
    assert_eq!(f.render(1024), "1 KiB");
    assert_eq!(f.render(1536), "1.50 KiB");
    assert_eq!(f.render(1_073_741_824), "1 GiB");
    assert_eq!(f.render(u64::MAX), "15.99 EiB");
}
