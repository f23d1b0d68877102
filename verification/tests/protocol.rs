use powerfmt::FormatterOptions;
use powerfmt::Metadata;
use powerfmt::Sink;
use powerfmt::SmartDisplay;
use powerfmt::WriteFailed;

fn rendered(sink: &Sink) -> String {
    sink.chars().iter().collect()
}

fn natural<T: SmartDisplay>(value: &T, options: FormatterOptions) -> (usize, String) {
    let width = value.metadata(options).unpadded_width();
    let mut sink = Sink::new();
    value.fmt(&mut sink, options).unwrap();
    (width, rendered(&sink))
}

#[test]
fn render_length_matches_metadata_for_primitives() {
    let options = FormatterOptions::new();
    let (w, s) = natural(&true, options);
    assert_eq!(w, s.chars().count());
    let (w, s) = natural(&false, options);
    assert_eq!(w, s.chars().count());
    let (w, s) = natural(&"some text", options);
    assert_eq!(w, s.chars().count());
    let (w, s) = natural(&String::from("owned text"), options);
    assert_eq!(w, s.chars().count());
    let (w, s) = natural(&0u8, options);
    assert_eq!(w, s.chars().count());
    let (w, s) = natural(&98765u32, options);
    assert_eq!(w, s.chars().count());
    let (w, s) = natural(&-12345i64, options);
    assert_eq!(w, s.chars().count());
    let (w, s) = natural(&u128::MAX, options);
    assert_eq!(w, s.chars().count());
    let (w, s) = natural(&i128::MIN, options);
    assert_eq!(w, s.chars().count());
}

#[test]
fn unsigned_widths() {
    let options = FormatterOptions::new();
    assert_eq!(0u32.metadata(options).unpadded_width(), 1);
    assert_eq!(7u32.metadata(options).unpadded_width(), 1);
    assert_eq!(42u32.metadata(options).unpadded_width(), 2);
    assert_eq!(100u32.metadata(options).unpadded_width(), 3);
    assert_eq!(65535u32.metadata(options).unpadded_width(), 5);
    assert_eq!(65535u16.metadata(options).unpadded_width(), 5);
    assert_eq!(255u8.metadata(options).unpadded_width(), 3);
    assert_eq!(65535usize.metadata(options).unpadded_width(), 5);
}

#[test]
fn signed_widths() {
    let options = FormatterOptions::new();
    assert_eq!(0i32.metadata(options).unpadded_width(), 1);
    assert_eq!((-5i32).metadata(options).unpadded_width(), 2);
    assert_eq!(127i32.metadata(options).unpadded_width(), 3);
    assert_eq!((-127i32).metadata(options).unpadded_width(), 4);
    assert_eq!(127i8.metadata(options).unpadded_width(), 3);
    assert_eq!((-127i8).metadata(options).unpadded_width(), 4);
    assert_eq!(i8::MIN.metadata(options).unpadded_width(), 4);
    assert_eq!(i128::MIN.metadata(options).unpadded_width(), 40);
}

#[test]
fn signed_rendering() {
    let options = FormatterOptions::new();
    let (_, s) = natural(&-5i32, options);
    assert_eq!(s, "-5");
    let (_, s) = natural(&i8::MIN, options);
    assert_eq!(s, "-128");
    let (_, s) = natural(&0i64, options);
    assert_eq!(s, "0");
}

#[test]
fn unsigned_rendering() {
    let options = FormatterOptions::new();
    let (_, s) = natural(&0u64, options);
    assert_eq!(s, "0");
    let (_, s) = natural(&65535u32, options);
    assert_eq!(s, "65535");
    let (_, s) = natural(&u128::MAX, options);
    assert_eq!(s, "340282366920938463463374607431768211455");
}

#[test]
fn boolean_width_and_text() {
    let options = FormatterOptions::new();
    let (w, s) = natural(&true, options);
    assert_eq!(w, 4);
    assert_eq!(s, "true");
    let (w, s) = natural(&false, options);
    assert_eq!(w, 5);
    assert_eq!(s, "false");
}

#[test]
fn text_precision() {
    let options = FormatterOptions::new().with_precision(Some(3));
    let (w, s) = natural(&"hello", options);
    assert_eq!(w, 3);
    assert_eq!(s, "hel");

    let options = FormatterOptions::new().with_precision(Some(10));
    let (w, s) = natural(&"hello", options);
    assert_eq!(w, 5);
    assert_eq!(s, "hello");
}

#[test]
fn metadata_is_idempotent() {
    let options = FormatterOptions::new().with_precision(Some(3));
    let a = "hello".metadata(options).unpadded_width();
    let b = "hello".metadata(options).unpadded_width();
    assert_eq!(a, b);
}

#[test]
fn metadata_container_round_trip() {
    let m = Metadata::new(7usize, 'x');
    assert_eq!(m.unpadded_width(), 7);
    assert_eq!(*m.extra(), 'x');
    assert_eq!(m.into_extra(), 'x');
}

#[test]
fn options_getters_reflect_builders() {
    let options = FormatterOptions::new()
        .with_fill('*')
        .with_width(Some(10))
        .with_precision(Some(2))
        .with_sign_plus(true)
        .with_alternate(true);
    assert_eq!(options.fill(), '*');
    assert_eq!(options.width(), Some(10));
    assert_eq!(options.precision(), Some(2));
    assert!(options.sign_plus());
    assert!(options.alternate());
    assert!(options.align().is_none());
}

#[test]
fn bounded_sink_fails_and_keeps_prefix() {
    let options = FormatterOptions::new();
    let mut sink = Sink::with_limit(3);
    let r = "hello".fmt(&mut sink, options);
    assert_eq!(r, Err(WriteFailed));
    assert_eq!(rendered(&sink), "hel");
}

#[test]
fn bounded_sink_accepts_exact_fit() {
    let options = FormatterOptions::new();
    let mut sink = Sink::with_limit(5);
    let r = "hello".fmt(&mut sink, options);
    assert_eq!(r, Ok(()));
    assert_eq!(rendered(&sink), "hello");
}
