use powerfmt::Alignment;
use powerfmt::FormatterOptions;
use powerfmt::Sink;
use powerfmt::SmartDisplay;
use powerfmt::WriteFailed;
use powerfmt::write_padded;

fn rendered(sink: &Sink) -> String {
    sink.chars().iter().collect()
}

fn padded<T: SmartDisplay>(value: &T, options: FormatterOptions) -> String {
    let mut sink = Sink::new();
    write_padded(value, &mut sink, options).unwrap();
    rendered(&sink)
}

#[test]
fn center_split_puts_odd_extra_on_the_trailing_side() {
    let options = FormatterOptions::new()
        .with_width(Some(10))
        .with_fill('*')
        .with_align(Some(Alignment::Center));
    assert_eq!(padded(&"abcd", options), "***abcd***");
    let options = options.with_width(Some(9));
    assert_eq!(padded(&"abcd", options), "**abcd***");
}

#[test]
fn right_alignment_leads_with_fill() {
    let options = FormatterOptions::new()
        .with_width(Some(10))
        .with_fill('*')
        .with_align(Some(Alignment::Right));
    assert_eq!(padded(&"abcd", options), "******abcd");
}

#[test]
fn left_alignment_trails_with_fill() {
    let options = FormatterOptions::new()
        .with_width(Some(10))
        .with_fill('*')
        .with_align(Some(Alignment::Left));
    assert_eq!(padded(&"abcd", options), "abcd******");
}

#[test]
fn no_width_means_no_padding() {
    let options = FormatterOptions::new().with_fill('*');
    assert_eq!(padded(&"abcd", options), "abcd");
    assert_eq!(padded(&42u32, options), "42");
}

#[test]
fn width_not_exceeding_content_means_no_padding() {
    let options = FormatterOptions::new().with_width(Some(4)).with_fill('*');
    assert_eq!(padded(&"abcd", options), "abcd");
    let options = options.with_width(Some(3));
    assert_eq!(padded(&"abcd", options), "abcd");
}

#[test]
fn numeric_types_default_to_right_alignment() {
    let options = FormatterOptions::new().with_width(Some(6)).with_fill(' ');
    assert_eq!(padded(&42u32, options), "    42");
    assert_eq!(padded(&-7i32, options), "    -7");
}

#[test]
fn textual_types_default_to_left_alignment() {
    let options = FormatterOptions::new().with_width(Some(6)).with_fill(' ');
    assert_eq!(padded(&"ab", options), "ab    ");
    assert_eq!(padded(&true, options), "true  ");
}

#[test]
fn precision_applies_before_padding() {
    let options = FormatterOptions::new()
        .with_width(Some(6))
        .with_fill('.')
        .with_precision(Some(3));
    assert_eq!(padded(&"hello", options), "hel...");
}

#[test]
fn padded_write_fails_on_a_full_sink_with_prefix_kept() {
    let options = FormatterOptions::new()
        .with_width(Some(10))
        .with_fill('*')
        .with_align(Some(Alignment::Right));
    let mut sink = Sink::with_limit(8);
    let r = write_padded(&"abcd", &mut sink, options);
    assert_eq!(r, Err(WriteFailed));
    assert_eq!(rendered(&sink), "******ab");
}
