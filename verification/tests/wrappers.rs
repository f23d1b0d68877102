use std::borrow::Cow;
use std::num::Wrapping;
use std::rc::Rc;
use std::sync::Arc;

use powerfmt::Alignment;
use powerfmt::FormatterOptions;
use powerfmt::Sink;
use powerfmt::SmartDisplay;
use powerfmt::write_padded;

fn rendered(sink: &Sink) -> String {
    sink.chars().iter().collect()
}

fn outcome<T: SmartDisplay>(value: &T, options: FormatterOptions) -> (usize, String) {
    let width = value.metadata(options).unpadded_width();
    let mut sink = Sink::new();
    write_padded(value, &mut sink, options).unwrap();
    (width, rendered(&sink))
}

fn option_samples() -> Vec<FormatterOptions> {
    let mut all = Vec::new();
    for &width in &[None, Some(1usize), Some(9)] {
        for &align in &[None, Some(Alignment::Left), Some(Alignment::Center), Some(Alignment::Right)] {
            for &precision in &[None, Some(2usize)] {
                all.push(
                    FormatterOptions::new()
                        .with_fill('_')
                        .with_width(width)
                        .with_align(align)
                        .with_precision(precision),
                );
            }
        }
    }
    all
}

#[test]
fn boxed_value_is_transparent() {
    for options in option_samples() {
        assert_eq!(outcome(&Box::new(12345u64), options), outcome(&12345u64, options));
    }
}

#[test]
fn shared_ownership_is_transparent() {
    for options in option_samples() {
        assert_eq!(outcome(&Rc::new(-37i16), options), outcome(&-37i16, options));
        assert_eq!(outcome(&Arc::new(true), options), outcome(&true, options));
    }
}

#[test]
fn references_are_transparent() {
    for options in option_samples() {
        assert_eq!(outcome(&&908u32, options), outcome(&908u32, options));
        let mut v = 908u32;
        assert_eq!(outcome(&&mut v, options), outcome(&908u32, options));
    }
}

#[test]
fn wrapping_is_transparent() {
    for options in option_samples() {
        assert_eq!(outcome(&Wrapping(65535u16), options), outcome(&65535u16, options));
    }
}

#[test]
fn cow_variants_are_transparent() {
    for options in option_samples() {
        let borrowed: Cow<'_, str> = Cow::Borrowed("hello");
        let owned: Cow<'_, str> = Cow::Owned(String::from("hello"));
        assert_eq!(outcome(&borrowed, options), outcome(&"hello", options));
        assert_eq!(outcome(&owned, options), outcome(&"hello", options));
    }
}

#[test]
fn owned_text_matches_borrowed_text() {
    for options in option_samples() {
        assert_eq!(outcome(&String::from("hello"), options), outcome(&"hello", options));
    }
}

#[test]
fn nested_wrappers_stay_transparent() {
    let options = FormatterOptions::new().with_width(Some(8)).with_fill('0');
    assert_eq!(outcome(&Rc::new(Box::new(&42u8)), options), outcome(&42u8, options));
}
