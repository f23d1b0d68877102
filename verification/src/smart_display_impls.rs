//! Conformances of the standard types to the two-phase display protocol.
//!
//! Text renders as itself, clipped to the requested precision; booleans as
//! the literal words; integers in decimal with a leading minus sign for
//! negative values. The ownership and indirection wrappers are pure
//! forwarders: wrapping never changes the reported width or the rendered
//! characters.

use vstd::prelude::*;

use std::borrow::Cow;
use std::rc::Rc;
use std::sync::Arc;

use crate::decimal::decimal_chars;
use crate::decimal::decimal_width;
use crate::decimal::lemma_itext_len;
use crate::decimal::lemma_udigits_len;
use crate::decimal::spec_itext;
use crate::decimal::spec_iwidth;
use crate::decimal::spec_mag;
use crate::decimal::spec_signed_text;
use crate::decimal::spec_udigits;
use crate::decimal::spec_uwidth;
use crate::metadata::Metadata;
use crate::options::Alignment;
use crate::options::FormatterOptions;
use crate::sink::Sink;
use crate::sink::WriteFailed;
use crate::sink::cap;
use crate::sink::fits;
use crate::sink::lemma_written_append;
use crate::sink::written;
use crate::smart_display::SmartDisplay;

verus! {

/// The rendered width of a character sequence under the requested
/// precision: the full length, or the precision where that is smaller.
pub open spec fn spec_str_width(s: Seq<char>, options: FormatterOptions) -> nat {
    match options.spec_precision() {
        Some(p) => if s.len() < p {
            s.len()
        } else {
            p as nat
        },
        None => s.len(),
    }
}

/// The rendering of a character sequence: its leading characters, as many
/// as the precision admits.
pub open spec fn spec_str_text(s: Seq<char>, options: FormatterOptions) -> Seq<char> {
    s.take(spec_str_width(s, options) as int)
}

/// Write a sign-magnitude pair in decimal: an optional minus sign, then
/// the digits of the magnitude.
pub fn write_decimal(sink: &mut Sink, neg: bool, mag: u128) -> (r: Result<(), WriteFailed>)
    requires
        old(sink).wf(),
    ensures
        final(sink).wf(),
        final(sink).spec_limit() == old(sink).spec_limit(),
        r is Ok <==> fits(old(sink)@, old(sink).spec_limit(), spec_signed_text(neg, mag as nat).len()),
        final(sink)@ == written(old(sink)@, old(sink).spec_limit(), spec_signed_text(neg, mag as nat)),
{
    let ghost o = old(sink)@;
    let ghost lim = old(sink).spec_limit();
    let ghost t = spec_signed_text(neg, mag as nat);
    if neg {
        let ghost d = spec_udigits(mag as nat);
        let r1 = sink.write_char('-');
        proof {
            lemma_written_append(o, lim, seq!['-'], d);
        }
        if r1.is_err() {
            proof {
                let c1 = written(o, lim, seq!['-']);
                assert(c1.len() == cap(lim));
                assert(written(c1, lim, d) =~= c1);
            }
            return Err(WriteFailed);
        }
        let digits = decimal_chars(mag);
        let r2 = sink.write_chars(&digits);
        if r2.is_err() {
            return Err(WriteFailed);
        }
        Ok(())
    } else {
        let digits = decimal_chars(mag);
        sink.write_chars(&digits)
    }
}

impl SmartDisplay for bool {
    type Metadata = ();

    open spec fn spec_default_align() -> Alignment {
        Alignment::Left
    }

    open spec fn spec_width(&self, options: FormatterOptions) -> nat {
        if *self {
            4
        } else {
            5
        }
    }

    open spec fn spec_text(&self, options: FormatterOptions) -> Seq<char> {
        if *self {
            "true"@
        } else {
            "false"@
        }
    }

    open spec fn spec_extra(&self, options: FormatterOptions) -> () {
        ()
    }

    proof fn lemma_width_agrees(&self, options: FormatterOptions) {
        reveal_strlit("true");
        reveal_strlit("false");
    }

    fn default_align() -> (r: Alignment) {
        Alignment::Left
    }

    fn metadata(&self, options: FormatterOptions) -> (m: Metadata<()>) {
        proof {
            reveal_strlit("true");
            reveal_strlit("false");
        }
        Metadata::new(if *self { 4 } else { 5 }, ())
    }

    fn fmt(&self, sink: &mut Sink, options: FormatterOptions) -> (r: Result<(), WriteFailed>) {
        if *self {
            sink.write_str("true")
        } else {
            sink.write_str("false")
        }
    }
}

impl SmartDisplay for str {
    type Metadata = ();

    open spec fn spec_default_align() -> Alignment {
        Alignment::Left
    }

    open spec fn spec_width(&self, options: FormatterOptions) -> nat {
        spec_str_width(self@, options)
    }

    open spec fn spec_text(&self, options: FormatterOptions) -> Seq<char> {
        spec_str_text(self@, options)
    }

    open spec fn spec_extra(&self, options: FormatterOptions) -> () {
        ()
    }

    proof fn lemma_width_agrees(&self, options: FormatterOptions) {
    }

    fn default_align() -> (r: Alignment) {
        Alignment::Left
    }

    fn metadata(&self, options: FormatterOptions) -> (m: Metadata<()>) {
        let n: usize = self.unicode_len();
        let w: usize = match options.precision() {
            Some(p) => if n < p {
                n
            } else {
                p
            },
            None => n,
        };
        Metadata::new(w, ())
    }

    fn fmt(&self, sink: &mut Sink, options: FormatterOptions) -> (r: Result<(), WriteFailed>) {
        let n: usize = self.unicode_len();
        let k: usize = match options.precision() {
            Some(p) => if n < p {
                n
            } else {
                p
            },
            None => n,
        };
        let prefix = self.substring_char(0, k);
        proof {
            assert(prefix@ =~= spec_str_text(self@, options));
        }
        sink.write_str(prefix)
    }
}

impl SmartDisplay for String {
    type Metadata = ();

    open spec fn spec_default_align() -> Alignment {
        Alignment::Left
    }

    open spec fn spec_width(&self, options: FormatterOptions) -> nat {
        spec_str_width(self@, options)
    }

    open spec fn spec_text(&self, options: FormatterOptions) -> Seq<char> {
        spec_str_text(self@, options)
    }

    open spec fn spec_extra(&self, options: FormatterOptions) -> () {
        ()
    }

    proof fn lemma_width_agrees(&self, options: FormatterOptions) {
    }

    fn default_align() -> (r: Alignment) {
        Alignment::Left
    }

    fn metadata(&self, options: FormatterOptions) -> (m: Metadata<()>) {
        self.as_str().metadata(options)
    }

    fn fmt(&self, sink: &mut Sink, options: FormatterOptions) -> (r: Result<(), WriteFailed>) {
        self.as_str().fmt(sink, options)
    }
}

impl<'a> SmartDisplay for Cow<'a, str> {
    type Metadata = ();

    open spec fn spec_default_align() -> Alignment {
        Alignment::Left
    }

    open spec fn spec_width(&self, options: FormatterOptions) -> nat {
        spec_str_width(self@, options)
    }

    open spec fn spec_text(&self, options: FormatterOptions) -> Seq<char> {
        spec_str_text(self@, options)
    }

    open spec fn spec_extra(&self, options: FormatterOptions) -> () {
        ()
    }

    proof fn lemma_width_agrees(&self, options: FormatterOptions) {
    }

    fn default_align() -> (r: Alignment) {
        Alignment::Left
    }

    fn metadata(&self, options: FormatterOptions) -> (m: Metadata<()>) {
        match self {
            Cow::Borrowed(b) => (*b).metadata(options),
            Cow::Owned(s) => s.metadata(options),
        }
    }

    fn fmt(&self, sink: &mut Sink, options: FormatterOptions) -> (r: Result<(), WriteFailed>) {
        match self {
            Cow::Borrowed(b) => (*b).fmt(sink, options),
            Cow::Owned(s) => s.fmt(sink, options),
        }
    }
}

impl<T: SmartDisplay + ?Sized> SmartDisplay for &T {
    type Metadata = T::Metadata;

    open spec fn spec_default_align() -> Alignment {
        T::spec_default_align()
    }

    open spec fn spec_width(&self, options: FormatterOptions) -> nat {
        (**self).spec_width(options)
    }

    open spec fn spec_text(&self, options: FormatterOptions) -> Seq<char> {
        (**self).spec_text(options)
    }

    open spec fn spec_extra(&self, options: FormatterOptions) -> T::Metadata {
        (**self).spec_extra(options)
    }

    proof fn lemma_width_agrees(&self, options: FormatterOptions) {
        (**self).lemma_width_agrees(options);
    }

    fn default_align() -> (r: Alignment) {
        T::default_align()
    }

    fn metadata(&self, options: FormatterOptions) -> (m: Metadata<T::Metadata>) {
        (**self).metadata(options)
    }

    fn fmt(&self, sink: &mut Sink, options: FormatterOptions) -> (r: Result<(), WriteFailed>) {
        (**self).fmt(sink, options)
    }
}

impl<T: SmartDisplay + ?Sized> SmartDisplay for Box<T> {
    type Metadata = T::Metadata;

    open spec fn spec_default_align() -> Alignment {
        T::spec_default_align()
    }

    open spec fn spec_width(&self, options: FormatterOptions) -> nat {
        (**self).spec_width(options)
    }

    open spec fn spec_text(&self, options: FormatterOptions) -> Seq<char> {
        (**self).spec_text(options)
    }

    open spec fn spec_extra(&self, options: FormatterOptions) -> T::Metadata {
        (**self).spec_extra(options)
    }

    proof fn lemma_width_agrees(&self, options: FormatterOptions) {
        (**self).lemma_width_agrees(options);
    }

    fn default_align() -> (r: Alignment) {
        T::default_align()
    }

    fn metadata(&self, options: FormatterOptions) -> (m: Metadata<T::Metadata>) {
        (**self).metadata(options)
    }

    fn fmt(&self, sink: &mut Sink, options: FormatterOptions) -> (r: Result<(), WriteFailed>) {
        (**self).fmt(sink, options)
    }
}

impl<T: SmartDisplay + ?Sized> SmartDisplay for Rc<T> {
    type Metadata = T::Metadata;

    open spec fn spec_default_align() -> Alignment {
        T::spec_default_align()
    }

    open spec fn spec_width(&self, options: FormatterOptions) -> nat {
        (**self).spec_width(options)
    }

    open spec fn spec_text(&self, options: FormatterOptions) -> Seq<char> {
        (**self).spec_text(options)
    }

    open spec fn spec_extra(&self, options: FormatterOptions) -> T::Metadata {
        (**self).spec_extra(options)
    }

    proof fn lemma_width_agrees(&self, options: FormatterOptions) {
        (**self).lemma_width_agrees(options);
    }

    fn default_align() -> (r: Alignment) {
        T::default_align()
    }

    fn metadata(&self, options: FormatterOptions) -> (m: Metadata<T::Metadata>) {
        (**self).metadata(options)
    }

    fn fmt(&self, sink: &mut Sink, options: FormatterOptions) -> (r: Result<(), WriteFailed>) {
        (**self).fmt(sink, options)
    }
}

impl<T: SmartDisplay + ?Sized> SmartDisplay for Arc<T> {
    type Metadata = T::Metadata;

    open spec fn spec_default_align() -> Alignment {
        T::spec_default_align()
    }

    open spec fn spec_width(&self, options: FormatterOptions) -> nat {
        (**self).spec_width(options)
    }

    open spec fn spec_text(&self, options: FormatterOptions) -> Seq<char> {
        (**self).spec_text(options)
    }

    open spec fn spec_extra(&self, options: FormatterOptions) -> T::Metadata {
        (**self).spec_extra(options)
    }

    proof fn lemma_width_agrees(&self, options: FormatterOptions) {
        (**self).lemma_width_agrees(options);
    }

    fn default_align() -> (r: Alignment) {
        T::default_align()
    }

    fn metadata(&self, options: FormatterOptions) -> (m: Metadata<T::Metadata>) {
        (**self).metadata(options)
    }

    fn fmt(&self, sink: &mut Sink, options: FormatterOptions) -> (r: Result<(), WriteFailed>) {
        (**self).fmt(sink, options)
    }
}

impl SmartDisplay for u8 {
    type Metadata = ();

    open spec fn spec_default_align() -> Alignment {
        Alignment::Right
    }

    open spec fn spec_width(&self, options: FormatterOptions) -> nat {
        spec_uwidth(*self as nat)
    }

    open spec fn spec_text(&self, options: FormatterOptions) -> Seq<char> {
        spec_udigits(*self as nat)
    }

    open spec fn spec_extra(&self, options: FormatterOptions) -> () {
        ()
    }

    proof fn lemma_width_agrees(&self, options: FormatterOptions) {
        lemma_udigits_len(*self as nat);
    }

    fn default_align() -> (r: Alignment) {
        Alignment::Right
    }

    fn metadata(&self, options: FormatterOptions) -> (m: Metadata<()>) {
        Metadata::new(decimal_width(*self as u128), ())
    }

    fn fmt(&self, sink: &mut Sink, options: FormatterOptions) -> (r: Result<(), WriteFailed>) {
        write_decimal(sink, false, *self as u128)
    }
}

impl SmartDisplay for u16 {
    type Metadata = ();

    open spec fn spec_default_align() -> Alignment {
        Alignment::Right
    }

    open spec fn spec_width(&self, options: FormatterOptions) -> nat {
        spec_uwidth(*self as nat)
    }

    open spec fn spec_text(&self, options: FormatterOptions) -> Seq<char> {
        spec_udigits(*self as nat)
    }

    open spec fn spec_extra(&self, options: FormatterOptions) -> () {
        ()
    }

    proof fn lemma_width_agrees(&self, options: FormatterOptions) {
        lemma_udigits_len(*self as nat);
    }

    fn default_align() -> (r: Alignment) {
        Alignment::Right
    }

    fn metadata(&self, options: FormatterOptions) -> (m: Metadata<()>) {
        Metadata::new(decimal_width(*self as u128), ())
    }

    fn fmt(&self, sink: &mut Sink, options: FormatterOptions) -> (r: Result<(), WriteFailed>) {
        write_decimal(sink, false, *self as u128)
    }
}

impl SmartDisplay for u32 {
    type Metadata = ();

    open spec fn spec_default_align() -> Alignment {
        Alignment::Right
    }

    open spec fn spec_width(&self, options: FormatterOptions) -> nat {
        spec_uwidth(*self as nat)
    }

    open spec fn spec_text(&self, options: FormatterOptions) -> Seq<char> {
        spec_udigits(*self as nat)
    }

    open spec fn spec_extra(&self, options: FormatterOptions) -> () {
        ()
    }

    proof fn lemma_width_agrees(&self, options: FormatterOptions) {
        lemma_udigits_len(*self as nat);
    }

    fn default_align() -> (r: Alignment) {
        Alignment::Right
    }

    fn metadata(&self, options: FormatterOptions) -> (m: Metadata<()>) {
        Metadata::new(decimal_width(*self as u128), ())
    }

    fn fmt(&self, sink: &mut Sink, options: FormatterOptions) -> (r: Result<(), WriteFailed>) {
        write_decimal(sink, false, *self as u128)
    }
}

impl SmartDisplay for u64 {
    type Metadata = ();

    open spec fn spec_default_align() -> Alignment {
        Alignment::Right
    }

    open spec fn spec_width(&self, options: FormatterOptions) -> nat {
        spec_uwidth(*self as nat)
    }

    open spec fn spec_text(&self, options: FormatterOptions) -> Seq<char> {
        spec_udigits(*self as nat)
    }

    open spec fn spec_extra(&self, options: FormatterOptions) -> () {
        ()
    }

    proof fn lemma_width_agrees(&self, options: FormatterOptions) {
        lemma_udigits_len(*self as nat);
    }

    fn default_align() -> (r: Alignment) {
        Alignment::Right
    }

    fn metadata(&self, options: FormatterOptions) -> (m: Metadata<()>) {
        Metadata::new(decimal_width(*self as u128), ())
    }

    fn fmt(&self, sink: &mut Sink, options: FormatterOptions) -> (r: Result<(), WriteFailed>) {
        write_decimal(sink, false, *self as u128)
    }
}

impl SmartDisplay for u128 {
    type Metadata = ();

    open spec fn spec_default_align() -> Alignment {
        Alignment::Right
    }

    open spec fn spec_width(&self, options: FormatterOptions) -> nat {
        spec_uwidth(*self as nat)
    }

    open spec fn spec_text(&self, options: FormatterOptions) -> Seq<char> {
        spec_udigits(*self as nat)
    }

    open spec fn spec_extra(&self, options: FormatterOptions) -> () {
        ()
    }

    proof fn lemma_width_agrees(&self, options: FormatterOptions) {
        lemma_udigits_len(*self as nat);
    }

    fn default_align() -> (r: Alignment) {
        Alignment::Right
    }

    fn metadata(&self, options: FormatterOptions) -> (m: Metadata<()>) {
        Metadata::new(decimal_width(*self as u128), ())
    }

    fn fmt(&self, sink: &mut Sink, options: FormatterOptions) -> (r: Result<(), WriteFailed>) {
        write_decimal(sink, false, *self as u128)
    }
}

impl SmartDisplay for usize {
    type Metadata = ();

    open spec fn spec_default_align() -> Alignment {
        Alignment::Right
    }

    open spec fn spec_width(&self, options: FormatterOptions) -> nat {
        spec_uwidth(*self as nat)
    }

    open spec fn spec_text(&self, options: FormatterOptions) -> Seq<char> {
        spec_udigits(*self as nat)
    }

    open spec fn spec_extra(&self, options: FormatterOptions) -> () {
        ()
    }

    proof fn lemma_width_agrees(&self, options: FormatterOptions) {
        lemma_udigits_len(*self as nat);
    }

    fn default_align() -> (r: Alignment) {
        Alignment::Right
    }

    fn metadata(&self, options: FormatterOptions) -> (m: Metadata<()>) {
        Metadata::new(decimal_width(*self as u128), ())
    }

    fn fmt(&self, sink: &mut Sink, options: FormatterOptions) -> (r: Result<(), WriteFailed>) {
        write_decimal(sink, false, *self as u128)
    }
}

impl SmartDisplay for i8 {
    type Metadata = ();

    open spec fn spec_default_align() -> Alignment {
        Alignment::Right
    }

    open spec fn spec_width(&self, options: FormatterOptions) -> nat {
        spec_iwidth(*self as int)
    }

    open spec fn spec_text(&self, options: FormatterOptions) -> Seq<char> {
        spec_itext(*self as int)
    }

    open spec fn spec_extra(&self, options: FormatterOptions) -> () {
        ()
    }

    proof fn lemma_width_agrees(&self, options: FormatterOptions) {
        lemma_itext_len(*self as int);
    }

    fn default_align() -> (r: Alignment) {
        Alignment::Right
    }

    fn metadata(&self, options: FormatterOptions) -> (m: Metadata<()>) {
        let neg: bool = *self < 0;
        let mag: u128 = if *self < 0 {
            (-(*self as i128)) as u128
        } else {
            *self as u128
        };
        proof {
            assert(mag as nat == spec_mag(*self as int));
        }
        let dw: usize = decimal_width(mag);
        Metadata::new(if neg { 1 + dw } else { dw }, ())
    }

    fn fmt(&self, sink: &mut Sink, options: FormatterOptions) -> (r: Result<(), WriteFailed>) {
        let neg: bool = *self < 0;
        let mag: u128 = if *self < 0 {
            (-(*self as i128)) as u128
        } else {
            *self as u128
        };
        proof {
            assert(mag as nat == spec_mag(*self as int));
        }
        write_decimal(sink, neg, mag)
    }
}

impl SmartDisplay for i16 {
    type Metadata = ();

    open spec fn spec_default_align() -> Alignment {
        Alignment::Right
    }

    open spec fn spec_width(&self, options: FormatterOptions) -> nat {
        spec_iwidth(*self as int)
    }

    open spec fn spec_text(&self, options: FormatterOptions) -> Seq<char> {
        spec_itext(*self as int)
    }

    open spec fn spec_extra(&self, options: FormatterOptions) -> () {
        ()
    }

    proof fn lemma_width_agrees(&self, options: FormatterOptions) {
        lemma_itext_len(*self as int);
    }

    fn default_align() -> (r: Alignment) {
        Alignment::Right
    }

    fn metadata(&self, options: FormatterOptions) -> (m: Metadata<()>) {
        let neg: bool = *self < 0;
        let mag: u128 = if *self < 0 {
            (-(*self as i128)) as u128
        } else {
            *self as u128
        };
        proof {
            assert(mag as nat == spec_mag(*self as int));
        }
        let dw: usize = decimal_width(mag);
        Metadata::new(if neg { 1 + dw } else { dw }, ())
    }

    fn fmt(&self, sink: &mut Sink, options: FormatterOptions) -> (r: Result<(), WriteFailed>) {
        let neg: bool = *self < 0;
        let mag: u128 = if *self < 0 {
            (-(*self as i128)) as u128
        } else {
            *self as u128
        };
        proof {
            assert(mag as nat == spec_mag(*self as int));
        }
        write_decimal(sink, neg, mag)
    }
}

impl SmartDisplay for i32 {
    type Metadata = ();

    open spec fn spec_default_align() -> Alignment {
        Alignment::Right
    }

    open spec fn spec_width(&self, options: FormatterOptions) -> nat {
        spec_iwidth(*self as int)
    }

    open spec fn spec_text(&self, options: FormatterOptions) -> Seq<char> {
        spec_itext(*self as int)
    }

    open spec fn spec_extra(&self, options: FormatterOptions) -> () {
        ()
    }

    proof fn lemma_width_agrees(&self, options: FormatterOptions) {
        lemma_itext_len(*self as int);
    }

    fn default_align() -> (r: Alignment) {
        Alignment::Right
    }

    fn metadata(&self, options: FormatterOptions) -> (m: Metadata<()>) {
        let neg: bool = *self < 0;
        let mag: u128 = if *self < 0 {
            (-(*self as i128)) as u128
        } else {
            *self as u128
        };
        proof {
            assert(mag as nat == spec_mag(*self as int));
        }
        let dw: usize = decimal_width(mag);
        Metadata::new(if neg { 1 + dw } else { dw }, ())
    }

    fn fmt(&self, sink: &mut Sink, options: FormatterOptions) -> (r: Result<(), WriteFailed>) {
        let neg: bool = *self < 0;
        let mag: u128 = if *self < 0 {
            (-(*self as i128)) as u128
        } else {
            *self as u128
        };
        proof {
            assert(mag as nat == spec_mag(*self as int));
        }
        write_decimal(sink, neg, mag)
    }
}

impl SmartDisplay for i64 {
    type Metadata = ();

    open spec fn spec_default_align() -> Alignment {
        Alignment::Right
    }

    open spec fn spec_width(&self, options: FormatterOptions) -> nat {
        spec_iwidth(*self as int)
    }

    open spec fn spec_text(&self, options: FormatterOptions) -> Seq<char> {
        spec_itext(*self as int)
    }

    open spec fn spec_extra(&self, options: FormatterOptions) -> () {
        ()
    }

    proof fn lemma_width_agrees(&self, options: FormatterOptions) {
        lemma_itext_len(*self as int);
    }

    fn default_align() -> (r: Alignment) {
        Alignment::Right
    }

    fn metadata(&self, options: FormatterOptions) -> (m: Metadata<()>) {
        let neg: bool = *self < 0;
        let mag: u128 = if *self < 0 {
            (-(*self as i128)) as u128
        } else {
            *self as u128
        };
        proof {
            assert(mag as nat == spec_mag(*self as int));
        }
        let dw: usize = decimal_width(mag);
        Metadata::new(if neg { 1 + dw } else { dw }, ())
    }

    fn fmt(&self, sink: &mut Sink, options: FormatterOptions) -> (r: Result<(), WriteFailed>) {
        let neg: bool = *self < 0;
        let mag: u128 = if *self < 0 {
            (-(*self as i128)) as u128
        } else {
            *self as u128
        };
        proof {
            assert(mag as nat == spec_mag(*self as int));
        }
        write_decimal(sink, neg, mag)
    }
}

impl SmartDisplay for isize {
    type Metadata = ();

    open spec fn spec_default_align() -> Alignment {
        Alignment::Right
    }

    open spec fn spec_width(&self, options: FormatterOptions) -> nat {
        spec_iwidth(*self as int)
    }

    open spec fn spec_text(&self, options: FormatterOptions) -> Seq<char> {
        spec_itext(*self as int)
    }

    open spec fn spec_extra(&self, options: FormatterOptions) -> () {
        ()
    }

    proof fn lemma_width_agrees(&self, options: FormatterOptions) {
        lemma_itext_len(*self as int);
    }

    fn default_align() -> (r: Alignment) {
        Alignment::Right
    }

    fn metadata(&self, options: FormatterOptions) -> (m: Metadata<()>) {
        let neg: bool = *self < 0;
        let mag: u128 = if *self < 0 {
            (-(*self as i128)) as u128
        } else {
            *self as u128
        };
        proof {
            assert(mag as nat == spec_mag(*self as int));
        }
        let dw: usize = decimal_width(mag);
        Metadata::new(if neg { 1 + dw } else { dw }, ())
    }

    fn fmt(&self, sink: &mut Sink, options: FormatterOptions) -> (r: Result<(), WriteFailed>) {
        let neg: bool = *self < 0;
        let mag: u128 = if *self < 0 {
            (-(*self as i128)) as u128
        } else {
            *self as u128
        };
        proof {
            assert(mag as nat == spec_mag(*self as int));
        }
        write_decimal(sink, neg, mag)
    }
}

impl SmartDisplay for i128 {
    type Metadata = ();

    open spec fn spec_default_align() -> Alignment {
        Alignment::Right
    }

    open spec fn spec_width(&self, options: FormatterOptions) -> nat {
        spec_iwidth(*self as int)
    }

    open spec fn spec_text(&self, options: FormatterOptions) -> Seq<char> {
        spec_itext(*self as int)
    }

    open spec fn spec_extra(&self, options: FormatterOptions) -> () {
        ()
    }

    proof fn lemma_width_agrees(&self, options: FormatterOptions) {
        lemma_itext_len(*self as int);
    }

    fn default_align() -> (r: Alignment) {
        Alignment::Right
    }

    fn metadata(&self, options: FormatterOptions) -> (m: Metadata<()>) {
        let neg: bool = *self < 0;
        let mag: u128 = if *self < 0 {
            ((-(*self + 1)) as u128) + 1
        } else {
            *self as u128
        };
        proof {
            assert(mag as nat == spec_mag(*self as int));
        }
        let dw: usize = decimal_width(mag);
        Metadata::new(if neg { 1 + dw } else { dw }, ())
    }

    fn fmt(&self, sink: &mut Sink, options: FormatterOptions) -> (r: Result<(), WriteFailed>) {
        let neg: bool = *self < 0;
        let mag: u128 = if *self < 0 {
            ((-(*self + 1)) as u128) + 1
        } else {
            *self as u128
        };
        proof {
            assert(mag as nat == spec_mag(*self as int));
        }
        write_decimal(sink, neg, mag)
    }
}

impl<T: SmartDisplay + ?Sized> SmartDisplay for &mut T {
    type Metadata = T::Metadata;

    open spec fn spec_default_align() -> Alignment {
        T::spec_default_align()
    }

    open spec fn spec_width(&self, options: FormatterOptions) -> nat {
        (**self).spec_width(options)
    }

    open spec fn spec_text(&self, options: FormatterOptions) -> Seq<char> {
        (**self).spec_text(options)
    }

    open spec fn spec_extra(&self, options: FormatterOptions) -> T::Metadata {
        (**self).spec_extra(options)
    }

    proof fn lemma_width_agrees(&self, options: FormatterOptions) {
        (**self).lemma_width_agrees(options);
    }

    fn default_align() -> (r: Alignment) {
        T::default_align()
    }

    fn metadata(&self, options: FormatterOptions) -> (m: Metadata<T::Metadata>) {
        (**self).metadata(options)
    }

    fn fmt(&self, sink: &mut Sink, options: FormatterOptions) -> (r: Result<(), WriteFailed>) {
        (**self).fmt(sink, options)
    }
}

/// Relies on `core::num::Wrapping` being a transparent tuple struct whose
/// single public field is the wrapped value.
#[verifier::external_type_specification]
pub struct ExWrapping<T>(core::num::Wrapping<T>);

impl<T: SmartDisplay> SmartDisplay for core::num::Wrapping<T> {
    type Metadata = T::Metadata;

    open spec fn spec_default_align() -> Alignment {
        T::spec_default_align()
    }

    open spec fn spec_width(&self, options: FormatterOptions) -> nat {
        self.0.spec_width(options)
    }

    open spec fn spec_text(&self, options: FormatterOptions) -> Seq<char> {
        self.0.spec_text(options)
    }

    open spec fn spec_extra(&self, options: FormatterOptions) -> T::Metadata {
        self.0.spec_extra(options)
    }

    proof fn lemma_width_agrees(&self, options: FormatterOptions) {
        self.0.lemma_width_agrees(options);
    }

    fn default_align() -> (r: Alignment) {
        T::default_align()
    }

    fn metadata(&self, options: FormatterOptions) -> (m: Metadata<T::Metadata>) {
        self.0.metadata(options)
    }

    fn fmt(&self, sink: &mut Sink, options: FormatterOptions) -> (r: Result<(), WriteFailed>) {
        self.0.fmt(sink, options)
    }
}

/// A shared reference is a pure forwarder: wrapping a value in it
/// changes neither the reported width nor the rendered text, under every
/// option set.
pub proof fn lemma_ref_transparent<T: SmartDisplay + ?Sized>(value: &&T, options: FormatterOptions)
    ensures
        value.spec_width(options) == (**value).spec_width(options),
        value.spec_text(options) == (**value).spec_text(options),
{
}

/// A mutable reference is a pure forwarder: wrapping a value in it
/// changes neither the reported width nor the rendered text, under every
/// option set.
pub proof fn lemma_mut_ref_transparent<T: SmartDisplay + ?Sized>(
    value: &mut T,
    options: FormatterOptions,
)
    ensures
        (&old(value)).spec_width(options) == (*old(value)).spec_width(options),
        (&old(value)).spec_text(options) == (*old(value)).spec_text(options),
{
}

/// A boxed value is a pure forwarder: boxing changes neither the
/// reported width nor the rendered text, under every option set.
pub proof fn lemma_box_transparent<T: SmartDisplay + ?Sized>(
    value: &Box<T>,
    options: FormatterOptions,
)
    ensures
        value.spec_width(options) == (**value).spec_width(options),
        value.spec_text(options) == (**value).spec_text(options),
{
}

/// A shared-ownership value is a pure forwarder: sharing changes neither
/// the reported width nor the rendered text, under every option set.
pub proof fn lemma_rc_transparent<T: SmartDisplay + ?Sized>(
    value: &Rc<T>,
    options: FormatterOptions,
)
    ensures
        value.spec_width(options) == (**value).spec_width(options),
        value.spec_text(options) == (**value).spec_text(options),
{
}

/// A thread-safe shared-ownership value is a pure forwarder: sharing
/// changes neither the reported width nor the rendered text, under every
/// option set.
pub proof fn lemma_arc_transparent<T: SmartDisplay + ?Sized>(
    value: &Arc<T>,
    options: FormatterOptions,
)
    ensures
        value.spec_width(options) == (**value).spec_width(options),
        value.spec_text(options) == (**value).spec_text(options),
{
}

/// The saturating-arithmetic wrapper is a pure forwarder: wrapping
/// changes neither the reported width nor the rendered text, under every
/// option set.
pub proof fn lemma_wrapping_transparent<T: SmartDisplay>(
    value: &core::num::Wrapping<T>,
    options: FormatterOptions,
)
    ensures
        value.spec_width(options) == value.0.spec_width(options),
        value.spec_text(options) == value.0.spec_text(options),
{
}

/// Owned text renders exactly as the same text borrowed: equal contents
/// give equal width and equal rendering, under every option set.
pub proof fn lemma_string_transparent(owned: &String, borrowed: &str, options: FormatterOptions)
    requires
        owned@ == borrowed@,
    ensures
        owned.spec_width(options) == borrowed.spec_width(options),
        owned.spec_text(options) == borrowed.spec_text(options),
{
}

/// A copy-on-write value renders exactly as its active variant: equal
/// contents give equal width and equal rendering, under every option
/// set, whichever variant is live.
pub proof fn lemma_cow_transparent<'a>(value: &Cow<'a, str>, same: &str, options: FormatterOptions)
    requires
        value@ == same@,
    ensures
        value.spec_width(options) == same.spec_width(options),
        value.spec_text(options) == same.spec_text(options),
{
}

} // verus!
