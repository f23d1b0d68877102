//! The two-phase display protocol and its padding combinator.
//!
//! A conforming type first reports, through [`SmartDisplay::metadata`], how
//! wide its natural rendering will be under the requested options; only
//! then is it asked, through [`SmartDisplay::fmt`], to write exactly that
//! rendering. Width, alignment and fill are applied uniformly by
//! [`write_padded`], never by the conformances themselves; precision is
//! type-defined and applied inside the compute phase.

use vstd::prelude::*;

use crate::metadata::Metadata;
use crate::options::Alignment;
use crate::options::FormatterOptions;
use crate::sink::Sink;
use crate::sink::WriteFailed;
use crate::sink::cap;
use crate::sink::fits;
use crate::sink::lemma_written_append;
use crate::sink::written;

verus! {

/// The two-phase display protocol.
///
/// `spec_text` is the natural (unpadded) rendering of the value under the
/// given options and `spec_width` its length; the two agree by
/// [`SmartDisplay::lemma_width_agrees`], so what `metadata` promises,
/// `fmt` delivers.
pub trait SmartDisplay {
    /// The auxiliary data carried from the compute phase to the render
    /// phase; the unit type when unused.
    type Metadata;

    /// The alignment used when the caller requests none.
    spec fn spec_default_align() -> Alignment;

    /// The unpadded rendered width of the value under `options`.
    spec fn spec_width(&self, options: FormatterOptions) -> nat;

    /// The natural rendering of the value under `options`, before any
    /// padding.
    spec fn spec_text(&self, options: FormatterOptions) -> Seq<char>;

    /// The auxiliary payload the compute phase pairs with the width.
    spec fn spec_extra(&self, options: FormatterOptions) -> Self::Metadata;

    /// The two phases agree: the computed width is the length of the
    /// rendered text.
    proof fn lemma_width_agrees(&self, options: FormatterOptions)
        ensures
            self.spec_width(options) == self.spec_text(options).len(),
    ;

    /// The alignment used when the caller requests none.
    fn default_align() -> (r: Alignment)
        ensures
            r == Self::spec_default_align(),
    ;

    /// Compute phase: how the value will render under `options`. Pure;
    /// performs no output.
    fn metadata(&self, options: FormatterOptions) -> (m: Metadata<Self::Metadata>)
        ensures
            m.spec_unpadded_width() as nat == self.spec_width(options),
            m.spec_extra() == self.spec_extra(options),
    ;

    /// Render phase: write exactly the natural rendering to `sink`,
    /// ignoring width, alignment and fill. Fails only if the sink refuses
    /// output, and then leaves the sink holding the longest prefix that
    /// fit.
    fn fmt(&self, sink: &mut Sink, options: FormatterOptions) -> (r: Result<(), WriteFailed>)
        requires
            old(sink).wf(),
        ensures
            final(sink).wf(),
            final(sink).spec_limit() == old(sink).spec_limit(),
            r is Ok <==> fits(old(sink)@, old(sink).spec_limit(), self.spec_text(options).len()),
            final(sink)@ == written(old(sink)@, old(sink).spec_limit(), self.spec_text(options)),
    ;
}

/// How much of the padding goes before the content: all of it when
/// right-aligned, none when left-aligned, and half (rounded down, so any
/// odd leftover trails) when centered.
pub open spec fn spec_lead(pad: nat, align: Alignment) -> nat {
    match align {
        Alignment::Right => pad,
        Alignment::Left => 0,
        Alignment::Center => pad / 2,
    }
}

/// `text` padded with `fill` to at least `min_width` positions under
/// `align`.
pub open spec fn spec_pad_text(
    text: Seq<char>,
    fill: char,
    min_width: nat,
    align: Alignment,
) -> Seq<char> {
    let pad = if min_width > text.len() {
        (min_width - text.len()) as nat
    } else {
        0
    };
    let lead = spec_lead(pad, align);
    let trail = (pad - lead) as nat;
    Seq::new(lead, |i: int| fill) + text + Seq::new(trail, |i: int| fill)
}

/// The alignment that applies: the requested one, or the type's default.
pub open spec fn spec_resolved_align<T: SmartDisplay + ?Sized>(
    options: FormatterOptions,
) -> Alignment {
    match options.spec_align() {
        Some(a) => a,
        None => T::spec_default_align(),
    }
}

/// The minimum rendered width that applies: the requested one, or zero.
pub open spec fn spec_min_width(options: FormatterOptions) -> nat {
    match options.spec_width() {
        Some(w) => w as nat,
        None => 0,
    }
}

/// The full output of formatting `value` under `options`: its natural
/// rendering, padded.
pub open spec fn spec_padded<T: SmartDisplay + ?Sized>(
    value: &T,
    options: FormatterOptions,
) -> Seq<char> {
    spec_pad_text(
        value.spec_text(options),
        options.spec_fill(),
        spec_min_width(options),
        spec_resolved_align::<T>(options),
    )
}

/// Format `value` into `sink` under `options`, applying width, alignment
/// and fill around the value's natural rendering.
///
/// The padding split is `lead` fill characters, then the content, then
/// `trail` fill characters, as [`spec_pad_text`] lays it out. A write
/// failure of the sink propagates unchanged and leaves the sink holding
/// the longest prefix of the padded output that fit.
pub fn write_padded<T: SmartDisplay + ?Sized>(
    value: &T,
    sink: &mut Sink,
    options: FormatterOptions,
) -> (r: Result<(), WriteFailed>)
    requires
        old(sink).wf(),
    ensures
        final(sink).wf(),
        final(sink).spec_limit() == old(sink).spec_limit(),
        r is Ok <==> fits(old(sink)@, old(sink).spec_limit(), spec_padded(value, options).len()),
        final(sink)@ == written(old(sink)@, old(sink).spec_limit(), spec_padded(value, options)),
{
    proof {
        value.lemma_width_agrees(options);
    }
    let meta = value.metadata(options);
    let w: usize = meta.unpadded_width();
    let min_width: usize = match options.width() {
        Some(x) => x,
        None => 0,
    };
    let pad: usize = if min_width > w {
        min_width - w
    } else {
        0
    };
    let align = match options.align() {
        Some(a) => a,
        None => T::default_align(),
    };
    let lead: usize = match align {
        Alignment::Right => pad,
        Alignment::Left => 0,
        Alignment::Center => pad / 2,
    };
    let trail: usize = pad - lead;

    let ghost o = old(sink)@;
    let ghost lim = old(sink).spec_limit();
    let ghost t = value.spec_text(options);
    let ghost lseq = Seq::new(lead as nat, |i: int| options.spec_fill());
    let ghost rseq = Seq::new(trail as nat, |i: int| options.spec_fill());
    let ghost padded = spec_padded(value, options);
    proof {
        assert(padded =~= lseq + t + rseq);
        assert(lseq + (t + rseq) =~= padded);
        assert((lseq + t) + rseq =~= padded);
    }

    let r1 = sink.write_fill(options.fill(), lead);
    proof {
        lemma_written_append(o, lim, lseq, t + rseq);
    }
    if r1.is_err() {
        proof {
            let c1 = written(o, lim, lseq);
            assert(c1.len() == cap(lim));
            assert(written(c1, lim, t + rseq) =~= c1);
        }
        return Err(WriteFailed);
    }

    let r2 = value.fmt(sink, options);
    proof {
        let c1 = written(o, lim, lseq);
        lemma_written_append(c1, lim, t, rseq);
    }
    if r2.is_err() {
        proof {
            let c1 = written(o, lim, lseq);
            let c2 = written(c1, lim, t);
            assert(c2.len() == cap(lim));
            assert(written(c2, lim, rseq) =~= c2);
        }
        return Err(WriteFailed);
    }

    let r3 = sink.write_fill(options.fill(), trail);
    if r3.is_err() {
        return Err(WriteFailed);
    }
    Ok(())
}

/// The padding split never loses or invents positions: the lead is at
/// most the whole pad, and under centering the trailing side gets the
/// odd leftover, so it is the lead or one more.
pub proof fn lemma_center_split(pad: nat)
    ensures
        spec_lead(pad, Alignment::Center) <= pad,
        pad - spec_lead(pad, Alignment::Center) - spec_lead(pad, Alignment::Center) <= 1,
        spec_lead(pad, Alignment::Center) <= pad - spec_lead(pad, Alignment::Center),
{
}

/// The padded output is exactly as long as the wider of the requested
/// minimum width and the value's natural width, whatever the alignment.
pub proof fn lemma_padded_len<T: SmartDisplay + ?Sized>(value: &T, options: FormatterOptions)
    ensures
        spec_padded(value, options).len() == if spec_min_width(options) > value.spec_text(
            options,
        ).len() {
            spec_min_width(options)
        } else {
            value.spec_text(options).len()
        },
{
}

/// Two-phase agreement, for every conformance at once: whatever the
/// options, the width the compute phase reports equals the number of
/// characters the render phase writes.
pub proof fn lemma_phases_agree<T: SmartDisplay + ?Sized>(value: &T, options: FormatterOptions)
    ensures
        value.spec_width(options) == value.spec_text(options).len(),
{
    value.lemma_width_agrees(options);
}

} // verus!
