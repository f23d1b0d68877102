//! The output sink that rendering writes into.
//!
//! A [`Sink`] collects characters. It can be created unbounded, in which
//! case writes succeed until the address space runs out, or with a capacity
//! limit, in which case a write fails as soon as the content would grow
//! past the limit. A failed write leaves the sink holding the longest
//! prefix of the attempted output that still fits; the caller must treat
//! the whole formatting operation as failed.

use vstd::prelude::*;

verus! {

/// The single runtime failure of the protocol: the sink refused to accept
/// further content.
#[derive(Clone, Copy, Debug, PartialEq, Eq, Structural)]
pub struct WriteFailed;

/// A character sink, optionally bounded by a capacity limit.
#[derive(Debug)]
pub struct Sink {
    buf: Vec<char>,
    limit: Option<usize>,
}

impl View for Sink {
    type V = Seq<char>;

    closed spec fn view(&self) -> Seq<char> {
        self.buf@
    }
}

/// The number of characters a sink with the given limit can hold in all.
pub open spec fn cap(limit: Option<usize>) -> nat {
    match limit {
        Some(l) => l as nat,
        None => usize::MAX as nat,
    }
}

/// Whether a sink holding `content` under `limit` accepts `extra` more
/// characters.
pub open spec fn fits(content: Seq<char>, limit: Option<usize>, extra: nat) -> bool {
    content.len() + extra <= cap(limit)
}

/// The content a sink holds after `text` was offered to it character by
/// character: all of `text` if it fits, otherwise as much of it as the
/// limit leaves room for.
pub open spec fn written(content: Seq<char>, limit: Option<usize>, text: Seq<char>) -> Seq<char> {
    if fits(content, limit, text.len()) {
        content + text
    } else {
        (content + text).take(cap(limit) as int)
    }
}

/// Offering `a` and then `b` to a sink leaves the same content as offering
/// `a + b` at once, whether or not either write fit.
pub proof fn lemma_written_append(
    content: Seq<char>,
    limit: Option<usize>,
    a: Seq<char>,
    b: Seq<char>,
)
    requires
        content.len() <= cap(limit),
    ensures
        written(written(content, limit, a), limit, b) == written(content, limit, a + b),
{
    let l = cap(limit) as int;
    if fits(content, limit, a.len()) {
        assert((content + a) + b =~= content + (a + b));
        if !fits(content + a, limit, b.len()) {
            assert(((content + a) + b).take(l) =~= (content + (a + b)).take(l));
        }
    } else {
        let first = (content + a).take(l);
        assert(first.len() == l);
        assert((first + b).take(l) =~= first);
        assert((content + (a + b)).take(l) =~= (content + a).take(l));
    }
}

impl Sink {
    /// The capacity limit the sink was created with, if any.
    pub closed spec fn spec_limit(&self) -> Option<usize> {
        self.limit
    }

    /// The sink never holds more than its limit allows.
    pub open spec fn wf(&self) -> bool {
        self@.len() <= cap(self.spec_limit())
    }

    /// An empty sink that accepts any amount of output.
    pub fn new() -> (r: Sink)
        ensures
            r.wf(),
            r@ == Seq::<char>::empty(),
            r.spec_limit() is None,
    {
        Sink { buf: Vec::new(), limit: None }
    }

    /// An empty sink that accepts at most `limit` characters.
    pub fn with_limit(limit: usize) -> (r: Sink)
        ensures
            r.wf(),
            r@ == Seq::<char>::empty(),
            r.spec_limit() == Some(limit),
    {
        Sink { buf: Vec::new(), limit: Some(limit) }
    }

    /// The characters written so far.
    pub fn chars(&self) -> (r: &Vec<char>)
        ensures
            r@ == self@,
    {
        &self.buf
    }

    /// The number of characters written so far.
    pub fn len(&self) -> (r: usize)
        ensures
            r == self@.len(),
    {
        self.buf.len()
    }

    /// Append one character, failing if the limit leaves no room for it.
    pub fn write_char(&mut self, c: char) -> (r: Result<(), WriteFailed>)
        requires
            old(self).wf(),
        ensures
            final(self).wf(),
            final(self).spec_limit() == old(self).spec_limit(),
            r is Ok <==> fits(old(self)@, old(self).spec_limit(), 1),
            final(self)@ == written(old(self)@, old(self).spec_limit(), seq![c]),
    {
        let full = match self.limit {
            Some(l) => self.buf.len() >= l,
            None => self.buf.len() >= usize::MAX,
        };
        if full {
            proof {
                assert(written(self@, self.spec_limit(), seq![c]) =~= self@);
            }
            Err(WriteFailed)
        } else {
            self.buf.push(c);
            proof {
                assert(self@ =~= written(old(self)@, old(self).spec_limit(), seq![c]));
            }
            Ok(())
        }
    }

    /// Append every character of `text` in order, stopping at the first
    /// one the limit refuses.
    pub fn write_str(&mut self, text: &str) -> (r: Result<(), WriteFailed>)
        requires
            old(self).wf(),
        ensures
            final(self).wf(),
            final(self).spec_limit() == old(self).spec_limit(),
            r is Ok <==> fits(old(self)@, old(self).spec_limit(), text@.len()),
            final(self)@ == written(old(self)@, old(self).spec_limit(), text@),
    {
        let n = text.unicode_len();
        let mut i: usize = 0;
        while i < n
            invariant
                n == text@.len(),
                i <= n,
                self.wf(),
                self.spec_limit() == old(self).spec_limit(),
                self@ == old(self)@ + text@.take(i as int),
                fits(old(self)@, old(self).spec_limit(), i as nat),
            decreases n - i,
        {
            let c = text.get_char(i);
            let step = self.write_char(c);
            if step.is_err() {
                proof {
                    let l = cap(old(self).spec_limit()) as int;
                    assert(self@ =~= (old(self)@ + text@).take(l));
                }
                return Err(WriteFailed);
            }
            proof {
                assert(old(self)@ + text@.take(i as int) + seq![c] =~= old(self)@ + text@.take(
                    i as int + 1,
                ));
            }
            i = i + 1;
        }
        proof {
            assert(old(self)@ + text@.take(n as int) =~= old(self)@ + text@);
        }
        Ok(())
    }

    /// Append every character of `text` in order, stopping at the first
    /// one the limit refuses.
    pub fn write_chars(&mut self, text: &Vec<char>) -> (r: Result<(), WriteFailed>)
        requires
            old(self).wf(),
        ensures
            final(self).wf(),
            final(self).spec_limit() == old(self).spec_limit(),
            r is Ok <==> fits(old(self)@, old(self).spec_limit(), text@.len()),
            final(self)@ == written(old(self)@, old(self).spec_limit(), text@),
    {
        let n = text.len();
        let mut i: usize = 0;
        while i < n
            invariant
                n == text@.len(),
                i <= n,
                self.wf(),
                self.spec_limit() == old(self).spec_limit(),
                self@ == old(self)@ + text@.take(i as int),
                fits(old(self)@, old(self).spec_limit(), i as nat),
            decreases n - i,
        {
            let c = text[i];
            let step = self.write_char(c);
            if step.is_err() {
                proof {
                    let l = cap(old(self).spec_limit()) as int;
                    assert(self@ =~= (old(self)@ + text@).take(l));
                }
                return Err(WriteFailed);
            }
            proof {
                assert(old(self)@ + text@.take(i as int) + seq![c] =~= old(self)@ + text@.take(
                    i as int + 1,
                ));
            }
            i = i + 1;
        }
        proof {
            assert(old(self)@ + text@.take(n as int) =~= old(self)@ + text@);
        }
        Ok(())
    }

    /// Append `count` copies of `fill`, stopping at the first one the
    /// limit refuses.
    pub fn write_fill(&mut self, fill: char, count: usize) -> (r: Result<(), WriteFailed>)
        requires
            old(self).wf(),
        ensures
            final(self).wf(),
            final(self).spec_limit() == old(self).spec_limit(),
            r is Ok <==> fits(old(self)@, old(self).spec_limit(), count as nat),
            final(self)@ == written(old(self)@, old(self).spec_limit(), Seq::new(count as nat, |j| fill)),
    {
        let ghost text = Seq::new(count as nat, |j: int| fill);
        let mut i: usize = 0;
        while i < count
            invariant
                text == Seq::new(count as nat, |j: int| fill),
                i <= count,
                self.wf(),
                self.spec_limit() == old(self).spec_limit(),
                self@ == old(self)@ + text.take(i as int),
                fits(old(self)@, old(self).spec_limit(), i as nat),
            decreases count - i,
        {
            let step = self.write_char(fill);
            if step.is_err() {
                proof {
                    let l = cap(old(self).spec_limit()) as int;
                    assert(self@ =~= (old(self)@ + text).take(l));
                }
                return Err(WriteFailed);
            }
            proof {
                assert(old(self)@ + text.take(i as int) + seq![fill] =~= old(self)@ + text.take(
                    i as int + 1,
                ));
            }
            i = i + 1;
        }
        proof {
            assert(old(self)@ + text.take(count as int) =~= old(self)@ + text);
        }
        Ok(())
    }
}

} // verus!
