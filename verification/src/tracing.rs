//! The writer behind the tracing layer: it receives formatted log text in
//! arbitrary pieces and hands out complete lines to print above the prompt.
use crate::text::{push_char, to_chars, views};
use vstd::prelude::*;
use vstd::utf8::{decode_utf8, valid_utf8};

verus! {

/// The text that `String::from_utf8_lossy` makes of some bytes.
pub uninterp spec fn spec_utf8_lossy(bytes: Seq<u8>) -> Seq<char>;

/// Calls `String::from_utf8_lossy` (invalid sequences become U+FFFD). Its
/// documentation states that valid UTF-8 is decoded unchanged; that is all the
/// contract says beyond naming the result.
#[verifier::external_body]
fn utf8_lossy(bytes: &[u8]) -> (s: String)
    ensures
        s@ == spec_utf8_lossy(bytes@),
        valid_utf8(bytes@) ==> s@ == decode_utf8(bytes@),
{
    String::from_utf8_lossy(bytes).into_owned()
}

/// Lines completed and text left pending after feeding `rest` to a writer
/// whose pending text is `pending`: `\n` completes a line, `\r` is dropped.
pub open spec fn feed(pending: Seq<char>, rest: Seq<char>) -> (Seq<Seq<char>>, Seq<char>)
    decreases rest.len(),
{
    if rest.len() == 0 {
        (Seq::empty(), pending)
    } else if rest[0] == '\n' {
        let (ls, p) = feed(Seq::empty(), rest.drop_first());
        (seq![pending] + ls, p)
    } else if rest[0] == '\r' {
        feed(pending, rest.drop_first())
    } else {
        feed(pending.push(rest[0]), rest.drop_first())
    }
}

/// `s` without carriage returns.
pub open spec fn without_cr(s: Seq<char>) -> Seq<char>
    decreases s.len(),
{
    if s.len() == 0 {
        Seq::empty()
    } else if s[0] == '\r' {
        without_cr(s.drop_first())
    } else {
        seq![s[0]] + without_cr(s.drop_first())
    }
}

/// Each line followed by a newline, all concatenated.
pub open spec fn joined_lines(ls: Seq<Seq<char>>) -> Seq<char>
    decreases ls.len(),
{
    if ls.len() == 0 {
        Seq::empty()
    } else {
        joined_lines(ls.drop_last()) + ls.last() + seq!['\n']
    }
}

/// Custom writer that forwards formatted tracing text line by line.
#[derive(Debug)]
pub struct ReplWriter {
    buf: String,
}

impl ReplWriter {
    /// The text of the line not yet completed.
    pub closed spec fn pending(&self) -> Seq<char> {
        self.buf@
    }

    pub fn new() -> (w: ReplWriter)
        ensures
            w.pending() == Seq::<char>::empty(),
    {
        ReplWriter { buf: String::new() }
    }

    /// Feed text; returns the lines it completes, to print in order.
    pub fn write_str(&mut self, s: &str) -> (lines: Vec<String>)
        ensures
            (views(lines@), final(self).pending()) == feed(old(self).pending(), s@),
    {
        let v = to_chars(s);
        let mut out: Vec<String> = Vec::new();
        let mut i: usize = 0;
        proof {
            assert(v@.skip(0) =~= v@);
        }
        while i < v.len()
            invariant
                v@ == s@,
                i <= v.len(),
                ({
                    let (ls, p) = feed(self.buf@, v@.skip(i as int));
                    views(out@) + ls == feed(old(self).buf@, s@).0 && p == feed(old(self).buf@, s@).1
                }),
            decreases v.len() - i,
        {
            let c = v[i];
            let ghost rest = v@.skip(i as int);
            proof {
                assert(rest[0] == c);
                assert(rest.drop_first() =~= v@.skip(i + 1));
            }
            if c == '\n' {
                let line = self.buf.clone();
                self.buf = String::new();
                let ghost before = out@;
                out.push(line);
                proof {
                    assert(self.buf@ =~= Seq::<char>::empty());
                    assert(views(out@) =~= views(before).push(line@));
                    let (ls, p) = feed(Seq::empty(), rest.drop_first());
                    assert(views(out@) + ls =~= views(before) + (seq![line@] + ls));
                }
            } else if c != '\r' {
                push_char(&mut self.buf, c);
            }
            i = i + 1;
        }
        proof {
            assert(v@.skip(i as int) =~= Seq::<char>::empty());
            assert(views(out@) + Seq::<Seq<char>>::empty() =~= views(out@));
        }
        out
    }

    /// Feed bytes as the tracing formatter writes them (decoded leniently);
    /// returns the completed lines and the number of bytes accepted (all of them).
    pub fn write(&mut self, bytes: &[u8]) -> (r: (Vec<String>, usize))
        ensures
            (views(r.0@), final(self).pending()) == feed(old(self).pending(), spec_utf8_lossy(bytes@)),
            r.1 == bytes@.len(),
    {
        let text = utf8_lossy(bytes);
        let lines = self.write_str(text.as_str());
        (lines, bytes.len())
    }

    /// Hand out the pending text as a last line, if there is any.
    pub fn flush(&mut self) -> (r: Option<String>)
        ensures
            old(self).pending().len() == 0 ==> r is None,
            old(self).pending().len() > 0 ==> (r matches Some(s) && s@ == old(self).pending()),
            final(self).pending() == Seq::<char>::empty(),
    {
        if self.buf.as_str().is_empty() {
            proof {
                assert(self.buf@ =~= Seq::<char>::empty());
            }
            None
        } else {
            let line = self.buf.clone();
            self.buf = String::new();
            Some(line)
        }
    }
}

impl Default for ReplWriter {
    fn default() -> (w: ReplWriter)
        ensures
            w.pending() == Seq::<char>::empty(),
    {
        ReplWriter::new()
    }
}

proof fn lemma_joined_prepend(x: Seq<char>, ls: Seq<Seq<char>>)
    ensures
        joined_lines(seq![x] + ls) == x + seq!['\n'] + joined_lines(ls),
    decreases ls.len(),
{
    if ls.len() == 0 {
        assert(seq![x] + ls =~= seq![x]);
        assert(seq![x].drop_last() =~= Seq::<Seq<char>>::empty());
        assert(joined_lines(Seq::<Seq<char>>::empty()) == Seq::<char>::empty());
        assert(joined_lines(ls) == Seq::<char>::empty());
        assert(joined_lines(seq![x]) == joined_lines(Seq::<Seq<char>>::empty()) + x + seq!['\n']);
        assert(joined_lines(seq![x]) =~= x + seq!['\n'] + joined_lines(ls));
    } else {
        lemma_joined_prepend(x, ls.drop_last());
        assert((seq![x] + ls).drop_last() =~= seq![x] + ls.drop_last());
        assert((seq![x] + ls).last() == ls.last());
        assert(joined_lines(seq![x] + ls) =~= x + seq!['\n'] + joined_lines(ls));
    }
}

/// Nothing is lost or invented: the completed lines, each followed by a newline,
/// and then the pending text, are exactly the old pending text and the input
/// with carriage returns removed; the pending text never holds a newline.
pub proof fn law_writer_preserves_text(pending: Seq<char>, input: Seq<char>)
    requires
        !pending.contains('\n'),
    ensures
        joined_lines(feed(pending, input).0) + feed(pending, input).1 == pending + without_cr(input),
        !feed(pending, input).1.contains('\n'),
    decreases input.len(),
{
    if input.len() == 0 {
        assert(joined_lines(Seq::<Seq<char>>::empty()) + pending =~= pending + without_cr(input));
    } else if input[0] == '\n' {
        let rest = input.drop_first();
        law_writer_preserves_text(Seq::empty(), rest);
        let (ls, p) = feed(Seq::empty(), rest);
        lemma_joined_prepend(pending, ls);
        assert(joined_lines(ls) + p =~= Seq::<char>::empty() + without_cr(rest));
        assert(joined_lines(seq![pending] + ls) + p =~= pending + without_cr(input));
    } else if input[0] == '\r' {
        law_writer_preserves_text(pending, input.drop_first());
    } else {
        let c = input[0];
        assert(!pending.push(c).contains('\n')) by {
            if pending.push(c).contains('\n') {
                let j = choose|j: int| 0 <= j < pending.push(c).len() && pending.push(c)[j] == '\n';
                if j < pending.len() {
                    assert(pending[j] == '\n');
                }
            }
        }
        law_writer_preserves_text(pending.push(c), input.drop_first());
        assert(pending.push(c) + without_cr(input.drop_first()) =~= pending + without_cr(input));
    }
}

} // verus!
