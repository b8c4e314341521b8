//! Names and positions in source text.

use vstd::prelude::*;
use vstd::std_specs::cmp::PartialEqSpecImpl;
use vstd::string::{StringExecFns, StringSliceAdditionalSpecFns};
use vstd::utf8::{
    encode_utf8, encode_utf8_valid_utf8, is_char_boundary,
    is_char_boundary_iff_not_is_continuation_byte, is_char_boundary_start_end_of_seq,
    valid_utf8_split,
};

verus! {

/// An identifier or other name of the program, compared by its text.
#[derive(Debug)]
pub struct Symbol {
    name: String,
}

impl View for Symbol {
    type V = Seq<char>;

    closed spec fn view(&self) -> Seq<char> {
        self.name@
    }
}

impl Symbol {
    /// The symbol spelled `name`.
    pub fn intern(name: &str) -> (symbol: Symbol)
        ensures
            symbol@ == name@,
    {
        Symbol { name: String::from_str(name) }
    }

    /// The text of the symbol.
    pub fn as_str(&self) -> (name: &str)
        ensures
            name@ == self@,
    {
        self.name.as_str()
    }
}

impl Clone for Symbol {
    fn clone(&self) -> (twin: Self)
        ensures
            twin == *self,
    {
        Symbol { name: self.name.clone() }
    }
}

impl PartialEq for Symbol {
    fn eq(&self, other: &Self) -> (equal: bool) {
        self.name == other.name
    }
}

impl Eq for Symbol {

}

impl PartialEqSpecImpl for Symbol {
    open spec fn obeys_eq_spec() -> bool {
        true
    }

    open spec fn eq_spec(&self, other: &Self) -> bool {
        self@ == other@
    }
}

/// A half-open range of byte positions, `lo..hi`, in registered source text.
#[derive(Clone, Copy, PartialEq, Eq, Debug, Structural)]
pub struct Span {
    pub lo: u32,
    pub hi: u32,
}

impl Span {
    /// The range between two positions, whichever of them comes first.
    pub fn new(a: u32, b: u32) -> (span: Span)
        ensures
            span.lo <= span.hi,
            span.lo == if a <= b { a } else { b },
            span.hi == if a <= b { b } else { a },
    {
        if a <= b {
            Span { lo: a, hi: b }
        } else {
            Span { lo: b, hi: a }
        }
    }

    /// The number of bytes that the span covers: none, if its ends are out of
    /// order.
    pub fn len(&self) -> (n: u32)
        ensures
            n == if self.lo <= self.hi {
                self.hi - self.lo
            } else {
                0
            },
    {
        if self.lo <= self.hi {
            self.hi - self.lo
        } else {
            0
        }
    }
}

/// The text of one source file, registered at a position: its first byte is
/// at `start`, and a span in the file is a range of positions in its bytes.
#[derive(Debug)]
pub struct SourceFile {
    pub start: u32,
    pub src: String,
}

impl SourceFile {
    /// The bytes of the file.
    pub open spec fn bytes(&self) -> Seq<u8> {
        encode_utf8(self.src@)
    }

    /// Whether `span` lies in the file and cuts no character in two.
    pub open spec fn covers(&self, span: Span) -> bool {
        &&& self.start <= span.lo <= span.hi <= self.start + self.bytes().len()
        &&& is_char_boundary(self.bytes(), span.lo - self.start)
        &&& is_char_boundary(self.bytes(), span.hi - self.start)
    }

    /// The bytes of the file that `span` covers.
    pub open spec fn snippet(&self, span: Span) -> Seq<u8> {
        self.bytes().subrange(span.lo - self.start, span.hi - self.start)
    }

    /// Registers `src` at `start`.
    pub fn new(start: u32, src: String) -> (file: SourceFile)
        ensures
            file.start == start,
            file.src == src,
    {
        SourceFile { start, src }
    }

    /// The text that `span` covers, if it lies in the file and cuts no
    /// character in two.
    pub fn span_to_snippet(&self, span: Span) -> (text: Option<String>)
        ensures
            text is Some <==> self.covers(span),
            text matches Some(text) ==> encode_utf8(text@) == self.snippet(span),
    {
        let src = self.src.as_str();
        if span.lo < self.start || span.hi < span.lo {
            return None;
        }
        let lo = (span.lo - self.start) as usize;
        let hi = (span.hi - self.start) as usize;
        if hi > src.as_bytes().len() || !src.is_char_boundary(lo) || !src.is_char_boundary(hi) {
            return None;
        }
        let (_, tail) = src.split_at(lo);
        proof {
            let bytes = self.bytes();
            encode_utf8_valid_utf8(self.src@);
            encode_utf8_valid_utf8(tail@);
            valid_utf8_split(bytes, lo as int);
            if hi < bytes.len() {
                is_char_boundary_iff_not_is_continuation_byte(bytes, hi as int);
                is_char_boundary_iff_not_is_continuation_byte(tail.spec_bytes(), hi - lo);
            } else {
                is_char_boundary_start_end_of_seq(tail.spec_bytes());
            }
        }
        let (body, _) = tail.split_at(hi - lo);
        Some(String::from_str(body))
    }
}

} // verus!
