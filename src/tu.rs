use vstd::prelude::*;

use crate::error::{error_code_of, ErrorCode};
use crate::handle::{released_by, Owned};

verus! {

/// One independent toggle of the engine's parsing behaviour.
#[derive(PartialEq, Eq, Structural, Clone, Copy, Debug)]
pub enum ParseOption {
    DetailedPreprocessingRecord,
    Incomplete,
    PrecompiledPreamble,
    CacheCompletionResults,
    ForSerialization,
    CxxChainedPch,
    SkipFunctionBodies,
    IncludeBriefCommentsInCodeCompletions,
    CreatePreambleOnFirstParse,
    KeepGoing,
}

/// The bit by which the engine recognises each option.
pub open spec fn option_bit(o: ParseOption) -> u32 {
    match o {
        ParseOption::DetailedPreprocessingRecord => 0x01,
        ParseOption::Incomplete => 0x02,
        ParseOption::PrecompiledPreamble => 0x04,
        ParseOption::CacheCompletionResults => 0x08,
        ParseOption::ForSerialization => 0x10,
        ParseOption::CxxChainedPch => 0x20,
        ParseOption::SkipFunctionBodies => 0x40,
        ParseOption::IncludeBriefCommentsInCodeCompletions => 0x80,
        ParseOption::CreatePreambleOnFirstParse => 0x100,
        ParseOption::KeepGoing => 0x200,
    }
}

pub open spec fn is_option_bit(m: u32) -> bool {
    m == 0x01 || m == 0x02 || m == 0x04 || m == 0x08 || m == 0x10 || m == 0x20 || m == 0x40
        || m == 0x80 || m == 0x100 || m == 0x200
}

proof fn lemma_option_bit(o: ParseOption, p: ParseOption)
    ensures
        is_option_bit(option_bit(o)),
        option_bit(o) == option_bit(p) <==> o == p,
{
}

proof fn lemma_set_bit(b: u32, m: u32, n: u32)
    by (bit_vector)
    requires
        b < 0x400,
        is_option_bit(m),
        is_option_bit(n),
    ensures
        (b | m) < 0x400,
        (b | m) & n != 0 <==> (b & n != 0 || m == n),
{
}

proof fn lemma_join_bits(a: u32, b: u32, n: u32)
    by (bit_vector)
    requires
        a < 0x400,
        b < 0x400,
        is_option_bit(n),
    ensures
        (a | b) < 0x400,
        (a | b) & n != 0 <==> (a & n != 0 || b & n != 0),
{
}

/// A combination of parse options; any combination is allowed.
#[derive(PartialEq, Eq, Structural, Clone, Copy, Debug)]
pub struct Flags {
    bits: u32,
}

impl View for Flags {
    type V = Set<ParseOption>;

    closed spec fn view(&self) -> Set<ParseOption> {
        Set::new(|o: ParseOption| self.bits & option_bit(o) != 0)
    }
}

impl Flags {
    #[verifier::type_invariant]
    closed spec fn known_bits_only(&self) -> bool {
        self.bits < 0x400
    }

    /// No option set.
    pub fn none() -> (r: Flags)
        ensures
            r@ == Set::<ParseOption>::empty(),
    {
        let r = Flags { bits: 0 };
        assert forall|o: ParseOption| !r@.contains(o) by {
            lemma_option_bit(o, o);
            let m = option_bit(o);
            assert(0u32 & m == 0) by (bit_vector);
        }
        assert(r@ =~= Set::<ParseOption>::empty());
        r
    }

    /// These options together with `o`.
    pub fn with(self, o: ParseOption) -> (r: Flags)
        ensures
            r@ == self@.insert(o),
    {
        proof {
            use_type_invariant(&self);
            lemma_option_bit(o, o);
            lemma_set_bit(self.bits, option_bit(o), option_bit(o));
        }
        let r = Flags { bits: self.bits | Flags::bit(o) };
        assert forall|p: ParseOption| r@.contains(p) == self@.insert(o).contains(p) by {
            lemma_option_bit(o, p);
            lemma_option_bit(p, p);
            lemma_set_bit(self.bits, option_bit(o), option_bit(p));
        }
        assert(r@ =~= self@.insert(o));
        r
    }

    /// The options set in either of the two.
    pub fn union(self, other: Flags) -> (r: Flags)
        ensures
            r@ == self@ + other@,
    {
        proof {
            use_type_invariant(&self);
            use_type_invariant(&other);
            lemma_join_bits(self.bits, other.bits, 1);
        }
        let r = Flags { bits: self.bits | other.bits };
        assert forall|p: ParseOption| r@.contains(p) == (self@ + other@).contains(p) by {
            lemma_option_bit(p, p);
            lemma_join_bits(self.bits, other.bits, option_bit(p));
        }
        assert(r@ =~= self@ + other@);
        r
    }

    /// Whether `o` is set.
    pub fn contains(&self, o: ParseOption) -> (r: bool)
        ensures
            r == self@.contains(o),
    {
        self.bits & Flags::bit(o) != 0
    }

    /// The engine's encoding: the bit of each option that is set, and no
    /// other bit.
    pub fn bits(&self) -> (r: u32)
        ensures
            r < 0x400,
            forall|o: ParseOption| #[trigger] self@.contains(o) <==> r & option_bit(o) != 0,
    {
        proof {
            use_type_invariant(self);
        }
        self.bits
    }

    fn bit(o: ParseOption) -> (r: u32)
        ensures
            r == option_bit(o),
    {
        match o {
            ParseOption::DetailedPreprocessingRecord => 0x01,
            ParseOption::Incomplete => 0x02,
            ParseOption::PrecompiledPreamble => 0x04,
            ParseOption::CacheCompletionResults => 0x08,
            ParseOption::ForSerialization => 0x10,
            ParseOption::CxxChainedPch => 0x20,
            ParseOption::SkipFunctionBodies => 0x40,
            ParseOption::IncludeBriefCommentsInCodeCompletions => 0x80,
            ParseOption::CreatePreambleOnFirstParse => 0x100,
            ParseOption::KeepGoing => 0x200,
        }
    }
}

/// One parsed source file, owned exclusively by its holder. Everything
/// derived from it (files, locations, cursors) is valid only while it lives.
pub struct TranslationUnit {
    owned: Owned,
}

impl TranslationUnit {
    pub closed spec fn ptr_spec(&self) -> usize {
        self.owned.handle_spec()
    }

    pub closed spec fn is_live_spec(&self) -> bool {
        self.owned.is_live_spec()
    }

    /// Takes ownership of the engine's handle `ptr`.
    pub fn from_ptr(ptr: usize) -> (r: TranslationUnit)
        ensures
            r.ptr_spec() == ptr,
            r.is_live_spec(),
    {
        TranslationUnit { owned: Owned::new(ptr) }
    }

    /// Decides what a parse request produced, from the engine's native answer
    /// `code` and the handle `ptr` it wrote. On success the unit owns `ptr`;
    /// on any other answer no unit exists and the answer is the error.
    /// `None` where the engine broke its interface: an undefined answer, or a
    /// null handle reported as success.
    pub fn from_parse_result(code: i32, ptr: usize) -> (r: Option<Result<TranslationUnit, ErrorCode>>)
        ensures
            r is None <==> (error_code_of(code) is None || (code == 0 && ptr == 0)),
            r matches Some(Ok(tu)) ==> code == 0 && tu.ptr_spec() == ptr && tu.is_live_spec(),
            r matches Some(Err(e)) ==> code != 0 && error_code_of(code) == Some(e),
            (error_code_of(code) is Some && code != 0) ==> r matches Some(Err(_)),
            (code == 0 && ptr != 0) ==> r matches Some(Ok(_)),
    {
        match ErrorCode::from_code(code) {
            None => None,
            Some(ErrorCode::Success) => {
                if ptr == 0 {
                    None
                } else {
                    Some(Ok(TranslationUnit::from_ptr(ptr)))
                }
            },
            Some(e) => Some(Err(e)),
        }
    }

    pub fn as_ptr(&self) -> (r: usize)
        ensures
            r == self.ptr_spec(),
    {
        self.owned.handle()
    }

    /// Whether the handle has not been released yet.
    pub fn is_live(&self) -> (r: bool)
        ensures
            r == self.is_live_spec(),
    {
        self.owned.is_live()
    }

    /// Hands out the handle for disposal, the first time only.
    pub fn release(&mut self) -> (r: Option<usize>)
        ensures
            r == released_by(old(self).ptr_spec(), old(self).is_live_spec()),
            final(self).ptr_spec() == old(self).ptr_spec(),
            !final(self).is_live_spec(),
    {
        self.owned.release()
    }
}

/// A file known to a translation unit; it owns nothing and is valid only while
/// that unit lives. The engine reports the null handle (zero) for positions
/// outside any file.
#[derive(PartialEq, Eq, Structural, Clone, Copy, Debug)]
pub struct File {
    ptr: usize,
}

impl File {
    pub closed spec fn ptr_spec(&self) -> usize {
        self.ptr
    }

    pub fn from_ptr(ptr: usize) -> (r: File)
        ensures
            r.ptr_spec() == ptr,
    {
        File { ptr }
    }

    pub fn as_ptr(&self) -> (r: usize)
        ensures
            r == self.ptr_spec(),
    {
        self.ptr
    }

    /// Splits the engine's modification time `t`, in seconds relative to
    /// the Unix epoch, into its direction and its exact distance: whether it
    /// lies before the epoch, and how many seconds away.
    pub fn time_from_epoch(t: i64) -> (r: (bool, u64))
        ensures
            r.0 == (t < 0),
            r.1 == if t < 0 {
                -t
            } else {
                t as int
            },
    {
        if t < 0 {
            (true, (-(t as i128)) as u64)
        } else {
            (false, t as u64)
        }
    }

    /// Whether this is the null file, on which no accessor may be called.
    pub fn is_null(&self) -> (r: bool)
        ensures
            r == (self.ptr_spec() == 0),
    {
        self.ptr == 0
    }
}

} // verus!
