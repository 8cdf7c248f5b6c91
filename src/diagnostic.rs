use vstd::prelude::*;

use crate::handle::{released_by, Owned};
use crate::tu::TranslationUnit;

verus! {

/// How serious a diagnostic is.
#[derive(PartialEq, Eq, Structural, Clone, Copy, Debug)]
pub enum Severity {
    Ignored,
    Note,
    Warning,
    Error,
    Fatal,
}

/// The engine's native severity codes, in order; no other code is defined.
pub open spec fn severity_of(code: i32) -> Option<Severity> {
    if code == 0 {
        Some(Severity::Ignored)
    } else if code == 1 {
        Some(Severity::Note)
    } else if code == 2 {
        Some(Severity::Warning)
    } else if code == 3 {
        Some(Severity::Error)
    } else if code == 4 {
        Some(Severity::Fatal)
    } else {
        None
    }
}

impl Severity {
    /// Maps the engine's native severity code onto its severity; `None` for a
    /// code the engine does not define, which means the engine and this
    /// library disagree on the interface.
    pub fn from_code(code: i32) -> (r: Option<Severity>)
        ensures
            r == severity_of(code),
    {
        match code {
            0 => Some(Severity::Ignored),
            1 => Some(Severity::Note),
            2 => Some(Severity::Warning),
            3 => Some(Severity::Error),
            4 => Some(Severity::Fatal),
            _ => None,
        }
    }
}

/// The severity mapping is total on the five native codes and one-to-one:
/// exactly the codes `0..=4` have a severity, and distinct codes have
/// distinct severities.
pub proof fn lemma_severity_total(code: i32, other: i32)
    ensures
        severity_of(code) is Some <==> 0 <= code <= 4,
        severity_of(code) is Some && severity_of(other) is Some && code != other
            ==> severity_of(code) != severity_of(other),
{
}

/// One diagnostic, owned exclusively by its holder and released once.
pub struct Diagnostic {
    owned: Owned,
}

impl Diagnostic {
    pub closed spec fn ptr_spec(&self) -> usize {
        self.owned.handle_spec()
    }

    pub closed spec fn is_live_spec(&self) -> bool {
        self.owned.is_live_spec()
    }

    /// Takes ownership of the engine's handle `ptr`.
    pub fn from_ptr(ptr: usize) -> (r: Diagnostic)
        ensures
            r.ptr_spec() == ptr,
            r.is_live_spec(),
    {
        Diagnostic { owned: Owned::new(ptr) }
    }

    pub fn as_ptr(&self) -> (r: usize)
        ensures
            r == self.ptr_spec(),
    {
        self.owned.handle()
    }

    /// Whether the handle has not been released yet.
    pub fn is_live(&self) -> (r: bool)
        ensures
            r == self.is_live_spec(),
    {
        self.owned.is_live()
    }

    /// Hands out the handle for disposal, the first time only.
    pub fn release(&mut self) -> (r: Option<usize>)
        ensures
            r == released_by(old(self).ptr_spec(), old(self).is_live_spec()),
            final(self).ptr_spec() == old(self).ptr_spec(),
            !final(self).is_live_spec(),
    {
        self.owned.release()
    }
}

/// A group of diagnostics handed out by the engine as one resource, owned
/// exclusively by its holder and released once.
pub struct DiagnosticSet {
    owned: Owned,
}

impl DiagnosticSet {
    pub closed spec fn ptr_spec(&self) -> usize {
        self.owned.handle_spec()
    }

    pub closed spec fn is_live_spec(&self) -> bool {
        self.owned.is_live_spec()
    }

    /// Takes ownership of the engine's handle `ptr`.
    pub fn from_ptr(ptr: usize) -> (r: DiagnosticSet)
        ensures
            r.ptr_spec() == ptr,
            r.is_live_spec(),
    {
        DiagnosticSet { owned: Owned::new(ptr) }
    }

    pub fn as_ptr(&self) -> (r: usize)
        ensures
            r == self.ptr_spec(),
    {
        self.owned.handle()
    }

    /// Whether the handle has not been released yet.
    pub fn is_live(&self) -> (r: bool)
        ensures
            r == self.is_live_spec(),
    {
        self.owned.is_live()
    }

    /// Hands out the handle for disposal, the first time only.
    pub fn release(&mut self) -> (r: Option<usize>)
        ensures
            r == released_by(old(self).ptr_spec(), old(self).is_live_spec()),
            final(self).ptr_spec() == old(self).ptr_spec(),
            !final(self).is_live_spec(),
    {
        self.owned.release()
    }
}

/// One step of the walk over a unit's diagnostics: at `position` of `count`,
/// the index handed out (if any) and the next position.
pub open spec fn step(position: u32, count: u32) -> (Option<u32>, u32) {
    if position < count {
        (Some(position), (position + 1) as u32)
    } else {
        (None, position)
    }
}

/// The indices handed out by `n` steps from `position`.
pub open spec fn walk(position: u32, count: u32, n: nat) -> Seq<Option<u32>>
    decreases n,
{
    if n == 0 {
        Seq::empty()
    } else {
        seq![step(position, count).0] + walk(step(position, count).1, count, (n - 1) as nat)
    }
}

/// The position reached after `n` steps from `position`.
pub open spec fn position_after(position: u32, count: u32, n: nat) -> u32
    decreases n,
{
    if n == 0 {
        position
    } else {
        position_after(step(position, count).1, count, (n - 1) as nat)
    }
}

/// The walk over the diagnostics of one unit: the count is read once, when
/// the walk starts, and the indices `0..count` are handed out in order, each
/// once. The walk cannot be restarted.
pub struct DiagnosticIterator<'a> {
    tu: &'a TranslationUnit,
    num_diagnostics: u32,
    current: u32,
}

impl<'a> DiagnosticIterator<'a> {
    #[verifier::type_invariant]
    closed spec fn within_count(&self) -> bool {
        self.current <= self.num_diagnostics
    }

    pub closed spec fn count(&self) -> u32 {
        self.num_diagnostics
    }

    pub closed spec fn position(&self) -> u32 {
        self.current
    }

    pub closed spec fn unit(&self) -> &'a TranslationUnit {
        self.tu
    }

    /// Starts the walk over the `num_diagnostics` diagnostics of `tu`.
    pub fn new(tu: &'a TranslationUnit, num_diagnostics: u32) -> (r: DiagnosticIterator<'a>)
        ensures
            r.unit() == tu,
            r.count() == num_diagnostics,
            r.position() == 0,
    {
        DiagnosticIterator { tu, num_diagnostics, current: 0 }
    }

    /// The unit whose diagnostics are walked.
    pub fn translation_unit(&self) -> (r: &'a TranslationUnit)
        ensures
            r == self.unit(),
    {
        self.tu
    }

    /// Hands out the index of the next diagnostic to fetch, or `None` once all
    /// have been handed out.
    pub fn next_index(&mut self) -> (r: Option<u32>)
        ensures
            r == step(old(self).position(), old(self).count()).0,
            final(self).position() == step(old(self).position(), old(self).count()).1,
            final(self).count() == old(self).count(),
            final(self).unit() == old(self).unit(),
    {
        proof {
            use_type_invariant(&*self);
        }
        if self.current < self.num_diagnostics {
            let index = self.current;
            self.current = self.current + 1;
            Some(index)
        } else {
            None
        }
    }

    /// How many indices are still to come.
    pub fn remaining(&self) -> (r: u32)
        ensures
            r == self.count() - self.position(),
    {
        proof {
            use_type_invariant(self);
        }
        self.num_diagnostics - self.current
    }

    /// The exact number of indices still to come, as a lower and upper bound.
    pub fn size_hint(&self) -> (r: (usize, Option<usize>))
        ensures
            r.0 == self.count() - self.position(),
            r.1 == Some(r.0),
    {
        let remaining = self.remaining() as usize;
        (remaining, Some(remaining))
    }
}

/// A walk over `count` diagnostics, started at index zero, hands out exactly
/// the indices `0..count` in ascending order and nothing after them; the
/// number still to come falls by one with each index handed out and is zero
/// exactly when the walk is exhausted.
pub proof fn lemma_walk_in_order(count: u32, n: nat)
    ensures
        walk(0, count, n).len() == n,
        forall|i: int|
            0 <= i < n ==> #[trigger] walk(0, count, n)[i] == if i < count {
                Some(i as u32)
            } else {
                None
            },
        count - position_after(0, count, n) == if n <= count {
            count - n
        } else {
            0
        },
        (count - position_after(0, count, n) == 0) <==> n >= count,
{
    lemma_walk_from(0, count, n);
}

proof fn lemma_walk_from(start: u32, count: u32, n: nat)
    requires
        start <= count,
    ensures
        walk(start, count, n).len() == n,
        forall|i: int|
            0 <= i < n ==> #[trigger] walk(start, count, n)[i] == if start + i < count {
                Some((start + i) as u32)
            } else {
                None
            },
        position_after(start, count, n) == if start + n <= count {
            start + n
        } else {
            count as int
        },
    decreases n,
{
    if n > 0 {
        let next = step(start, count).1;
        lemma_walk_from(next, count, (n - 1) as nat);
        let rest = walk(next, count, (n - 1) as nat);
        assert forall|i: int| 0 <= i < n implies #[trigger] walk(start, count, n)[i] == if start
            + i < count {
            Some((start + i) as u32)
        } else {
            None
        } by {
            if i > 0 {
                assert(walk(start, count, n)[i] == rest[i - 1]);
            }
        }
    }
}

} // verus!
