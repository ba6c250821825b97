//! Allocation of numeric port ranges.
//!
//! A [`PortPool`] owns three independent allocation domains (remote desktop,
//! console, auxiliary display), each a half-open span of ports together with
//! the set of ports currently taken from it.  Pair and triplet allocation is
//! all-or-nothing: a failed allocation leaves every domain exactly as it was.
//! Releases are idempotent.

use core::ops::Range;
use vstd::prelude::*;
use vstd::seq_lib::*;
use vstd::set_lib::*;

verus! {

broadcast use vstd::seq_lib::seq_to_set_is_finite;

/// Number of ports a half-open span `start..end` can hold.
pub open spec fn span_capacity(start: u16, end: u16) -> nat {
    if start <= end {
        (end - start) as nat
    } else {
        0
    }
}

/// A port lies within the half-open span `start..end`.
pub open spec fn in_span(span: (u16, u16), p: u16) -> bool {
    span.0 <= p < span.1
}

/// Every port of the span is in the given set.
pub open spec fn span_full(span: (u16, u16), taken: Set<u16>) -> bool {
    forall|q: u16| in_span(span, q) ==> taken.contains(q)
}

proof fn lemma_push_to_set(s: Seq<u16>, v: u16)
    requires
        s.no_duplicates(),
        !s.contains(v),
    ensures
        s.push(v).no_duplicates(),
        s.push(v).to_set() == s.to_set().insert(v),
{
    assert forall|i: int, j: int|
        0 <= i < s.push(v).len() && 0 <= j < s.push(v).len() && i != j implies s.push(v)[i]
        != s.push(v)[j] by {
        if i < s.len() && j < s.len() {
            assert(s.push(v)[i] == s[i] && s.push(v)[j] == s[j]);
        } else if j == s.len() && i < s.len() {
            assert(s.push(v)[i] == s[i] && s.push(v)[j] == v);
            assert(s.contains(s[i]) ==> s[i] != v);
        } else if i == s.len() && j < s.len() {
            assert(s.push(v)[j] == s[j] && s.push(v)[i] == v);
            assert(s.contains(s[j]) ==> s[j] != v);
        }
    };
    assert forall|x: u16| s.push(v).contains(x) <==> (s.contains(x) || x == v) by {
        if s.push(v).contains(x) {
            let i = choose|i: int| 0 <= i < s.push(v).len() && s.push(v)[i] == x;
            if i < s.len() {
                assert(s[i] == x);
            }
        }
        if s.contains(x) {
            let i = choose|i: int| 0 <= i < s.len() && s[i] == x;
            assert(s.push(v)[i] == x);
        }
        if x == v {
            assert(s.push(v)[s.len() as int] == x);
        }
    };
    assert(s.push(v).to_set() =~= s.to_set().insert(v));
}

proof fn lemma_remove_at_to_set(s: Seq<u16>, i: int)
    requires
        s.no_duplicates(),
        0 <= i < s.len(),
    ensures
        s.remove(i).no_duplicates(),
        s.remove(i).to_set() == s.to_set().remove(s[i]),
{
    s.remove_ensures(i);
    let v = s[i];
    let r = s.remove(i);
    assert forall|a: int, b: int| 0 <= a < r.len() && 0 <= b < r.len() && a != b implies r[a]
        != r[b] by {
        let oa = if a < i { a } else { a + 1 };
        let ob = if b < i { b } else { b + 1 };
        assert(r[a] == s[oa] && r[b] == s[ob]);
    };
    assert forall|x: u16| r.contains(x) <==> (s.contains(x) && x != v) by {
        if r.contains(x) {
            let a = choose|a: int| 0 <= a < r.len() && r[a] == x;
            let oa = if a < i { a } else { a + 1 };
            assert(s[oa] == x);
            assert(oa != i && s[oa] != s[i]);
        }
        if s.contains(x) && x != v {
            let a = choose|a: int| 0 <= a < s.len() && s[a] == x;
            if a < i {
                assert(r[a] == x);
            } else {
                assert(r[a - 1] == x);
            }
        }
    };
    assert(r.to_set() =~= s.to_set().remove(v));
}

proof fn lemma_span_count(s: Seq<u16>, start: u16, end: u16)
    requires
        s.no_duplicates(),
        forall|i: int| 0 <= i < s.len() ==> start <= #[trigger] s[i] < end,
    ensures
        s.to_set().finite(),
        s.to_set().len() == s.len(),
        s.len() <= span_capacity(start, end),
{
    s.unique_seq_to_set();
    if start > end {
        if s.len() > 0 {
            assert(start <= s[0] < end);
        }
    } else {
        let ints = s.map_values(|p: u16| p as int);
        assert forall|i: int, j: int|
            0 <= i < ints.len() && 0 <= j < ints.len() && i != j implies ints[i] != ints[j] by {
            assert(ints[i] == s[i] as int && ints[j] == s[j] as int);
            assert(s[i] != s[j]);
        };
        assert(ints.no_duplicates());
        ints.unique_seq_to_set();
        lemma_int_range(start as int, end as int);
        assert forall|x: int| ints.to_set().contains(x) implies set_int_range(
            start as int,
            end as int,
        ).contains(x) by {
            let i = choose|i: int| 0 <= i < ints.len() && ints[i] == x;
            assert(start <= s[i] < end);
        };
        lemma_len_subset(ints.to_set(), set_int_range(start as int, end as int));
    }
}

/// One allocation domain: its span and the ports taken from it.
#[derive(Debug, Clone)]
struct PoolPart {
    start: u16,
    end: u16,
    taken: Vec<u16>,
}

impl PoolPart {
    spec fn wf(self) -> bool {
        &&& self.taken@.no_duplicates()
        &&& forall|i: int|
            0 <= i < self.taken@.len() ==> self.start <= #[trigger] self.taken@[i] < self.end
    }

    spec fn ports(self) -> Set<u16> {
        self.taken@.to_set()
    }

    spec fn span(self) -> (u16, u16) {
        (self.start, self.end)
    }

    fn empty(range: Range<u16>) -> (r: PoolPart)
        ensures
            r.wf(),
            r.span() == (range.start, range.end),
            r.ports() == Set::<u16>::empty(),
    {
        let r = PoolPart { start: range.start, end: range.end, taken: Vec::new() };
        proof {
            assert(r.ports() =~= Set::<u16>::empty());
        }
        r
    }

    fn contains_port(&self, p: u16) -> (r: bool)
        ensures
            r == self.ports().contains(p),
    {
        let mut i: usize = 0;
        while i < self.taken.len()
            invariant
                i <= self.taken.len(),
                forall|j: int| 0 <= j < i ==> self.taken@[j] != p,
            decreases self.taken.len() - i,
        {
            if self.taken[i] == p {
                assert(self.taken@.contains(p));
                return true;
            }
            i = i + 1;
        }
        assert(!self.taken@.contains(p));
        false
    }

    fn allocate(&mut self) -> (r: Option<u16>)
        requires
            old(self).wf(),
        ensures
            final(self).wf(),
            final(self).span() == old(self).span(),
            match r {
                Some(p) => {
                    &&& in_span(old(self).span(), p)
                    &&& !old(self).ports().contains(p)
                    &&& forall|q: u16| old(self).start <= q < p ==> old(self).ports().contains(q)
                    &&& final(self).ports() == old(self).ports().insert(p)
                },
                None => {
                    &&& final(self).ports() == old(self).ports()
                    &&& span_full(old(self).span(), old(self).ports())
                },
            },
    {
        let ghost orig = *self;
        let mut p = self.start;
        while p < self.end
            invariant
                *self == orig,
                orig == *old(self),
                orig.wf(),
                orig.start <= p,
                forall|q: u16| orig.start <= q < p ==> orig.ports().contains(q),
            decreases self.end as int - p as int,
        {
            if !self.contains_port(p) {
                self.taken.push(p);
                proof {
                    lemma_push_to_set(orig.taken@, p);
                }
                return Some(p);
            }
            p = p + 1;
        }
        None
    }

    fn release(&mut self, p: u16)
        requires
            old(self).wf(),
        ensures
            final(self).wf(),
            final(self).span() == old(self).span(),
            final(self).ports() == old(self).ports().remove(p),
    {
        let ghost orig = *self;
        let mut i: usize = 0;
        while i < self.taken.len()
            invariant
                *self == orig,
                orig == *old(self),
                orig.wf(),
                i <= self.taken.len(),
                forall|j: int| 0 <= j < i ==> orig.taken@[j] != p,
            decreases self.taken.len() - i,
        {
            if self.taken[i] == p {
                self.taken.remove(i);
                proof {
                    lemma_remove_at_to_set(orig.taken@, i as int);
                }
                return ;
            }
            i = i + 1;
        }
        proof {
            assert(!orig.taken@.contains(p));
            assert(self.ports() =~= orig.ports().remove(p));
        }
    }

    fn register(&mut self, p: u16) -> (r: bool)
        requires
            old(self).wf(),
        ensures
            final(self).wf(),
            final(self).span() == old(self).span(),
            r == in_span(old(self).span(), p),
            r ==> final(self).ports() == old(self).ports().insert(p),
            !r ==> final(self).ports() == old(self).ports(),
    {
        let ghost orig = *self;
        if self.start <= p && p < self.end {
            if !self.contains_port(p) {
                self.taken.push(p);
                proof {
                    lemma_push_to_set(orig.taken@, p);
                }
            } else {
                proof {
                    assert(orig.ports().insert(p) =~= orig.ports());
                }
            }
            true
        } else {
            false
        }
    }

    fn available(&self) -> (r: usize)
        requires
            self.wf(),
        ensures
            r == span_capacity(self.start, self.end) - self.ports().len(),
    {
        proof {
            lemma_span_count(self.taken@, self.start, self.end);
        }
        if self.start <= self.end {
            (self.end - self.start) as usize - self.taken.len()
        } else {
            0
        }
    }
}

/// Three disjoint allocation domains for the ports a live instance holds.
#[derive(Debug, Clone)]
pub struct PortPool {
    rdp: PoolPart,
    console: PoolPart,
    xpra: PoolPart,
}

impl PortPool {
    /// The ports currently allocated from the remote-desktop span.
    pub closed spec fn rdp_allocated(self) -> Set<u16> {
        self.rdp.ports()
    }

    /// The ports currently allocated from the console span.
    pub closed spec fn console_allocated(self) -> Set<u16> {
        self.console.ports()
    }

    /// The ports currently allocated from the auxiliary-display span.
    pub closed spec fn xpra_allocated(self) -> Set<u16> {
        self.xpra.ports()
    }

    /// The configured remote-desktop span, as (start, end).
    pub closed spec fn rdp_span(self) -> (u16, u16) {
        self.rdp.span()
    }

    /// The configured console span, as (start, end).
    pub closed spec fn console_span(self) -> (u16, u16) {
        self.console.span()
    }

    /// The configured auxiliary-display span, as (start, end).
    pub closed spec fn xpra_span(self) -> (u16, u16) {
        self.xpra.span()
    }

    /// The pool's internal invariant: within each domain the taken ports
    /// are pairwise distinct and lie inside the configured span.
    pub closed spec fn wf(self) -> bool {
        self.rdp.wf() && self.console.wf() && self.xpra.wf()
    }

    /// The two pools have the same configured spans.
    pub open spec fn same_spans(self, other: PortPool) -> bool {
        &&& self.rdp_span() == other.rdp_span()
        &&& self.console_span() == other.console_span()
        &&& self.xpra_span() == other.xpra_span()
    }

    /// The two pools hold exactly the same allocations and spans.
    pub open spec fn same_allocations(self, other: PortPool) -> bool {
        &&& self.same_spans(other)
        &&& self.rdp_allocated() == other.rdp_allocated()
        &&& self.console_allocated() == other.console_allocated()
        &&& self.xpra_allocated() == other.xpra_allocated()
    }

    /// However a well-formed pool was reached, each domain's allocated set
    /// lies inside its configured span, and — the sets being sets — holds no
    /// port twice; each is finite and no larger than its span.
    pub proof fn lemma_allocations_within_spans(self)
        requires
            self.wf(),
        ensures
            forall|p: u16| self.rdp_allocated().contains(p) ==> in_span(self.rdp_span(), p),
            forall|p: u16| self.console_allocated().contains(p) ==> in_span(self.console_span(), p),
            forall|p: u16| self.xpra_allocated().contains(p) ==> in_span(self.xpra_span(), p),
            self.rdp_allocated().finite(),
            self.console_allocated().finite(),
            self.xpra_allocated().finite(),
            self.rdp_allocated().len() <= span_capacity(self.rdp_span().0, self.rdp_span().1),
            self.console_allocated().len() <= span_capacity(
                self.console_span().0,
                self.console_span().1,
            ),
            self.xpra_allocated().len() <= span_capacity(self.xpra_span().0, self.xpra_span().1),
    {
        lemma_span_count(self.rdp.taken@, self.rdp.start, self.rdp.end);
        lemma_span_count(self.console.taken@, self.console.start, self.console.end);
        lemma_span_count(self.xpra.taken@, self.xpra.start, self.xpra.end);
        assert forall|p: u16| self.rdp_allocated().contains(p) implies in_span(
            self.rdp_span(),
            p,
        ) by {
            let i = choose|i: int| 0 <= i < self.rdp.taken@.len() && self.rdp.taken@[i] == p;
        };
        assert forall|p: u16| self.console_allocated().contains(p) implies in_span(
            self.console_span(),
            p,
        ) by {
            let i = choose|i: int|
                0 <= i < self.console.taken@.len() && self.console.taken@[i] == p;
        };
        assert forall|p: u16| self.xpra_allocated().contains(p) implies in_span(
            self.xpra_span(),
            p,
        ) by {
            let i = choose|i: int| 0 <= i < self.xpra.taken@.len() && self.xpra.taken@[i] == p;
        };
    }

    /// A fresh pool over the three configured spans, with nothing allocated.
    pub fn new(rdp_range: Range<u16>, console_range: Range<u16>, xpra_range: Range<u16>) -> (r:
        PortPool)
        ensures
            r.wf(),
            r.rdp_span() == (rdp_range.start, rdp_range.end),
            r.console_span() == (console_range.start, console_range.end),
            r.xpra_span() == (xpra_range.start, xpra_range.end),
            r.rdp_allocated() == Set::<u16>::empty(),
            r.console_allocated() == Set::<u16>::empty(),
            r.xpra_allocated() == Set::<u16>::empty(),
    {
        PortPool {
            rdp: PoolPart::empty(rdp_range),
            console: PoolPart::empty(console_range),
            xpra: PoolPart::empty(xpra_range),
        }
    }

    /// Allocate the lowest free remote-desktop port, or report exhaustion.
    pub fn allocate_rdp(&mut self) -> (r: Option<u16>)
        requires
            old(self).wf(),
        ensures
            final(self).wf(),
            final(self).same_spans(*old(self)),
            final(self).console_allocated() == old(self).console_allocated(),
            final(self).xpra_allocated() == old(self).xpra_allocated(),
            match r {
                Some(p) => {
                    &&& in_span(old(self).rdp_span(), p)
                    &&& !old(self).rdp_allocated().contains(p)
                    &&& forall|q: u16|
                        old(self).rdp_span().0 <= q < p ==> old(self).rdp_allocated().contains(q)
                    &&& final(self).rdp_allocated() == old(self).rdp_allocated().insert(p)
                },
                None => {
                    &&& final(self).rdp_allocated() == old(self).rdp_allocated()
                    &&& span_full(old(self).rdp_span(), old(self).rdp_allocated())
                },
            },
    {
        self.rdp.allocate()
    }

    /// Allocate the lowest free console port, or report exhaustion.
    pub fn allocate_console(&mut self) -> (r: Option<u16>)
        requires
            old(self).wf(),
        ensures
            final(self).wf(),
            final(self).same_spans(*old(self)),
            final(self).rdp_allocated() == old(self).rdp_allocated(),
            final(self).xpra_allocated() == old(self).xpra_allocated(),
            match r {
                Some(p) => {
                    &&& in_span(old(self).console_span(), p)
                    &&& !old(self).console_allocated().contains(p)
                    &&& forall|q: u16|
                        old(self).console_span().0 <= q < p ==> old(
                            self,
                        ).console_allocated().contains(q)
                    &&& final(self).console_allocated() == old(self).console_allocated().insert(p)
                },
                None => {
                    &&& final(self).console_allocated() == old(self).console_allocated()
                    &&& span_full(old(self).console_span(), old(self).console_allocated())
                },
            },
    {
        self.console.allocate()
    }

    /// Allocate the lowest free auxiliary-display port, or report exhaustion.
    pub fn allocate_xpra(&mut self) -> (r: Option<u16>)
        requires
            old(self).wf(),
        ensures
            final(self).wf(),
            final(self).same_spans(*old(self)),
            final(self).rdp_allocated() == old(self).rdp_allocated(),
            final(self).console_allocated() == old(self).console_allocated(),
            match r {
                Some(p) => {
                    &&& in_span(old(self).xpra_span(), p)
                    &&& !old(self).xpra_allocated().contains(p)
                    &&& forall|q: u16|
                        old(self).xpra_span().0 <= q < p ==> old(self).xpra_allocated().contains(q)
                    &&& final(self).xpra_allocated() == old(self).xpra_allocated().insert(p)
                },
                None => {
                    &&& final(self).xpra_allocated() == old(self).xpra_allocated()
                    &&& span_full(old(self).xpra_span(), old(self).xpra_allocated())
                },
            },
    {
        self.xpra.allocate()
    }

    /// Allocate a remote-desktop and a console port together.  All-or-nothing:
    /// on failure nothing from this call stays allocated.
    pub fn allocate_pair(&mut self) -> (r: Option<(u16, u16)>)
        requires
            old(self).wf(),
        ensures
            final(self).wf(),
            final(self).same_spans(*old(self)),
            final(self).xpra_allocated() == old(self).xpra_allocated(),
            match r {
                Some(pair) => {
                    &&& in_span(old(self).rdp_span(), pair.0)
                    &&& in_span(old(self).console_span(), pair.1)
                    &&& !old(self).rdp_allocated().contains(pair.0)
                    &&& !old(self).console_allocated().contains(pair.1)
                    &&& forall|q: u16|
                        old(self).rdp_span().0 <= q < pair.0 ==> old(
                            self,
                        ).rdp_allocated().contains(q)
                    &&& forall|q: u16|
                        old(self).console_span().0 <= q < pair.1 ==> old(
                            self,
                        ).console_allocated().contains(q)
                    &&& final(self).rdp_allocated() == old(self).rdp_allocated().insert(pair.0)
                    &&& final(self).console_allocated() == old(self).console_allocated().insert(
                        pair.1,
                    )
                },
                None => {
                    &&& final(self).rdp_allocated() == old(self).rdp_allocated()
                    &&& final(self).console_allocated() == old(self).console_allocated()
                    &&& (span_full(old(self).rdp_span(), old(self).rdp_allocated()) || span_full(
                        old(self).console_span(),
                        old(self).console_allocated(),
                    ))
                },
            },
    {
        let ghost orig = *self;
        let rdp_port = match self.allocate_rdp() {
            Some(p) => p,
            None => {
                return None;
            },
        };
        match self.allocate_console() {
            Some(console_port) => Some((rdp_port, console_port)),
            None => {
                self.rdp.release(rdp_port);
                proof {
                    assert(orig.rdp_allocated().insert(rdp_port).remove(rdp_port)
                        =~= orig.rdp_allocated());
                }
                None
            },
        }
    }

    /// Allocate a remote-desktop, console and auxiliary-display port together.
    /// All-or-nothing: on failure nothing from this call stays allocated.
    pub fn allocate_triplet(&mut self) -> (r: Option<(u16, u16, u16)>)
        requires
            old(self).wf(),
        ensures
            final(self).wf(),
            final(self).same_spans(*old(self)),
            match r {
                Some(t) => {
                    &&& in_span(old(self).rdp_span(), t.0)
                    &&& in_span(old(self).console_span(), t.1)
                    &&& in_span(old(self).xpra_span(), t.2)
                    &&& !old(self).rdp_allocated().contains(t.0)
                    &&& !old(self).console_allocated().contains(t.1)
                    &&& !old(self).xpra_allocated().contains(t.2)
                    &&& forall|q: u16|
                        old(self).rdp_span().0 <= q < t.0 ==> old(self).rdp_allocated().contains(q)
                    &&& forall|q: u16|
                        old(self).console_span().0 <= q < t.1 ==> old(
                            self,
                        ).console_allocated().contains(q)
                    &&& forall|q: u16|
                        old(self).xpra_span().0 <= q < t.2 ==> old(
                            self,
                        ).xpra_allocated().contains(q)
                    &&& final(self).rdp_allocated() == old(self).rdp_allocated().insert(t.0)
                    &&& final(self).console_allocated() == old(self).console_allocated().insert(t.1)
                    &&& final(self).xpra_allocated() == old(self).xpra_allocated().insert(t.2)
                },
                None => {
                    &&& final(self).same_allocations(*old(self))
                    &&& (span_full(old(self).rdp_span(), old(self).rdp_allocated()) || span_full(
                        old(self).console_span(),
                        old(self).console_allocated(),
                    ) || span_full(old(self).xpra_span(), old(self).xpra_allocated()))
                },
            },
    {
        let ghost orig = *self;
        let rdp_port = match self.allocate_rdp() {
            Some(p) => p,
            None => {
                return None;
            },
        };
        let console_port = match self.allocate_console() {
            Some(p) => p,
            None => {
                self.rdp.release(rdp_port);
                proof {
                    assert(orig.rdp_allocated().insert(rdp_port).remove(rdp_port)
                        =~= orig.rdp_allocated());
                }
                return None;
            },
        };
        match self.allocate_xpra() {
            Some(xpra_port) => Some((rdp_port, console_port, xpra_port)),
            None => {
                self.console.release(console_port);
                self.rdp.release(rdp_port);
                proof {
                    assert(orig.rdp_allocated().insert(rdp_port).remove(rdp_port)
                        =~= orig.rdp_allocated());
                    assert(orig.console_allocated().insert(console_port).remove(console_port)
                        =~= orig.console_allocated());
                }
                None
            },
        }
    }

    /// Release a remote-desktop port; a no-op if it was not held.
    pub fn release_rdp(&mut self, port: u16)
        requires
            old(self).wf(),
        ensures
            final(self).wf(),
            final(self).same_spans(*old(self)),
            final(self).rdp_allocated() == old(self).rdp_allocated().remove(port),
            final(self).console_allocated() == old(self).console_allocated(),
            final(self).xpra_allocated() == old(self).xpra_allocated(),
    {
        self.rdp.release(port);
    }

    /// Release a console port; a no-op if it was not held.
    pub fn release_console(&mut self, port: u16)
        requires
            old(self).wf(),
        ensures
            final(self).wf(),
            final(self).same_spans(*old(self)),
            final(self).console_allocated() == old(self).console_allocated().remove(port),
            final(self).rdp_allocated() == old(self).rdp_allocated(),
            final(self).xpra_allocated() == old(self).xpra_allocated(),
    {
        self.console.release(port);
    }

    /// Release an auxiliary-display port; a no-op if it was not held.
    pub fn release_xpra(&mut self, port: u16)
        requires
            old(self).wf(),
        ensures
            final(self).wf(),
            final(self).same_spans(*old(self)),
            final(self).xpra_allocated() == old(self).xpra_allocated().remove(port),
            final(self).rdp_allocated() == old(self).rdp_allocated(),
            final(self).console_allocated() == old(self).console_allocated(),
    {
        self.xpra.release(port);
    }

    /// Release a remote-desktop and a console port; no-ops where not held.
    pub fn release_pair(&mut self, rdp_port: u16, console_port: u16)
        requires
            old(self).wf(),
        ensures
            final(self).wf(),
            final(self).same_spans(*old(self)),
            final(self).rdp_allocated() == old(self).rdp_allocated().remove(rdp_port),
            final(self).console_allocated() == old(self).console_allocated().remove(console_port),
            final(self).xpra_allocated() == old(self).xpra_allocated(),
    {
        self.release_rdp(rdp_port);
        self.release_console(console_port);
    }

    /// Release all three ports of a triplet; no-ops where not held.
    pub fn release_triplet(&mut self, rdp_port: u16, console_port: u16, xpra_port: u16)
        requires
            old(self).wf(),
        ensures
            final(self).wf(),
            final(self).same_spans(*old(self)),
            final(self).rdp_allocated() == old(self).rdp_allocated().remove(rdp_port),
            final(self).console_allocated() == old(self).console_allocated().remove(console_port),
            final(self).xpra_allocated() == old(self).xpra_allocated().remove(xpra_port),
    {
        self.release_rdp(rdp_port);
        self.release_console(console_port);
        self.release_xpra(xpra_port);
    }

    /// How many remote-desktop ports are still free.
    pub fn rdp_available(&self) -> (r: usize)
        requires
            self.wf(),
        ensures
            r == span_capacity(self.rdp_span().0, self.rdp_span().1) - self.rdp_allocated().len(),
    {
        self.rdp.available()
    }

    /// How many console ports are still free.
    pub fn console_available(&self) -> (r: usize)
        requires
            self.wf(),
        ensures
            r == span_capacity(self.console_span().0, self.console_span().1)
                - self.console_allocated().len(),
    {
        self.console.available()
    }

    /// How many auxiliary-display ports are still free.
    pub fn xpra_available(&self) -> (r: usize)
        requires
            self.wf(),
        ensures
            r == span_capacity(self.xpra_span().0, self.xpra_span().1)
                - self.xpra_allocated().len(),
    {
        self.xpra.available()
    }

    /// Mark an already-bound remote-desktop port as allocated (recovery);
    /// fails, changing nothing, if the port lies outside the configured span.
    pub fn add_existing_rdp(&mut self, port: u16) -> (r: Result<(), PortRangeError>)
        requires
            old(self).wf(),
        ensures
            final(self).wf(),
            final(self).same_spans(*old(self)),
            final(self).console_allocated() == old(self).console_allocated(),
            final(self).xpra_allocated() == old(self).xpra_allocated(),
            r is Ok <==> in_span(old(self).rdp_span(), port),
            r is Ok ==> final(self).rdp_allocated() == old(self).rdp_allocated().insert(port),
            r is Err ==> final(self).rdp_allocated() == old(self).rdp_allocated()
                && r->Err_0.port == port && (r->Err_0.lo, r->Err_0.hi) == old(self).rdp_span(),
    {
        let lo = self.rdp.start;
        let hi = self.rdp.end;
        if self.rdp.register(port) {
            Ok(())
        } else {
            Err(PortRangeError { port, lo, hi })
        }
    }

    /// Mark an already-bound console port as allocated (recovery);
    /// fails, changing nothing, if the port lies outside the configured span.
    pub fn add_existing_console(&mut self, port: u16) -> (r: Result<(), PortRangeError>)
        requires
            old(self).wf(),
        ensures
            final(self).wf(),
            final(self).same_spans(*old(self)),
            final(self).rdp_allocated() == old(self).rdp_allocated(),
            final(self).xpra_allocated() == old(self).xpra_allocated(),
            r is Ok <==> in_span(old(self).console_span(), port),
            r is Ok ==> final(self).console_allocated() == old(self).console_allocated().insert(
                port,
            ),
            r is Err ==> final(self).console_allocated() == old(self).console_allocated()
                && r->Err_0.port == port && (r->Err_0.lo, r->Err_0.hi) == old(self).console_span(),
    {
        let lo = self.console.start;
        let hi = self.console.end;
        if self.console.register(port) {
            Ok(())
        } else {
            Err(PortRangeError { port, lo, hi })
        }
    }

    /// Mark an already-bound auxiliary-display port as allocated (recovery);
    /// fails, changing nothing, if the port lies outside the configured span.
    pub fn add_existing_xpra(&mut self, port: u16) -> (r: Result<(), PortRangeError>)
        requires
            old(self).wf(),
        ensures
            final(self).wf(),
            final(self).same_spans(*old(self)),
            final(self).rdp_allocated() == old(self).rdp_allocated(),
            final(self).console_allocated() == old(self).console_allocated(),
            r is Ok <==> in_span(old(self).xpra_span(), port),
            r is Ok ==> final(self).xpra_allocated() == old(self).xpra_allocated().insert(port),
            r is Err ==> final(self).xpra_allocated() == old(self).xpra_allocated()
                && r->Err_0.port == port && (r->Err_0.lo, r->Err_0.hi) == old(self).xpra_span(),
    {
        let lo = self.xpra.start;
        let hi = self.xpra.end;
        if self.xpra.register(port) {
            Ok(())
        } else {
            Err(PortRangeError { port, lo, hi })
        }
    }

    /// Mark an already-bound remote-desktop/console pair as allocated
    /// (recovery).  All-or-nothing: if either port lies outside its span,
    /// nothing is registered.
    pub fn add_existing_pair(&mut self, rdp_port: u16, console_port: u16) -> (r: Result<
        (),
        PortRangeError,
    >)
        requires
            old(self).wf(),
        ensures
            final(self).wf(),
            final(self).same_spans(*old(self)),
            final(self).xpra_allocated() == old(self).xpra_allocated(),
            r is Ok <==> (in_span(old(self).rdp_span(), rdp_port) && in_span(
                old(self).console_span(),
                console_port,
            )),
            r is Ok ==> final(self).rdp_allocated() == old(self).rdp_allocated().insert(rdp_port)
                && final(self).console_allocated() == old(self).console_allocated().insert(
                console_port,
            ),
            r is Err ==> final(self).same_allocations(*old(self)),
    {
        if !(self.rdp.start <= rdp_port && rdp_port < self.rdp.end) {
            return Err(PortRangeError { port: rdp_port, lo: self.rdp.start, hi: self.rdp.end });
        }
        if !(self.console.start <= console_port && console_port < self.console.end) {
            return Err(
                PortRangeError { port: console_port, lo: self.console.start, hi: self.console.end },
            );
        }
        let _ = self.rdp.register(rdp_port);
        let _ = self.console.register(console_port);
        Ok(())
    }

    /// Mark an already-bound port triplet as allocated (recovery).
    /// All-or-nothing: if any port lies outside its span, nothing is
    /// registered.
    pub fn add_existing_triplet(&mut self, rdp_port: u16, console_port: u16, xpra_port: u16) -> (r:
        Result<(), PortRangeError>)
        requires
            old(self).wf(),
        ensures
            final(self).wf(),
            final(self).same_spans(*old(self)),
            r is Ok <==> (in_span(old(self).rdp_span(), rdp_port) && in_span(
                old(self).console_span(),
                console_port,
            ) && in_span(old(self).xpra_span(), xpra_port)),
            r is Ok ==> final(self).rdp_allocated() == old(self).rdp_allocated().insert(rdp_port)
                && final(self).console_allocated() == old(self).console_allocated().insert(
                console_port,
            ) && final(self).xpra_allocated() == old(self).xpra_allocated().insert(xpra_port),
            r is Err ==> final(self).same_allocations(*old(self)),
    {
        if !(self.rdp.start <= rdp_port && rdp_port < self.rdp.end) {
            return Err(PortRangeError { port: rdp_port, lo: self.rdp.start, hi: self.rdp.end });
        }
        if !(self.console.start <= console_port && console_port < self.console.end) {
            return Err(
                PortRangeError { port: console_port, lo: self.console.start, hi: self.console.end },
            );
        }
        if !(self.xpra.start <= xpra_port && xpra_port < self.xpra.end) {
            return Err(PortRangeError { port: xpra_port, lo: self.xpra.start, hi: self.xpra.end });
        }
        let _ = self.rdp.register(rdp_port);
        let _ = self.console.register(console_port);
        let _ = self.xpra.register(xpra_port);
        Ok(())
    }
}

/// A port offered for registration lay outside the configured span
/// `lo..hi`.
#[derive(Debug, Clone, PartialEq, Eq, Structural)]
pub struct PortRangeError {
    pub port: u16,
    pub lo: u16,
    pub hi: u16,
}

} // verus!
