//! The trace of an error: a linked list of trace points, newest first.

use vstd::prelude::*;

use crate::text::{append_line, trace_line, trace_line_string, trace_text};

verus! {

/// A stack trace: the current point and the previous one, closer to the root of
/// the error.
pub struct Trace {
    /// Description of the current point (e.g. `"src/main.rs:42"`).
    pub point: String,
    /// The previous trace point.
    pub prev: Option<Box<Trace>>,
}

/// The points of an optional trace, newest first; none where there is no trace.
pub open spec fn points_of(trace: Option<Trace>) -> Seq<Seq<char>> {
    match trace {
        Some(t) => t@,
        None => Seq::empty(),
    }
}

/// The points of a trace, newest first.
pub open spec fn trace_points(trace: Trace) -> Seq<Seq<char>>
    decreases trace,
{
    seq![trace.point@] + match trace.prev {
        Some(p) => trace_points(*p),
        None => Seq::empty(),
    }
}

impl View for Trace {
    type V = Seq<Seq<char>>;

    open spec fn view(&self) -> Seq<Seq<char>> {
        trace_points(*self)
    }
}

impl Trace {
    /// A trace always holds at least its own point.
    pub proof fn lemma_nonempty(&self)
        ensures
            self@.len() >= 1,
            self@[0] == self.point@,
            self@.drop_first() == points_of(
                match self.prev {
                    Some(p) => Some(*p),
                    None => None,
                },
            ),
    {
        assert(self@.drop_first() =~= points_of(
            match self.prev {
                Some(p) => Some(*p),
                None => None,
            },
        ));
    }

    /// Creates a trace whose newest point is `point`, on top of `prev`.
    pub fn new(point: String, prev: Option<Trace>) -> (r: Trace)
        ensures
            r.point == point,
            r.prev == match prev {
                Some(p) => Some(Box::new(p)),
                None => None,
            },
            r@ == seq![point@] + points_of(prev),
    {
        let r = Trace {
            point,
            prev: match prev {
                Some(p) => Some(Box::new(p)),
                None => None,
            },
        };
        assert(r@ =~= seq![r.point@] + points_of(prev));
        r
    }

    /// Renders the trace one point per line, newest first, numbering the lines
    /// from `inner` on: `| [inner] point`, `| [inner + 1] previous point`, ...
    pub fn display(&self, inner: usize) -> (r: String)
        requires
            inner + self@.len() - 1 <= usize::MAX,
        ensures
            r@ == trace_text(self@, inner as nat),
        decreases self,
    {
        proof {
            self.lemma_nonempty();
        }
        let mut s = trace_line_string(inner, self.point.as_str());
        match &self.prev {
            Some(p) => {
                proof {
                    p.lemma_nonempty();
                }
                let rest = p.display(inner + 1);
                append_line(&mut s, rest.as_str());
            },
            None => {},
        }
        s
    }

    /// The rendering of a trace with an older point is its newest line, a line
    /// break, and the rendering of the older trace numbered one further on.
    pub proof fn law_prev_follows_point(&self, k: nat)
        requires
            self.prev is Some,
        ensures
            trace_text(self@, k) == trace_line(k, self.point@) + seq!['\n'] + trace_text(
                self.prev.unwrap()@,
                k + 1,
            ),
    {
        self.lemma_nonempty();
        self.prev.unwrap().lemma_nonempty();
    }

    /// A copy of the trace, point by point.
    pub fn duplicate(&self) -> (r: Trace)
        ensures
            r@ == self@,
        decreases self,
    {
        let prev = match &self.prev {
            Some(p) => Some(Box::new(p.duplicate())),
            None => None,
        };
        let r = Trace { point: self.point.clone(), prev };
        assert(r@ =~= self@);
        r
    }

    /// The full rendering of the trace, numbered from 0.
    pub fn display_text(&self) -> (r: String)
        requires
            self@.len() - 1 <= usize::MAX,
        ensures
            r@ == trace_text(self@, 0),
    {
        self.display(0)
    }
}

} // verus!
