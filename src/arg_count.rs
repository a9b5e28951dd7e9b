use vstd::prelude::*;

verus! {

/// One end of a range of argument counts.
#[derive(Clone, Copy, Debug, PartialEq, Eq, Structural)]
pub enum RangeBound {
    Included(usize),
    Excluded(usize),
    Unbounded,
}

/// How many arguments a function accepts.
#[derive(Clone, Copy, Debug, PartialEq, Eq, Structural)]
pub enum ArgCount {
    Fixed(usize),
    Range { min: usize, max: usize },
    /// At least `min` arguments; the first `max` are named slots, the rest are
    /// gathered into a list that sits in the slot after them.
    Variadic { min: usize, max: usize },
}

/// The lower end of a range of counts.
pub open spec fn lower_of(b: RangeBound) -> int {
    match b {
        RangeBound::Included(m) => m as int,
        RangeBound::Excluded(m) => m + 1,
        RangeBound::Unbounded => 0,
    }
}

/// The upper end of a range of counts, if there is one.
pub open spec fn upper_of(b: RangeBound) -> Option<int> {
    match b {
        RangeBound::Included(m) => Some(m as int),
        RangeBound::Excluded(m) => Some(m - 1),
        RangeBound::Unbounded => None,
    }
}

/// A range can be turned into a count when both ends fit in `usize`.
pub open spec fn bounds_fit(start: RangeBound, end: RangeBound) -> bool {
    &&& lower_of(start) <= usize::MAX
    &&& match upper_of(end) {
        Some(m) => 0 <= m,
        None => true,
    }
}

fn lower(start: RangeBound) -> (r: usize)
    requires
        lower_of(start) <= usize::MAX,
    ensures
        r == lower_of(start),
{
    match start {
        RangeBound::Included(m) => m,
        RangeBound::Excluded(m) => m + 1,
        RangeBound::Unbounded => 0,
    }
}

fn upper(end: RangeBound) -> (r: Option<usize>)
    requires
        match upper_of(end) {
            Some(m) => 0 <= m,
            None => true,
        },
    ensures
        match r {
            Some(m) => upper_of(end) == Some(m as int),
            None => upper_of(end) is None,
        },
{
    match end {
        RangeBound::Included(m) => Some(m),
        RangeBound::Excluded(m) => Some(m - 1),
        RangeBound::Unbounded => None,
    }
}

impl ArgCount {
    /// The count that `new` builds from a range: equal ends collapse to `Fixed`,
    /// an open upper end gives a variadic count with no named optional slots.
    pub open spec fn spec_new(start: RangeBound, end: RangeBound) -> ArgCount {
        let min = lower_of(start) as usize;
        match upper_of(end) {
            Some(max) => if min == max {
                ArgCount::Fixed(min)
            } else {
                ArgCount::Range { min, max: max as usize }
            },
            None => ArgCount::Variadic { min, max: min },
        }
    }

    pub fn new(start: RangeBound, end: RangeBound) -> (r: ArgCount)
        requires
            bounds_fit(start, end),
        ensures
            r == Self::spec_new(start, end),
    {
        let min = lower(start);
        match upper(end) {
            Some(max) => if min == max {
                ArgCount::Fixed(min)
            } else {
                ArgCount::Range { min, max }
            },
            None => ArgCount::Variadic { min, max: min },
        }
    }

    /// A variadic count: the upper end, if any, gives the number of named slots.
    pub fn new_variadic(start: RangeBound, end: RangeBound) -> (r: ArgCount)
        requires
            bounds_fit(start, end),
        ensures
            r == (match upper_of(end) {
                Some(max) => ArgCount::Variadic { min: lower_of(start) as usize, max: max as usize },
                None => ArgCount::Variadic {
                    min: lower_of(start) as usize,
                    max: lower_of(start) as usize,
                },
            }),
    {
        let min = lower(start);
        match upper(end) {
            Some(max) => ArgCount::Variadic { min, max },
            None => ArgCount::Variadic { min, max: min },
        }
    }

    pub open spec fn spec_min(self) -> usize {
        match self {
            ArgCount::Fixed(f) => f,
            ArgCount::Range { min, .. } => min,
            ArgCount::Variadic { min, .. } => min,
        }
    }

    pub open spec fn spec_max(self) -> Option<usize> {
        match self {
            ArgCount::Fixed(f) => Some(f),
            ArgCount::Range { max, .. } => Some(max),
            ArgCount::Variadic { .. } => None,
        }
    }

    /// The number of named argument slots.
    pub open spec fn spec_max_capped(self) -> usize {
        match self {
            ArgCount::Fixed(f) => f,
            ArgCount::Range { max, .. } => max,
            ArgCount::Variadic { max, .. } => max,
        }
    }

    pub open spec fn spec_valid_arg_count(self, n: usize) -> bool {
        match self {
            ArgCount::Fixed(f) => n == f,
            ArgCount::Range { min, max } => min <= n <= max,
            ArgCount::Variadic { min, .. } => min <= n,
        }
    }

    /// Slots that the arguments take in a frame; a variadic count adds one for the list.
    pub open spec fn spec_stack_size(self) -> int {
        match self {
            ArgCount::Fixed(f) => f as int,
            ArgCount::Range { max, .. } => max as int,
            ArgCount::Variadic { max, .. } => max + 1,
        }
    }

    pub open spec fn is_variadic(self) -> bool {
        self is Variadic
    }

    pub fn min(&self) -> (r: usize)
        ensures
            r == self.spec_min(),
    {
        match self {
            ArgCount::Fixed(f) => *f,
            ArgCount::Range { min, .. } => *min,
            ArgCount::Variadic { min, .. } => *min,
        }
    }

    pub fn max(&self) -> (r: Option<usize>)
        ensures
            r == self.spec_max(),
    {
        match self {
            ArgCount::Fixed(f) => Some(*f),
            ArgCount::Range { max, .. } => Some(*max),
            ArgCount::Variadic { .. } => None,
        }
    }

    pub fn max_capped(&self) -> (r: usize)
        ensures
            r == self.spec_max_capped(),
    {
        match self {
            ArgCount::Fixed(f) => *f,
            ArgCount::Range { max, .. } => *max,
            ArgCount::Variadic { max, .. } => *max,
        }
    }

    pub fn valid_arg_count(&self, n: usize) -> (r: bool)
        ensures
            r == self.spec_valid_arg_count(n),
    {
        match self {
            ArgCount::Fixed(f) => n == *f,
            ArgCount::Range { min, max } => *min <= n && n <= *max,
            ArgCount::Variadic { min, .. } => *min <= n,
        }
    }

    pub fn stack_size(&self) -> (r: usize)
        requires
            self.spec_stack_size() <= usize::MAX,
        ensures
            r == self.spec_stack_size(),
    {
        match self {
            ArgCount::Fixed(f) => *f,
            ArgCount::Range { max, .. } => *max,
            ArgCount::Variadic { max, .. } => *max + 1,
        }
    }
}

} // verus!
