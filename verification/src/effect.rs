//! Effects: a tree of leaf transforms and the combinators that arrange them.

use crate::color::{Rgb, Style};
use crate::geometry::{Area, Offset};
use crate::pattern::Pattern;
use vstd::prelude::*;

verus! {

/// The name of an easing curve.
#[derive(Clone, Copy, Debug, PartialEq, Eq, Structural)]
pub enum Interpolation {
    Linear,
    QuadIn,
    QuadOut,
    CubicIn,
    CubicOut,
    CircIn,
    CircOut,
}

/// A choice of cells by their current content.
#[derive(Clone, Copy, Debug, PartialEq, Eq, Structural)]
pub enum CellFilter {
    /// Every cell.
    All,
    /// Cells that carry text.
    Text,
    /// Cells that carry no text.
    NonText,
}

/// Which end of a fade the given colours are.
#[derive(Clone, Copy, Debug, PartialEq, Eq, Structural)]
pub enum FadeDirection {
    /// From the given colours to each cell's own.
    From,
    /// From each cell's own colours to the given ones.
    To,
}

/// How long a transform runs, in milliseconds, and along which curve.
#[derive(Clone, Copy, Debug, PartialEq, Eq, Structural)]
pub struct Timer {
    pub duration_ms: u32,
    pub curve: Interpolation,
}

/// The name of a progression of glyphs from sparse to solid.
#[derive(Clone, Copy, Debug, PartialEq, Eq, Structural)]
pub enum SymbolSet {
    BlocksHorizontal,
    BlocksVertical,
    CircleFill,
    Circles,
    Quadrants,
    Shaded,
    Squares,
}

/// What an effect sets for itself: the area it is confined to, the cells
/// it selects, and the pattern that staggers them.
#[derive(Clone, Copy, Debug, PartialEq, Eq, Structural)]
pub struct Settings {
    pub area: Option<Area>,
    pub filter: Option<CellFilter>,
    pub pattern: Option<Pattern>,
}

/// One node of an effect tree.
#[derive(Debug)]
pub struct Effect {
    pub settings: Settings,
    pub kind: Kind,
}

/// The transform or combinator of a node.
#[derive(Debug)]
pub enum Kind {
    /// Moves each cell's glyph through a symbol set and its colours toward
    /// a style. With `descending` set the glyphs run from solid to sparse.
    Evolve { symbols: SymbolSet, style: Style, descending: bool, timer: Timer },
    /// Blends each cell's foreground and background between the given
    /// colours and the cell's own.
    Fade { fg: Rgb, bg: Rgb, direction: FadeDirection, timer: Timer },
    /// Shows the inner effect displaced by an offset that grows over the
    /// timer's duration.
    Translate { inner: Box<Effect>, offset: Offset, timer: Timer },
    /// Runs the children one after another.
    Sequence(Vec<Effect>),
    /// Runs the children side by side.
    Parallel(Vec<Effect>),
    /// Runs the inner effect backwards in time.
    Reversed(Box<Effect>),
    /// Holds the inner effect at its start for a while before it runs.
    ProlongStart { delay_ms: u32, inner: Box<Effect> },
}

impl Timer {
    /// A timer of `duration_ms` milliseconds along `curve`.
    pub fn new(duration_ms: u32, curve: Interpolation) -> (t: Timer)
        ensures
            t == (Timer { duration_ms, curve }),
    {
        Timer { duration_ms, curve }
    }
}

impl Settings {
    /// Whether the pattern, if one is set, has its parameters in range.
    pub open spec fn valid(self) -> bool {
        match self.pattern {
            Some(p) => p.valid(),
            None => true,
        }
    }

    /// The settings with nothing set.
    pub open spec fn none() -> Settings {
        Settings { area: None, filter: None, pattern: None }
    }

    /// Settings with nothing set.
    pub fn new() -> (s: Settings)
        ensures
            s == Settings::none(),
            s.valid(),
    {
        Settings { area: None, filter: None, pattern: None }
    }

    /// Decides whether the pattern's parameters are in range.
    pub fn is_valid(&self) -> (r: bool)
        ensures
            r == self.valid(),
    {
        match &self.pattern {
            Some(p) => p.is_valid(),
            None => true,
        }
    }

}

/// The summed duration of the first `n` effects of a list.
pub open spec fn total_duration(effects: Seq<Effect>, n: nat) -> nat
    decreases effects, n,
{
    if n == 0 || n > effects.len() {
        0
    } else {
        total_duration(effects, (n - 1) as nat) + effects[n - 1].duration_of()
    }
}

/// The longest duration among the first `n` effects of a list.
pub open spec fn longest_duration(effects: Seq<Effect>, n: nat) -> nat
    decreases effects, n,
{
    if n == 0 || n > effects.len() {
        0
    } else {
        let rest = longest_duration(effects, (n - 1) as nat);
        let last = effects[n - 1].duration_of();
        if rest >= last {
            rest
        } else {
            last
        }
    }
}

impl Effect {
    /// The effect's total duration in milliseconds: a leaf's own, the sum
    /// over a sequence, the maximum over parallel effects, the inner
    /// effect's for a reversal, and delay plus inner effect for a held start.
    pub open spec fn duration_of(self) -> nat
        decreases self, 0nat,
    {
        match self.kind {
            Kind::Evolve { timer, .. } => timer.duration_ms as nat,
            Kind::Fade { timer, .. } => timer.duration_ms as nat,
            Kind::Translate { timer, .. } => timer.duration_ms as nat,
            Kind::Sequence(children) => total_duration(children@, children@.len()),
            Kind::Parallel(children) => longest_duration(children@, children@.len()),
            Kind::Reversed(inner) => inner.duration_of(),
            Kind::ProlongStart { delay_ms, inner } => delay_ms as nat + inner.duration_of(),
        }
    }

    /// Whether the effect is well formed: the pattern parameters of every
    /// node are in range, and every node's duration fits in 64 bits.
    pub open spec fn wf(self) -> bool
        decreases self,
    {
        &&& self.settings.valid()
        &&& self.duration_of() <= u64::MAX
        &&& match self.kind {
            Kind::Evolve { .. } => true,
            Kind::Fade { .. } => true,
            Kind::Translate { inner, .. } => inner.wf(),
            Kind::Sequence(children) => forall|i: int|
                0 <= i < children@.len() ==> (#[trigger] children@[i]).wf(),
            Kind::Parallel(children) => forall|i: int|
                0 <= i < children@.len() ==> (#[trigger] children@[i]).wf(),
            Kind::Reversed(inner) => inner.wf(),
            Kind::ProlongStart { inner, .. } => inner.wf(),
        }
    }
}

/// A longer prefix of a list has no smaller summed duration.
pub proof fn lemma_total_duration_grows(effects: Seq<Effect>, i: nat, n: nat)
    requires
        i <= n <= effects.len(),
    ensures
        total_duration(effects, i) <= total_duration(effects, n),
    decreases n,
{
    if i < n {
        lemma_total_duration_grows(effects, i, (n - 1) as nat);
    }
}

/// The longest duration of a prefix bounds each of its effects, and grows
/// with the prefix.
pub proof fn lemma_longest_duration_bounds(effects: Seq<Effect>, i: nat, n: nat)
    requires
        i <= n <= effects.len(),
    ensures
        longest_duration(effects, i) <= longest_duration(effects, n),
        i < n ==> effects[i as int].duration_of() <= longest_duration(effects, n),
    decreases n,
{
    if i < n {
        lemma_longest_duration_bounds(effects, i, (n - 1) as nat);
    }
}

/// Parallel effects last at least as long as each of them, and a sequence
/// at least as long as each of its children.
pub proof fn lemma_children_fit(e: Effect, i: int)
    requires
        e.kind is Parallel || e.kind is Sequence,
        0 <= i < (if e.kind is Parallel {
            e.kind->Parallel_0@.len()
        } else {
            e.kind->Sequence_0@.len()
        }),
    ensures
        e.kind is Parallel ==> e.kind->Parallel_0@[i].duration_of() <= e.duration_of(),
        e.kind is Sequence ==> e.kind->Sequence_0@[i].duration_of() <= e.duration_of(),
{
    if e.kind is Parallel {
        let children = e.kind->Parallel_0@;
        lemma_longest_duration_bounds(children, i as nat, children.len());
    } else {
        let children = e.kind->Sequence_0@;
        lemma_total_duration_grows(children, (i + 1) as nat, children.len());
        lemma_total_duration_grows(children, i as nat, (i + 1) as nat);
    }
}

/// Where every effect's duration fits in 64 bits, so does the longest.
pub proof fn lemma_longest_duration_fits(effects: Seq<Effect>, n: nat)
    requires
        n <= effects.len(),
        forall|i: int| 0 <= i < effects.len() ==> (#[trigger] effects[i]).wf(),
    ensures
        longest_duration(effects, n) <= u64::MAX,
    decreases n,
{
    if n > 0 {
        lemma_longest_duration_fits(effects, (n - 1) as nat);
        assert(effects[n - 1].wf());
    }
}

impl Effect {
    /// Checks the effect and measures it: the total duration if the effect
    /// is well formed, nothing if it is not.
    pub fn validate(&self) -> (r: Option<u64>)
        ensures
            r.is_some() == self.wf(),
            r.is_some() ==> r.unwrap() == self.duration_of(),
        decreases self,
    {
        if !self.settings.is_valid() {
            return None;
        }
        match &self.kind {
            Kind::Evolve { timer, .. } => Some(timer.duration_ms as u64),
            Kind::Fade { timer, .. } => Some(timer.duration_ms as u64),
            Kind::Translate { inner, timer, .. } => match inner.validate() {
                Some(_) => Some(timer.duration_ms as u64),
                None => None,
            },
            Kind::Sequence(children) => {
                let mut sum: u64 = 0;
                let mut i: usize = 0;
                while i < children.len()
                    invariant
                        i <= children.len(),
                        self.kind is Sequence,
                        self.kind->Sequence_0 == *children,
                        sum == total_duration(children@, i as nat),
                        forall|j: int| 0 <= j < i ==> (#[trigger] children@[j]).wf(),
                    decreases children.len() - i,
                {
                    proof {
                        lemma_total_duration_grows(
                            children@,
                            (i + 1) as nat,
                            children@.len() as nat,
                        );
                    }
                    assert(decreases_to!(*children => children[i as int]));
                    match children[i].validate() {
                        Some(d) => {
                            if d > u64::MAX - sum {
                                return None;
                            }
                            sum = sum + d;
                        },
                        None => {
                            return None;
                        },
                    }
                    i = i + 1;
                }
                Some(sum)
            },
            Kind::Parallel(children) => {
                let mut longest: u64 = 0;
                let mut i: usize = 0;
                while i < children.len()
                    invariant
                        i <= children.len(),
                        self.kind is Parallel,
                        self.kind->Parallel_0 == *children,
                        longest == longest_duration(children@, i as nat),
                        forall|j: int| 0 <= j < i ==> (#[trigger] children@[j]).wf(),
                    decreases children.len() - i,
                {
                    assert(decreases_to!(*children => children[i as int]));
                    match children[i].validate() {
                        Some(d) => {
                            if d > longest {
                                longest = d;
                            }
                        },
                        None => {
                            return None;
                        },
                    }
                    i = i + 1;
                }
                Some(longest)
            },
            Kind::Reversed(inner) => inner.validate(),
            Kind::ProlongStart { delay_ms, inner } => match inner.validate() {
                Some(d) => {
                    if d > u64::MAX - *delay_ms as u64 {
                        None
                    } else {
                        Some(*delay_ms as u64 + d)
                    }
                },
                None => None,
            },
        }
    }

    /// The total duration of a well-formed effect, in milliseconds.
    pub fn duration(&self) -> (d: u64)
        requires
            self.wf(),
        ensures
            d == self.duration_of(),
    {
        match self.validate() {
            Some(d) => d,
            None => 0,
        }
    }
}

impl Effect {
    /// An effect that takes each cell of its area through `symbols`, from
    /// the sparsest glyph to the most solid, and to the colours of `style`.
    pub fn evolve(symbols: SymbolSet, style: Style, timer: Timer) -> (e: Effect)
        ensures
            e.settings == Settings::none(),
            e.kind == (Kind::Evolve { symbols, style, descending: false, timer }),
            e.wf(),
            e.duration_of() == timer.duration_ms,
    {
        Effect {
            settings: Settings::new(),
            kind: Kind::Evolve { symbols, style, descending: false, timer },
        }
    }

    /// As [`Effect::evolve`], with the glyphs running from the most solid
    /// to the sparsest.
    pub fn evolve_from(symbols: SymbolSet, style: Style, timer: Timer) -> (e: Effect)
        ensures
            e.settings == Settings::none(),
            e.kind == (Kind::Evolve { symbols, style, descending: true, timer }),
            e.wf(),
            e.duration_of() == timer.duration_ms,
    {
        Effect {
            settings: Settings::new(),
            kind: Kind::Evolve { symbols, style, descending: true, timer },
        }
    }

    /// An effect that fades each cell in from the given colours to its own.
    pub fn fade_from(fg: Rgb, bg: Rgb, timer: Timer) -> (e: Effect)
        ensures
            e.settings == Settings::none(),
            e.kind == (Kind::Fade { fg, bg, direction: FadeDirection::From, timer }),
            e.wf(),
            e.duration_of() == timer.duration_ms,
    {
        Effect {
            settings: Settings::new(),
            kind: Kind::Fade { fg, bg, direction: FadeDirection::From, timer },
        }
    }

    /// An effect that fades each cell out from its own colours to the given
    /// ones.
    pub fn fade_to(fg: Rgb, bg: Rgb, timer: Timer) -> (e: Effect)
        ensures
            e.settings == Settings::none(),
            e.kind == (Kind::Fade { fg, bg, direction: FadeDirection::To, timer }),
            e.wf(),
            e.duration_of() == timer.duration_ms,
    {
        Effect {
            settings: Settings::new(),
            kind: Kind::Fade { fg, bg, direction: FadeDirection::To, timer },
        }
    }

    /// An effect that shows `inner` displaced by a share of `offset` that
    /// grows over the timer's duration.
    pub fn translate(inner: Effect, offset: Offset, timer: Timer) -> (e: Effect)
        ensures
            e.settings == Settings::none(),
            e.kind == (Kind::Translate { inner: Box::new(inner), offset, timer }),
            e.wf() == inner.wf(),
            e.duration_of() == timer.duration_ms,
    {
        Effect {
            settings: Settings::new(),
            kind: Kind::Translate { inner: Box::new(inner), offset, timer },
        }
    }

    /// An effect that runs `children` one after another. It lasts as long
    /// as all of them together.
    pub fn sequence(children: Vec<Effect>) -> (e: Effect)
        ensures
            e.settings == Settings::none(),
            e.kind == Kind::Sequence(children),
            e.duration_of() == total_duration(children@, children@.len()),
            e.wf() == (total_duration(children@, children@.len()) <= u64::MAX && forall|i: int|
                0 <= i < children@.len() ==> (#[trigger] children@[i]).wf()),
    {
        Effect { settings: Settings::new(), kind: Kind::Sequence(children) }
    }

    /// An effect that runs `children` side by side. It lasts as long as the
    /// longest of them.
    pub fn parallel(children: Vec<Effect>) -> (e: Effect)
        ensures
            e.settings == Settings::none(),
            e.kind == Kind::Parallel(children),
            e.duration_of() == longest_duration(children@, children@.len()),
            e.wf() == (forall|i: int|
                0 <= i < children@.len() ==> (#[trigger] children@[i]).wf()),
    {
        proof {
            if forall|i: int| 0 <= i < children@.len() ==> (#[trigger] children@[i]).wf() {
                lemma_longest_duration_fits(children@, children@.len());
            }
        }
        Effect { settings: Settings::new(), kind: Kind::Parallel(children) }
    }

    /// The effect run backwards in time.
    pub fn reversed(self) -> (e: Effect)
        ensures
            e.settings == Settings::none(),
            e.kind == Kind::Reversed(Box::new(self)),
            e.wf() == self.wf(),
            e.duration_of() == self.duration_of(),
    {
        Effect { settings: Settings::new(), kind: Kind::Reversed(Box::new(self)) }
    }

    /// An effect that holds `inner` at its start for `delay_ms`
    /// milliseconds and then runs it.
    pub fn prolong_start(delay_ms: u32, inner: Effect) -> (e: Effect)
        ensures
            e.settings == Settings::none(),
            e.kind == (Kind::ProlongStart { delay_ms, inner: Box::new(inner) }),
            e.wf() == (inner.wf() && delay_ms + inner.duration_of() <= u64::MAX),
            e.duration_of() == delay_ms + inner.duration_of(),
    {
        Effect {
            settings: Settings::new(),
            kind: Kind::ProlongStart { delay_ms, inner: Box::new(inner) },
        }
    }

    /// The effect with its own area.
    pub fn with_area(self, area: Area) -> (e: Effect)
        ensures
            e.kind == self.kind,
            e.settings == (Settings { area: Some(area), ..self.settings }),
            e.wf() == self.wf(),
            e.duration_of() == self.duration_of(),
    {
        let settings = Settings {
            area: Some(area),
            filter: self.settings.filter,
            pattern: self.settings.pattern,
        };
        Effect { settings, kind: self.kind }
    }

    /// The effect with its own filter.
    pub fn with_filter(self, filter: CellFilter) -> (e: Effect)
        ensures
            e.kind == self.kind,
            e.settings == (Settings { filter: Some(filter), ..self.settings }),
            e.wf() == self.wf(),
            e.duration_of() == self.duration_of(),
    {
        let settings = Settings {
            area: self.settings.area,
            filter: Some(filter),
            pattern: self.settings.pattern,
        };
        Effect { settings, kind: self.kind }
    }

    /// The effect with its own pattern, whose parameters must be in range.
    pub fn with_pattern(self, pattern: Pattern) -> (e: Effect)
        requires
            pattern.valid(),
        ensures
            e.kind == self.kind,
            e.settings == (Settings { pattern: Some(pattern), ..self.settings }),
            e.duration_of() == self.duration_of(),
            self.wf() ==> e.wf(),
    {
        let settings = Settings {
            area: self.settings.area,
            filter: self.settings.filter,
            pattern: Some(pattern),
        };
        Effect { settings, kind: self.kind }
    }
}

} // verus!
