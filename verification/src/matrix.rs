//! The field of live streaks and the per-frame update.
//!
//! Each frame is one pass: the surface is cleared, every streak paints
//! itself at its current position and then advances, and only streaks still
//! in bounds are kept. The frame that a pass produces and the streaks that
//! survive it are both pinned down exactly, so a paint that fails outside
//! the library can never disturb the simulation state.

use crate::cell::Cell;
use crate::line::Line;
use vstd::prelude::*;

verus! {

/// Everything the given streaks paint in one frame, in order: the cells of
/// the first streak, then of the second, and so on, each at its current
/// position.
pub open spec fn frame_of(lines: Seq<Line>, height: int) -> Seq<Cell>
    decreases lines.len(),
{
    if lines.len() == 0 {
        Seq::<Cell>::empty()
    } else {
        lines[0].render_seq(height) + frame_of(lines.drop_first(), height)
    }
}

/// The streaks that survive one update pass, in order: each advanced by one
/// tick, and kept exactly when still in bounds.
pub open spec fn survivors(lines: Seq<Line>, width: int, height: int) -> Seq<Line>
    decreases lines.len(),
{
    if lines.len() == 0 {
        Seq::<Line>::empty()
    } else {
        let first = lines[0].stepped();
        let rest = survivors(lines.drop_first(), width, height);
        if first.in_bounds_spec(width, height) {
            seq![first] + rest
        } else {
            rest
        }
    }
}

/// A frame grows streak by streak: appending a streak appends its cells.
pub proof fn lemma_frame_of_push(lines: Seq<Line>, l: Line, height: int)
    ensures
        frame_of(lines.push(l), height) == frame_of(lines, height) + l.render_seq(height),
    decreases lines.len(),
{
    let p = lines.push(l);
    if lines.len() == 0 {
        assert(p.drop_first() =~= Seq::<Line>::empty());
        assert(frame_of(p.drop_first(), height) == Seq::<Cell>::empty());
        assert(frame_of(lines, height) == Seq::<Cell>::empty());
        assert(p[0] == l);
        assert(frame_of(p, height) == l.render_seq(height) + frame_of(p.drop_first(), height));
        assert(frame_of(p, height) =~= frame_of(lines, height) + l.render_seq(height));
    } else {
        assert(p.drop_first() =~= lines.drop_first().push(l));
        lemma_frame_of_push(lines.drop_first(), l, height);
        assert(frame_of(p, height) == p[0].render_seq(height) + frame_of(p.drop_first(), height));
        assert(frame_of(lines, height) == lines[0].render_seq(height) + frame_of(
            lines.drop_first(),
            height,
        ));
        assert(p[0] == lines[0]);
        assert(frame_of(p, height) =~= frame_of(lines, height) + l.render_seq(height));
    }
}

/// The survivor list grows streak by streak: appending a streak appends its
/// advanced self exactly when that is still in bounds.
pub proof fn lemma_survivors_push(lines: Seq<Line>, l: Line, width: int, height: int)
    ensures
        survivors(lines.push(l), width, height) == survivors(lines, width, height) + (
        if l.stepped().in_bounds_spec(width, height) {
            seq![l.stepped()]
        } else {
            Seq::<Line>::empty()
        }),
    decreases lines.len(),
{
    let p = lines.push(l);
    let tail = if l.stepped().in_bounds_spec(width, height) {
        seq![l.stepped()]
    } else {
        Seq::<Line>::empty()
    };
    if lines.len() == 0 {
        assert(p.drop_first() =~= Seq::<Line>::empty());
        assert(survivors(p.drop_first(), width, height) == Seq::<Line>::empty());
        assert(survivors(lines, width, height) == Seq::<Line>::empty());
        assert(p[0] == l);
        assert(survivors(p, width, height) =~= survivors(lines, width, height) + tail);
    } else {
        assert(p.drop_first() =~= lines.drop_first().push(l));
        lemma_survivors_push(lines.drop_first(), l, width, height);
        assert(p[0] == lines[0]);
        assert(survivors(p, width, height) == (if p[0].stepped().in_bounds_spec(width, height) {
            seq![p[0].stepped()] + survivors(p.drop_first(), width, height)
        } else {
            survivors(p.drop_first(), width, height)
        }));
        assert(survivors(lines, width, height) == (if lines[0].stepped().in_bounds_spec(
            width,
            height,
        ) {
            seq![lines[0].stepped()] + survivors(lines.drop_first(), width, height)
        } else {
            survivors(lines.drop_first(), width, height)
        }));
        assert(survivors(p, width, height) =~= survivors(lines, width, height) + tail);
    }
}

/// No streak outlives its bounds: everything an update pass keeps is in
/// bounds, so a streak whose tail has passed the bottom is gone the frame
/// it happens.
pub proof fn lemma_survivors_in_bounds(lines: Seq<Line>, width: int, height: int)
    ensures
        forall|i: int|
            0 <= i < survivors(lines, width, height).len() ==> survivors(
                lines,
                width,
                height,
            )[i].in_bounds_spec(width, height),
    decreases lines.len(),
{
    if lines.len() > 0 {
        lemma_survivors_in_bounds(lines.drop_first(), width, height);
        let rest = survivors(lines.drop_first(), width, height);
        if lines[0].stepped().in_bounds_spec(width, height) {
            assert(survivors(lines, width, height) == seq![lines[0].stepped()] + rest);
            assert(forall|i: int|
                1 <= i < survivors(lines, width, height).len() ==> survivors(
                    lines,
                    width,
                    height,
                )[i] == rest[i - 1]);
        } else {
            assert(survivors(lines, width, height) == rest);
        }
    }
}

/// All the state that persists between frames: the live streaks.
#[derive(Clone, Debug)]
pub struct Matrix {
    /// The live streaks, oldest first.
    pub lines: Vec<Line>,
}

impl Matrix {
    /// Every held streak is well-formed.
    pub open spec fn wf(self) -> bool {
        forall|i: int| 0 <= i < self.lines@.len() ==> self.lines@[i].wf()
    }

    /// An empty field.
    pub fn new() -> (m: Matrix)
        ensures
            m.lines@.len() == 0,
            m.wf(),
    {
        Matrix { lines: Vec::new() }
    }

    /// Add one streak.
    pub fn add_line(&mut self, line: Line)
        requires
            old(self).wf(),
            line.wf(),
        ensures
            final(self).lines@ == old(self).lines@.push(line),
            final(self).wf(),
    {
        self.lines.push(line)
    }

    /// Spawn one random streak scoped to the current width.
    pub fn add_random_line(&mut self, rng: &mut rand::rngs::ThreadRng, width: u16)
        requires
            old(self).wf(),
            width > 0,
        ensures
            final(self).lines@.len() == old(self).lines@.len() + 1,
            final(self).lines@.take(old(self).lines@.len() as int) == old(self).lines@,
            final(self).lines@.last().wf(),
            final(self).lines@.last().x < width,
            final(self).lines@.last().y_milli == -1000 * (final(self).lines@.last().length as int),
            final(self).wf(),
    {
        let line = Line::new(rng, width);
        self.add_line(line);
        proof {
            assert(final(self).lines@.take(old(self).lines@.len() as int) =~= old(self).lines@);
        }
    }

    /// One frame: clear the surface, paint every streak at its current
    /// position, advance each one, and keep exactly those still in bounds.
    /// The painted cells are precisely the frame of the streaks as they
    /// stood when the pass began.
    #[verifier::loop_isolation(false)]
    pub fn update(&mut self, cells: &mut Vec<Cell>, width: u16, height: u16)
        requires
            old(self).wf(),
        ensures
            final(cells)@ == frame_of(old(self).lines@, height as int),
            final(self).lines@ == survivors(old(self).lines@, width as int, height as int),
            final(self).wf(),
    {
        cells.clear();
        let mut kept: Vec<Line> = Vec::new();
        let n = self.lines.len();
        let mut i: usize = 0;
        while i < n
            invariant
                i <= n,
                cells@ == frame_of(self.lines@.take(i as int), height as int),
                kept@ == survivors(self.lines@.take(i as int), width as int, height as int),
                forall|j: int| 0 <= j < kept@.len() ==> kept@[j].wf(),
            decreases n - i,
        {
            let mut l = self.lines[i];
            l.draw(cells, height);
            l.advance();
            if l.in_bounds(width, height) {
                kept.push(l);
            }
            proof {
                let prefix = self.lines@.take(i as int);
                let cur = self.lines@[i as int];
                assert(self.lines@.take(i as int + 1) =~= prefix.push(cur));
                lemma_frame_of_push(prefix, cur, height as int);
                lemma_survivors_push(prefix, cur, width as int, height as int);
                if cur.stepped().in_bounds_spec(width as int, height as int) {
                    assert(kept@ =~= survivors(prefix, width as int, height as int) + seq![
                        cur.stepped(),
                    ]);
                }
            }
            i = i + 1;
        }
        proof {
            assert(self.lines@.take(n as int) =~= self.lines@);
        }
        self.lines = kept;
    }
}

} // verus!
