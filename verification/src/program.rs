//! Programs the handler can run, and the snake game run as one: with no
//! player input the snake holds its course until it meets a wall. A finished
//! run is an input-free run of the tick model, ending the normal way (the
//! snake dead, `Ok`) or on a fatal condition (`Err` with its description).

use vstd::prelude::*;
use crate::{GAME_HEIGHT, GAME_WIDTH};
use crate::engine::{step, FatalError, GameView, SnakeGame};
use crate::geometry::Direction;
use crate::laws::{lemma_run_result_snoc, run_result};

verus! {

/// Something the handler can run to completion.
pub trait Program: Sized {
    /// The state the program needs before a run.
    spec fn inv(&self) -> bool;

    /// What a finished run guarantees: how the state after relates to the
    /// state before, and what each outcome means.
    spec fn run_post(pre: Self, cur: Self, r: Result<(), &'static str>) -> bool;

    /// Runs the program until it finishes or fails.
    fn run(&mut self) -> (r: Result<(), &'static str>)
        requires
            old(self).inv(),
        ensures
            Self::run_post(*old(self), *final(self), r),
    ;
}

/// Runs any program.
pub fn program_handler<P: Program>(prog: &mut P) -> (r: Result<(), &'static str>)
    requires
        old(prog).inv(),
    ensures
        P::run_post(*old(prog), *final(prog), r),
{
    prog.run()
}

/// How many surviving moves the head can still make before the wall ahead:
/// the measure that bounds an input-free run.
pub open spec fn wall_distance(v: GameView) -> int {
    match v.dir {
        Direction::Up => v.body[0].y as int,
        Direction::Down => GAME_HEIGHT + 1 - v.body[0].y,
        Direction::Left => v.body[0].x as int,
        Direction::Right => GAME_WIDTH + 1 - v.body[0].x,
    }
}

/// The run measure: strictly falls on every tick of an input-free game that
/// has not yet ended.
pub open spec fn run_measure(v: GameView) -> int {
    if v.alive {
        wall_distance(v)
    } else {
        0
    }
}

/// The key sequence feeds no input: every entry is an empty read.
pub open spec fn all_none(keys: Seq<Option<char>>) -> bool {
    forall|i: int| 0 <= i < keys.len() ==> keys[i] is None
}

/// What running the game to its end means: some input-free run of the tick
/// model leads from the state before to the state after, `Ok` exactly when
/// that run ended with the snake dead and no fatal halt, `Err` exactly when
/// it ended on the fatal condition returned.
pub open spec fn played_out(pre: GameView, cur: GameView, r: Result<(), FatalError>) -> bool {
    exists|keys: Seq<Option<char>>|
        {
            &&& all_none(keys)
            &&& #[trigger] run_result(pre, keys).0 == cur
            &&& (match r {
                Ok(()) => run_result(pre, keys).1 is None && !cur.alive,
                Err(e) => run_result(pre, keys).1 == Some(e),
            })
        }
}

impl<'a> SnakeGame<'a> {
    /// Ticks the game without input until the snake dies. With nothing
    /// pending the direction never changes, so the head marches into the
    /// wall ahead; `Ok` means the game ended the normal way, `Err` that a
    /// fatal condition halted it.
    #[verifier::loop_isolation(false)]
    pub fn play_to_end(&mut self) -> (r: Result<(), FatalError>)
        requires
            old(self).wf(),
            old(self)@.pending.len() == 0,
        ensures
            final(self).wf(),
            played_out(old(self)@, final(self)@, r),
    {
        let ghost mut keys: Seq<Option<char>> = Seq::empty();
        while self.alive
            invariant
                self.wf(),
                self@.pending.len() == 0,
                all_none(keys),
                run_result(old(self)@, keys).0 == self@,
                run_result(old(self)@, keys).1 is None,
            decreases run_measure(self@),
        {
            let ghost pre = self@;
            let outcome = self.tick(None);
            proof {
                lemma_run_result_snoc(old(self)@, keys, None);
                keys = keys.push(None);
                assert(all_none(keys));
                assert(run_result(old(self)@, keys).0 == step(pre, None).0);
                assert(run_result(old(self)@, keys).1 == step(pre, None).1);
            }
            match outcome {
                Ok(_) => {},
                Err(e) => {
                    proof {
                        assert(run_result(old(self)@, keys).0 == final(self)@);
                        assert(run_result(old(self)@, keys).1 == Some(e));
                    }
                    return Err(e);
                },
            }
            proof {
                assert(run_measure(self@) < run_measure(pre));
            }
        }
        proof {
            assert(run_result(old(self)@, keys).0 == final(self)@);
        }
        Ok(())
    }
}

impl<'a> Program for SnakeGame<'a> {
    /// A well-formed game with nothing pending.
    open spec fn inv(&self) -> bool {
        self.wf() && self@.pending.len() == 0
    }

    /// The game played itself out: an input-free run of the tick model,
    /// ending dead (`Ok`) or halted by a fatal condition whose description
    /// the error carries.
    open spec fn run_post(pre: Self, cur: Self, r: Result<(), &'static str>) -> bool {
        match r {
            Ok(()) => played_out(pre@, cur@, Ok(())),
            Err(m) => exists|e: FatalError|
                #[trigger] played_out(pre@, cur@, Err(e)) && m@ == e.spec_message(),
        }
    }

    fn run(&mut self) -> (r: Result<(), &'static str>) {
        match self.play_to_end() {
            Ok(()) => Ok(()),
            Err(e) => Err(e.message()),
        }
    }
}

} // verus!
