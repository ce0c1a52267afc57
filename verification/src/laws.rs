//! Laws of the engine that relate several ticks: runs of the transition
//! function, determinism, the score accounting, and the debouncer's refusal
//! of reversals.

use vstd::prelude::*;
use crate::STARTING_LENGTH;
use crate::engine::{
    debounced, lemma_spec_draw, lemma_step_preserves_valid, queue_after_key, step, view_valid,
    FatalError, GameView,
};
use crate::geometry::{escapes_bounds, next_head};

verus! {

/// A whole run: the state after feeding the keys one tick at a time, and the
/// fatal condition that cut the run short, if one did.
pub open spec fn run_result(v: GameView, keys: Seq<Option<char>>) -> (GameView, Option<
    FatalError,
>)
    decreases keys.len(),
{
    if keys.len() == 0 {
        (v, None)
    } else {
        let (v1, fatal) = step(v, keys[0]);
        if fatal is Some {
            (v1, fatal)
        } else {
            run_result(v1, keys.drop_first())
        }
    }
}

/// The tick-by-tick snapshots of a run, one per executed tick, ending early
/// on a fatal halt.
pub open spec fn run_trace(v: GameView, keys: Seq<Option<char>>) -> Seq<GameView>
    decreases keys.len(),
{
    if keys.len() == 0 {
        Seq::<GameView>::empty()
    } else {
        let (v1, fatal) = step(v, keys[0]);
        if fatal is Some {
            seq![v1]
        } else {
            seq![v1] + run_trace(v1, keys.drop_first())
        }
    }
}

/// This tick is an eat event: the move survives and lands the head on the
/// active food.
pub open spec fn step_eats(v: GameView, key: Option<char>) -> bool {
    if !v.alive {
        false
    } else {
        let (dir, pending) = debounced(v.dir, queue_after_key(v.pending, key));
        let head = v.body[0];
        &&& !escapes_bounds(head, dir)
        &&& !v.body.contains(next_head(head, dir))
        &&& !(v.eating && v.body.len() >= v.body_cap)
        &&& next_head(head, dir) == v.food
    }
}

/// How many eat events a run contains.
pub open spec fn run_eats(v: GameView, keys: Seq<Option<char>>) -> nat
    decreases keys.len(),
{
    if keys.len() == 0 {
        0
    } else {
        let (v1, fatal) = step(v, keys[0]);
        let here: nat = if step_eats(v, keys[0]) {
            1
        } else {
            0
        };
        if fatal is Some {
            here
        } else {
            here + run_eats(v1, keys.drop_first())
        }
    }
}

/// Every state a run reaches is valid: segments on the field and pairwise
/// distinct throughout.
pub proof fn lemma_run_preserves_valid(v: GameView, keys: Seq<Option<char>>)
    requires
        view_valid(v),
    ensures
        view_valid(run_result(v, keys).0),
        forall|i: int| 0 <= i < run_trace(v, keys).len() ==> view_valid(
            #[trigger] run_trace(v, keys)[i],
        ),
    decreases keys.len(),
{
    if keys.len() > 0 {
        let (v1, fatal) = step(v, keys[0]);
        lemma_step_preserves_valid(v, keys[0]);
        if fatal is None {
            lemma_run_preserves_valid(v1, keys.drop_first());
            assert(forall|i: int| 1 <= i < run_trace(v, keys).len() ==> run_trace(v, keys)[i]
                == run_trace(v1, keys.drop_first())[i - 1]);
        }
    }
}

/// Extending a fatal-free run by one key ticks its final state once more:
/// the run model composes one step at a time.
pub proof fn lemma_run_result_snoc(v: GameView, keys: Seq<Option<char>>, key: Option<char>)
    requires
        run_result(v, keys).1 is None,
    ensures
        run_result(v, keys.push(key)).0 == step(run_result(v, keys).0, key).0,
        run_result(v, keys.push(key)).1 == step(run_result(v, keys).0, key).1,
    decreases keys.len(),
{
    let extended = keys.push(key);
    assert(extended.len() == keys.len() + 1);
    if keys.len() == 0 {
        assert(extended[0] == key);
        assert(extended.drop_first() =~= Seq::<Option<char>>::empty());
        assert(run_result(v, keys) == (v, None::<FatalError>));
        let (v1, fatal) = step(v, key);
        if fatal is Some {
            assert(run_result(v, extended) == (v1, fatal));
        } else {
            assert(run_result(v, extended) == run_result(v1, extended.drop_first()));
            assert(run_result(v1, extended.drop_first()) == (v1, None::<FatalError>));
        }
    } else {
        let (v1, fatal) = step(v, keys[0]);
        assert(run_result(v, keys) == run_result(v1, keys.drop_first()));
        assert(extended[0] == keys[0]);
        assert(extended.drop_first() =~= keys.drop_first().push(key));
        assert(run_result(v, extended) == run_result(v1, extended.drop_first()));
        lemma_run_result_snoc(v1, keys.drop_first(), key);
    }
}

/// Determinism: equal starting states fed equal key sequences give the same
/// outcome and the same tick-by-tick snapshots. The executable tick returns
/// exactly what `step` prescribes, so repeated runs of the game coincide.
pub proof fn lemma_run_deterministic(
    v1: GameView,
    v2: GameView,
    keys1: Seq<Option<char>>,
    keys2: Seq<Option<char>>,
)
    requires
        v1 == v2,
        keys1 == keys2,
    ensures
        run_result(v1, keys1) == run_result(v2, keys2),
        run_trace(v1, keys1) == run_trace(v2, keys2),
{
}

/// Growth accounting for one run: writing the owed growth as one extra
/// segment, a run that was not cut short by a fatal halt grows the body by
/// exactly its number of eat events.
pub proof fn lemma_run_growth(v: GameView, keys: Seq<Option<char>>)
    requires
        view_valid(v),
        run_result(v, keys).1 is None,
    ensures
        run_result(v, keys).0.body.len() + (if run_result(v, keys).0.eating {
            1int
        } else {
            0int
        }) == v.body.len() + (if v.eating {
            1int
        } else {
            0int
        }) + run_eats(v, keys),
    decreases keys.len(),
{
    if keys.len() > 0 {
        let (v1, fatal) = step(v, keys[0]);
        lemma_step_preserves_valid(v, keys[0]);
        lemma_run_growth(v1, keys.drop_first());
    }
}

/// The score law: a game that starts at the starting length with no growth
/// owed and runs without a fatal halt has, once any owed growth is consumed,
/// a body exactly one segment longer per eat event; its score — body length
/// less starting length — counts the eat events.
pub proof fn lemma_score_counts_eats(v: GameView, keys: Seq<Option<char>>)
    requires
        view_valid(v),
        v.body.len() == STARTING_LENGTH,
        !v.eating,
        run_result(v, keys).1 is None,
        !run_result(v, keys).0.eating,
    ensures
        run_result(v, keys).0.body.len() - STARTING_LENGTH == run_eats(v, keys),
{
    lemma_run_growth(v, keys);
}

/// A pending request for the exact opposite of the current direction is
/// always rejected: the tick discards it and keeps the direction of travel.
pub proof fn lemma_opposite_rejected(v: GameView, key: Option<char>)
    requires
        v.alive,
        queue_after_key(v.pending, key).len() > 0,
        queue_after_key(v.pending, key)[0] == v.dir.opposite(),
    ensures
        step(v, key).0.dir == v.dir,
{
}

/// An eat event and what it owes: the tick that lands the head on the food
/// sets the growth flag and leaves the length unchanged, the drawn food lies
/// on no body segment, and the next tick, if the snake survives it, pays the
/// owed growth — the body comes out one segment longer.
pub proof fn lemma_growth_follows_eat(v: GameView, key1: Option<char>, key2: Option<char>)
    requires
        view_valid(v),
        !v.eating,
        step_eats(v, key1),
        step(v, key1).1 is None,
    ensures
        step(v, key1).0.eating,
        step(v, key1).0.body.len() == v.body.len(),
        !step(v, key1).0.body.contains(step(v, key1).0.food),
        ({
            let v1 = step(v, key1).0;
            let v2 = step(v1, key2).0;
            (step(v1, key2).1 is None && v2.alive) ==> v2.body.len() == v.body.len() + 1
        }),
{
    lemma_food_off_body_after_eat(v, key1);
    lemma_step_preserves_valid(v, key1);
}

/// Food placement after an eat: the moment an eat event resolves, the newly
/// drawn food lies on no body segment.
pub proof fn lemma_food_off_body_after_eat(v: GameView, key: Option<char>)
    requires
        view_valid(v),
        step_eats(v, key),
        step(v, key).1 is None,
    ensures
        !step(v, key).0.body.contains(step(v, key).0.food),
{
    let (dir, pending) = debounced(v.dir, queue_after_key(v.pending, key));
    let nh = next_head(v.body[0], dir);
    let kept = if v.eating {
        v.body
    } else {
        v.body.drop_last()
    };
    lemma_spec_draw(v.food_queue, kept.insert(0, nh));
}

} // verus!
