//! The movement and collision engine: the full game state, its mathematical
//! model, the one-tick transition function, and the executable tick that is
//! proved to follow it exactly.

use vstd::prelude::*;
use core::mem::MaybeUninit;
use fixed_slice_vec::FixedSliceVec;
use rand::rngs::SmallRng;
use crate::{GAME_HEIGHT, GAME_WIDTH, INPUT_QUEUE_DEPTH, STARTING_LENGTH};
use crate::container::{
    contains_point, fsv_cap, fsv_capacity, fsv_get, fsv_insert, fsv_len, fsv_new, fsv_pop,
    fsv_push, fsv_view,
};
use crate::geometry::{
    escapes_bounds, food_candidate_ok, in_bounds, next_head, Direction, Point,
};
use crate::input::{decoded_key_char, key_direction, spec_key_direction, spec_queue_push, InputQueue};
use pc_keyboard::DecodedKey;
use crate::rng::{draw_coord, rng_from_seed};

verus! {

/// Unrecoverable halt conditions: the static allocation budget was undersized
/// (a bounded container refused a push), or the pre-generated food supply ran
/// dry while resolving an eat event.
#[derive(Clone, Copy, Debug, PartialEq, Eq, Structural)]
pub enum FatalError {
    CapacityExhausted,
    FoodSupplyExhausted,
}

impl FatalError {
    /// The characters of the condition's description.
    pub open spec fn spec_message(self) -> Seq<char> {
        match self {
            FatalError::CapacityExhausted => "snake vec full"@,
            FatalError::FoodSupplyExhausted => "ran out of food"@,
        }
    }

    /// The condition's description, as the game loop reports it.
    pub fn message(&self) -> (m: &'static str)
        ensures
            m@ == self.spec_message(),
    {
        match self {
            FatalError::CapacityExhausted => "snake vec full",
            FatalError::FoodSupplyExhausted => "ran out of food",
        }
    }
}

/// The mathematical model of one game: every tick is a function from this
/// value (and the key read that tick) to the next.
#[verifier::ext_equal]
pub struct GameView {
    /// Snake segments, head first.
    pub body: Seq<Point>,
    /// Capacity of the body's backing storage.
    pub body_cap: nat,
    /// Food candidates still unconsumed; drawn back to front.
    pub food_queue: Seq<Point>,
    /// The one active food position.
    pub food: Point,
    /// Direction of travel consumed by the next move.
    pub dir: Direction,
    /// Direction requests not yet consumed, oldest first.
    pub pending: Seq<Direction>,
    /// A just-eaten food still owes the body one segment of growth.
    pub eating: bool,
    /// False once the snake has died or a fatal condition has halted the game.
    pub alive: bool,
}

/// The game invariant: segments on the field and pairwise distinct, length
/// between the starting length and the storage capacity, food candidates
/// strictly inside the walls, the pending queue within its depth cap, and,
/// while the game runs, the active food off the body.
pub open spec fn view_valid(v: GameView) -> bool {
    &&& STARTING_LENGTH <= v.body.len() <= v.body_cap
    &&& (forall|i: int| 0 <= i < v.body.len() ==> in_bounds(#[trigger] v.body[i]))
    &&& (forall|i: int, j: int| 0 <= i < j < v.body.len() ==> v.body[i] != v.body[j])
    &&& (forall|i: int| 0 <= i < v.food_queue.len() ==> food_candidate_ok(
        #[trigger] v.food_queue[i],
    ))
    &&& in_bounds(v.food)
    &&& v.pending.len() <= INPUT_QUEUE_DEPTH
    &&& (v.alive ==> !v.body.contains(v.food))
}

/// The pending queue after this tick's key read: a recognized key's direction
/// is appended under the depth cap; no key, or an unrecognized one, changes
/// nothing.
pub open spec fn queue_after_key(pending: Seq<Direction>, key: Option<char>) -> Seq<Direction> {
    match key {
        Option::Some(c) => match spec_key_direction(c) {
            Option::Some(d) => spec_queue_push(pending, d),
            Option::None => pending,
        },
        Option::None => pending,
    }
}

/// Consumes at most one pending request: the front entry becomes the travel
/// direction unless it equals the current direction or its opposite, in which
/// case it is discarded silently.
pub open spec fn debounced(dir: Direction, pending: Seq<Direction>) -> (Direction, Seq<Direction>) {
    if pending.len() > 0 {
        let cand = pending[0];
        if cand != dir.opposite() && cand != dir {
            (cand, pending.drop_first())
        } else {
            (dir, pending.drop_first())
        }
    } else {
        (dir, pending)
    }
}

/// Draws the next food position: pops candidates from the back of the queue,
/// discarding any that lie on the body, until one is free or the supply is
/// exhausted.
pub open spec fn spec_draw(queue: Seq<Point>, body: Seq<Point>) -> Option<(Point, Seq<Point>)>
    decreases queue.len(),
{
    if queue.len() == 0 {
        None
    } else {
        let cand = queue.last();
        let rest = queue.drop_last();
        if body.contains(cand) {
            spec_draw(rest, body)
        } else {
            Some((cand, rest))
        }
    }
}

/// One tick of the engine: the state after the tick, and the fatal condition
/// if one arose. A dead game is left unchanged. Otherwise the pending queue
/// takes this tick's key, the debouncer picks the direction, and the head
/// moves one cell: leaving the field or landing on the body kills the snake;
/// a surviving move keeps the tail exactly when a growth was owed, and a move
/// onto the food owes one and draws the next food off the body.
pub open spec fn step(v: GameView, key: Option<char>) -> (GameView, Option<FatalError>) {
    if !v.alive {
        (v, None)
    } else {
        let pending1 = queue_after_key(v.pending, key);
        let (dir, pending) = debounced(v.dir, pending1);
        let head = v.body[0];
        let moved = GameView { dir, pending, ..v };
        if escapes_bounds(head, dir) || v.body.contains(next_head(head, dir)) {
            (GameView { alive: false, ..moved }, None)
        } else {
            let nh = next_head(head, dir);
            if v.eating && v.body.len() >= v.body_cap {
                (GameView { alive: false, ..moved }, Some(FatalError::CapacityExhausted))
            } else {
                let kept = if v.eating {
                    v.body
                } else {
                    v.body.drop_last()
                };
                let after_move = GameView { body: kept.insert(0, nh), eating: false, ..moved };
                if nh == v.food {
                    match spec_draw(v.food_queue, after_move.body) {
                        Option::Some((f, q)) => (
                            GameView { food: f, food_queue: q, eating: true, ..after_move },
                            None,
                        ),
                        Option::None => (
                            GameView {
                                food_queue: Seq::<Point>::empty(),
                                eating: true,
                                alive: false,
                                ..after_move
                            },
                            Some(FatalError::FoodSupplyExhausted),
                        ),
                    }
                } else {
                    (after_move, None)
                }
            }
        }
    }
}

/// What drawing food guarantees: a drawn position never lies on the body, it
/// came from the queue, and the rest of the queue is the untouched front part
/// of the old one.
pub proof fn lemma_spec_draw(queue: Seq<Point>, body: Seq<Point>)
    ensures
        match spec_draw(queue, body) {
            Option::Some((f, q)) => {
                &&& !body.contains(f)
                &&& queue.contains(f)
                &&& q.len() < queue.len()
                &&& (forall|i: int| 0 <= i < q.len() ==> q[i] == queue[i])
            },
            Option::None => true,
        },
    decreases queue.len(),
{
    if queue.len() > 0 {
        let cand = queue.last();
        let rest = queue.drop_last();
        assert(queue[queue.len() - 1] == cand);
        if body.contains(cand) {
            lemma_spec_draw(rest, body);
            if spec_draw(rest, body) is Some {
                let (f, q) = spec_draw(rest, body).unwrap();
                assert(rest.contains(f));
                let j = choose|j: int| 0 <= j < rest.len() && rest[j] == f;
                assert(queue[j] == f);
            }
        }
    }
}

/// One tick keeps the game invariant: segments stay on the field and stay
/// pairwise distinct, growth never passes the storage capacity, food
/// candidates stay inside the walls, and while the game still runs the active
/// food stays off the body.
pub proof fn lemma_step_preserves_valid(v: GameView, key: Option<char>)
    requires
        view_valid(v),
    ensures
        view_valid(step(v, key).0),
{
    if v.alive {
        let pending1 = queue_after_key(v.pending, key);
        let (dir, pending) = debounced(v.dir, pending1);
        let head = v.body[0];
        if !(escapes_bounds(head, dir) || v.body.contains(next_head(head, dir))) {
            let nh = next_head(head, dir);
            assert(forall|i: int| 0 <= i < v.body.len() ==> v.body[i] != nh) by {
                assert(forall|i: int| 0 <= i < v.body.len() && v.body[i] == nh ==> v.body.contains(
                    nh,
                ));
            }
            if !(v.eating && v.body.len() >= v.body_cap) {
                let kept = if v.eating {
                    v.body
                } else {
                    v.body.drop_last()
                };
                let grown = kept.insert(0, nh);
                assert(forall|i: int| 0 <= i < kept.len() ==> kept[i] == v.body[i]);
                assert(grown[0] == nh);
                assert(forall|i: int| 1 <= i < grown.len() ==> grown[i] == kept[i - 1]);
                if nh == v.food {
                    lemma_spec_draw(v.food_queue, grown);
                    match spec_draw(v.food_queue, grown) {
                        Option::Some((f, q)) => {
                            let j = choose|j: int|
                                0 <= j < v.food_queue.len() && v.food_queue[j] == f;
                            assert(food_candidate_ok(f));
                        },
                        Option::None => {},
                    }
                } else {
                    assert(!grown.contains(v.food)) by {
                        assert(forall|i: int| 0 <= i < v.body.len() && v.body[i] == v.food
                            ==> v.body.contains(v.food));
                        if grown.contains(v.food) {
                            let i = choose|i: int| 0 <= i < grown.len() && grown[i] == v.food;
                        }
                    }
                }
            }
        }
    }
}

/// The segments, food and heading describe a valid game for body storage of
/// the given capacity.
pub open spec fn parts_ok(cap: nat, segments: Seq<Point>, food: Point) -> bool {
    &&& STARTING_LENGTH <= segments.len() <= cap
    &&& (forall|i: int| 0 <= i < segments.len() ==> in_bounds(#[trigger] segments[i]))
    &&& !has_dup(segments)
    &&& in_bounds(food)
    &&& !segments.contains(food)
}

/// A sequence repeats one of its elements.
pub open spec fn has_dup(s: Seq<Point>) -> bool {
    exists|i: int, j: int| 0 <= i < j < s.len() && s[i] == s[j]
}

/// Whether any listed position repeats: the pairwise scan that guards the
/// no-self-overlap invariant when a game is rebuilt from parts.
fn has_duplicate(points: &Vec<Point>) -> (r: bool)
    ensures
        r == has_dup(points@),
{
    let n = points.len();
    let mut j: usize = 1;
    while j < n
        invariant
            1 <= j <= n || n == 0,
            n == points@.len(),
            forall|a: int, b: int| 0 <= a < b < j ==> points@[a] != points@[b],
        decreases n - j,
    {
        let mut i: usize = 0;
        while i < j
            invariant
                i <= j < n,
                n == points@.len(),
                forall|a: int| 0 <= a < i ==> points@[a] != points@[j as int],
            decreases j - i,
        {
            if points[i] == points[j] {
                assert(has_dup(points@)) by {
                    let jj = j as int;
                    assert(0 <= i < jj < points@.len() && points@[i as int] == points@[jj]);
                }
                return true;
            }
            i += 1;
        }
        j += 1;
    }
    false
}

/// Every listed position lies on the field.
fn all_in_bounds(points: &Vec<Point>) -> (r: bool)
    ensures
        r == (forall|i: int| 0 <= i < points@.len() ==> in_bounds(#[trigger] points@[i])),
{
    let n = points.len();
    let mut i: usize = 0;
    while i < n
        invariant
            i <= n,
            n == points@.len(),
            forall|j: int| 0 <= j < i ==> in_bounds(#[trigger] points@[j]),
        decreases n - i,
    {
        let p = points[i];
        if !(1 <= p.x && p.x <= GAME_WIDTH && 1 <= p.y && p.y <= GAME_HEIGHT) {
            assert(!in_bounds(points@[i as int]));
            return false;
        }
        i += 1;
    }
    true
}

/// Whether `p` occurs among the listed positions.
fn vec_contains(points: &Vec<Point>, p: Point) -> (r: bool)
    ensures
        r == points@.contains(p),
{
    let n = points.len();
    let mut i: usize = 0;
    while i < n
        invariant
            i <= n,
            n == points@.len(),
            forall|j: int| 0 <= j < i ==> points@[j] != p,
        decreases n - i,
    {
        if points[i] == p {
            assert(points@[i as int] == p);
            return true;
        }
        i += 1;
    }
    assert(!points@.contains(p));
    false
}

/// Fills an empty food queue to its capacity with seeded candidates, each
/// strictly inside the walls.
#[verifier::loop_isolation(false)]
fn fill_candidates(queue: &mut FixedSliceVec<Point>, seed: u64)
    requires
        fsv_view(*old(queue)).len() == 0,
    ensures
        fsv_cap(*final(queue)) == fsv_cap(*old(queue)),
        fsv_view(*final(queue)).len() == fsv_cap(*old(queue)),
        forall|k: int| 0 <= k < fsv_view(*final(queue)).len() ==> food_candidate_ok(
            #[trigger] fsv_view(*final(queue))[k],
        ),
{
    let mut rng: SmallRng = rng_from_seed(seed);
    let target = fsv_capacity(queue);
    let mut filled = fsv_len(queue);
    while filled < target
        invariant
            fsv_cap(*queue) == fsv_cap(*old(queue)),
            filled == fsv_view(*queue).len(),
            filled <= target,
            forall|k: int| 0 <= k < filled ==> food_candidate_ok(#[trigger] fsv_view(*queue)[k]),
        decreases target - filled,
    {
        let x = draw_coord(&mut rng, GAME_WIDTH);
        let y = draw_coord(&mut rng, GAME_HEIGHT);
        fsv_push(queue, Point { x, y });
        filled += 1;
    }
}

/// Pops food candidates, discarding those on the body, until one is free
/// (returned, with the queue holding the untouched front part) or the supply
/// is exhausted (`None`, with the queue drained).
#[verifier::loop_isolation(false)]
fn draw_food(queue: &mut FixedSliceVec<Point>, body: &FixedSliceVec<Point>) -> (r: Option<Point>)
    ensures
        fsv_cap(*final(queue)) == fsv_cap(*old(queue)),
        (match spec_draw(fsv_view(*old(queue)), fsv_view(*body)) {
            Option::Some((f, q)) => r == Some(f) && fsv_view(*final(queue)) == q,
            Option::None => r is None && fsv_view(*final(queue)) == Seq::<Point>::empty(),
        }),
{
    loop
        invariant
            fsv_cap(*queue) == fsv_cap(*old(queue)),
            spec_draw(fsv_view(*old(queue)), fsv_view(*body)) == spec_draw(
                fsv_view(*queue),
                fsv_view(*body),
            ),
        decreases fsv_view(*queue).len(),
    {
        match fsv_pop(queue) {
            Option::None => {
                return None;
            },
            Option::Some(cand) => {
                if !contains_point(body, cand) {
                    return Some(cand);
                }
            },
        }
    }
}

/// The snake segments the engine starts with: the head at column
/// `STARTING_LENGTH`, the tail at column 1, all on the middle row.
pub open spec fn initial_body() -> Seq<Point> {
    Seq::new(
        STARTING_LENGTH as nat,
        |i: int| Point { x: (STARTING_LENGTH - i) as u8, y: GAME_HEIGHT / 2 },
    )
}

/// Where the first food sits: one column short of the right wall, middle row.
pub open spec fn initial_food() -> Point {
    Point { x: (GAME_WIDTH - 1) as u8, y: GAME_HEIGHT / 2 }
}

/// One running game: the bounded body and food containers, the active food,
/// and the debouncer and lifecycle flags.
pub struct SnakeGame<'a> {
    pub body: FixedSliceVec<'a, Point>,
    pub food_queue: FixedSliceVec<'a, Point>,
    pub food: Point,
    pub dir: Direction,
    pub pending: InputQueue,
    pub eating: bool,
    pub alive: bool,
}

impl<'a> View for SnakeGame<'a> {
    type V = GameView;

    open spec fn view(&self) -> GameView {
        GameView {
            body: fsv_view(self.body),
            body_cap: fsv_cap(self.body),
            food_queue: fsv_view(self.food_queue),
            food: self.food,
            dir: self.dir,
            pending: self.pending.view(),
            eating: self.eating,
            alive: self.alive,
        }
    }
}

impl<'a> SnakeGame<'a> {
    /// The game's invariant: the model is valid and the pending queue is
    /// packed.
    pub open spec fn wf(self) -> bool {
        &&& self.pending.wf()
        &&& view_valid(self@)
    }

    /// Starts a game in the caller's storage: the starting snake on the middle
    /// row heading right, the first food short of the right wall, and the food
    /// queue filled to its capacity with seeded in-range candidates.
    pub fn new(
        body_storage: &'a mut [MaybeUninit<Point>],
        food_storage: &'a mut [MaybeUninit<Point>],
        seed: u64,
    ) -> (g: SnakeGame<'a>)
        requires
            STARTING_LENGTH <= old(body_storage)@.len(),
        ensures
            g.wf(),
            g@.body == initial_body(),
            g@.body_cap == old(body_storage)@.len(),
            g@.food_queue.len() == old(food_storage)@.len(),
            g@.food == initial_food(),
            g@.dir == Direction::Right,
            g@.pending == Seq::<Direction>::empty(),
            !g@.eating,
            g@.alive,
    {
        let mut body = fsv_new(body_storage);
        let mut i: u8 = 0;
        while i < STARTING_LENGTH
            invariant
                i <= STARTING_LENGTH,
                fsv_cap(body) == old(body_storage)@.len(),
                fsv_cap(body) >= STARTING_LENGTH,
                fsv_view(body) == initial_body().take(i as int),
            decreases STARTING_LENGTH - i,
        {
            fsv_push(&mut body, Point { x: STARTING_LENGTH - i, y: GAME_HEIGHT / 2 });
            proof {
                assert(fsv_view(body) =~= initial_body().take(i + 1));
            }
            i += 1;
        }
        proof {
            assert(fsv_view(body) =~= initial_body());
        }

        let mut food_queue = fsv_new(food_storage);
        fill_candidates(&mut food_queue, seed);

        let g = SnakeGame {
            body,
            food_queue,
            food: Point { x: GAME_WIDTH - 1, y: GAME_HEIGHT / 2 },
            dir: Direction::Right,
            pending: InputQueue::new(),
            eating: false,
            alive: true,
        };
        proof {
            assert(forall|i: int| 0 <= i < initial_body().len() ==> initial_body()[i].x <= 4);
            assert(!g@.body.contains(g@.food)) by {
                if g@.body.contains(g@.food) {
                    let i = choose|i: int| 0 <= i < g@.body.len() && g@.body[i] == g@.food;
                }
            }
        }
        g
    }

    /// Rebuilds a game from an explicit layout: the given segments (head
    /// first), active food and heading, with a freshly seeded food queue.
    /// Returns `None` exactly when the layout breaks the game invariant:
    /// fewer segments than the starting length or more than the storage
    /// holds, a position off the field, a repeated segment, or food on the
    /// body.
    #[verifier::loop_isolation(false)]
    pub fn from_parts(
        body_storage: &'a mut [MaybeUninit<Point>],
        food_storage: &'a mut [MaybeUninit<Point>],
        segments: &Vec<Point>,
        food: Point,
        dir: Direction,
        seed: u64,
    ) -> (r: Option<SnakeGame<'a>>)
        ensures
            r is Some <==> parts_ok(old(body_storage)@.len() as nat, segments@, food),
            (match r {
                Some(g) => {
                    &&& g.wf()
                    &&& g@.body == segments@
                    &&& g@.body_cap == old(body_storage)@.len()
                    &&& g@.food_queue.len() == old(food_storage)@.len()
                    &&& g@.food == food
                    &&& g@.dir == dir
                    &&& g@.pending == Seq::<Direction>::empty()
                    &&& !g@.eating
                    &&& g@.alive
                },
                None => true,
            }),
    {
        let mut body = fsv_new(body_storage);
        let cap = fsv_capacity(&body);
        if segments.len() < STARTING_LENGTH as usize || segments.len() > cap {
            return None;
        }
        if !all_in_bounds(segments) {
            return None;
        }
        if has_duplicate(segments) {
            return None;
        }
        if !(1 <= food.x && food.x <= GAME_WIDTH && 1 <= food.y && food.y <= GAME_HEIGHT) {
            return None;
        }
        if vec_contains(segments, food) {
            return None;
        }
        let n = segments.len();
        let mut i: usize = 0;
        while i < n
            invariant
                i <= n,
                fsv_cap(body) == cap,
                fsv_view(body) == segments@.take(i as int),
            decreases n - i,
        {
            let p = segments[i];
            fsv_push(&mut body, p);
            proof {
                assert(fsv_view(body) =~= segments@.take(i + 1));
            }
            i += 1;
        }
        proof {
            assert(fsv_view(body) =~= segments@);
        }
        let mut food_queue = fsv_new(food_storage);
        fill_candidates(&mut food_queue, seed);
        let g = SnakeGame {
            body,
            food_queue,
            food,
            dir,
            pending: InputQueue::new(),
            eating: false,
            alive: true,
        };
        Some(g)
    }

    /// Advances the game by one tick, feeding the key read this tick (if any)
    /// to the debouncer. The state after the call is exactly what the `step`
    /// model gives; `Ok` carries whether the snake is still alive, `Err` the
    /// fatal condition that halted the game.
    pub fn tick(&mut self, key: Option<char>) -> (r: Result<bool, FatalError>)
        requires
            old(self).wf(),
        ensures
            final(self).wf(),
            final(self)@ == step(old(self)@, key).0,
            (match r {
                Ok(alive) => step(old(self)@, key).1 is None && alive == step(
                    old(self)@,
                    key,
                ).0.alive,
                Err(e) => step(old(self)@, key).1 == Some(e),
            }),
    {
        proof {
            lemma_step_preserves_valid(old(self)@, key);
        }
        if !self.alive {
            return Ok(false);
        }
        if let Some(c) = key {
            if let Some(d) = key_direction(c) {
                self.pending.push(d);
            }
        }
        proof {
            assert(self.pending.view() == queue_after_key(old(self)@.pending, key));
        }
        if let Some(cand) = self.pending.pop() {
            let opp = self.dir.get_opposite();
            if cand != opp && cand != self.dir {
                self.dir = cand;
            }
        }
        let ghost deb = debounced(old(self)@.dir, queue_after_key(old(self)@.pending, key));
        proof {
            assert(self.dir == deb.0);
            assert(self.pending.view() == deb.1);
        }
        let head = fsv_get(&self.body, 0);
        proof {
            assert(in_bounds(old(self)@.body[0]));
        }
        let escapes = match self.dir {
            Direction::Up => head.y <= 1,
            Direction::Down => head.y >= GAME_HEIGHT,
            Direction::Left => head.x <= 1,
            Direction::Right => head.x >= GAME_WIDTH,
        };
        proof {
            assert(escapes == escapes_bounds(head, self.dir));
        }
        if escapes {
            self.alive = false;
            proof {
                assert(final(self)@ =~= step(old(self)@, key).0);
            }
            return Ok(false);
        }
        let nh = match self.dir {
            Direction::Up => Point { x: head.x, y: head.y - 1 },
            Direction::Down => Point { x: head.x, y: head.y + 1 },
            Direction::Left => Point { x: head.x - 1, y: head.y },
            Direction::Right => Point { x: head.x + 1, y: head.y },
        };
        proof {
            assert(nh == next_head(head, self.dir));
        }
        if contains_point(&self.body, nh) {
            self.alive = false;
            proof {
                assert(final(self)@ =~= step(old(self)@, key).0);
            }
            return Ok(false);
        }
        if self.eating {
            let len = fsv_len(&self.body);
            let cap = fsv_capacity(&self.body);
            if len >= cap {
                self.alive = false;
                proof {
                    assert(final(self)@ =~= step(old(self)@, key).0);
                }
                return Err(FatalError::CapacityExhausted);
            }
            self.eating = false;
        } else {
            let _ = fsv_pop(&mut self.body);
        }
        fsv_insert(&mut self.body, 0, nh);
        if nh == self.food {
            self.eating = true;
            match draw_food(&mut self.food_queue, &self.body) {
                Option::Some(f) => {
                    self.food = f;
                },
                Option::None => {
                    self.alive = false;
                    proof {
                        assert(final(self)@ =~= step(old(self)@, key).0);
                    }
                    return Err(FatalError::FoodSupplyExhausted);
                },
            }
        }
        proof {
            assert(final(self)@ =~= step(old(self)@, key).0);
        }
        Ok(true)
    }

    /// Advances the game by one tick from a raw decoded key, as the keyboard
    /// hands it over: some key read gives exactly the step taken.
    pub fn tick_decoded(&mut self, key: &DecodedKey) -> (r: Result<bool, FatalError>)
        requires
            old(self).wf(),
        ensures
            final(self).wf(),
            (exists|c: Option<char>|
                {
                    &&& #[trigger] step(old(self)@, c).0 == final(self)@
                    &&& (match r {
                        Ok(alive) => step(old(self)@, c).1 is None && alive == step(
                            old(self)@,
                            c,
                        ).0.alive,
                        Err(e) => step(old(self)@, c).1 == Some(e),
                    })
                }),
    {
        let c = decoded_key_char(key);
        let r = self.tick(c);
        proof {
            assert(step(old(self)@, c).0 == final(self)@);
        }
        r
    }

    /// Records a direction request arriving between ticks, under the
    /// debouncer's depth cap: once the queue is full the oldest request is
    /// dropped.
    pub fn request_direction(&mut self, d: Direction)
        requires
            old(self).wf(),
        ensures
            final(self).wf(),
            final(self)@ == (GameView {
                pending: spec_queue_push(old(self)@.pending, d),
                ..old(self)@
            }),
    {
        self.pending.push(d);
        proof {
            assert(final(self)@ =~= GameView {
                pending: spec_queue_push(old(self)@.pending, d),
                ..old(self)@
            });
        }
    }

    /// Current score: how far the body has grown past its starting length.
    pub fn score(&self) -> (s: usize)
        requires
            self.wf(),
        ensures
            s == self@.body.len() - STARTING_LENGTH,
    {
        fsv_len(&self.body) - (STARTING_LENGTH as usize)
    }

    /// Number of body segments.
    pub fn body_len(&self) -> (n: usize)
        ensures
            n == self@.body.len(),
    {
        fsv_len(&self.body)
    }

    /// The body segment at `index`; the head sits at index 0.
    pub fn body_segment(&self, index: usize) -> (p: Point)
        requires
            index < self@.body.len(),
        ensures
            p == self@.body[index as int],
    {
        fsv_get(&self.body, index)
    }

    /// The head's position.
    pub fn head(&self) -> (p: Point)
        requires
            self@.body.len() > 0,
        ensures
            p == self@.body[0],
    {
        fsv_get(&self.body, 0)
    }

    /// The active food position.
    pub fn current_food(&self) -> (p: Point)
        ensures
            p == self@.food,
    {
        self.food
    }

    /// The direction the next move will take, unless a pending request
    /// replaces it.
    pub fn direction(&self) -> (d: Direction)
        ensures
            d == self@.dir,
    {
        self.dir
    }

    /// Whether the game still runs.
    pub fn is_alive(&self) -> (a: bool)
        ensures
            a == self@.alive,
    {
        self.alive
    }

    /// Whether an eaten food still owes the body a segment of growth.
    pub fn is_eating(&self) -> (e: bool)
        ensures
            e == self@.eating,
    {
        self.eating
    }

    /// How many food candidates are still unconsumed.
    pub fn food_remaining(&self) -> (n: usize)
        ensures
            n == self@.food_queue.len(),
    {
        fsv_len(&self.food_queue)
    }
}

} // verus!
