//! The input debouncer's data: a two-slot queue of pending direction
//! requests, and the mapping from decoded keys to directions.

use vstd::prelude::*;
use crate::geometry::Direction;
use crate::INPUT_QUEUE_DEPTH;
use pc_keyboard::DecodedKey;

verus! {

#[verifier::external_type_specification]
#[verifier::external_body]
pub struct ExDecodedKey(DecodedKey);

/// Relies on `pc_keyboard::DecodedKey`: picks the character out of the
/// `Unicode` variant; other key classes carry no character.
#[verifier::external_body]
pub fn decoded_key_char(key: &DecodedKey) -> Option<char> {
    match key {
        DecodedKey::Unicode(c) => Some(*c),
        DecodedKey::RawKey(_) => None,
    }
}

/// The direction a pressed character asks for; anything but the four
/// recognized movement keys is ignored.
pub open spec fn spec_key_direction(c: char) -> Option<Direction> {
    if c == 'w' {
        Some(Direction::Up)
    } else if c == 'a' {
        Some(Direction::Left)
    } else if c == 's' {
        Some(Direction::Down)
    } else if c == 'd' {
        Some(Direction::Right)
    } else {
        None
    }
}

/// Maps a pressed character to the direction it requests.
pub fn key_direction(c: char) -> (d: Option<Direction>)
    ensures
        d == spec_key_direction(c),
{
    if c == 'w' {
        Some(Direction::Up)
    } else if c == 'a' {
        Some(Direction::Left)
    } else if c == 's' {
        Some(Direction::Down)
    } else if c == 'd' {
        Some(Direction::Right)
    } else {
        None
    }
}

/// Bounded queue of direction requests not yet consumed by the tick loop.
/// It holds at most `INPUT_QUEUE_DEPTH` (two) entries; pushing onto a full
/// queue drops the oldest entry.
pub struct InputQueue {
    pub front: Option<Direction>,
    pub back: Option<Direction>,
}

/// What a capped push leaves in the queue: the new entry goes to the back,
/// and the oldest entry is dropped if the depth cap would be exceeded.
pub open spec fn spec_queue_push(q: Seq<Direction>, d: Direction) -> Seq<Direction> {
    if q.len() < INPUT_QUEUE_DEPTH {
        q.push(d)
    } else {
        q.drop_first().push(d)
    }
}

impl InputQueue {
    /// The pending directions, oldest first.
    pub open spec fn view(self) -> Seq<Direction> {
        match (self.front, self.back) {
            (Option::None, _) => Seq::<Direction>::empty(),
            (Option::Some(f), Option::None) => seq![f],
            (Option::Some(f), Option::Some(b)) => seq![f, b],
        }
    }

    /// Entries are packed to the front: a back entry implies a front entry.
    pub open spec fn wf(self) -> bool {
        self.back is Some ==> self.front is Some
    }

    /// An empty queue.
    pub fn new() -> (q: InputQueue)
        ensures
            q.wf(),
            q.view() == Seq::<Direction>::empty(),
    {
        InputQueue { front: None, back: None }
    }

    /// Appends a request, dropping the oldest entry once the depth cap is
    /// reached.
    pub fn push(&mut self, d: Direction)
        requires
            old(self).wf(),
        ensures
            final(self).wf(),
            final(self).view() == spec_queue_push(old(self).view(), d),
    {
        match (self.front, self.back) {
            (Option::None, _) => {
                self.front = Some(d);
                self.back = None;
            }
            (Option::Some(_), Option::None) => {
                self.back = Some(d);
            }
            (Option::Some(_), Option::Some(b)) => {
                self.front = Some(b);
                self.back = Some(d);
            }
        }
        assert(final(self).view() =~= spec_queue_push(old(self).view(), d));
    }

    /// Removes and returns the oldest pending request, if any.
    pub fn pop(&mut self) -> (r: Option<Direction>)
        requires
            old(self).wf(),
        ensures
            final(self).wf(),
            old(self).view().len() == 0 ==> r is None && final(self).view() == old(self).view(),
            old(self).view().len() > 0 ==> r == Some(old(self).view()[0])
                && final(self).view() == old(self).view().drop_first(),
    {
        let r = self.front;
        self.front = self.back;
        self.back = None;
        proof {
            if old(self).view().len() > 0 {
                assert(final(self).view() =~= old(self).view().drop_first());
            }
        }
        r
    }
}

} // verus!
