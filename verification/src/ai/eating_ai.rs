use vstd::prelude::*;
use crate::components::{Ent, Position};

verus! {

/// Two squares touch: they are the same square or neighbours (diagonals included).
pub open spec fn touching(a: (i32, i32), b: (i32, i32)) -> bool {
    &&& b.0 - 1 <= a.0 <= b.0 + 1
    &&& b.1 - 1 <= a.1 <= b.1 + 1
}

/// Whether two positions touch.
pub fn in_contact(pos1: &Position, pos2: &Position) -> (r: bool)
    requires
        i32::MIN < pos2@.0 < i32::MAX,
        i32::MIN < pos2@.1 < i32::MAX,
    ensures
        r == touching(pos1@, pos2@),
{
    let mut ret = false;
    if pos1.x() >= pos2.x() - 1 && pos1.x() <= pos2.x() + 1 {
        if pos1.y() >= pos2.y() - 1 && pos1.y() <= pos2.y() + 1 {
            ret = true;
        }
    }
    ret
}

/// Touching is symmetric, and every square touches itself.
pub proof fn lemma_contact_symmetric(a: (i32, i32), b: (i32, i32))
    ensures
        touching(a, b) == touching(b, a),
        touching(a, a),
{
}

/// What a creature that reached the food it chose does with it.
#[derive(Clone, Copy, PartialEq, Eq, Structural, Debug)]
pub enum EatAction {
    /// the food is an animal: it is killed, by `killer`
    Kill { victim: Ent, killer: Ent },
    /// the food is eaten
    Eat { eater: Ent, food: Ent },
}

/// The decision of `EatingKillingAI` for one hunter: when the chosen food still
/// exists and touches the hunter, an animal is killed and anything else is eaten,
/// and the hunter's turn ends; otherwise nothing happens.
pub fn eating_killing_decision(
    hunter: Ent,
    hunter_pos: &Position,
    food: Ent,
    food_pos: Option<&Position>,
    food_is_animal: bool,
) -> (r: Option<EatAction>)
    requires
        food_pos matches Some(p) ==> i32::MIN < p@.0 < i32::MAX && i32::MIN < p@.1 < i32::MAX,
    ensures
        r is Some <==> (food_pos matches Some(p) && touching(hunter_pos@, p@)),
        r matches Some(a) ==> a == if food_is_animal {
            EatAction::Kill { victim: food, killer: hunter }
        } else {
            EatAction::Eat { eater: hunter, food }
        },
{
    match food_pos {
        Some(p) => {
            if in_contact(hunter_pos, p) {
                if food_is_animal {
                    Some(EatAction::Kill { victim: food, killer: hunter })
                } else {
                    Some(EatAction::Eat { eater: hunter, food })
                }
            } else {
                None
            }
        },
        None => None,
    }
}

} // verus!
