use vstd::prelude::*;
use crate::components::{Ent, LocalClientRunstate, PlayerInput};
use crate::gui::{InteractionMenuResult, ItemMenuResult};

verus! {

/// The keys the local player's interface reacts to.
#[derive(Clone, Copy, PartialEq, Eq, Structural, Debug)]
pub enum ClientKey {
    Left,
    Numpad4,
    H,
    Right,
    Numpad6,
    L,
    Up,
    Numpad8,
    K,
    Down,
    Numpad2,
    J,
    Numpad9,
    Numpad7,
    Numpad3,
    Numpad1,
    Numpad5,
    Space,
    Period,
    G,
    I,
    F,
    B,
    Other,
}

/// The order a key gives, and the screen that follows, from the base screen.
/// Arrows (and their numpad and vi-style aliases) move; `G` picks up the item on
/// the player's square, if any; `I` opens the inventory; `F` the interaction
/// menu; `B` the building menu; every other key does nothing.
pub open spec fn spec_base_state(key: Option<ClientKey>, item_here: Option<Ent>) -> (Option<PlayerInput>, LocalClientRunstate) {
    match key {
        None => (None, LocalClientRunstate::BaseState),
        Some(k) => match k {
            ClientKey::Left | ClientKey::Numpad4 | ClientKey::H => (Some(PlayerInput::LEFT), LocalClientRunstate::BaseState),
            ClientKey::Right | ClientKey::Numpad6 | ClientKey::L => (Some(PlayerInput::RIGHT), LocalClientRunstate::BaseState),
            ClientKey::Up | ClientKey::Numpad8 | ClientKey::K => (Some(PlayerInput::UP), LocalClientRunstate::BaseState),
            ClientKey::Down | ClientKey::Numpad2 | ClientKey::J => (Some(PlayerInput::DOWN), LocalClientRunstate::BaseState),
            ClientKey::G => (
                match item_here {
                    Some(item) => Some(PlayerInput::PICKUP(item)),
                    None => None,
                },
                LocalClientRunstate::BaseState,
            ),
            ClientKey::I => (Some(PlayerInput::INVENTORY), LocalClientRunstate::Inventory),
            ClientKey::F => (Some(PlayerInput::NONE), LocalClientRunstate::Interaction),
            ClientKey::B => (Some(PlayerInput::NONE), LocalClientRunstate::Build),
            _ => (None, LocalClientRunstate::BaseState),
        },
    }
}

/// The base screen of the local player: the order given by the key pressed
/// (if any), and the next screen.
pub fn local_client_base_state(key: Option<ClientKey>, item_here: Option<Ent>) -> (r: (Option<PlayerInput>, LocalClientRunstate))
    ensures
        r == spec_base_state(key, item_here),
{
    let mut newrunstate = LocalClientRunstate::BaseState;
    let input_op: Option<PlayerInput> = match key {
        None => None,
        Some(k) => match k {
            ClientKey::Left | ClientKey::Numpad4 | ClientKey::H => Some(PlayerInput::LEFT),
            ClientKey::Right | ClientKey::Numpad6 | ClientKey::L => Some(PlayerInput::RIGHT),
            ClientKey::Up | ClientKey::Numpad8 | ClientKey::K => Some(PlayerInput::UP),
            ClientKey::Down | ClientKey::Numpad2 | ClientKey::J => Some(PlayerInput::DOWN),
            ClientKey::G => {
                if let Some(item) = item_here {
                    Some(PlayerInput::PICKUP(item))
                } else {
                    None
                }
            },
            ClientKey::I => {
                newrunstate = LocalClientRunstate::Inventory;
                Some(PlayerInput::INVENTORY)
            },
            ClientKey::F => {
                newrunstate = LocalClientRunstate::Interaction;
                Some(PlayerInput::NONE)
            },
            ClientKey::B => {
                newrunstate = LocalClientRunstate::Build;
                Some(PlayerInput::NONE)
            },
            _ => None,
        },
    };
    (input_op, newrunstate)
}

/// The last item (in the given order) standing on the player's square.
pub open spec fn item_at(player: (i32, i32), items: Seq<(Ent, (i32, i32))>, upto: int) -> Option<Ent>
    decreases upto,
{
    if upto <= 0 {
        None
    } else if items[upto - 1].1 == player {
        Some(items[upto - 1].0)
    } else {
        item_at(player, items, upto - 1)
    }
}

/// The item the player would pick up: the last one found on its square.
pub fn get_item(player_pos: (i32, i32), items: &Vec<(Ent, (i32, i32))>) -> (r: Option<Ent>)
    ensures
        r == item_at(player_pos, items@, items@.len() as int),
{
    let mut target_item: Option<Ent> = None;
    let mut i: usize = 0;
    while i < items.len()
        invariant
            0 <= i <= items@.len(),
            target_item == item_at(player_pos, items@, i as int),
        decreases items.len() - i,
    {
        let (item_entity, position) = items[i];
        if position.0 == player_pos.0 && position.1 == player_pos.1 {
            target_item = Some(item_entity);
        }
        i = i + 1;
    }
    target_item
}

/// The inventory screen: cancelling returns to the base screen; picking an
/// item returns there too, with the item to use.
pub fn local_client_inventory(result: ItemMenuResult, picked: Option<Ent>) -> (r: (LocalClientRunstate, Option<Ent>))
    requires
        result == ItemMenuResult::Selected ==> picked is Some,
    ensures
        r == match result {
            ItemMenuResult::Cancel => (LocalClientRunstate::BaseState, None::<Ent>),
            ItemMenuResult::NoResponse => (LocalClientRunstate::Inventory, None::<Ent>),
            ItemMenuResult::Selected => (LocalClientRunstate::BaseState, picked),
        },
{
    match result {
        ItemMenuResult::Cancel => (LocalClientRunstate::BaseState, None),
        ItemMenuResult::NoResponse => (LocalClientRunstate::Inventory, None),
        ItemMenuResult::Selected => {
            let item_entity = picked.unwrap();
            (LocalClientRunstate::BaseState, Some(item_entity))
        },
    }
}

/// The interaction screen: cancelling or choosing returns to the base screen;
/// otherwise it stays open.
pub fn local_client_interaction(result: InteractionMenuResult) -> (r: LocalClientRunstate)
    ensures
        r == match result {
            InteractionMenuResult::NoResponse => LocalClientRunstate::Interaction,
            _ => LocalClientRunstate::BaseState,
        },
{
    match result {
        InteractionMenuResult::Cancel => LocalClientRunstate::BaseState,
        InteractionMenuResult::NoResponse => LocalClientRunstate::Interaction,
        InteractionMenuResult::Selected => LocalClientRunstate::BaseState,
    }
}

} // verus!
