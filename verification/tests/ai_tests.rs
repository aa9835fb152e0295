use poeng_server::ai::claims::{claim_choice, flee_from, Claims};
use poeng_server::ai::approach_ai_system::approach_move;
use poeng_server::ai::carnivorous_ai_system::choose_herbivore;
use poeng_server::ai::cow_ai_system::choose_leaf;
use poeng_server::ai::eating_ai::{eating_killing_decision, in_contact, EatAction};
use poeng_server::ai::monster_ai_system::monster_target;
use poeng_server::ai::omnivore_ai_system::{omnivore_food_choice, sort_seen_food, AmIStronger};
use poeng_server::ai::seach_parter_ai::{choose_mate, mates_of_specie};
use poeng_server::ai::sighting::{closest_of, distance_sq, FoodCandidate};
use poeng_server::ai::targeting_ai::{
    am_i_stronger, choose_food, choose_preferred_food, filter_component_distance, not_my_specie,
    PreferenceFoods, Sighted,
};
use poeng_server::components::{CombatStats, Ent, Hunger, Position, WantToMove};
use poeng_server::map::WorldMap;

fn ent(id: u32) -> Ent {
    Ent { id, gen: 1 }
}

fn stats(power: i32) -> CombatStats {
    CombatStats { max_hp: 10, hp: 10, defense: 1, power }
}

fn food(id: u32, dist2: u128) -> FoodCandidate {
    FoodCandidate { food: ent(id), dist2, competitor: None, is_animal: false, stats: None, hunt_gain: false }
}

#[test]
fn squared_distance() {
    assert_eq!(distance_sq((0, 0), (3, 4)), 25);
    assert_eq!(distance_sq((-2, 1), (1, -3)), 25);
    assert_eq!(distance_sq((i32::MIN, 0), (i32::MAX, 0)), (u32::MAX as u128) * (u32::MAX as u128));
}

#[test]
fn contact_includes_diagonals() {
    let mut d = Vec::new();
    let a = Position::new(5, 5, &mut d);
    let b = Position::new(6, 4, &mut d);
    let c = Position::new(7, 5, &mut d);
    assert!(in_contact(&a, &b));
    assert!(in_contact(&b, &a));
    assert!(in_contact(&a, &a));
    assert!(!in_contact(&a, &c));
}

#[test]
fn hunter_kills_animals_and_eats_the_rest() {
    let mut d = Vec::new();
    let me = Position::new(5, 5, &mut d);
    let near = Position::new(5, 6, &mut d);
    let far = Position::new(9, 9, &mut d);
    assert_eq!(
        eating_killing_decision(ent(1), &me, ent(2), Some(&near), true),
        Some(EatAction::Kill { victim: ent(2), killer: ent(1) })
    );
    assert_eq!(
        eating_killing_decision(ent(1), &me, ent(2), Some(&near), false),
        Some(EatAction::Eat { eater: ent(1), food: ent(2) })
    );
    assert_eq!(eating_killing_decision(ent(1), &me, ent(2), Some(&far), false), None);
    assert_eq!(eating_killing_decision(ent(1), &me, ent(2), None, false), None);
}

#[test]
fn stronger_compares_power() {
    assert!(am_i_stronger(&stats(5), Some(stats(4))));
    assert!(!am_i_stronger(&stats(5), Some(stats(5))));
    assert!(am_i_stronger(&stats(0), None));
    assert!(!AmIStronger(&stats(1), Some(stats(9))));
}

#[test]
fn closest_takes_the_first_on_a_tie() {
    let list = vec![(ent(1), (5, 0)), (ent(2), (0, 3)), (ent(3), (3, 0))];
    assert_eq!(closest_of((0, 0), &list), Some(1));
    assert_eq!(closest_of((0, 0), &vec![]), None);
    assert_eq!(choose_herbivore((0, 0), &list), Some(ent(2)));
}

#[test]
fn leaves_claimed_by_closer_creatures_are_skipped() {
    let mut a = food(1, 4);
    a.competitor = Some(2);
    let mut b = food(2, 9);
    b.competitor = Some(16);
    let c = food(3, 25);
    assert_eq!(choose_leaf(&vec![a, b, c]), Some((ent(2), 9)));
    let mut only = food(4, 9);
    only.competitor = Some(9);
    assert_eq!(choose_leaf(&vec![only]), None);
}

#[test]
fn omnivore_prefers_its_best_food() {
    let me = stats(5);
    let leaf = food(1, 16);
    let mut prey = food(2, 1);
    prey.stats = Some(stats(3));
    let mut strong = food(3, 1);
    strong.stats = Some(stats(9));
    let leaves = vec![leaf];
    let others = vec![strong, prey];
    // not hungry: nothing
    assert_eq!(omnivore_food_choice(false, true, true, true, &leaves, &others, &me), None);
    // prefers leaves
    assert_eq!(omnivore_food_choice(true, true, true, true, &leaves, &others, &me), Some((ent(1), 16)));
    // prefers meat: the weaker prey, not the stronger one
    assert_eq!(omnivore_food_choice(true, false, true, true, &leaves, &others, &me), Some((ent(2), 1)));
    // prefers leaves but none: falls back on prey only when reserve is low
    assert_eq!(omnivore_food_choice(true, true, true, true, &vec![], &others, &me), Some((ent(2), 1)));
    assert_eq!(omnivore_food_choice(true, true, false, true, &vec![], &others, &me), None);
}

#[test]
fn omnivore_sorts_what_it_sees() {
    let seen = vec![ent(1), ent(2), ent(3), ent(4)];
    let leafs = vec![ent(1)];
    let species = vec![(ent(2), "cow".to_string()), (ent(3), "wolf".to_string())];
    let (l, o, s) = sort_seen_food(&seen, &leafs, &species, &"cow".to_string());
    assert_eq!(l, vec![ent(1)]);
    assert_eq!(o, vec![ent(3)]);
    assert_eq!(s, vec![ent(2)]);
}

#[test]
fn targets_are_sorted_by_distance_stably() {
    let list = vec![
        Sighted { entity: ent(1), has_component: true, pos: Some((3, 0)) },
        Sighted { entity: ent(2), has_component: false, pos: Some((1, 0)) },
        Sighted { entity: ent(3), has_component: true, pos: Some((0, 1)) },
        Sighted { entity: ent(4), has_component: true, pos: None },
        Sighted { entity: ent(5), has_component: true, pos: Some((1, 0)) },
        Sighted { entity: ent(6), has_component: true, pos: Some((0, 2)) },
    ];
    let r = filter_component_distance(&list, (0, 0));
    assert_eq!(r, vec![(1, ent(3)), (1, ent(5)), (4, ent(6)), (9, ent(1))]);
}

#[test]
fn own_species_is_not_food() {
    let species = vec![(ent(1), "wolf".to_string()), (ent(2), "cow".to_string())];
    let r = not_my_specie(vec![(1, ent(1)), (2, ent(2)), (3, ent(3))], &"wolf".to_string(), &species);
    assert_eq!(r, vec![(2, ent(2)), (3, ent(3))]);
}

#[test]
fn targeting_picks_first_food_it_may_hunt() {
    let mut weak = food(1, 1);
    weak.is_animal = true;
    weak.stats = Some(stats(1));
    weak.hunt_gain = false;
    let mut gain = food(2, 4);
    gain.is_animal = true;
    gain.stats = Some(stats(1));
    gain.hunt_gain = true;
    let leaf = food(3, 9);
    let list = vec![weak, gain, leaf];
    assert_eq!(choose_food(&list, Some(stats(5))), Some(1));
    assert_eq!(choose_food(&vec![leaf], None), Some(0));
    let prefs = vec![
        PreferenceFoods { wanted: false, foods: vec![leaf] },
        PreferenceFoods { wanted: true, foods: vec![weak] },
        PreferenceFoods { wanted: true, foods: vec![weak, leaf] },
    ];
    assert_eq!(choose_preferred_food(&prefs, Some(stats(5))), Some((2, 1)));
}

#[test]
fn males_go_to_the_closest_female_of_their_species() {
    let in_heat = vec![(ent(1), "cow".to_string()), (ent(2), "wolf".to_string()), (ent(3), "cow".to_string())];
    assert_eq!(mates_of_specie(&in_heat, &"cow".to_string()), vec![ent(1), ent(3)]);
    let mates = vec![(ent(1), (10, 10)), (ent(3), (2, 2))];
    assert_eq!(choose_mate(Hunger::Full, (0, 0), &mates), Some(ent(3)));
    assert_eq!(choose_mate(Hunger::Hungry, (0, 0), &mates), None);
}

#[test]
fn monsters_approach_the_last_player_seen() {
    let mut m = WorldMap::new_map();
    let a = m.xy_idx(3, 3);
    let b = m.xy_idx(4, 3);
    m.tile_content.insert(a, vec![ent(9), ent(1)]);
    m.tile_content.insert(b, vec![ent(2)]);
    let players = vec![ent(1), ent(2)];
    assert_eq!(monster_target(&m, &vec![(3, 3), (4, 3), (5, 3)], &players), Some(b));
    assert_eq!(monster_target(&m, &vec![(3, 3), (5, 3)], &players), Some(a));
    assert_eq!(monster_target(&m, &vec![(5, 3)], &players), None);
}

#[test]
fn approach_steps_to_the_second_square_of_the_path() {
    let m = WorldMap::new_map();
    let steps = vec![m.xy_idx(5, 5) as i32, m.xy_idx(6, 4) as i32, m.xy_idx(7, 3) as i32];
    assert_eq!(approach_move(&m, (5, 5), true, &steps), Some(WantToMove { delta_x: 1, delta_y: -1 }));
    assert_eq!(approach_move(&m, (5, 5), false, &steps), None);
    assert_eq!(approach_move(&m, (5, 5), true, &vec![steps[0]]), None);
}

#[test]
fn claims_are_seen_by_later_creatures() {
    let mut claims = Claims::new();
    let food = Ent { id: 9, gen: 1 };
    let cow = Ent { id: 1, gen: 1 };
    let wolf = Ent { id: 2, gen: 1 };
    assert_eq!(claims.competitor(food), None);
    assert!(!claim_choice(&mut claims, cow, (0, 0), None));
    assert_eq!(claims.competitor(food), None);
    assert!(claim_choice(&mut claims, cow, (3, 4), Some((food, 25))));
    assert_eq!(claims.competitor(food), Some(25));
    assert_eq!(flee_from(&claims, food), Some((3, 4)));
    assert_eq!(flee_from(&claims, cow), None);
    // a closer creature takes the food over
    assert!(claim_choice(&mut claims, wolf, (1, 1), Some((food, 4))));
    assert_eq!(claims.competitor(food), Some(4));
    let c = claims.claim_of(food).unwrap();
    assert_eq!((c.predator, c.dist2, c.from_x, c.from_y), (wolf, 4, 1, 1));
    claims.claim(cow, wolf, 2, (1, 1));
    let all = claims.all();
    assert_eq!(all.len(), 2);
    assert_eq!(all[0].food, food);
    assert_eq!(all[1].food, cow);
}
