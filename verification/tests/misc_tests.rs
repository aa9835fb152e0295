use poeng_server::components::{Ent, Interaction, LocalClientRunstate, PlayerInput};
use poeng_server::gui::{interaction_menu_choice, item_menu_choice, letter_pick, main_menu_choice, game_over_choice, GameOverResult, InteractionMenuResult, ItemMenuResult, MainMenuResult, MainMenuSelection, MenuKey, tooltip_layout};
use poeng_server::interaction_system::{spawn_objects, InteractionResquest, ObjectBuilder};
use poeng_server::local_player::{get_item, local_client_base_state, local_client_interaction, local_client_inventory, ClientKey};
use poeng_server::map::WorldMap;
use poeng_server::object_deleter::note_deleted_positions;
use poeng_server::algo::IdCounter;
use poeng_server::birth::{certificate, give_birth, spawn_birth, BirthForm, BirthRegistery, BirthRequest, BirthRequetList, Mutations};
use poeng_server::components::{CombatStats, Date};
use poeng_server::data_representation::genealogy::{decimal_chars, genealogy_dot};
use poeng_server::raws::ingame_spawner::{spawn_named_item_ingame, spawn_named_prop_ingame};
use poeng_server::raws::item_structs::{Item, Mob, RawViewshed, Renderable, SexeChoice, Shield, Weapon};
use poeng_server::raws::prop_structs::Prop;
use poeng_server::raws::rawmaster::{
    get_spawn_table_for_depth, pick_sexe, sexe_from_roll, spawn_born, spawn_named_entity, spawn_named_item, spawn_named_mob,
    spawn_named_prop, RawMaster, RawWarningKind, Raws, Sexe, SpawnKind, SpawnTableEntry, SpawnType,
};
use poeng_server::raws::spawn_parts::{born_parts, prop_parts, EquipmentSlot, Heritable, Part};

fn ent(id: u32) -> Ent {
    Ent { id, gen: 1 }
}

fn item(name: &str) -> Item {
    Item { name: name.to_string(), renderable: None, consumable: false, weapon: None, shield: None }
}

fn mob(name: &str) -> Mob {
    Mob {
        name: name.to_string(),
        renderable: None,
        blocks_tile: false,
        stats: CombatStats { max_hp: 16, hp: 16, defense: 1, power: 4 },
        vision_range: 8,
    }
}

fn prop(name: &str) -> Prop {
    Prop {
        name: name.to_string(),
        renderable: None,
        blocks_tile: None,
        interactable: None,
        interactable_object: false,
        leaf: None,
        tree: None,
        energy_reserve: false,
        viewshed: None,
        herbivore: false,
        reproduction: false,
        aging: false,
        temp_sensi: false,
        hum_sensi: false,
        specie: false,
        carnivore: false,
        speed: false,
        animal: false,
        sexe: None,
        combat: false,
        online_player: false,
        building_choice: false,
        facing_direction: false,
    }
}

fn items(v: &[&str]) -> Vec<Item> {
    v.iter().map(|s| item(s)).collect()
}

fn mobs(v: &[&str]) -> Vec<Mob> {
    v.iter().map(|s| mob(s)).collect()
}

fn props(v: &[&str]) -> Vec<Prop> {
    v.iter().map(|s| prop(s)).collect()
}

fn entry(name: &str, weight: i32, min_depth: i32, max_depth: i32, add: bool) -> SpawnTableEntry {
    SpawnTableEntry { name: name.to_string(), weight, min_depth, max_depth, add_map_depth_to_weight: if add { Some(true) } else { None } }
}

#[test]
fn raws_load_indexes_and_warns() {
    let mut rm = RawMaster::empty();
    let raws = Raws {
        items: items(&["Apple", "Wood", "Apple"]),
        mobs: mobs(&["Wolf", "Wood"]),
        props: props(&["Tree"]),
        spawn_table: vec![entry("Tree", 10, 0, 100, false), entry("Dragon", 1, 0, 100, false)],
    };
    let warnings = rm.load(raws);
    let w: Vec<(RawWarningKind, String)> = warnings.into_iter().map(|w| (w.kind, w.name)).collect();
    assert_eq!(
        w,
        vec![
            (RawWarningKind::DuplicateItem, "Apple".to_string()),
            (RawWarningKind::DuplicateMob, "Wood".to_string()),
            (RawWarningKind::UnknownSpawn, "Dragon".to_string()),
        ]
    );
    assert_eq!(rm.item_index.get(&"Apple".to_string()), Some(2));
    assert_eq!(rm.item_index.get(&"Wood".to_string()), Some(1));
    assert_eq!(rm.mob_index.get(&"Wood".to_string()), Some(1));
    assert!(!rm.prop_index.contains_key(&"Wolf".to_string()));
    assert_eq!(rm.spawn_kind(&"Wood".to_string()), Some(SpawnKind::Item(1)));
    assert_eq!(rm.spawn_kind(&"Wolf".to_string()), Some(SpawnKind::Mob(0)));
    assert_eq!(rm.spawn_kind(&"Tree".to_string()), Some(SpawnKind::Prop(0)));
    assert_eq!(rm.spawn_kind(&"Rock".to_string()), None);
}

#[test]
fn spawn_table_for_depth() {
    let mut rm = RawMaster::empty();
    rm.load(Raws {
        items: vec![],
        mobs: vec![],
        props: props(&["Tree", "Goblin", "Orc"]),
        spawn_table: vec![entry("Tree", 10, 0, 100, false), entry("Goblin", 5, 2, 4, true), entry("Orc", 3, 5, 9, false)],
    });
    let t = get_spawn_table_for_depth(&rm, 3);
    assert_eq!(t, vec![("Tree".to_string(), 10), ("Goblin".to_string(), 8)]);
    assert_eq!(get_spawn_table_for_depth(&rm, 7), vec![("Tree".to_string(), 10), ("Orc".to_string(), 3)]);
}

#[test]
fn sexe_choices() {
    assert_eq!(pick_sexe(SexeChoice::MaleOnly, true), Some(Sexe::Male));
    assert_eq!(pick_sexe(SexeChoice::FemaleStart, false), Some(Sexe::Female));
    assert_eq!(pick_sexe(SexeChoice::MaleStart, false), Some(Sexe::Male));
    for _ in 0..10 {
        let s = pick_sexe(SexeChoice::Random, false);
        assert!(s == Some(Sexe::Male) || s == Some(Sexe::Female));
        let s = pick_sexe(SexeChoice::MaleStart, true);
        assert!(s == Some(Sexe::Male) || s == Some(Sexe::Female));
    }
    assert_eq!(sexe_from_roll(SexeChoice::Random, false, 1), Some(Sexe::Male));
    assert_eq!(sexe_from_roll(SexeChoice::Random, false, 2), Some(Sexe::Female));
    assert_eq!(sexe_from_roll(SexeChoice::Random, false, 3), None);
    assert_eq!(sexe_from_roll(SexeChoice::FemaleStart, true, 1), Some(Sexe::Male));
    assert_eq!(sexe_from_roll(SexeChoice::FemaleStart, false, 1), Some(Sexe::Female));
    assert_eq!(sexe_from_roll(SexeChoice::FemaleOnly, true, 1), Some(Sexe::Female));
}

#[test]
fn main_menu_moves() {
    let up = main_menu_choice(MainMenuSelection::NewGame, Some(MenuKey::Up), true);
    assert_eq!(up, MainMenuResult::NoSelection { selected: MainMenuSelection::Quit });
    let up = main_menu_choice(MainMenuSelection::Quit, Some(MenuKey::Up), false);
    assert_eq!(up, MainMenuResult::NoSelection { selected: MainMenuSelection::NewGame });
    let down = main_menu_choice(MainMenuSelection::NewGame, Some(MenuKey::Down), false);
    assert_eq!(down, MainMenuResult::NoSelection { selected: MainMenuSelection::Quit });
    let down = main_menu_choice(MainMenuSelection::NewGame, Some(MenuKey::Down), true);
    assert_eq!(down, MainMenuResult::NoSelection { selected: MainMenuSelection::LoadGame });
    assert_eq!(main_menu_choice(MainMenuSelection::LoadGame, Some(MenuKey::Return), true), MainMenuResult::Selected { selected: MainMenuSelection::LoadGame });
    assert_eq!(main_menu_choice(MainMenuSelection::LoadGame, Some(MenuKey::Escape), true), MainMenuResult::NoSelection { selected: MainMenuSelection::Quit });
    assert_eq!(main_menu_choice(MainMenuSelection::LoadGame, None, true), MainMenuResult::NoSelection { selected: MainMenuSelection::LoadGame });
    assert_eq!(game_over_choice(true), GameOverResult::QuitToMenu);
    assert_eq!(game_over_choice(false), GameOverResult::NoSelection);
}

#[test]
fn letters_pick_shown_entries() {
    assert_eq!(letter_pick(0, 3), Some(0));
    assert_eq!(letter_pick(2, 3), Some(2));
    assert_eq!(letter_pick(3, 3), None);
    assert_eq!(letter_pick(-1, 3), None);
}

#[test]
fn local_player_keys() {
    assert!(matches!(local_client_base_state(Some(ClientKey::H), None), (Some(PlayerInput::LEFT), LocalClientRunstate::BaseState)));
    assert!(matches!(local_client_base_state(Some(ClientKey::Numpad2), None), (Some(PlayerInput::DOWN), LocalClientRunstate::BaseState)));
    assert!(matches!(local_client_base_state(Some(ClientKey::I), None), (Some(PlayerInput::INVENTORY), LocalClientRunstate::Inventory)));
    assert!(matches!(local_client_base_state(Some(ClientKey::B), None), (Some(PlayerInput::NONE), LocalClientRunstate::Build)));
    assert!(matches!(local_client_base_state(Some(ClientKey::G), Some(ent(4))), (Some(PlayerInput::PICKUP(e)), LocalClientRunstate::BaseState) if e == ent(4)));
    assert!(matches!(local_client_base_state(Some(ClientKey::G), None), (None, LocalClientRunstate::BaseState)));
    assert!(matches!(local_client_base_state(Some(ClientKey::Space), None), (None, LocalClientRunstate::BaseState)));
    assert!(matches!(local_client_base_state(None, None), (None, LocalClientRunstate::BaseState)));
    let items = vec![(ent(1), (2, 2)), (ent(2), (3, 3)), (ent(3), (2, 2))];
    assert_eq!(get_item((2, 2), &items), Some(ent(3)));
    assert_eq!(get_item((5, 5), &items), None);
    assert_eq!(local_client_inventory(ItemMenuResult::Selected, Some(ent(7))), (LocalClientRunstate::BaseState, Some(ent(7))));
    assert_eq!(local_client_inventory(ItemMenuResult::NoResponse, None), (LocalClientRunstate::Inventory, None));
    assert_eq!(local_client_interaction(InteractionMenuResult::Cancel), LocalClientRunstate::BaseState);
    assert_eq!(local_client_interaction(InteractionMenuResult::NoResponse), LocalClientRunstate::Interaction);
}

#[test]
fn request_queues() {
    let mut b = ObjectBuilder::new();
    b.request(1, 2, "Wood".to_string());
    b.request(3, 4, "Apple".to_string());
    let r = b.drain_requests();
    assert_eq!(r.len(), 2);
    assert_eq!((r[1].x, r[1].y, r[1].name.as_str()), (3, 4, "Apple"));
    assert!(b.drain_requests().is_empty());
    let mut q = InteractionResquest::new();
    q.request(5, 6, Interaction::new("chop".to_string()), ent(8));
    let r = q.drain_requests();
    assert_eq!(r.len(), 1);
    assert_eq!(r[0].3, ent(8));
    assert_eq!(r[0].2.name, "chop");
    assert!(q.drain_requests().is_empty());
}

#[test]
fn deleted_entities_mark_their_squares() {
    let mut m = WorldMap::new_map();
    note_deleted_positions(&mut m, &vec![Some((1, 2)), None, Some((3, 4))]);
    assert_eq!(m.dirty, vec![(1, 2), (3, 4)]);
}

fn at(x: i32, y: i32) -> SpawnType {
    SpawnType::AtPosition { x, y }
}

fn glyph() -> Renderable {
    Renderable { glyph: "&".to_string(), fg: "#00FF00".to_string(), bg: "#000000".to_string(), order: 1 }
}

fn loaded_raws() -> RawMaster {
    let mut sword = item("Sword");
    sword.renderable = Some(glyph());
    sword.weapon = Some(Weapon { range: "melee".to_string(), power_bonus: 3 });
    let mut shield = item("Buckler");
    shield.shield = Some(Shield { defense_bonus: 2 });
    shield.consumable = true;
    let mut wolf = mob("Wolf");
    wolf.blocks_tile = true;
    let mut cow = prop("Cow");
    cow.renderable = Some(glyph());
    cow.blocks_tile = Some(true);
    cow.leaf = Some(false);
    cow.energy_reserve = true;
    cow.viewshed = Some(RawViewshed { range: 6 });
    cow.herbivore = true;
    cow.reproduction = true;
    cow.specie = true;
    cow.animal = true;
    cow.sexe = Some(SexeChoice::FemaleOnly);
    cow.combat = true;
    let mut grass = prop("Grass");
    grass.leaf = Some(true);
    grass.interactable = Some(true);
    grass.tree = None;
    let mut rm = RawMaster::empty();
    rm.load(Raws { items: vec![sword, shield], mobs: vec![wolf], props: vec![cow, grass], spawn_table: vec![] });
    rm
}

#[test]
fn spawn_item_parts() {
    let rm = loaded_raws();
    let mut dirty = vec![(0, 0)];
    let parts = spawn_named_item(&rm, &"Sword".to_string(), at(4, 5), &mut dirty).unwrap();
    assert_eq!(
        parts,
        vec![
            Part::Position(4, 5),
            Part::FromTemplate(Heritable::Renderable),
            Part::Name,
            Part::Item,
            Part::Equippable(EquipmentSlot::Melee),
            Part::MeleePowerBonus(3),
        ]
    );
    assert_eq!(dirty, vec![(0, 0), (4, 5)]);
    let parts = spawn_named_item(&rm, &"Buckler".to_string(), at(1, 1), &mut dirty).unwrap();
    assert_eq!(
        parts,
        vec![Part::Position(1, 1), Part::Name, Part::Item, Part::Equippable(EquipmentSlot::Shield), Part::DefenseBonus(2), Part::Consumable]
    );
    assert!(spawn_named_item(&rm, &"Wolf".to_string(), at(1, 1), &mut dirty).is_none());
    assert_eq!(dirty.len(), 3);
}

#[test]
fn spawn_mob_parts() {
    let rm = loaded_raws();
    let mut dirty = vec![];
    let parts = spawn_named_mob(&rm, &"Wolf".to_string(), at(2, 3), &mut dirty).unwrap();
    assert_eq!(
        parts,
        vec![
            Part::Position(2, 3),
            Part::Name,
            Part::Monster,
            Part::BlocksTile,
            Part::Stats(CombatStats { max_hp: 16, hp: 16, defense: 1, power: 4 }),
            Part::Viewshed(8),
        ]
    );
    assert_eq!(dirty, vec![(2, 3)]);
}

#[test]
fn spawn_prop_parts_and_ids() {
    let rm = loaded_raws();
    let mut dirty = vec![];
    let mut counter = IdCounter::new();
    let cow = spawn_named_prop(&rm, &"Cow".to_string(), at(7, 8), &mut dirty, &mut counter).unwrap();
    assert_eq!(
        cow,
        vec![
            Part::UniqueId(1),
            Part::Position(7, 8),
            Part::FromTemplate(Heritable::Renderable),
            Part::Name,
            Part::BlocksTile,
            Part::FromTemplate(Heritable::EnergyReserve),
            Part::Viewshed(6),
            Part::FromTemplate(Heritable::Herbivore),
            Part::FromTemplate(Heritable::Reproduction),
            Part::FromTemplate(Heritable::Specie),
            Part::Animal,
            Part::Female,
            Part::FromTemplate(Heritable::CombatStats),
        ]
    );
    let grass = spawn_named_prop(&rm, &"Grass".to_string(), at(0, 0), &mut dirty, &mut counter).unwrap();
    assert_eq!(grass, vec![Part::UniqueId(2), Part::Position(0, 0), Part::Name, Part::Interactable, Part::Leaf(100)]);
    assert!(spawn_named_prop(&rm, &"Sword".to_string(), at(0, 0), &mut dirty, &mut counter).is_none());
    assert_eq!(dirty, vec![(7, 8), (0, 0)]);
    let again = prop_parts(&rm.raws.props[1], 9, 0, 0, Some(Sexe::Male));
    assert_eq!(again, vec![Part::UniqueId(9), Part::Position(0, 0), Part::Name, Part::Interactable, Part::Leaf(100), Part::Male]);
}

#[test]
fn spawn_named_entity_dispatch() {
    let rm = loaded_raws();
    let mut dirty = vec![];
    let mut counter = IdCounter::new();
    let sword = spawn_named_entity(&rm, &"Sword".to_string(), at(1, 2), &mut dirty, &mut counter).unwrap();
    assert_eq!(sword[3], Part::Item);
    let wolf = spawn_named_entity(&rm, &"Wolf".to_string(), at(1, 2), &mut dirty, &mut counter).unwrap();
    assert_eq!(wolf[2], Part::Monster);
    let grass = spawn_named_entity(&rm, &"Grass".to_string(), at(1, 2), &mut dirty, &mut counter).unwrap();
    assert_eq!(grass[0], Part::UniqueId(1));
    assert!(spawn_named_entity(&rm, &"Dragon".to_string(), at(1, 2), &mut dirty, &mut counter).is_none());
    assert_eq!(dirty.len(), 3);
    let next = spawn_named_entity(&rm, &"Cow".to_string(), at(1, 2), &mut dirty, &mut counter).unwrap();
    assert_eq!(next[0], Part::UniqueId(2));
}

#[test]
fn spawn_born_takes_mutations() {
    let rm = loaded_raws();
    let mut counter = IdCounter::new();
    let mut m = Mutations::new();
    m.energy_reserve = true;
    m.renderable = true;
    m.temp_sensi = true;
    let calf = spawn_born(&rm, &"Cow".to_string(), at(3, 3), m, &mut counter).unwrap();
    assert_eq!(
        calf,
        vec![
            Part::UniqueId(1),
            Part::Position(3, 3),
            Part::Name,
            Part::FromMutation(Heritable::Renderable),
            Part::FromMutation(Heritable::EnergyReserve),
            Part::FromTemplate(Heritable::Reproduction),
            Part::FromMutation(Heritable::TemperatureSensitive),
            Part::FromTemplate(Heritable::Specie),
            Part::FromTemplate(Heritable::Herbivore),
            Part::FromTemplate(Heritable::CombatStats),
            Part::BlocksTile,
            Part::Viewshed(6),
            Part::Animal,
            Part::Female,
        ]
    );
    assert!(spawn_born(&rm, &"Wolf".to_string(), at(3, 3), Mutations::new(), &mut counter).is_none());
    let twin = born_parts(&rm.raws.props[0], Mutations::new(), 5, 3, 3, None);
    assert_eq!(twin[3], Part::FromTemplate(Heritable::Renderable));
    assert_eq!(twin.len(), 12);
}

#[test]
fn ingame_spawns() {
    let rm = loaded_raws();
    let grass = spawn_named_prop_ingame(&rm, &"Grass".to_string(), at(4, 4)).unwrap();
    assert_eq!(grass, vec![Part::Marked, Part::Position(4, 4), Part::Name, Part::Interactable, Part::Leaf(100)]);
    let cow = spawn_named_prop_ingame(&rm, &"Cow".to_string(), at(4, 4)).unwrap();
    assert_eq!(
        cow,
        vec![
            Part::Marked,
            Part::Position(4, 4),
            Part::FromTemplate(Heritable::Renderable),
            Part::Name,
            Part::FromTemplate(Heritable::EnergyReserve),
            Part::BlocksTile,
            Part::Viewshed(6),
            Part::FromTemplate(Heritable::Herbivore),
            Part::FromTemplate(Heritable::Reproduction),
        ]
    );
    let sword = spawn_named_item_ingame(&rm, &"Sword".to_string(), at(0, 1)).unwrap();
    assert_eq!(sword, vec![Part::Position(0, 1), Part::FromTemplate(Heritable::Renderable), Part::Name, Part::Item]);
    assert!(spawn_named_item_ingame(&rm, &"Cow".to_string(), at(0, 1)).is_none());
    assert!(spawn_named_prop_ingame(&rm, &"Sword".to_string(), at(0, 1)).is_none());
}

fn form(name: &str, parent: u32, x: i32) -> BirthForm {
    BirthForm {
        name: name.to_string(),
        parent: ent(parent),
        parent_id: parent as usize,
        male_parent: None,
        male_parent_id: None,
        date: Date { day: x as u32, year: 2 },
        position: (x, 0),
    }
}

#[test]
fn births_follow_requests() {
    let rm = loaded_raws();
    let mut requests = BirthRequetList::new();
    requests.request(form("Cow", 10, 1), Mutations::new());
    requests.request(form("Wolf", 11, 2), Mutations::new());
    requests.request(form("Grass", 12, 3), Mutations::new());
    let mut counter = IdCounter::new();
    let mut registry = BirthRegistery::new();
    let made = vec![ent(100), ent(101), ent(102)];
    let born = give_birth(&rm, &mut requests, &mut counter, &mut registry, &made);
    assert_eq!(born.len(), 2);
    assert_eq!((born[0].0, born[0].1.as_str()), (ent(100), "Cow"));
    assert_eq!(born[0].2[0], Part::UniqueId(1));
    assert_eq!(born[0].2[1], Part::Position(1, 0));
    assert_eq!((born[1].0, born[1].1.as_str()), (ent(102), "Grass"));
    assert_eq!(born[1].2, vec![Part::UniqueId(2), Part::Position(3, 0), Part::Name, Part::Interactable, Part::Leaf(100)]);
    let records = registry.get();
    assert_eq!(records.len(), 2);
    assert_eq!((records[0].id, records[0].entity, records[0].parent_id), (1, ent(100), 10));
    assert_eq!(records[0].name, "Cow");
    assert_eq!((records[1].id, records[1].entity, records[1].position), (2, ent(102), (3, 0)));
    assert_eq!(records[1].name, "Grass");
    assert_eq!((records[1].date.get_day(), records[1].date.get_year()), (3, 2));
    assert_eq!(records[0].date, Date { day: 1, year: 2 });
    let again = give_birth(&rm, &mut requests, &mut counter, &mut registry, &vec![]);
    assert!(again.is_empty());
    assert_eq!(registry.get().len(), 2);

    let lone = BirthRequest { form: form("Wolf", 1, 1), mutations: Mutations::new() };
    assert!(spawn_birth(&rm, &lone, &mut counter).is_none());
    let calf = BirthRequest { form: form("Cow", 1, 5), mutations: Mutations::new() };
    assert_eq!(spawn_birth(&rm, &calf, &mut counter).unwrap()[0], Part::UniqueId(3));
    registry.insert(certificate(form("Cow", 4, 0), ent(103), 3));
    assert_eq!(registry.get()[2].parent_id, 4);
    assert_eq!(genealogy_dot(&registry), "digraph G {\n    10 -> 1;\n    12 -> 2;\n    4 -> 3;\n}\n");
    assert_eq!(genealogy_dot(&BirthRegistery::new()), "digraph G {\n}\n");
}

#[test]
fn decimal_writing() {
    let s: String = decimal_chars(0).into_iter().collect();
    assert_eq!(s, "0");
    let s: String = decimal_chars(7).into_iter().collect();
    assert_eq!(s, "7");
    let s: String = decimal_chars(10).into_iter().collect();
    assert_eq!(s, "10");
    let s: String = decimal_chars(1234509).into_iter().collect();
    assert_eq!(s, "1234509");
    assert_eq!(s.parse::<usize>().unwrap(), 1234509);
}

#[test]
fn objects_built_from_requests() {
    let rm = loaded_raws();
    let mut builder = ObjectBuilder::new();
    builder.request(1, 2, "Sword".to_string());
    builder.request(3, 4, "Cow".to_string());
    builder.request(5, 6, "Buckler".to_string());
    let built = spawn_objects(&rm, &mut builder);
    assert_eq!(built.len(), 2);
    assert_eq!((built[0].0.x, built[0].0.y, built[0].0.name.as_str()), (1, 2, "Sword"));
    assert_eq!(built[0].1, vec![Part::Position(1, 2), Part::FromTemplate(Heritable::Renderable), Part::Name, Part::Item]);
    assert_eq!((built[1].0.x, built[1].0.y, built[1].0.name.as_str()), (5, 6, "Buckler"));
    assert_eq!(built[1].1, vec![Part::Position(5, 6), Part::Name, Part::Item]);
    assert!(builder.drain_requests().is_empty());
}

#[test]
fn stale_indexes_after_a_second_load() {
    let mut rm = RawMaster::empty();
    rm.load(Raws { items: vec![], mobs: mobs(&["Wolf", "Bear", "Grass"]), props: vec![], spawn_table: vec![] });
    let mut grass = prop("Grass");
    grass.leaf = Some(true);
    rm.load(Raws { items: vec![], mobs: vec![], props: vec![grass], spawn_table: vec![] });
    // the monster index still maps "Grass" to a place the new list does not have
    assert!(!rm.mobs_in_bounds());
    assert!(rm.props_in_bounds());
    assert!(rm.items_in_bounds());
    assert!(rm.prop_key_in_bounds(&"Grass".to_string()));
    assert!(rm.item_key_in_bounds(&"Grass".to_string()));
    let mut dirty = vec![];
    let mut counter = IdCounter::new();
    let parts = spawn_named_prop(&rm, &"Grass".to_string(), at(1, 1), &mut dirty, &mut counter).unwrap();
    assert_eq!(parts, vec![Part::UniqueId(1), Part::Position(1, 1), Part::Name, Part::Leaf(100)]);
    let born = spawn_born(&rm, &"Grass".to_string(), at(2, 2), Mutations::new(), &mut counter).unwrap();
    assert_eq!(born, vec![Part::UniqueId(2), Part::Position(2, 2), Part::Name, Part::Leaf(100)]);
    assert!(spawn_named_prop_ingame(&rm, &"Grass".to_string(), at(0, 0)).is_some());
}

#[test]
fn requested_names_in_order() {
    let mut builder = ObjectBuilder::new();
    builder.request(1, 2, "Sword".to_string());
    builder.request(3, 4, "Cow".to_string());
    assert_eq!(builder.requested_names(), vec!["Sword".to_string(), "Cow".to_string()]);
    let rm = loaded_raws();
    assert!(rm.item_key_in_bounds(&"Sword".to_string()));
    assert!(rm.item_key_in_bounds(&"Dragon".to_string()));
}

#[test]
fn lettered_menus_answer_keys() {
    assert_eq!(item_menu_choice(None, -1, 3), (ItemMenuResult::NoResponse, None));
    assert_eq!(item_menu_choice(Some(MenuKey::Escape), -1, 3), (ItemMenuResult::Cancel, None));
    assert_eq!(item_menu_choice(Some(MenuKey::Other), 1, 3), (ItemMenuResult::Selected, Some(1)));
    assert_eq!(item_menu_choice(Some(MenuKey::Other), 3, 3), (ItemMenuResult::NoResponse, None));
    assert_eq!(item_menu_choice(Some(MenuKey::Return), -1, 3), (ItemMenuResult::NoResponse, None));
    assert_eq!(interaction_menu_choice(Some(MenuKey::Other), 0, 10), (InteractionMenuResult::Selected, Some(0)));
    assert_eq!(interaction_menu_choice(Some(MenuKey::Escape), 0, 10), (InteractionMenuResult::Cancel, None));
}

#[test]
fn tooltip_stands_beside_the_mouse() {
    let right = tooltip_layout(10, &vec![5, 8, 2]);
    assert_eq!((right.width, right.on_left, right.text_x, right.arrow_x), (11, false, 14, 11));
    assert_eq!(right.paddings, vec![5, 2, 8]);
    let left = tooltip_layout(50, &vec![4]);
    assert_eq!((left.width, left.on_left, left.text_x, left.arrow_x), (7, true, 43, 48));
    assert_eq!(left.paddings, vec![2]);
    let edge = tooltip_layout(40, &vec![]);
    assert_eq!((edge.width, edge.on_left, edge.text_x), (3, false, 44));
    assert!(edge.paddings.is_empty());
}
