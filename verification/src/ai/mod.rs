pub mod approach_ai_system;
pub mod carnivorous_ai_system;
pub mod claims;
pub mod cow_ai_system;
pub mod eating_ai;
pub mod monster_ai_system;
pub mod omnivore_ai_system;
pub mod seach_parter_ai;
pub mod sighting;
pub mod targeting_ai;
