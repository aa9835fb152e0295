pub mod genealogy;
