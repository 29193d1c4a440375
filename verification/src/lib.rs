//! The rules of an educational role-playing game: a teacher's prompts, the
//! quest phases of a syllabus, scoring, puzzles and a conversational memory,
//! each stated over mathematical models and proved against them.

pub mod ai;
pub mod audio;
pub mod boot;
pub mod combat;
pub mod game_world;
pub mod inventory;
pub mod puzzle;
pub mod quest_ui;
pub mod quiz;
pub mod scoring;
pub mod story_mode;
pub mod syllabus;
pub mod teacher;
pub mod text;
