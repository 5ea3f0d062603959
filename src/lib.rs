// An engine for a turn-based text game: a stack of states, each showing a
// header, an optional body and labelled choices, driven by console input.
pub mod game_state;
pub mod input_option;
pub mod player;
pub mod states;
