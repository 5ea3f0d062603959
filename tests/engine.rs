use rust_rpg::game_state::{AToAny, Answer, GameState, GlobalGameState, Prompt};
use rust_rpg::input_option::{eq_ignore_ascii_case, resolve_input, InputOption, InputOptionBuilder, Transition};
use rust_rpg::player::{Item, Player};
use rust_rpg::states::{
    index_text, prompt_for, InventoryGameState, MainGameState, OptionsMenuGameState,
    StartGameState,
};

const START_TEXT: &str =
    "Welcome to Rust RPG V0.1.0!\n\n > (N) New\n > (O) Options\n > (Q) Quit\n\n";

fn option(name: &str, shortcut: &str, t: Transition) -> InputOption {
    InputOptionBuilder::new().name(name).shortcut(shortcut).connect(t).build()
}

fn start_game(name: &str) -> GlobalGameState {
    let mut g = GlobalGameState::new();
    let t = g.get_current_state().parse_input("n").unwrap();
    let answer = Answer::Text(name.to_string());
    assert!(g.can_perform(t, &answer));
    g.perform(t, answer);
    g
}

#[test]
fn builder_defaults_fill_name_and_action() {
    let o = InputOptionBuilder::new().build();
    assert_eq!(o.display_line(), " > N/A\n");
    assert_eq!(o.get_callback(), Transition::Nothing);
    assert!(o.matches("n/a"));
}

#[test]
fn builder_keeps_what_was_set() {
    let o = option("New", "N", Transition::StartNew);
    assert_eq!(o.display_line(), " > (N) New\n");
    assert_eq!(o.get_callback(), Transition::StartNew);
    let bare = InputOptionBuilder::new().name("Walk").connect(Transition::MainWalk).build();
    assert_eq!(bare.display_line(), " > Walk\n");
    assert!(!bare.matches("w"));
}

#[test]
fn ascii_case_comparison() {
    assert!(eq_ignore_ascii_case("Quit", "qUIT"));
    assert!(eq_ignore_ascii_case("", ""));
    assert!(!eq_ignore_ascii_case("Quit", "Quit "));
    assert!(!eq_ignore_ascii_case("Quit", "Quiz"));
    assert!(!eq_ignore_ascii_case("[", "{"));
    assert!(eq_ignore_ascii_case("é1", "é1"));
}

#[test]
fn resolve_ignores_case_of_names_and_shortcuts() {
    let opts = vec![
        option("New", "N", Transition::StartNew),
        option("Quit", "Q", Transition::StartQuit),
    ];
    for input in ["New", "new", "NEW", "nEw", "n", "N"] {
        assert_eq!(resolve_input(&opts, input), Some(Transition::StartNew));
    }
    for input in ["quit", "QUIT", "q", "Q"] {
        assert_eq!(resolve_input(&opts, input), Some(Transition::StartQuit));
    }
}

#[test]
fn resolve_last_match_wins() {
    let opts = vec![
        option("Walk", "X", Transition::MainWalk),
        option("Inventory", "I", Transition::MainOpenInventory),
        option("Exit", "x", Transition::MainQuit),
    ];
    assert_eq!(resolve_input(&opts, "x"), Some(Transition::MainQuit));
    let named = vec![
        option("Go", "A", Transition::MainWalk),
        option("Stay", "go", Transition::MainQuit),
    ];
    assert_eq!(resolve_input(&named, "GO"), Some(Transition::MainQuit));
    assert_eq!(resolve_input(&named, "a"), Some(Transition::MainWalk));
}

#[test]
fn resolve_without_match_or_options() {
    let opts = vec![option("New", "N", Transition::StartNew)];
    assert_eq!(resolve_input(&opts, "xyz"), None);
    assert_eq!(resolve_input(&opts, ""), None);
    assert_eq!(resolve_input(&Vec::new(), "n"), None);
}

#[test]
fn fresh_context_shows_start() {
    let g = GlobalGameState::new();
    assert!(!g.is_states_empty());
    assert!(g.is_current_state::<StartGameState>());
    assert!(!g.has_player());
    assert_eq!(g.get_current_state().display(), START_TEXT);
    assert_eq!(g.get_current_state().get_header(), "Welcome to Rust RPG V0.1.0!");
    assert_eq!(g.get_current_state().get_body(), None);
    assert_eq!(g.get_current_state().get_init_fn(), None);
    assert_eq!(g.get_current_state().get_input_options().len(), 3);
}

#[test]
fn quit_on_start_empties_the_stack() {
    for input in ["Q", "q", "quit", "QuIt"] {
        let mut g = GlobalGameState::new();
        let t = g.get_current_state().parse_input(input);
        assert_eq!(t, Some(Transition::StartQuit));
        assert!(prompt_for(Transition::StartQuit).is_none());
        let lines = g.perform(t.unwrap(), Answer::Nothing);
        assert!(lines.is_empty());
        assert!(g.is_states_empty());
        assert!(!g.is_current_state::<StartGameState>());
    }
}

#[test]
fn new_game_creates_player_and_pushes_main() {
    let mut g = GlobalGameState::new();
    let t = g.get_current_state().parse_input("n").unwrap();
    assert_eq!(t, Transition::StartNew);
    match prompt_for(t) {
        Some(Prompt::Text(p)) => assert_eq!(p, "Please enter your name: "),
        _ => panic!("a name is asked for"),
    }
    assert!(!g.can_perform(t, &Answer::Nothing));
    let lines = g.perform(t, Answer::Text("Alice".to_string()));
    assert_eq!(lines, vec!["Welcome, Alice...".to_string()]);
    assert_eq!(g.get_player().get_name(), "Alice");
    assert!(g.is_current_state::<MainGameState>());
    assert_eq!(
        g.get_current_state().display(),
        "N/A\n\n > (W) Walk\n > (I) Inventory\n > (Q) Quit\n\n"
    );
}

#[test]
fn unknown_input_changes_nothing() {
    let g = GlobalGameState::new();
    assert_eq!(g.get_current_state().parse_input("xyz"), None);
    assert!(g.is_current_state::<StartGameState>());
    assert_eq!(g.get_current_state().display(), START_TEXT);
    let main = start_game("Eve");
    assert_eq!(main.get_current_state().parse_input("xyz"), None);
    assert!(main.is_current_state::<MainGameState>());
}

#[test]
fn pop_single_state_leaves_empty_stack() {
    let mut g = GlobalGameState::new();
    g.remove_state();
    assert!(g.is_states_empty());
    g.remove_state();
    assert!(g.is_states_empty());
}

#[test]
fn push_then_pop_restores_stack() {
    let mut g = GlobalGameState::new();
    g.append_state(OptionsMenuGameState::new());
    g.append_state(MainGameState::new());
    g.append_state(OptionsMenuGameState::new());
    assert!(g.is_current_state::<OptionsMenuGameState>());
    g.remove_state();
    assert!(g.is_current_state::<MainGameState>());
    g.remove_state();
    g.remove_state();
    assert!(g.is_current_state::<StartGameState>());
    assert_eq!(g.get_current_state().display(), START_TEXT);
    g.remove_state();
    assert!(g.is_states_empty());
}

#[test]
fn typed_access_matches_only_the_top_type() {
    let mut g = GlobalGameState::new();
    g.perform(Transition::StartOptions, Answer::Nothing);
    assert!(g.is_current_state::<OptionsMenuGameState>());
    assert!(!g.is_current_state::<StartGameState>());
    assert!(!g.is_current_state::<MainGameState>());
    assert!(!g.is_current_state::<InventoryGameState>());
    assert_eq!(g.get_current_state_downcast::<OptionsMenuGameState>().get_starting_level(), 1);
    assert_eq!(
        g.get_current_state().display(),
        "Option Menu\n\n > (C) Change Starting Level\n > (B) Back\n\n"
    );
}

#[test]
fn change_starting_level_sets_top_options_menu() {
    let mut g = GlobalGameState::new();
    let t = g.get_current_state().parse_input("options").unwrap();
    g.perform(t, Answer::Nothing);
    let c = g.get_current_state().parse_input("c").unwrap();
    assert_eq!(c, Transition::OptionsChangeStartingLevel);
    match prompt_for(c) {
        Some(Prompt::Number(p)) => assert_eq!(p, "Enter starting level (integer): "),
        _ => panic!("a number is asked for"),
    }
    assert!(!g.can_perform(c, &Answer::Text("5".to_string())));
    assert!(g.can_perform(c, &Answer::Number(-7)));
    g.perform(c, Answer::Number(-7));
    assert_eq!(g.get_current_state_downcast::<OptionsMenuGameState>().get_starting_level(), -7);
    let b = g.get_current_state().parse_input("BACK").unwrap();
    g.perform(b, Answer::Nothing);
    assert!(g.is_current_state::<StartGameState>());
    let fresh = GlobalGameState::new();
    assert!(!fresh.can_perform(c, &Answer::Number(3)));
}

#[test]
fn inventory_hook_lists_items_last_first() {
    let mut g = start_game("Bob");
    let t = g.get_current_state().parse_input("i").unwrap();
    assert!(g.can_perform(t, &Answer::Nothing));
    g.perform(t, Answer::Nothing);
    assert!(g.is_current_state::<InventoryGameState>());
    assert_eq!(g.get_current_state().get_body(), Some(String::new()));
    assert_eq!(
        g.get_current_state().display(),
        "Inventory\n\n\n\n > (1) Box\n > (0) Apple\n > (B) Back\n\n"
    );
    let d = g.get_current_state().parse_input("1").unwrap();
    assert_eq!(d, Transition::DescribeItem(1));
    assert_eq!(g.perform(d, Answer::Nothing), vec!["The item description from: Box".to_string()]);
    let a = g.get_current_state().parse_input("apple").unwrap();
    assert_eq!(g.perform(a, Answer::Nothing), vec!["The item description from: Apple".to_string()]);
    assert!(!g.can_perform(Transition::DescribeItem(2), &Answer::Nothing));
    let b = g.get_current_state().parse_input("b").unwrap();
    g.perform(b, Answer::Nothing);
    assert!(g.is_current_state::<MainGameState>());
}

#[test]
fn inventory_needs_a_player() {
    let g = GlobalGameState::new();
    assert!(!g.can_perform(Transition::MainOpenInventory, &Answer::Nothing));
    assert!(!g.can_perform(Transition::DescribeItem(0), &Answer::Nothing));
}

#[test]
fn walk_and_quit_from_main() {
    let mut g = start_game("Ann");
    let w = g.get_current_state().parse_input("W").unwrap();
    assert_eq!(g.perform(w, Answer::Nothing), vec!["Walking...".to_string()]);
    assert!(g.is_current_state::<MainGameState>());
    let q = g.get_current_state().parse_input("q").unwrap();
    assert_eq!(q, Transition::MainQuit);
    g.perform(q, Answer::Nothing);
    assert!(g.is_current_state::<StartGameState>());
    assert_eq!(g.get_player().get_name(), "Ann");
}

#[test]
fn create_player_overwrites() {
    let mut g = GlobalGameState::new();
    g.create_player("One".to_string());
    g.create_player("Two".to_string());
    assert_eq!(g.get_player().get_name(), "Two");
    assert_eq!(g.get_player().get_inventory().len(), 2);
}

#[test]
fn nothing_transition_does_nothing() {
    let mut g = GlobalGameState::new();
    assert!(g.perform(Transition::Nothing, Answer::Nothing).is_empty());
    assert_eq!(g.get_current_state().display(), START_TEXT);
}

#[test]
fn player_starts_with_apple_and_box() {
    let p = Player::new("Zed".to_string());
    assert_eq!(p.get_name(), "Zed");
    let inv = p.get_inventory();
    assert_eq!(inv.len(), 2);
    assert_eq!(inv[0].get_name(), "Apple");
    assert_eq!(inv[0].get_desc(), "A shiny red fruit");
    assert_eq!(inv[1].get_name(), "Box");
    assert_eq!(inv[1].get_desc(), "A cardboard box");
}

#[test]
fn load_inventory_replaces_items() {
    let mut p = Player::new("Zed".to_string());
    p._loadinventory(vec![Item::new("Key".to_string(), "Opens a door".to_string())]);
    assert_eq!(p.get_inventory().len(), 1);
    assert_eq!(p.get_inventory()[0].get_name(), "Key");
    assert_eq!(p.get_name(), "Zed");
}

#[test]
fn index_text_is_decimal() {
    assert_eq!(index_text(0), "0");
    assert_eq!(index_text(7), "7");
    assert_eq!(index_text(10), "10");
    assert_eq!(index_text(1234), "1234");
    assert_eq!(index_text(usize::MAX), usize::MAX.to_string());
}

#[test]
fn concrete_states_as_any() {
    let s = StartGameState::new();
    assert_eq!(s.display(), START_TEXT);
    let any = s.into_any();
    assert!(StartGameState::is_kind(&any));
    assert!(!MainGameState::is_kind(&any));
    assert_eq!(StartGameState::as_any(&any).get_header(), "Welcome to Rust RPG V0.1.0!");
    let inv = InventoryGameState::new();
    assert_eq!(inv.display(), "Inventory\n\n > (B) Back\n\n");
    assert!(inv.get_init_fn().is_some());
}

