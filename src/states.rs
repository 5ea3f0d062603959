use vstd::prelude::*;
use vstd::string::StringExecFns;
use crate::game_state::{
    AToAny, Answer, GameModel, GameState, GlobalGameState, Prompt, Screen, ScreenView, pop_model,
    push_model,
};
use crate::input_option::{
    InitHook, InputOption, InputOptionBuilder, OptionView, Transition, options_view,
};
use crate::player::{ItemView, PlayerView, items_view, starting_inventory};

verus! {

/// A stacked state as plain values, by its concrete type.
pub enum StateView {
    Start(ScreenView),
    OptionsMenu(ScreenView, i32),
    Main(ScreenView),
    Inventory(ScreenView),
}

impl StateView {
    pub open spec fn screen(self) -> ScreenView {
        match self {
            StateView::Start(s) => s,
            StateView::OptionsMenu(s, _) => s,
            StateView::Main(s) => s,
            StateView::Inventory(s) => s,
        }
    }
}

pub open spec fn choice_view(name: Seq<char>, shortcut: Seq<char>, t: Transition) -> OptionView {
    OptionView { name, shortcut: Some(shortcut), callback: t }
}

/// The main menu.
pub open spec fn start_screen() -> ScreenView {
    ScreenView {
        header: "Welcome to Rust RPG V0.1.0!"@,
        body: None,
        init: None,
        options: seq![
            choice_view("New"@, "N"@, Transition::StartNew),
            choice_view("Options"@, "O"@, Transition::StartOptions),
            choice_view("Quit"@, "Q"@, Transition::StartQuit),
        ],
    }
}

/// The options menu, reached from the main menu.
pub open spec fn options_screen() -> ScreenView {
    ScreenView {
        header: "Option Menu"@,
        body: None,
        init: None,
        options: seq![
            choice_view("Change Starting Level"@, "C"@, Transition::OptionsChangeStartingLevel),
            choice_view("Back"@, "B"@, Transition::OptionsBack),
        ],
    }
}

/// The screen of a game in progress.
pub open spec fn main_screen() -> ScreenView {
    ScreenView {
        header: "N/A"@,
        body: None,
        init: None,
        options: seq![
            choice_view("Walk"@, "W"@, Transition::MainWalk),
            choice_view("Inventory"@, "I"@, Transition::MainOpenInventory),
            choice_view("Quit"@, "Q"@, Transition::MainQuit),
        ],
    }
}

/// The inventory screen as built, before its hook lists the items.
pub open spec fn inventory_screen() -> ScreenView {
    ScreenView {
        header: "Inventory"@,
        body: None,
        init: Some(InitHook::FillInventory),
        options: seq![choice_view("Back"@, "B"@, Transition::InventoryBack)],
    }
}

/// A decimal digit.
pub open spec fn digit_char(d: nat) -> char {
    if d == 0 { '0' } else if d == 1 { '1' } else if d == 2 { '2' } else if d == 3 { '3' }
    else if d == 4 { '4' } else if d == 5 { '5' } else if d == 6 { '6' } else if d == 7 { '7' }
    else if d == 8 { '8' } else { '9' }
}

/// A number written in decimal, without leading zeros.
pub open spec fn decimal(n: nat) -> Seq<char>
    decreases n,
{
    if n < 10 {
        seq![digit_char(n)]
    } else {
        decimal(n / 10) + seq![digit_char(n % 10)]
    }
}

fn digit_str(d: usize) -> (r: &'static str)
    requires
        d < 10,
    ensures
        r@ == seq![digit_char(d as nat)],
{
    proof {
        reveal_strlit("0");
        reveal_strlit("1");
        reveal_strlit("2");
        reveal_strlit("3");
        reveal_strlit("4");
        reveal_strlit("5");
        reveal_strlit("6");
        reveal_strlit("7");
        reveal_strlit("8");
        reveal_strlit("9");
    }
    if d == 0 { "0" } else if d == 1 { "1" } else if d == 2 { "2" } else if d == 3 { "3" }
    else if d == 4 { "4" } else if d == 5 { "5" } else if d == 6 { "6" } else if d == 7 { "7" }
    else if d == 8 { "8" } else { "9" }
}

fn push_decimal(out: &mut String, n: usize)
    ensures
        final(out)@ == old(out)@ + decimal(n as nat),
    decreases n,
{
    if n >= 10 {
        push_decimal(out, n / 10);
    }
    out.append(digit_str(n % 10));
    assert(final(out)@ =~= old(out)@ + decimal(n as nat));
}

/// The decimal text of an index.
pub fn index_text(n: usize) -> (r: String)
    ensures
        r@ == decimal(n as nat),
{
    let mut out = String::new();
    push_decimal(&mut out, n);
    assert(out@ =~= decimal(n as nat));
    out
}

/// The choice that names an inventory item, keyed by its index.
pub open spec fn item_option(item: ItemView, i: nat) -> OptionView {
    choice_view(item.name, decimal(i), Transition::DescribeItem(i as usize))
}

/// The choices for the first `n` items, the last of them first.
pub open spec fn inventory_options(items: Seq<ItemView>, n: nat) -> Seq<OptionView>
    decreases n,
{
    if n == 0 {
        Seq::empty()
    } else {
        seq![item_option(items[n - 1], (n - 1) as nat)] + inventory_options(items, (n - 1) as nat)
    }
}

/// The inventory hook: the player's items, last first, go in front of the
/// screen's choices, and the body becomes empty.
pub open spec fn fill_inventory_model(m: GameModel) -> GameModel {
    if m.stack.len() == 0 {
        m
    } else {
        let items = match m.player {
            Some(p) => p.inventory,
            None => Seq::empty(),
        };
        let top = m.stack.last().screen();
        let filled = ScreenView {
            body: Some(Seq::empty()),
            options: inventory_options(items, items.len()) + top.options,
            ..top
        };
        GameModel { stack: m.stack.update(m.stack.len() - 1, StateView::Inventory(filled)), ..m }
    }
}

/// The top options menu with its starting level set.
pub open spec fn set_level_model(m: GameModel, level: i32) -> GameModel {
    GameModel {
        stack: m.stack.update(
            m.stack.len() - 1,
            StateView::OptionsMenu(m.stack.last().screen(), level),
        ),
        ..m
    }
}

pub open spec fn answer_text(a: Answer) -> Seq<char> {
    match a {
        Answer::Text(s) => s@,
        _ => Seq::empty(),
    }
}

pub open spec fn answer_number(a: Answer) -> i32 {
    match a {
        Answer::Number(n) => n,
        _ => 0,
    }
}

/// What a transition needs before it runs: the reply its prompt asks for,
/// and the player or the state it works on.
pub open spec fn ready(m: GameModel, t: Transition, a: Answer) -> bool {
    match t {
        Transition::StartNew => a is Text,
        Transition::OptionsChangeStartingLevel => a is Number && m.stack.len() > 0
            && m.stack.last() is OptionsMenu,
        Transition::MainOpenInventory => m.player is Some,
        Transition::DescribeItem(i) => m.player is Some && i < m.player->Some_0.inventory.len(),
        _ => true,
    }
}

/// What a transition does to the game, and the lines it shows.
pub open spec fn transition_model(m: GameModel, t: Transition, a: Answer) -> (GameModel, Seq<Seq<char>>) {
    match t {
        Transition::Nothing => (m, Seq::empty()),
        Transition::StartNew => (
            push_model(
                GameModel {
                    player: Some(PlayerView { name: answer_text(a), inventory: starting_inventory() }),
                    ..m
                },
                StateView::Main(main_screen()),
            ),
            seq!["Welcome, "@ + answer_text(a) + "..."@],
        ),
        Transition::StartOptions => (push_model(m, StateView::OptionsMenu(options_screen(), 1)), Seq::empty()),
        Transition::StartQuit => (pop_model(m), Seq::empty()),
        Transition::OptionsChangeStartingLevel => (set_level_model(m, answer_number(a)), Seq::empty()),
        Transition::OptionsBack => (pop_model(m), Seq::empty()),
        Transition::MainWalk => (m, seq!["Walking..."@]),
        Transition::MainOpenInventory => (push_model(m, StateView::Inventory(inventory_screen())), Seq::empty()),
        Transition::MainQuit => (pop_model(m), Seq::empty()),
        Transition::InventoryBack => (pop_model(m), Seq::empty()),
        Transition::DescribeItem(i) => (
            m,
            seq!["The item description from: "@ + m.player->Some_0.inventory[i as int].name],
        ),
    }
}

/// What a transition asks of the console: a name for a new game, a number
/// for the starting level, nothing for the others.
pub open spec fn prompt_of(t: Transition, p: Option<Prompt>) -> bool {
    match t {
        Transition::StartNew => p matches Some(Prompt::Text(q)) && q@ == "Please enter your name: "@,
        Transition::OptionsChangeStartingLevel => p matches Some(Prompt::Number(q))
            && q@ == "Enter starting level (integer): "@,
        _ => p is None,
    }
}

/// The prompt that the transition needs answered before it runs.
pub fn prompt_for(t: Transition) -> (r: Option<Prompt>)
    ensures
        prompt_of(t, r),
{
    match t {
        Transition::StartNew => Some(Prompt::Text(String::from_str("Please enter your name: "))),
        Transition::OptionsChangeStartingLevel => Some(
            Prompt::Number(String::from_str("Enter starting level (integer): ")),
        ),
        _ => None,
    }
}

fn choice(name: &str, shortcut: &str, t: Transition) -> (r: InputOption)
    ensures
        r@ == choice_view(name@, shortcut@, t),
{
    InputOptionBuilder::new().name(name).shortcut(shortcut).connect(t).build()
}

/// The main menu, shown when the game begins.
pub struct StartGameState {
    screen: Screen,
}

impl StartGameState {
    pub fn new() -> (r: StartGameState)
        ensures
            r.screen() == start_screen(),
    {
        let opts = vec![
            choice("New", "N", Transition::StartNew),
            choice("Options", "O", Transition::StartOptions),
            choice("Quit", "Q", Transition::StartQuit),
        ];
        let screen = Screen::new(String::from_str("Welcome to Rust RPG V0.1.0!"), None, None, opts);
        assert(screen@.options =~= start_screen().options);
        StartGameState { screen }
    }

    /// Makes the player, pushes the game screen, and greets the player.
    pub fn test_new(g_game_state: &mut GlobalGameState, player_name: String) -> (r: String)
        ensures
            final(g_game_state)@ == push_model(
                GameModel {
                    player: Some(PlayerView { name: player_name@, inventory: starting_inventory() }),
                    ..old(g_game_state)@
                },
                StateView::Main(main_screen()),
            ),
            r@ == "Welcome, "@ + player_name@ + "..."@,
    {
        g_game_state.create_player(player_name);
        let mut msg = String::from_str("Welcome, ");
        let name = g_game_state.get_player().get_name();
        msg.append(name.as_str());
        msg.append("...");
        g_game_state.append_state(MainGameState::new());
        msg
    }

    pub fn test_options(g_game_state: &mut GlobalGameState)
        ensures
            final(g_game_state)@ == push_model(
                old(g_game_state)@,
                StateView::OptionsMenu(options_screen(), 1),
            ),
    {
        g_game_state.append_state(OptionsMenuGameState::new());
    }

    pub fn test_quit(g_game_state: &mut GlobalGameState)
        ensures
            final(g_game_state)@ == pop_model(old(g_game_state)@),
    {
        g_game_state.remove_state();
    }
}

/// The options menu; it keeps a starting level.
pub struct OptionsMenuGameState {
    starting_level: i32,
    screen: Screen,
}

impl OptionsMenuGameState {
    pub fn new() -> (r: OptionsMenuGameState)
        ensures
            r.any_view() == StateView::OptionsMenu(options_screen(), 1),
    {
        let opts = vec![
            choice("Change Starting Level", "C", Transition::OptionsChangeStartingLevel),
            choice("Back", "B", Transition::OptionsBack),
        ];
        let screen = Screen::new(String::from_str("Option Menu"), None, None, opts);
        assert(screen@.options =~= options_screen().options);
        OptionsMenuGameState { starting_level: 1, screen }
    }

    pub fn get_starting_level(&self) -> (r: i32)
        ensures
            self.any_view() == StateView::OptionsMenu(self.screen(), r),
    {
        self.starting_level
    }

    /// Sets the starting level of the options menu on top of the stack.
    pub fn change_starting_level(g_game_state: &mut GlobalGameState, level: i32)
        requires
            old(g_game_state)@.stack.len() > 0,
            old(g_game_state)@.stack.last() is OptionsMenu,
        ensures
            final(g_game_state)@ == set_level_model(old(g_game_state)@, level),
    {
        let g_state = g_game_state.get_current_state_downcast::<OptionsMenuGameState>();
        g_state.starting_level = level;
    }

    pub fn back(g_game_state: &mut GlobalGameState)
        ensures
            final(g_game_state)@ == pop_model(old(g_game_state)@),
    {
        g_game_state.remove_state();
    }
}

/// The screen of a game in progress.
pub struct MainGameState {
    screen: Screen,
}

impl MainGameState {
    pub fn new() -> (r: MainGameState)
        ensures
            r.any_view() == StateView::Main(main_screen()),
    {
        let opts = vec![
            choice("Walk", "W", Transition::MainWalk),
            choice("Inventory", "I", Transition::MainOpenInventory),
            choice("Quit", "Q", Transition::MainQuit),
        ];
        let screen = Screen::new(String::from_str("N/A"), None, None, opts);
        assert(screen@.options =~= main_screen().options);
        MainGameState { screen }
    }

    /// The line that walking shows.
    pub fn walk(_g_game_state: &GlobalGameState) -> (r: String)
        ensures
            r@ == "Walking..."@,
    {
        String::from_str("Walking...")
    }

    pub fn open_inventory(g_game_state: &mut GlobalGameState)
        requires
            old(g_game_state)@.player is Some,
        ensures
            final(g_game_state)@ == push_model(
                old(g_game_state)@,
                StateView::Inventory(inventory_screen()),
            ),
    {
        g_game_state.append_state(InventoryGameState::new());
    }

    pub fn quit(g_game_state: &mut GlobalGameState)
        ensures
            final(g_game_state)@ == pop_model(old(g_game_state)@),
    {
        g_game_state.remove_state();
    }
}

/// The player's inventory; its hook lists the items when it is pushed.
pub struct InventoryGameState {
    screen: Screen,
}

impl InventoryGameState {
    pub fn new() -> (r: InventoryGameState)
        ensures
            r.any_view() == StateView::Inventory(inventory_screen()),
    {
        let opts = vec![choice("Back", "B", Transition::InventoryBack)];
        let screen = Screen::new(
            String::from_str("Inventory"),
            None,
            Some(InitHook::FillInventory),
            opts,
        );
        assert(screen@.options =~= inventory_screen().options);
        InventoryGameState { screen }
    }

    /// Lists the player's items, each keyed by its index, in front of the
    /// choices of the inventory state on top of the stack.
    pub fn init(g_game_state: &mut GlobalGameState)
        requires
            old(g_game_state)@.player is Some,
            old(g_game_state)@.stack.len() > 0,
            old(g_game_state)@.stack.last() is Inventory,
        ensures
            final(g_game_state)@ == fill_inventory_model(old(g_game_state)@),
    {
        let inv = g_game_state.get_player().get_inventory();
        let ghost items = items_view(inv@);
        let mut inventory_inputs: Vec<InputOption> = Vec::new();
        let mut i: usize = 0;
        while i < inv.len()
            invariant
                i <= inv@.len(),
                items == items_view(inv@),
                options_view(inventory_inputs@) == inventory_options(items, i as nat),
            decreases inv@.len() - i,
        {
            let item = &inv[i];
            let key = index_text(i);
            let input_opt = InputOptionBuilder::new()
                .name(item.get_name())
                .shortcut(key.as_str())
                .connect(Transition::DescribeItem(i))
                .build();
            let ghost before = inventory_inputs@;
            inventory_inputs.insert(0, input_opt);
            assert(options_view(inventory_inputs@) =~= seq![input_opt@] + options_view(before));
            i = i + 1;
        }
        let g_state = g_game_state.get_current_state_downcast::<InventoryGameState>();
        g_state.screen.prepend_options(inventory_inputs);
        g_state.screen.set_body(Some(String::new()));
    }

    pub fn back(g_game_state: &mut GlobalGameState)
        ensures
            final(g_game_state)@ == pop_model(old(g_game_state)@),
    {
        g_game_state.remove_state();
    }

    /// The line that choosing an item shows: it names the item.
    pub fn describe_item(g_game_state: &GlobalGameState, index: usize) -> (r: String)
        requires
            g_game_state@.player is Some,
            index < g_game_state@.player->Some_0.inventory.len(),
        ensures
            r@ == "The item description from: "@
                + g_game_state@.player->Some_0.inventory[index as int].name,
    {
        let inv = g_game_state.get_player().get_inventory();
        let mut msg = String::from_str("The item description from: ");
        msg.append(inv[index].get_name());
        msg
    }
}

/// The closed set of states that the stack holds.
pub enum AnyState {
    Start(StartGameState),
    OptionsMenu(OptionsMenuGameState),
    Main(MainGameState),
    Inventory(InventoryGameState),
}

impl View for AnyState {
    type V = StateView;

    closed spec fn view(&self) -> StateView {
        match self {
            AnyState::Start(s) => StateView::Start(s.screen@),
            AnyState::OptionsMenu(s) => StateView::OptionsMenu(s.screen@, s.starting_level),
            AnyState::Main(s) => StateView::Main(s.screen@),
            AnyState::Inventory(s) => StateView::Inventory(s.screen@),
        }
    }
}

impl GameState for AnyState {
    open spec fn screen(&self) -> ScreenView {
        self@.screen()
    }

    fn parts(&self) -> (r: &Screen) {
        match self {
            AnyState::Start(s) => &s.screen,
            AnyState::OptionsMenu(s) => &s.screen,
            AnyState::Main(s) => &s.screen,
            AnyState::Inventory(s) => &s.screen,
        }
    }
}

impl GameState for StartGameState {
    closed spec fn screen(&self) -> ScreenView {
        self.screen@
    }

    fn parts(&self) -> (r: &Screen) {
        &self.screen
    }
}

impl GameState for OptionsMenuGameState {
    closed spec fn screen(&self) -> ScreenView {
        self.screen@
    }

    fn parts(&self) -> (r: &Screen) {
        &self.screen
    }
}

impl GameState for MainGameState {
    closed spec fn screen(&self) -> ScreenView {
        self.screen@
    }

    fn parts(&self) -> (r: &Screen) {
        &self.screen
    }
}

impl GameState for InventoryGameState {
    closed spec fn screen(&self) -> ScreenView {
        self.screen@
    }

    fn parts(&self) -> (r: &Screen) {
        &self.screen
    }
}

impl AToAny for StartGameState {
    closed spec fn any_view(&self) -> StateView {
        StateView::Start(self.screen@)
    }

    open spec fn holds(s: StateView) -> bool {
        s is Start
    }

    fn is_kind(s: &AnyState) -> (r: bool) {
        match s {
            AnyState::Start(_) => true,
            _ => false,
        }
    }

    fn into_any(self) -> (r: AnyState) {
        AnyState::Start(self)
    }

    fn as_any(s: &AnyState) -> (r: &Self) {
        match s {
            AnyState::Start(x) => x,
            _ => vstd::pervasive::unreached(),
        }
    }

    fn as_any_mut(s: &mut AnyState) -> (r: &mut Self) {
        match s {
            AnyState::Start(x) => x,
            _ => vstd::pervasive::unreached(),
        }
    }
}

impl AToAny for OptionsMenuGameState {
    closed spec fn any_view(&self) -> StateView {
        StateView::OptionsMenu(self.screen@, self.starting_level)
    }

    open spec fn holds(s: StateView) -> bool {
        s is OptionsMenu
    }

    fn is_kind(s: &AnyState) -> (r: bool) {
        match s {
            AnyState::OptionsMenu(_) => true,
            _ => false,
        }
    }

    fn into_any(self) -> (r: AnyState) {
        AnyState::OptionsMenu(self)
    }

    fn as_any(s: &AnyState) -> (r: &Self) {
        match s {
            AnyState::OptionsMenu(x) => x,
            _ => vstd::pervasive::unreached(),
        }
    }

    fn as_any_mut(s: &mut AnyState) -> (r: &mut Self) {
        match s {
            AnyState::OptionsMenu(x) => x,
            _ => vstd::pervasive::unreached(),
        }
    }
}

impl AToAny for MainGameState {
    closed spec fn any_view(&self) -> StateView {
        StateView::Main(self.screen@)
    }

    open spec fn holds(s: StateView) -> bool {
        s is Main
    }

    fn is_kind(s: &AnyState) -> (r: bool) {
        match s {
            AnyState::Main(_) => true,
            _ => false,
        }
    }

    fn into_any(self) -> (r: AnyState) {
        AnyState::Main(self)
    }

    fn as_any(s: &AnyState) -> (r: &Self) {
        match s {
            AnyState::Main(x) => x,
            _ => vstd::pervasive::unreached(),
        }
    }

    fn as_any_mut(s: &mut AnyState) -> (r: &mut Self) {
        match s {
            AnyState::Main(x) => x,
            _ => vstd::pervasive::unreached(),
        }
    }
}

impl AToAny for InventoryGameState {
    closed spec fn any_view(&self) -> StateView {
        StateView::Inventory(self.screen@)
    }

    open spec fn holds(s: StateView) -> bool {
        s is Inventory
    }

    fn is_kind(s: &AnyState) -> (r: bool) {
        match s {
            AnyState::Inventory(_) => true,
            _ => false,
        }
    }

    fn into_any(self) -> (r: AnyState) {
        AnyState::Inventory(self)
    }

    fn as_any(s: &AnyState) -> (r: &Self) {
        match s {
            AnyState::Inventory(x) => x,
            _ => vstd::pervasive::unreached(),
        }
    }

    fn as_any_mut(s: &mut AnyState) -> (r: &mut Self) {
        match s {
            AnyState::Inventory(x) => x,
            _ => vstd::pervasive::unreached(),
        }
    }
}

/// A stacked state is of exactly one concrete type, so the typed access to
/// the top state is granted for that type and refused for every other.
pub proof fn lemma_one_kind_holds(v: StateView)
    ensures
        (StartGameState::holds(v) as int) + (OptionsMenuGameState::holds(v) as int)
            + (MainGameState::holds(v) as int) + (InventoryGameState::holds(v) as int) == 1,
{
}

} // verus!
