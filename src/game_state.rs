use vstd::prelude::*;
use vstd::string::StringExecFns;
use crate::input_option::{
    InitHook, InputOption, OptionView, Transition, opt_string_view, option_line, options_view,
    resolve, resolve_input,
};
use crate::player::{Player, PlayerView, starting_inventory};
use crate::states::{
    AnyState, InventoryGameState, MainGameState, OptionsMenuGameState, StartGameState, StateView,
    fill_inventory_model, ready, transition_model,
};

verus! {

/// What every state shows: a header, an optional body, its choices, and an
/// optional hook that runs when it is pushed.
pub struct ScreenView {
    pub header: Seq<char>,
    pub body: Option<Seq<char>>,
    pub init: Option<InitHook>,
    pub options: Seq<OptionView>,
}

/// The part of a state that the engine reads.
pub struct Screen {
    pub(crate) header: String,
    pub(crate) body: Option<String>,
    pub(crate) init: Option<InitHook>,
    pub(crate) input_options: Vec<InputOption>,
}

impl View for Screen {
    type V = ScreenView;

    closed spec fn view(&self) -> ScreenView {
        ScreenView {
            header: self.header@,
            body: opt_string_view(self.body),
            init: self.init,
            options: options_view(self.input_options@),
        }
    }
}

impl Screen {
    pub fn new(
        header: String,
        body: Option<String>,
        init: Option<InitHook>,
        input_options: Vec<InputOption>,
    ) -> (r: Screen)
        ensures
            r@ == (ScreenView {
                header: header@,
                body: opt_string_view(body),
                init,
                options: options_view(input_options@),
            }),
    {
        Screen { header, body, init, input_options }
    }

    pub fn set_body(&mut self, body: Option<String>)
        ensures
            final(self)@ == (ScreenView { body: opt_string_view(body), ..old(self)@ }),
    {
        self.body = body;
    }

    /// Puts the given options in front of the ones already there.
    pub fn prepend_options(&mut self, front: Vec<InputOption>)
        ensures
            final(self)@ == (ScreenView {
                options: options_view(front@) + old(self)@.options,
                ..old(self)@
            }),
    {
        let mut front = front;
        let ghost f = front@;
        front.append(&mut self.input_options);
        self.input_options = front;
        assert(options_view(self.input_options@) =~= options_view(f) + old(self)@.options);
    }
}

/// The lines of the options, in list order.
pub open spec fn listing(opts: Seq<OptionView>) -> Seq<char>
    decreases opts.len(),
{
    if opts.len() == 0 {
        Seq::empty()
    } else {
        listing(opts.drop_last()) + option_line(opts.last())
    }
}

/// The option listing, closed by a blank line.
pub open spec fn options_text(opts: Seq<OptionView>) -> Seq<char> {
    listing(opts) + "\n"@
}

/// The header, then a blank line and the body if there is one, then a blank line.
pub open spec fn header_text(header: Seq<char>, body: Option<Seq<char>>) -> Seq<char> {
    match body {
        Some(b) => header + "\n\n"@ + b + "\n\n"@,
        None => header + "\n\n"@,
    }
}

/// The whole text that shows a state.
pub open spec fn rendered(s: ScreenView) -> Seq<char> {
    header_text(s.header, s.body) + options_text(s.options)
}

/// What every state offers the engine. The rendering and the resolution of
/// input are the same for all states.
pub trait GameState: Sized {
    /// The header, body, hook and choices of this state.
    spec fn screen(&self) -> ScreenView;

    /// The stored header, body, hook and choices.
    fn parts(&self) -> (r: &Screen)
        ensures
            r@ == self.screen(),
    ;

    fn get_input_options(&self) -> (r: &Vec<InputOption>)
        ensures
            options_view(r@) == self.screen().options,
    {
        &self.parts().input_options
    }

    fn get_header(&self) -> (r: String)
        ensures
            r@ == self.screen().header,
    {
        self.parts().header.clone()
    }

    fn get_body(&self) -> (r: Option<String>)
        ensures
            opt_string_view(r) == self.screen().body,
    {
        match &self.parts().body {
            Some(b) => Some(b.clone()),
            None => None,
        }
    }

    fn get_init_fn(&self) -> (r: Option<InitHook>)
        ensures
            r == self.screen().init,
    {
        self.parts().init
    }

    fn display(&self) -> (r: String)
        ensures
            r@ == rendered(self.screen()),
    {
        let mut out = self.get_header();
        match self.get_body() {
            Some(b) => {
                out.append("\n\n");
                out.append(b.as_str());
                out.append("\n\n");
            },
            None => {
                out.append("\n\n");
            },
        }
        let opts = self.display_input_options();
        out.append(opts.as_str());
        out
    }

    fn display_input_options(&self) -> (r: String)
        ensures
            r@ == options_text(self.screen().options),
    {
        let opts = self.get_input_options();
        let ghost ov = options_view(opts@);
        let mut out = String::new();
        let mut i: usize = 0;
        while i < opts.len()
            invariant
                i <= opts@.len(),
                ov == options_view(opts@),
                out@ == listing(ov.take(i as int)),
            decreases opts@.len() - i,
        {
            let o = &opts[i];
            let line = o.display_line();
            out.append(line.as_str());
            proof {
                assert(ov.take(i + 1).drop_last() =~= ov.take(i as int));
                assert(ov.take(i + 1).last() == o@);
                assert(out@ =~= listing(ov.take(i + 1)));
            }
            i = i + 1;
        }
        assert(ov.take(opts@.len() as int) =~= ov);
        out.append("\n");
        out
    }

    fn parse_input(&self, input: &str) -> (r: Option<Transition>)
        ensures
            r == resolve(self.screen().options, input@),
    {
        resolve_input(self.get_input_options(), input)
    }
}

/// Recovers a concrete state from the closed union that the stack holds.
pub trait AToAny: GameState {
    /// How this state looks once it stands on the stack.
    spec fn any_view(&self) -> StateView;

    /// The stacked state is of this concrete type.
    spec fn holds(s: StateView) -> bool;

    fn is_kind(s: &AnyState) -> (r: bool)
        ensures
            r == Self::holds(s@),
    ;

    fn into_any(self) -> (r: AnyState)
        ensures
            r@ == self.any_view(),
            r@.screen() == self.screen(),
            Self::holds(r@),
    ;

    fn as_any(s: &AnyState) -> (r: &Self)
        requires
            Self::holds(s@),
        ensures
            r.any_view() == s@,
    ;

    fn as_any_mut(s: &mut AnyState) -> (r: &mut Self)
        requires
            Self::holds(old(s)@),
        ensures
            r.any_view() == old(s)@,
            final(s)@ == final(r).any_view(),
    ;
}

/// The whole game as plain values: the stack of states, bottom first, and the
/// player once there is one.
pub struct GameModel {
    pub stack: Seq<StateView>,
    pub player: Option<PlayerView>,
}

/// What running an init hook does to the game.
pub open spec fn hook_model(h: InitHook, m: GameModel) -> GameModel {
    match h {
        InitHook::FillInventory => fill_inventory_model(m),
    }
}

/// What an init hook needs of the game, with its state already on top.
pub open spec fn hook_ready(h: InitHook, m: GameModel) -> bool {
    match h {
        InitHook::FillInventory => m.player is Some && m.stack.len() > 0
            && m.stack.last() is Inventory,
    }
}

/// The game with the state pushed, before its hook runs.
pub open spec fn pushed_model(m: GameModel, v: StateView) -> GameModel {
    GameModel { stack: m.stack.push(v), ..m }
}

/// Pushing a state: it becomes the top, then its init hook, if any, runs once.
pub open spec fn push_model(m: GameModel, v: StateView) -> GameModel {
    match v.screen().init {
        Some(h) => hook_model(h, pushed_model(m, v)),
        None => pushed_model(m, v),
    }
}

/// The state can be pushed: its hook, if any, finds what it needs.
pub open spec fn push_ready(m: GameModel, v: StateView) -> bool {
    match v.screen().init {
        Some(h) => hook_ready(h, pushed_model(m, v)),
        None => true,
    }
}

/// Popping removes the top; on an empty stack it changes nothing.
pub open spec fn pop_model(m: GameModel) -> GameModel {
    if m.stack.len() == 0 {
        m
    } else {
        GameModel { stack: m.stack.drop_last(), ..m }
    }
}

/// What a transition asks of the console before it runs.
pub enum Prompt {
    Text(String),
    Number(String),
}

/// The console's reply to a prompt.
pub enum Answer {
    Nothing,
    Text(String),
    Number(i32),
}

pub open spec fn lines_view(v: Seq<String>) -> Seq<Seq<char>> {
    v.map_values(|s: String| s@)
}

/// Holds the stack of states and the player. Every transition gets it by
/// exclusive reference.
pub struct GlobalGameState {
    g_stack: Vec<AnyState>,
    player: Option<Player>,
}

pub open spec fn stack_view(v: Seq<AnyState>) -> Seq<StateView> {
    v.map_values(|s: AnyState| s@)
}

impl View for GlobalGameState {
    type V = GameModel;

    closed spec fn view(&self) -> GameModel {
        GameModel {
            stack: stack_view(self.g_stack@),
            player: match self.player {
                Some(p) => Some(p@),
                None => None,
            },
        }
    }
}

impl GlobalGameState {
    /// A game whose stack holds the start state alone, with no player.
    pub fn new() -> (r: GlobalGameState)
        ensures
            r@ == (GameModel { stack: seq![StateView::Start(crate::states::start_screen())], player: None }),
    {
        let start = crate::states::StartGameState::new();
        let r = GlobalGameState { g_stack: vec![start.into_any()], player: None };
        assert(r@.stack =~= seq![StateView::Start(crate::states::start_screen())]);
        r
    }

    /// Makes a new player of that name, in place of any earlier one.
    pub fn create_player(&mut self, name: String)
        ensures
            final(self)@ == (GameModel {
                player: Some(PlayerView { name: name@, inventory: starting_inventory() }),
                ..old(self)@
            }),
    {
        self.player = Some(Player::new(name));
    }

    pub fn has_player(&self) -> (r: bool)
        ensures
            r == self@.player is Some,
    {
        self.player.is_some()
    }

    pub fn get_player(&self) -> (r: &Player)
        requires
            self@.player is Some,
        ensures
            self@.player == Some(r@),
    {
        match &self.player {
            Some(p) => p,
            None => vstd::pervasive::unreached(),
        }
    }

    /// Pushes the state, then runs its init hook, if any, once.
    pub fn append_state<GameStateType: AToAny>(&mut self, new_state: GameStateType)
        requires
            push_ready(old(self)@, new_state.any_view()),
        ensures
            final(self)@ == push_model(old(self)@, new_state.any_view()),
    {
        let hook = new_state.get_init_fn();
        let s = new_state.into_any();
        self.g_stack.push(s);
        assert(self@.stack =~= old(self)@.stack.push(new_state.any_view()));
        match hook {
            Some(h) => self.run_init_hook(h),
            None => {},
        }
    }

    fn run_init_hook(&mut self, h: InitHook)
        requires
            hook_ready(h, old(self)@),
        ensures
            final(self)@ == hook_model(h, old(self)@),
    {
        match h {
            InitHook::FillInventory => InventoryGameState::init(self),
        }
    }

    /// Removes the top state; on an empty stack it does nothing.
    pub fn remove_state(&mut self)
        ensures
            final(self)@ == pop_model(old(self)@),
    {
        let _ = self.g_stack.pop();
        assert(self@.stack =~= pop_model(old(self)@).stack);
    }

    /// Whether the top state is of the concrete type asked for.
    pub fn is_current_state<GameStateType: AToAny>(&self) -> (r: bool)
        ensures
            r == (self@.stack.len() > 0 && GameStateType::holds(self@.stack.last())),
    {
        let n = self.g_stack.len();
        if n == 0 {
            false
        } else {
            GameStateType::is_kind(&self.g_stack[n - 1])
        }
    }

    /// The top state as its concrete type, for mutation. The stack keeps
    /// whatever the caller leaves in it.
    pub fn get_current_state_downcast<GameStateType: AToAny>(&mut self) -> (r: &mut GameStateType)
        requires
            old(self)@.stack.len() > 0,
            GameStateType::holds(old(self)@.stack.last()),
        ensures
            r.any_view() == old(self)@.stack.last(),
            final(self)@.player == old(self)@.player,
            final(self)@.stack =~= old(self)@.stack.update(
                old(self)@.stack.len() - 1,
                final(r).any_view(),
            ),
    {
        let n = self.g_stack.len();
        GameStateType::as_any_mut(&mut self.g_stack[n - 1])
    }

    /// The top state, to show it or to resolve input against it.
    pub fn get_current_state(&self) -> (r: &AnyState)
        requires
            self@.stack.len() > 0,
        ensures
            r@ == self@.stack.last(),
    {
        let n = self.g_stack.len();
        &self.g_stack[n - 1]
    }

    /// Whether `perform` may run the transition with that reply.
    pub fn can_perform(&self, t: Transition, answer: &Answer) -> (r: bool)
        ensures
            r == ready(self@, t, *answer),
    {
        match t {
            Transition::StartNew => matches!(answer, Answer::Text(_)),
            Transition::OptionsChangeStartingLevel => {
                matches!(answer, Answer::Number(_))
                    && self.is_current_state::<OptionsMenuGameState>()
            },
            Transition::MainOpenInventory => self.has_player(),
            Transition::DescribeItem(i) => match &self.player {
                Some(p) => i < p.get_inventory().len(),
                None => false,
            },
            _ => true,
        }
    }

    /// Carries out a transition with the console's reply to its prompt, and
    /// returns the lines it shows.
    pub fn perform(&mut self, t: Transition, answer: Answer) -> (r: Vec<String>)
        requires
            ready(old(self)@, t, answer),
        ensures
            final(self)@ == transition_model(old(self)@, t, answer).0,
            lines_view(r@) == transition_model(old(self)@, t, answer).1,
    {
        let mut lines: Vec<String> = Vec::new();
        match t {
            Transition::Nothing => {},
            Transition::StartNew => {
                let name = match answer {
                    Answer::Text(s) => s,
                    _ => vstd::pervasive::unreached(),
                };
                lines.push(StartGameState::test_new(self, name));
            },
            Transition::StartOptions => StartGameState::test_options(self),
            Transition::StartQuit => StartGameState::test_quit(self),
            Transition::OptionsChangeStartingLevel => {
                let level = match answer {
                    Answer::Number(n) => n,
                    _ => vstd::pervasive::unreached(),
                };
                OptionsMenuGameState::change_starting_level(self, level);
            },
            Transition::OptionsBack => OptionsMenuGameState::back(self),
            Transition::MainWalk => lines.push(MainGameState::walk(self)),
            Transition::MainOpenInventory => MainGameState::open_inventory(self),
            Transition::MainQuit => MainGameState::quit(self),
            Transition::InventoryBack => InventoryGameState::back(self),
            Transition::DescribeItem(i) => lines.push(InventoryGameState::describe_item(self, i)),
        }
        assert(lines_view(lines@) =~= transition_model(old(self)@, t, answer).1);
        lines
    }

    pub fn is_states_empty(&self) -> (r: bool)
        ensures
            r == (self@.stack.len() == 0),
    {
        self.g_stack.len() == 0
    }
}

/// Pushing a state adds one state on top and leaves the states below and the
/// player as they were. The new state is on top when its init hook runs, and
/// the hook runs once; with no hook the new top is the state itself.
pub proof fn lemma_push_runs_hook_on_top(m: GameModel, v: StateView)
    ensures
        push_model(m, v).stack.len() == m.stack.len() + 1,
        push_model(m, v).stack.take(m.stack.len() as int) == m.stack,
        push_model(m, v).player == m.player,
        pushed_model(m, v).stack.last() == v,
        v.screen().init is None ==> push_model(m, v).stack.last() == v,
        forall|h: InitHook| v.screen().init == Some(h) ==> push_model(m, v) == hook_model(h, pushed_model(m, v)),
{
    let p = pushed_model(m, v);
    assert(p.stack.take(m.stack.len() as int) =~= m.stack);
    match v.screen().init {
        Some(h) => {
            assert(push_model(m, v).stack.take(m.stack.len() as int) =~= m.stack);
        },
        None => {},
    }
}

/// Popping a stack of one state leaves it empty; the run loop then stops.
pub proof fn lemma_pop_last_state(m: GameModel)
    requires
        m.stack.len() == 1,
    ensures
        pop_model(m).stack.len() == 0,
        pop_model(m).player == m.player,
{
}

/// Pushing states one after another, bottom first.
pub open spec fn push_all(m: GameModel, vs: Seq<StateView>) -> GameModel
    decreases vs.len(),
{
    if vs.len() == 0 {
        m
    } else {
        push_model(push_all(m, vs.drop_last()), vs.last())
    }
}

/// Popping `n` times.
pub open spec fn pop_times(m: GameModel, n: nat) -> GameModel
    decreases n,
{
    if n == 0 {
        m
    } else {
        pop_times(pop_model(m), (n - 1) as nat)
    }
}

/// Popping right after a push gives back the game as it was.
pub proof fn lemma_pop_undoes_push(m: GameModel, v: StateView)
    ensures
        pop_model(push_model(m, v)) == m,
{
    lemma_push_runs_hook_on_top(m, v);
    let q = push_model(m, v);
    assert(q.stack.drop_last() =~= m.stack);
}

/// Pushing any states and then popping as many times gives back the game as
/// it was: the states below, the first one included, and the player.
pub proof fn lemma_push_pop_round_trip(m: GameModel, vs: Seq<StateView>)
    ensures
        pop_times(push_all(m, vs), vs.len()) == m,
    decreases vs.len(),
{
    if vs.len() > 0 {
        let below = push_all(m, vs.drop_last());
        lemma_pop_undoes_push(below, vs.last());
        lemma_push_pop_round_trip(m, vs.drop_last());
    }
}

} // verus!
