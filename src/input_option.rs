use vstd::prelude::*;
use vstd::string::StrSliceExecFns;
use vstd::string::StringExecFns;

verus! {

/// The transition bound to a choice. Each one is carried out by
/// `GlobalGameState::perform`; `DescribeItem` carries the index of the
/// inventory item it speaks of.
#[derive(Clone, Copy, PartialEq, Eq, Structural, Debug)]
pub enum Transition {
    Nothing,
    StartNew,
    StartOptions,
    StartQuit,
    OptionsChangeStartingLevel,
    OptionsBack,
    MainWalk,
    MainOpenInventory,
    MainQuit,
    InventoryBack,
    DescribeItem(usize),
}

/// A hook that runs once, right after its state becomes the top of the stack.
#[derive(Clone, Copy, PartialEq, Eq, Structural, Debug)]
pub enum InitHook {
    FillInventory,
}

/// A choice as plain values.
pub struct OptionView {
    pub name: Seq<char>,
    pub shortcut: Option<Seq<char>>,
    pub callback: Transition,
}

/// A labelled choice, optionally keyed by a shortcut, bound to a transition.
pub struct InputOption {
    name: String,
    shortcut: Option<String>,
    callback: Transition,
}

pub open spec fn opt_string_view(s: Option<String>) -> Option<Seq<char>> {
    match s {
        Some(t) => Some(t@),
        None => None,
    }
}

impl View for InputOption {
    type V = OptionView;

    closed spec fn view(&self) -> OptionView {
        OptionView {
            name: self.name@,
            shortcut: opt_string_view(self.shortcut),
            callback: self.callback,
        }
    }
}

pub open spec fn options_view(v: Seq<InputOption>) -> Seq<OptionView> {
    v.map_values(|o: InputOption| o@)
}

/// Builds an `InputOption`; an unset name becomes "N/A" and an unset action
/// does nothing.
pub struct InputOptionBuilder {
    name: Option<String>,
    shortcut: Option<String>,
    callback: Option<Transition>,
}

/// What a builder has gathered so far.
pub struct BuilderView {
    pub name: Option<Seq<char>>,
    pub shortcut: Option<Seq<char>>,
    pub callback: Option<Transition>,
}

impl View for InputOptionBuilder {
    type V = BuilderView;

    closed spec fn view(&self) -> BuilderView {
        BuilderView {
            name: opt_string_view(self.name),
            shortcut: opt_string_view(self.shortcut),
            callback: self.callback,
        }
    }
}

/// The option that `build` makes from what a builder has gathered.
pub open spec fn built(b: BuilderView) -> OptionView {
    OptionView {
        name: match b.name {
            Some(n) => n,
            None => "N/A"@,
        },
        shortcut: b.shortcut,
        callback: match b.callback {
            Some(c) => c,
            None => Transition::Nothing,
        },
    }
}

impl InputOptionBuilder {
    pub fn new() -> (r: InputOptionBuilder)
        ensures
            r@ == (BuilderView { name: None, shortcut: None, callback: None }),
    {
        InputOptionBuilder { name: None, shortcut: None, callback: None }
    }

    pub fn name(self, name: &str) -> (r: InputOptionBuilder)
        ensures
            r@ == (BuilderView { name: Some(name@), ..self@ }),
    {
        InputOptionBuilder { name: Some(name.to_owned()), ..self }
    }

    pub fn shortcut(self, shortcut: &str) -> (r: InputOptionBuilder)
        ensures
            r@ == (BuilderView { shortcut: Some(shortcut@), ..self@ }),
    {
        InputOptionBuilder { shortcut: Some(shortcut.to_owned()), ..self }
    }

    pub fn connect(self, f: Transition) -> (r: InputOptionBuilder)
        ensures
            r@ == (BuilderView { callback: Some(f), ..self@ }),
    {
        InputOptionBuilder { callback: Some(f), ..self }
    }

    pub fn build(self) -> (r: InputOption)
        ensures
            r@ == built(self@),
    {
        let name = match self.name {
            Some(n) => n,
            None => String::from_str("N/A"),
        };
        let callback = match self.callback {
            Some(c) => c,
            None => Transition::Nothing,
        };
        InputOption { name, shortcut: self.shortcut, callback }
    }
}

/// A character with ASCII upper case folded to lower case, as a code point.
pub open spec fn fold_char(c: char) -> u32 {
    if 'A' <= c && c <= 'Z' {
        (c as u32 + 32) as u32
    } else {
        c as u32
    }
}

/// Two texts are equal once ASCII letters are folded to one case.
pub open spec fn same_ignoring_ascii_case(a: Seq<char>, b: Seq<char>) -> bool {
    a.len() == b.len() && forall|i: int| 0 <= i < a.len() ==> #[trigger] fold_char(a[i]) == fold_char(b[i])
}

/// The input names an option, by its name or by its shortcut.
pub open spec fn option_matches(o: OptionView, input: Seq<char>) -> bool {
    same_ignoring_ascii_case(o.name, input) || match o.shortcut {
        Some(s) => same_ignoring_ascii_case(s, input),
        None => false,
    }
}

/// One line of the option listing: ` > (S) Name` or ` > Name`.
pub open spec fn option_line(o: OptionView) -> Seq<char> {
    match o.shortcut {
        Some(s) => " > ("@ + s + ") "@ + o.name + "\n"@,
        None => " > "@ + o.name + "\n"@,
    }
}

/// The action of the last option in the list that the input names.
pub open spec fn resolve(opts: Seq<OptionView>, input: Seq<char>) -> Option<Transition>
    decreases opts.len(),
{
    if opts.len() == 0 {
        None
    } else if option_matches(opts.last(), input) {
        Some(opts.last().callback)
    } else {
        resolve(opts.drop_last(), input)
    }
}

fn fold(c: char) -> (r: u32)
    ensures
        r == fold_char(c),
{
    if 'A' <= c && c <= 'Z' {
        c as u32 + 32
    } else {
        c as u32
    }
}

/// Compares two texts, folding ASCII letters to one case.
pub fn eq_ignore_ascii_case(a: &str, b: &str) -> (r: bool)
    ensures
        r == same_ignoring_ascii_case(a@, b@),
{
    let n = a.unicode_len();
    if n != b.unicode_len() {
        return false;
    }
    let mut i: usize = 0;
    while i < n
        invariant
            n == a@.len(),
            n == b@.len(),
            i <= n,
            forall|j: int| 0 <= j < i ==> #[trigger] fold_char(a@[j]) == fold_char(b@[j]),
        decreases n - i,
    {
        if fold(a.get_char(i)) != fold(b.get_char(i)) {
            return false;
        }
        i = i + 1;
    }
    true
}

impl InputOption {
    /// Whether the input names this option, by name or by shortcut, in any case.
    pub fn matches(&self, input: &str) -> (r: bool)
        ensures
            r == option_matches(self@, input@),
    {
        if eq_ignore_ascii_case(self.name.as_str(), input) {
            return true;
        }
        match &self.shortcut {
            Some(s) => eq_ignore_ascii_case(s.as_str(), input),
            None => false,
        }
    }

    /// The line that lists this option.
    pub fn display_line(&self) -> (r: String)
        ensures
            r@ == option_line(self@),
    {
        let mut out = String::from_str(" > ");
        match &self.shortcut {
            Some(s) => {
                out.append("(");
                out.append(s.as_str());
                out.append(") ");
            },
            None => {},
        }
        out.append(self.name.as_str());
        out.append("\n");
        proof {
            reveal_strlit(" > ");
            reveal_strlit(" > (");
            reveal_strlit("(");
        }
        assert(out@ =~= option_line(self@));
        out
    }

    pub fn get_callback(&self) -> (r: Transition)
        ensures
            r == self@.callback,
    {
        self.callback
    }
}

/// Resolves the input against the options: the last one that it names wins.
pub fn resolve_input(opts: &Vec<InputOption>, input: &str) -> (r: Option<Transition>)
    ensures
        r == resolve(options_view(opts@), input@),
{
    let mut found: Option<Transition> = None;
    let mut i: usize = 0;
    while i < opts.len()
        invariant
            i <= opts@.len(),
            found == resolve(options_view(opts@).take(i as int), input@),
        decreases opts@.len() - i,
    {
        let ghost before = options_view(opts@).take(i as int);
        let ghost after = options_view(opts@).take(i + 1);
        assert(after.drop_last() =~= before);
        if opts[i].matches(input) {
            found = Some(opts[i].callback);
        }
        i = i + 1;
    }
    assert(options_view(opts@).take(opts@.len() as int) =~= options_view(opts@));
    found
}

proof fn lemma_same_ignoring_case_trans(x: Seq<char>, a: Seq<char>, b: Seq<char>)
    requires
        same_ignoring_ascii_case(a, b),
    ensures
        same_ignoring_ascii_case(x, a) == same_ignoring_ascii_case(x, b),
{
    if same_ignoring_ascii_case(x, a) {
        assert forall|i: int| 0 <= i < x.len() implies #[trigger] fold_char(x[i]) == fold_char(b[i]) by {
            assert(fold_char(x[i]) == fold_char(a[i]));
            assert(fold_char(a[i]) == fold_char(b[i]));
        }
    }
    if same_ignoring_ascii_case(x, b) {
        assert forall|i: int| 0 <= i < x.len() implies #[trigger] fold_char(x[i]) == fold_char(a[i]) by {
            assert(fold_char(x[i]) == fold_char(b[i]));
            assert(fold_char(a[i]) == fold_char(b[i]));
        }
    }
}

/// Resolution ignores ASCII case: two inputs that differ only in the case of
/// their letters resolve to the same action, against names and shortcuts alike.
pub proof fn lemma_resolve_ignores_case(opts: Seq<OptionView>, a: Seq<char>, b: Seq<char>)
    requires
        same_ignoring_ascii_case(a, b),
    ensures
        resolve(opts, a) == resolve(opts, b),
    decreases opts.len(),
{
    if opts.len() > 0 {
        let o = opts.last();
        lemma_same_ignoring_case_trans(o.name, a, b);
        match o.shortcut {
            Some(sc) => lemma_same_ignoring_case_trans(sc, a, b),
            None => {},
        }
        lemma_resolve_ignores_case(opts.drop_last(), a, b);
    }
}

/// When several options match the input, the one that comes last in the list
/// gives the action.
pub proof fn lemma_last_match_wins(opts: Seq<OptionView>, input: Seq<char>, k: int)
    requires
        0 <= k < opts.len(),
        option_matches(opts[k], input),
        forall|j: int| k < j < opts.len() ==> !option_matches(#[trigger] opts[j], input),
    ensures
        resolve(opts, input) == Some(opts[k].callback),
    decreases opts.len(),
{
    if k < opts.len() - 1 {
        assert(!option_matches(opts[opts.len() - 1], input));
        let rest = opts.drop_last();
        assert forall|j: int| k < j < rest.len() implies !option_matches(#[trigger] rest[j], input) by {
            assert(rest[j] == opts[j]);
        }
        lemma_last_match_wins(rest, input, k);
    }
}

} // verus!
