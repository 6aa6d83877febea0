//! The actions of the browser and the keys bound to them.

use crate::inputs::key::Key;
use vstd::prelude::*;

verus! {

/// What a key press can ask of the browser.
#[derive(Debug, Clone, Copy, PartialEq, Eq, Structural)]
pub enum Action {
    Quit,
    Increment,
    Decrement,
    Show,
    Search,
}

/// Every action, in the order in which a key is looked up.
pub open spec fn all_actions() -> Seq<Action> {
    seq![Action::Quit, Action::Increment, Action::Decrement, Action::Show, Action::Search]
}

impl Action {
    /// The keys bound to this action.
    pub open spec fn spec_keys(self) -> Seq<Key> {
        match self {
            Action::Quit => seq![Key::Char('q'), Key::Ctrl('c')],
            Action::Increment => seq![Key::Char('j'), Key::Ctrl('n'), Key::Down],
            Action::Decrement => seq![Key::Char('k'), Key::Ctrl('p'), Key::Up],
            Action::Show => seq![Key::Enter, Key::Ctrl('m')],
            Action::Search => seq![Key::Char('/'), Key::Ctrl('f')],
        }
    }

    /// The name shown for this action.
    pub open spec fn spec_name(self) -> Seq<char> {
        match self {
            Action::Quit => "Quit"@,
            Action::Increment => "Next"@,
            Action::Decrement => "Prev"@,
            Action::Show => "Show"@,
            Action::Search => "Search"@,
        }
    }

    /// Every action, in lookup order.
    pub fn iterator() -> (all: Vec<Action>)
        ensures
            all@ == all_actions(),
    {
        let all = vec![
            Action::Quit,
            Action::Increment,
            Action::Decrement,
            Action::Show,
            Action::Search,
        ];
        assert(all@ =~= all_actions());
        all
    }

    /// The keys bound to this action.
    pub fn keys(&self) -> (keys: Vec<Key>)
        ensures
            keys@ == self.spec_keys(),
    {
        let keys = match self {
            Action::Quit => vec![Key::Char('q'), Key::Ctrl('c')],
            Action::Increment => vec![Key::Char('j'), Key::Ctrl('n'), Key::Down],
            Action::Decrement => vec![Key::Char('k'), Key::Ctrl('p'), Key::Up],
            Action::Show => vec![Key::Enter, Key::Ctrl('m')],
            Action::Search => vec![Key::Char('/'), Key::Ctrl('f')],
        };
        assert(keys@ =~= self.spec_keys());
        keys
    }

    /// The name shown for this action.
    pub fn to_string(&self) -> (name: String)
        ensures
            name@ == self.spec_name(),
    {
        match self {
            Action::Quit => "Quit".to_owned(),
            Action::Increment => "Next".to_owned(),
            Action::Decrement => "Prev".to_owned(),
            Action::Show => "Show".to_owned(),
            Action::Search => "Search".to_owned(),
        }
    }
}

/// Whether `key` occurs in `keys`.
fn contains_key(keys: &Vec<Key>, key: Key) -> (found: bool)
    ensures
        found == keys@.contains(key),
{
    let mut i: usize = 0;
    while i < keys.len()
        invariant
            i <= keys.len(),
            forall|j: int| 0 <= j < i ==> keys@[j] != key,
        decreases keys.len() - i,
    {
        if keys[i] == key {
            return true;
        }
        i += 1;
    }
    false
}

/// Whether `action` occurs in `actions`.
fn contains_action(actions: &Vec<Action>, action: Action) -> (found: bool)
    ensures
        found == actions@.contains(action),
{
    let mut i: usize = 0;
    while i < actions.len()
        invariant
            i <= actions.len(),
            forall|j: int| 0 <= j < i ==> actions@[j] != action,
        decreases actions.len() - i,
    {
        if actions[i] == action {
            return true;
        }
        i += 1;
    }
    false
}

/// Whether `action` is one of `held` and `key` is bound to it.
pub open spec fn bound_to(held: Seq<Action>, key: Key, action: Action) -> bool {
    held.contains(action) && action.spec_keys().contains(key)
}

/// The action that `key` triggers among `held`: the first one in lookup order
/// that is held and has the key.
pub open spec fn find_in(held: Seq<Action>, key: Key) -> Option<Action> {
    if bound_to(held, key, Action::Quit) {
        Some(Action::Quit)
    } else if bound_to(held, key, Action::Increment) {
        Some(Action::Increment)
    } else if bound_to(held, key, Action::Decrement) {
        Some(Action::Decrement)
    } else if bound_to(held, key, Action::Show) {
        Some(Action::Show)
    } else if bound_to(held, key, Action::Search) {
        Some(Action::Search)
    } else {
        None
    }
}

/// Whether one key is bound to both actions.
pub open spec fn share_key(a: Action, b: Action) -> bool {
    exists|key: Key| #[trigger] a.spec_keys().contains(key) && b.spec_keys().contains(key)
}

/// Whether no key is claimed by two entries of the list.
pub open spec fn conflict_free(actions: Seq<Action>) -> bool {
    forall|i: int, j: int|
        0 <= i < j < actions.len() ==> !share_key(#[trigger] actions[i], #[trigger] actions[j])
}

/// No two of the five actions share a key.
pub proof fn lemma_all_actions_conflict_free()
    ensures
        conflict_free(all_actions()),
{
    let all = all_actions();
    assert forall|i: int, j: int| 0 <= i < j < all.len() implies !share_key(
        #[trigger] all[i],
        #[trigger] all[j],
    ) by {
        assert forall|key: Key| #[trigger] all[i].spec_keys().contains(key) implies !all[j].spec_keys().contains(
        key) by {
            let a = choose|a: int| 0 <= a < all[i].spec_keys().len() && all[i].spec_keys()[a] == key;
            if all[j].spec_keys().contains(key) {
                let b = choose|b: int|
                    0 <= b < all[j].spec_keys().len() && all[j].spec_keys()[b] == key;
                assert(all[i].spec_keys()[a] == all[j].spec_keys()[b]);
            }
        }
    }
}

/// A key that two entries of an action list both claim.
#[derive(Debug, Clone, Copy, PartialEq, Eq, Structural)]
pub struct KeyConflict {
    pub key: Key,
    pub first: Action,
    pub second: Action,
}

/// Whether `key` is the first of `keys` that also occurs in `others`.
pub open spec fn first_common(keys: Seq<Key>, others: Seq<Key>, key: Key) -> bool {
    exists|k: int|
        0 <= k < keys.len() && #[trigger] keys[k] == key && others.contains(key) && forall|m: int|
            0 <= m < k ==> !others.contains(#[trigger] keys[m])
}

/// Whether entries `i` and `j` are the first pair of the list that claims
/// one key: no pair with an earlier first entry does, nor one with the same
/// first entry and an earlier second.
pub open spec fn first_conflict(actions: Seq<Action>, i: int, j: int) -> bool {
    &&& 0 <= i < j < actions.len()
    &&& share_key(actions[i], actions[j])
    &&& forall|a: int, b: int|
        0 <= a < b < actions.len() && (a < i || (a == i && b < j)) ==> !share_key(
            #[trigger] actions[a],
            #[trigger] actions[b],
        )
}

/// The first key of `a` that is also bound to `b`, if there is one.
fn common_key(a: Action, b: Action) -> (shared: Option<Key>)
    ensures
        match shared {
            Some(key) => first_common(a.spec_keys(), b.spec_keys(), key),
            None => !share_key(a, b),
        },
{
    let ka = a.keys();
    let kb = b.keys();
    let mut i: usize = 0;
    while i < ka.len()
        invariant
            i <= ka.len(),
            ka@ == a.spec_keys(),
            kb@ == b.spec_keys(),
            forall|j: int| 0 <= j < i ==> !kb@.contains(#[trigger] ka@[j]),
        decreases ka.len() - i,
    {
        if contains_key(&kb, ka[i]) {
            return Some(ka[i]);
        }
        i += 1;
    }
    assert forall|key: Key| #[trigger] a.spec_keys().contains(key) implies !b.spec_keys().contains(
        key,
    ) by {
        let j = choose|j: int| 0 <= j < ka@.len() && ka@[j] == key;
        assert(!kb@.contains(ka@[j]));
    }
    None
}

/// The actions that are live, each key bound to at most one of them.
#[derive(Debug, Clone)]
pub struct Actions(Vec<Action>);

impl Default for Actions {
    fn default() -> (table: Actions)
        ensures
            table@ == Seq::<Action>::empty(),
    {
        Actions(Vec::new())
    }
}

impl View for Actions {
    type V = Seq<Action>;

    closed spec fn view(&self) -> Seq<Action> {
        self.0@
    }
}

impl Actions {
    /// Takes the list as the live actions.
    pub fn from(actions: Vec<Action>) -> (table: Actions)
        requires
            conflict_free(actions@),
        ensures
            table@ == actions@,
    {
        Actions(actions)
    }

    /// Takes the list as the live actions, unless two of its entries claim the
    /// same key: then the first such pair, in list order, comes back instead,
    /// with the first key of the one that the other has too.
    pub fn try_from(actions: Vec<Action>) -> (checked: Result<Actions, KeyConflict>)
        ensures
            checked is Ok <==> conflict_free(actions@),
            checked matches Ok(table) ==> table@ == actions@,
            checked matches Err(conflict) ==> {
                &&& first_common(
                    conflict.first.spec_keys(),
                    conflict.second.spec_keys(),
                    conflict.key,
                )
                &&& exists|i: int, j: int|
                    #[trigger] first_conflict(actions@, i, j) && actions@[i] == conflict.first
                        && actions@[j] == conflict.second
            },
    {
        let n = actions.len();
        let mut i: usize = 0;
        while i < n
            invariant
                n == actions@.len(),
                i <= n,
                forall|a: int, b: int|
                    0 <= a < b < n && a < i ==> !share_key(
                        #[trigger] actions@[a],
                        #[trigger] actions@[b],
                    ),
            decreases n - i,
        {
            let mut j: usize = i + 1;
            while j < n
                invariant
                    n == actions@.len(),
                    i < j <= n,
                    forall|a: int, b: int|
                        0 <= a < b < n && a < i ==> !share_key(
                            #[trigger] actions@[a],
                            #[trigger] actions@[b],
                        ),
                    forall|b: int| i < b < j ==> !share_key(actions@[i as int], #[trigger] actions@[b]),
                decreases n - j,
            {
                match common_key(actions[i], actions[j]) {
                    Some(key) => {
                        assert(actions@[i as int].spec_keys().contains(key));
                        assert(first_conflict(actions@, i as int, j as int));
                        return Err(KeyConflict { key, first: actions[i], second: actions[j] });
                    },
                    None => {},
                }
                j += 1;
            }
            i += 1;
        }
        Ok(Actions(actions))
    }

    /// The action that `key` triggers, if any: the first live action, in
    /// lookup order, that the key is bound to.
    pub fn find(&self, key: Key) -> (found: Option<Action>)
        ensures
            found == find_in(self@, key),
    {
        let all = Action::iterator();
        let mut i: usize = 0;
        while i < all.len()
            invariant
                i <= all.len(),
                all@ == all_actions(),
                forall|j: int| 0 <= j < i ==> !bound_to(self@, key, #[trigger] all@[j]),
            decreases all.len() - i,
        {
            let action = all[i];
            let keys = action.keys();
            if contains_action(&self.0, action) && contains_key(&keys, key) {
                return Some(action);
            }
            i += 1;
        }
        assert(!bound_to(self@, key, all@[0]));
        assert(!bound_to(self@, key, all@[1]));
        assert(!bound_to(self@, key, all@[2]));
        assert(!bound_to(self@, key, all@[3]));
        assert(!bound_to(self@, key, all@[4]));
        None
    }

    /// The live actions, in the order given at construction.
    pub fn actions(&self) -> (list: &[Action])
        ensures
            list@ == self@,
    {
        self.0.as_slice()
    }
}

} // verus!
