use vstd::prelude::*;
use vstd::string::StringExecFns;

verus! {

/// What an item is, as plain text.
pub struct ItemView {
    pub name: Seq<char>,
    pub description: Seq<char>,
}

/// What a player is: a name and the items carried, in order.
pub struct PlayerView {
    pub name: Seq<char>,
    pub inventory: Seq<ItemView>,
}

pub struct Item {
    name: String,
    description: String,
}

impl View for Item {
    type V = ItemView;

    closed spec fn view(&self) -> ItemView {
        ItemView { name: self.name@, description: self.description@ }
    }
}

impl Item {
    pub fn new(name: String, description: String) -> (r: Item)
        ensures
            r@ == (ItemView { name: name@, description: description@ }),
    {
        Item { name, description }
    }

    pub fn get_name(&self) -> (r: &str)
        ensures
            r@ == self@.name,
    {
        self.name.as_str()
    }

    pub fn get_desc(&self) -> (r: &str)
        ensures
            r@ == self@.description,
    {
        self.description.as_str()
    }
}

/// The items of a sequence, each as its view.
pub open spec fn items_view(items: Seq<Item>) -> Seq<ItemView> {
    items.map_values(|i: Item| i@)
}

/// The inventory every new player starts with.
pub open spec fn starting_inventory() -> Seq<ItemView> {
    seq![
        ItemView { name: "Apple"@, description: "A shiny red fruit"@ },
        ItemView { name: "Box"@, description: "A cardboard box"@ },
    ]
}

pub struct Player {
    name: String,
    inventory: Vec<Item>,
}

impl View for Player {
    type V = PlayerView;

    closed spec fn view(&self) -> PlayerView {
        PlayerView { name: self.name@, inventory: items_view(self.inventory@) }
    }
}

impl Player {
    pub fn new(name: String) -> (r: Player)
        ensures
            r@ == (PlayerView { name: name@, inventory: starting_inventory() }),
    {
        let apple = Item::new(String::from_str("Apple"), String::from_str("A shiny red fruit"));
        let cardboard = Item::new(String::from_str("Box"), String::from_str("A cardboard box"));
        let inventory = vec![apple, cardboard];
        let r = Player { name, inventory };
        assert(r@.inventory =~= starting_inventory());
        r
    }

    pub fn get_name(&self) -> (r: String)
        ensures
            r@ == self@.name,
    {
        self.name.clone()
    }

    pub fn get_inventory(&self) -> (r: &Vec<Item>)
        ensures
            items_view(r@) == self@.inventory,
    {
        &self.inventory
    }

    pub fn _loadinventory(&mut self, inventory: Vec<Item>)
        ensures
            final(self)@ == (PlayerView { name: old(self)@.name, inventory: items_view(inventory@) }),
    {
        self.inventory = inventory;
    }
}

} // verus!
