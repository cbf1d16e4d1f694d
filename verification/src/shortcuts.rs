//! The shortcut table: for each of the sixteen actions the key combination
//! that triggers it, loaded all-or-nothing from a configuration document.

use crate::document::{
    find_node, find_section, first_named, document_of, lemma_first_named, parse_document,
    section_named, ConfigNode,
};
use crate::key_combo::{KeyCombo, KeyComboView};
use crate::token::{
    classified, combo_of, lemma_unrecognised_value_fails, parse_key_combo, tokens_combo,
    value_token,
};
use vstd::prelude::*;
use vstd::string::StringExecFns;

verus! {

/// A category of actions: a subsection of the configuration.
#[derive(Clone, Copy, Debug, PartialEq, Eq, Structural)]
pub enum Category {
    Movement,
    Rotation,
    Resize,
}

/// An action that a shortcut can trigger.
#[derive(Clone, Copy, Debug, PartialEq, Eq, Structural)]
pub enum Action {
    MovementUp,
    MovementDown,
    MovementLeft,
    MovementRight,
    MovementForward,
    MovementBackward,
    RotationUp,
    RotationDown,
    RotationLeft,
    RotationRight,
    RotationClockwise,
    RotationCounterClockwise,
    ResizeUp,
    ResizeDown,
    ResizeLeft,
    ResizeRight,
}

/// The name of the configuration's top-level section.
pub open spec fn root_name() -> Seq<char> {
    "KeyboardShortcuts"@
}

/// The name of the subsection that configures `category`.
pub open spec fn category_name(category: Category) -> Seq<char> {
    match category {
        Category::Movement => "Movement"@,
        Category::Rotation => "Rotation"@,
        Category::Resize => "Resize"@,
    }
}

/// The category that `action` belongs to.
pub open spec fn category_of(action: Action) -> Category {
    match action {
        Action::MovementUp
        | Action::MovementDown
        | Action::MovementLeft
        | Action::MovementRight
        | Action::MovementForward
        | Action::MovementBackward => Category::Movement,
        Action::RotationUp
        | Action::RotationDown
        | Action::RotationLeft
        | Action::RotationRight
        | Action::RotationClockwise
        | Action::RotationCounterClockwise => Category::Rotation,
        Action::ResizeUp | Action::ResizeDown | Action::ResizeLeft | Action::ResizeRight =>
            Category::Resize,
    }
}

/// The name of the entry that configures `action` within its category's
/// subsection.
pub open spec fn action_name(action: Action) -> Seq<char> {
    match action {
        Action::MovementUp | Action::RotationUp | Action::ResizeUp => "Up"@,
        Action::MovementDown | Action::RotationDown | Action::ResizeDown => "Down"@,
        Action::MovementLeft | Action::RotationLeft | Action::ResizeLeft => "Left"@,
        Action::MovementRight | Action::RotationRight | Action::ResizeRight => "Right"@,
        Action::MovementForward => "Forward"@,
        Action::MovementBackward => "Backward"@,
        Action::RotationClockwise => "Clockwise"@,
        Action::RotationCounterClockwise => "CounterClockwise"@,
    }
}

/// The place of `action` in the order in which the actions are tried:
/// category by category, and within a category as the configuration lists
/// them.
pub open spec fn action_rank(action: Action) -> int {
    match action {
        Action::MovementUp => 0,
        Action::MovementDown => 1,
        Action::MovementLeft => 2,
        Action::MovementRight => 3,
        Action::MovementForward => 4,
        Action::MovementBackward => 5,
        Action::RotationUp => 6,
        Action::RotationDown => 7,
        Action::RotationLeft => 8,
        Action::RotationRight => 9,
        Action::RotationClockwise => 10,
        Action::RotationCounterClockwise => 11,
        Action::ResizeUp => 12,
        Action::ResizeDown => 13,
        Action::ResizeLeft => 14,
        Action::ResizeRight => 15,
    }
}

/// All sixteen actions, each at the place of its rank.
pub open spec fn ordered_actions() -> Seq<Action> {
    seq![
        Action::MovementUp,
        Action::MovementDown,
        Action::MovementLeft,
        Action::MovementRight,
        Action::MovementForward,
        Action::MovementBackward,
        Action::RotationUp,
        Action::RotationDown,
        Action::RotationLeft,
        Action::RotationRight,
        Action::RotationClockwise,
        Action::RotationCounterClockwise,
        Action::ResizeUp,
        Action::ResizeDown,
        Action::ResizeLeft,
        Action::ResizeRight,
    ]
}

/// `ordered_actions` lists every action once, at the place of its rank.
pub proof fn lemma_ordered_actions()
    ensures
        ordered_actions().len() == 16,
        forall|action: Action|
            0 <= #[trigger] action_rank(action) < 16 && ordered_actions()[action_rank(action)]
                == action,
        forall|i: int| 0 <= i < 16 ==> action_rank(#[trigger] ordered_actions()[i]) == i,
{
}

/// The identifier under which `action` is reported: the name of its
/// category, a dot, and its own name, as in `Movement.Forward`.
pub open spec fn action_identifier(action: Action) -> Seq<char> {
    category_name(category_of(action)) + "."@ + action_name(action)
}

impl Category {
    /// The name of the subsection that configures this category.
    pub fn name(self) -> (name: &'static str)
        ensures
            name@ == category_name(self),
    {
        match self {
            Category::Movement => "Movement",
            Category::Rotation => "Rotation",
            Category::Resize => "Resize",
        }
    }
}

impl Action {
    /// All sixteen actions in the order in which they are tried.
    pub fn ordered() -> (actions: Vec<Action>)
        ensures
            actions@ == ordered_actions(),
    {
        vec![
            Action::MovementUp,
            Action::MovementDown,
            Action::MovementLeft,
            Action::MovementRight,
            Action::MovementForward,
            Action::MovementBackward,
            Action::RotationUp,
            Action::RotationDown,
            Action::RotationLeft,
            Action::RotationRight,
            Action::RotationClockwise,
            Action::RotationCounterClockwise,
            Action::ResizeUp,
            Action::ResizeDown,
            Action::ResizeLeft,
            Action::ResizeRight,
        ]
    }

    /// The category that this action belongs to.
    pub fn category(self) -> (category: Category)
        ensures
            category == category_of(self),
    {
        match self {
            Action::MovementUp
            | Action::MovementDown
            | Action::MovementLeft
            | Action::MovementRight
            | Action::MovementForward
            | Action::MovementBackward => Category::Movement,
            Action::RotationUp
            | Action::RotationDown
            | Action::RotationLeft
            | Action::RotationRight
            | Action::RotationClockwise
            | Action::RotationCounterClockwise => Category::Rotation,
            Action::ResizeUp | Action::ResizeDown | Action::ResizeLeft | Action::ResizeRight =>
                Category::Resize,
        }
    }

    /// The name of the entry that configures this action within its
    /// category's subsection.
    pub fn name(self) -> (name: &'static str)
        ensures
            name@ == action_name(self),
    {
        match self {
            Action::MovementUp | Action::RotationUp | Action::ResizeUp => "Up",
            Action::MovementDown | Action::RotationDown | Action::ResizeDown => "Down",
            Action::MovementLeft | Action::RotationLeft | Action::ResizeLeft => "Left",
            Action::MovementRight | Action::RotationRight | Action::ResizeRight => "Right",
            Action::MovementForward => "Forward",
            Action::MovementBackward => "Backward",
            Action::RotationClockwise => "Clockwise",
            Action::RotationCounterClockwise => "CounterClockwise",
        }
    }

    /// The identifier under which this action is reported, as in
    /// `Movement.Forward`.
    pub fn identifier(self) -> (identifier: String)
        ensures
            identifier@ == action_identifier(self),
    {
        let mut identifier = self.category().name().to_owned();
        identifier.append(".");
        identifier.append(self.name());
        identifier
    }
}

/// The combos of the movement actions.
#[derive(Debug)]
pub struct Movement {
    pub up: KeyCombo,
    pub down: KeyCombo,
    pub left: KeyCombo,
    pub right: KeyCombo,
    pub forward: KeyCombo,
    pub backward: KeyCombo,
}

/// The combos of the rotation actions.
#[derive(Debug)]
pub struct Rotation {
    pub up: KeyCombo,
    pub down: KeyCombo,
    pub left: KeyCombo,
    pub right: KeyCombo,
    pub clockwise: KeyCombo,
    pub counter_clockwise: KeyCombo,
}

/// The combos of the resize actions.
#[derive(Debug)]
pub struct Resize {
    pub up: KeyCombo,
    pub down: KeyCombo,
    pub left: KeyCombo,
    pub right: KeyCombo,
}

/// The shortcut table: a combo for every action.
#[derive(Debug)]
pub struct KeyboardShortcuts {
    pub movement: Movement,
    pub rotation: Rotation,
    pub resize: Resize,
}

/// The combo that the entry named `name` of `section` configures: that of the
/// first node with this name, if there is one and all its values are
/// recognised.
pub open spec fn entry_combo(section: Seq<ConfigNode>, name: Seq<char>) -> Option<KeyComboView> {
    match first_named(section, name) {
        Some(node) => combo_of(node.values@),
        None => None,
    }
}

/// The combo that the document `nodes` configures for `action`: the entry of
/// the action, in the subsection of its category, in the top-level section.
/// `None` where one of the three is missing or the entry holds a value that
/// is not recognised.
pub open spec fn configured_combo(nodes: Seq<ConfigNode>, action: Action) -> Option<KeyComboView> {
    match section_named(nodes, root_name()) {
        Some(root) => match section_named(root, category_name(category_of(action))) {
            Some(section) => entry_combo(section, action_name(action)),
            None => None,
        },
        None => None,
    }
}

/// Whether the document configures a combo for every action.
pub open spec fn is_complete(nodes: Seq<ConfigNode>) -> bool {
    forall|action: Action| (#[trigger] configured_combo(nodes, action)) is Some
}

/// Loads the combo of the entry named `name` of `section`.
pub fn load_entry(section: &Vec<ConfigNode>, name: &str) -> (combo: Option<KeyCombo>)
    ensures
        match combo {
            Some(combo) => entry_combo(section@, name@) == Some(combo@),
            None => entry_combo(section@, name@) is None,
        },
{
    match find_node(section, name) {
        Some(node) => parse_key_combo(node),
        None => None,
    }
}

impl Movement {
    /// Whether each combo of this record is the one that `section`
    /// configures for its action.
    pub open spec fn configured_by(self, section: Seq<ConfigNode>) -> bool {
        &&& entry_combo(section, "Up"@) == Some(self.up@)
        &&& entry_combo(section, "Down"@) == Some(self.down@)
        &&& entry_combo(section, "Left"@) == Some(self.left@)
        &&& entry_combo(section, "Right"@) == Some(self.right@)
        &&& entry_combo(section, "Forward"@) == Some(self.forward@)
        &&& entry_combo(section, "Backward"@) == Some(self.backward@)
    }

    /// Whether `section` configures every movement action.
    pub open spec fn complete(section: Seq<ConfigNode>) -> bool {
        &&& entry_combo(section, "Up"@) is Some
        &&& entry_combo(section, "Down"@) is Some
        &&& entry_combo(section, "Left"@) is Some
        &&& entry_combo(section, "Right"@) is Some
        &&& entry_combo(section, "Forward"@) is Some
        &&& entry_combo(section, "Backward"@) is Some
    }

    /// Loads the movement combos from the nodes of the `Movement`
    /// subsection. Fails unless all six entries are there and parse.
    pub fn from_section(section: &Vec<ConfigNode>) -> (movement: Option<Movement>)
        ensures
            match movement {
                Some(movement) => movement.configured_by(section@),
                None => !Movement::complete(section@),
            },
    {
        let up = match load_entry(section, "Up") {
            Some(combo) => combo,
            None => return None,
        };
        let down = match load_entry(section, "Down") {
            Some(combo) => combo,
            None => return None,
        };
        let left = match load_entry(section, "Left") {
            Some(combo) => combo,
            None => return None,
        };
        let right = match load_entry(section, "Right") {
            Some(combo) => combo,
            None => return None,
        };
        let forward = match load_entry(section, "Forward") {
            Some(combo) => combo,
            None => return None,
        };
        let backward = match load_entry(section, "Backward") {
            Some(combo) => combo,
            None => return None,
        };
        Some(Movement { up, down, left, right, forward, backward })
    }
}

impl Rotation {
    /// Whether each combo of this record is the one that `section`
    /// configures for its action.
    pub open spec fn configured_by(self, section: Seq<ConfigNode>) -> bool {
        &&& entry_combo(section, "Up"@) == Some(self.up@)
        &&& entry_combo(section, "Down"@) == Some(self.down@)
        &&& entry_combo(section, "Left"@) == Some(self.left@)
        &&& entry_combo(section, "Right"@) == Some(self.right@)
        &&& entry_combo(section, "Clockwise"@) == Some(self.clockwise@)
        &&& entry_combo(section, "CounterClockwise"@) == Some(self.counter_clockwise@)
    }

    /// Whether `section` configures every rotation action.
    pub open spec fn complete(section: Seq<ConfigNode>) -> bool {
        &&& entry_combo(section, "Up"@) is Some
        &&& entry_combo(section, "Down"@) is Some
        &&& entry_combo(section, "Left"@) is Some
        &&& entry_combo(section, "Right"@) is Some
        &&& entry_combo(section, "Clockwise"@) is Some
        &&& entry_combo(section, "CounterClockwise"@) is Some
    }

    /// Loads the rotation combos from the nodes of the `Rotation`
    /// subsection. Fails unless all six entries are there and parse.
    pub fn from_section(section: &Vec<ConfigNode>) -> (rotation: Option<Rotation>)
        ensures
            match rotation {
                Some(rotation) => rotation.configured_by(section@),
                None => !Rotation::complete(section@),
            },
    {
        let up = match load_entry(section, "Up") {
            Some(combo) => combo,
            None => return None,
        };
        let down = match load_entry(section, "Down") {
            Some(combo) => combo,
            None => return None,
        };
        let left = match load_entry(section, "Left") {
            Some(combo) => combo,
            None => return None,
        };
        let right = match load_entry(section, "Right") {
            Some(combo) => combo,
            None => return None,
        };
        let clockwise = match load_entry(section, "Clockwise") {
            Some(combo) => combo,
            None => return None,
        };
        let counter_clockwise = match load_entry(section, "CounterClockwise") {
            Some(combo) => combo,
            None => return None,
        };
        Some(Rotation { up, down, left, right, clockwise, counter_clockwise })
    }
}

impl Resize {
    /// Whether each combo of this record is the one that `section`
    /// configures for its action.
    pub open spec fn configured_by(self, section: Seq<ConfigNode>) -> bool {
        &&& entry_combo(section, "Up"@) == Some(self.up@)
        &&& entry_combo(section, "Down"@) == Some(self.down@)
        &&& entry_combo(section, "Left"@) == Some(self.left@)
        &&& entry_combo(section, "Right"@) == Some(self.right@)
    }

    /// Whether `section` configures every resize action.
    pub open spec fn complete(section: Seq<ConfigNode>) -> bool {
        &&& entry_combo(section, "Up"@) is Some
        &&& entry_combo(section, "Down"@) is Some
        &&& entry_combo(section, "Left"@) is Some
        &&& entry_combo(section, "Right"@) is Some
    }

    /// Loads the resize combos from the nodes of the `Resize` subsection.
    /// Fails unless all four entries are there and parse.
    pub fn from_section(section: &Vec<ConfigNode>) -> (resize: Option<Resize>)
        ensures
            match resize {
                Some(resize) => resize.configured_by(section@),
                None => !Resize::complete(section@),
            },
    {
        let up = match load_entry(section, "Up") {
            Some(combo) => combo,
            None => return None,
        };
        let down = match load_entry(section, "Down") {
            Some(combo) => combo,
            None => return None,
        };
        let left = match load_entry(section, "Left") {
            Some(combo) => combo,
            None => return None,
        };
        let right = match load_entry(section, "Right") {
            Some(combo) => combo,
            None => return None,
        };
        Some(Resize { up, down, left, right })
    }
}

impl KeyboardShortcuts {
    /// The combo that this table holds for `action`.
    pub open spec fn combo_view(self, action: Action) -> KeyComboView {
        match action {
            Action::MovementUp => self.movement.up@,
            Action::MovementDown => self.movement.down@,
            Action::MovementLeft => self.movement.left@,
            Action::MovementRight => self.movement.right@,
            Action::MovementForward => self.movement.forward@,
            Action::MovementBackward => self.movement.backward@,
            Action::RotationUp => self.rotation.up@,
            Action::RotationDown => self.rotation.down@,
            Action::RotationLeft => self.rotation.left@,
            Action::RotationRight => self.rotation.right@,
            Action::RotationClockwise => self.rotation.clockwise@,
            Action::RotationCounterClockwise => self.rotation.counter_clockwise@,
            Action::ResizeUp => self.resize.up@,
            Action::ResizeDown => self.resize.down@,
            Action::ResizeLeft => self.resize.left@,
            Action::ResizeRight => self.resize.right@,
        }
    }

    /// Whether this table holds, for every action, the combo that the
    /// document `nodes` configures for it.
    pub open spec fn configured_by(self, nodes: Seq<ConfigNode>) -> bool {
        forall|action: Action| #[trigger]
            configured_combo(nodes, action) == Some(self.combo_view(action))
    }

    /// The combo that this table holds for `action`.
    pub fn combo(&self, action: Action) -> (combo: &KeyCombo)
        ensures
            combo@ == self.combo_view(action),
    {
        match action {
            Action::MovementUp => &self.movement.up,
            Action::MovementDown => &self.movement.down,
            Action::MovementLeft => &self.movement.left,
            Action::MovementRight => &self.movement.right,
            Action::MovementForward => &self.movement.forward,
            Action::MovementBackward => &self.movement.backward,
            Action::RotationUp => &self.rotation.up,
            Action::RotationDown => &self.rotation.down,
            Action::RotationLeft => &self.rotation.left,
            Action::RotationRight => &self.rotation.right,
            Action::RotationClockwise => &self.rotation.clockwise,
            Action::RotationCounterClockwise => &self.rotation.counter_clockwise,
            Action::ResizeUp => &self.resize.up,
            Action::ResizeDown => &self.resize.down,
            Action::ResizeLeft => &self.resize.left,
            Action::ResizeRight => &self.resize.right,
        }
    }

    /// Builds the table from a configuration document.
    ///
    /// The load is all-or-nothing: it succeeds exactly when the document
    /// configures every one of the sixteen actions, and the table then holds
    /// for each action the combo of its entry.
    pub fn from_nodes(nodes: &Vec<ConfigNode>) -> (table: Option<KeyboardShortcuts>)
        ensures
            match table {
                Some(table) => table.configured_by(nodes@),
                None => !is_complete(nodes@),
            },
    {
        let root = match find_section(nodes, "KeyboardShortcuts") {
            Some(root) => root,
            None => {
                assert(configured_combo(nodes@, Action::MovementUp) is None);
                return None;
            },
        };
        let movement_section = match find_section(root, "Movement") {
            Some(section) => section,
            None => {
                assert(configured_combo(nodes@, Action::MovementUp) is None);
                return None;
            },
        };
        let rotation_section = match find_section(root, "Rotation") {
            Some(section) => section,
            None => {
                assert(configured_combo(nodes@, Action::RotationUp) is None);
                return None;
            },
        };
        let resize_section = match find_section(root, "Resize") {
            Some(section) => section,
            None => {
                assert(configured_combo(nodes@, Action::ResizeUp) is None);
                return None;
            },
        };
        let movement = match Movement::from_section(movement_section) {
            Some(movement) => movement,
            None => {
                proof {
                    lemma_incomplete_movement(nodes@);
                }
                return None;
            },
        };
        let rotation = match Rotation::from_section(rotation_section) {
            Some(rotation) => rotation,
            None => {
                proof {
                    lemma_incomplete_rotation(nodes@);
                }
                return None;
            },
        };
        let resize = match Resize::from_section(resize_section) {
            Some(resize) => resize,
            None => {
                proof {
                    lemma_incomplete_resize(nodes@);
                }
                return None;
            },
        };
        let table = KeyboardShortcuts { movement, rotation, resize };
        assert forall|action: Action| #[trigger]
            configured_combo(nodes@, action) == Some(table.combo_view(action)) by {
            match category_of(action) {
                Category::Movement => {},
                Category::Rotation => {},
                Category::Resize => {},
            }
        }
        Some(table)
    }

    /// Loads the table from the text of a KDL configuration file.
    ///
    /// Fails if no document can be read from the text, and otherwise exactly
    /// when the document does not configure every action.
    pub fn new(text: &str) -> (table: Option<KeyboardShortcuts>)
        ensures
            match document_of(text) {
                Some(nodes) => match table {
                    Some(table) => table.configured_by(nodes),
                    None => !is_complete(nodes),
                },
                None => table is None,
            },
    {
        match parse_document(text) {
            Some(nodes) => KeyboardShortcuts::from_nodes(&nodes),
            None => None,
        }
    }
}

/// Whether no node of `nodes` is named `name`.
pub open spec fn lacks_node(nodes: Seq<ConfigNode>, name: Seq<char>) -> bool {
    forall|i: int| 0 <= i < nodes.len() ==> (#[trigger] nodes[i]).name@ != name
}

/// A document without the top-level section configures no action, so it is
/// not complete and no table is loaded from it.
pub proof fn lemma_missing_root_fails(nodes: Seq<ConfigNode>)
    requires
        lacks_node(nodes, root_name()),
    ensures
        forall|action: Action| (#[trigger] configured_combo(nodes, action)) is None,
        !is_complete(nodes),
{
    lemma_first_named(nodes, root_name());
    assert(configured_combo(nodes, Action::MovementUp) is None);
}

/// A document whose top-level section lacks the subsection of one category
/// configures none of that category's actions, so it is not complete and no
/// table is loaded from it.
pub proof fn lemma_missing_category_fails(nodes: Seq<ConfigNode>, category: Category)
    requires
        section_named(nodes, root_name()) matches Some(root) && lacks_node(
            root,
            category_name(category),
        ),
    ensures
        forall|action: Action|
            category_of(action) == category ==> (#[trigger] configured_combo(nodes, action))
                is None,
        !is_complete(nodes),
{
    let root = section_named(nodes, root_name())->0;
    lemma_first_named(root, category_name(category));
    match category {
        Category::Movement => {
            assert(configured_combo(nodes, Action::MovementUp) is None);
        },
        Category::Rotation => {
            assert(configured_combo(nodes, Action::RotationUp) is None);
        },
        Category::Resize => {
            assert(configured_combo(nodes, Action::ResizeUp) is None);
        },
    }
}

/// A document in which the subsection of an action's category lacks the
/// action's entry does not configure that action, so it is not complete and
/// no table is loaded from it.
pub proof fn lemma_missing_action_fails(nodes: Seq<ConfigNode>, action: Action)
    requires
        section_named(nodes, root_name()) matches Some(root) && section_named(
            root,
            category_name(category_of(action)),
        ) matches Some(section) && lacks_node(section, action_name(action)),
    ensures
        configured_combo(nodes, action) is None,
        !is_complete(nodes),
{
    let root = section_named(nodes, root_name())->0;
    let section = section_named(root, category_name(category_of(action)))->0;
    lemma_first_named(section, action_name(action));
}

/// A document in which the entry of an action holds a value that is not
/// recognised does not configure that action, so it is not complete and no
/// table is loaded from it.
pub proof fn lemma_unrecognised_token_fails(nodes: Seq<ConfigNode>, action: Action, i: int)
    requires
        section_named(nodes, root_name()) matches Some(root) && section_named(
            root,
            category_name(category_of(action)),
        ) matches Some(section) && first_named(section, action_name(action)) matches Some(entry)
            && 0 <= i < entry.values@.len() && value_token(entry.values@[i]) is None,
    ensures
        configured_combo(nodes, action) is None,
        !is_complete(nodes),
{
    let root = section_named(nodes, root_name())->0;
    let section = section_named(root, category_name(category_of(action)))->0;
    let entry = first_named(section, action_name(action))->0;
    lemma_unrecognised_value_fails(entry.values@);
}

/// A table that was loaded from a document holds, for every action, a combo
/// that reflects the values of the action's entry: its modifiers are those
/// that the values name, its keys are those that the other values decode to.
pub proof fn lemma_table_reflects_document(
    table: KeyboardShortcuts,
    nodes: Seq<ConfigNode>,
    action: Action,
)
    requires
        table.configured_by(nodes),
    ensures
        is_complete(nodes),
        section_named(nodes, root_name()) matches Some(root) && section_named(
            root,
            category_name(category_of(action)),
        ) matches Some(section) && first_named(section, action_name(action)) matches Some(entry)
            && classified(entry.values@) matches Some(tokens) && table.combo_view(action)
            == tokens_combo(tokens),
{
    assert(configured_combo(nodes, action) == Some(table.combo_view(action)));
}

/// A document whose `Movement` subsection lacks a combo for one of its
/// six actions is not complete.
proof fn lemma_incomplete_movement(nodes: Seq<ConfigNode>)
    requires
        section_named(nodes, root_name()) matches Some(root) && section_named(
            root,
            "Movement"@,
        ) matches Some(section) && !Movement::complete(section),
    ensures
        !is_complete(nodes),
{
    let root = section_named(nodes, root_name())->0;
    let section = section_named(root, "Movement"@)->0;
    if entry_combo(section, "Up"@) is None {
        assert(configured_combo(nodes, Action::MovementUp) is None);
    } else if entry_combo(section, "Down"@) is None {
        assert(configured_combo(nodes, Action::MovementDown) is None);
    } else if entry_combo(section, "Left"@) is None {
        assert(configured_combo(nodes, Action::MovementLeft) is None);
    } else if entry_combo(section, "Right"@) is None {
        assert(configured_combo(nodes, Action::MovementRight) is None);
    } else if entry_combo(section, "Forward"@) is None {
        assert(configured_combo(nodes, Action::MovementForward) is None);
    } else {
        assert(configured_combo(nodes, Action::MovementBackward) is None);
    }
}

/// A document whose `Rotation` subsection lacks a combo for one of its
/// six actions is not complete.
proof fn lemma_incomplete_rotation(nodes: Seq<ConfigNode>)
    requires
        section_named(nodes, root_name()) matches Some(root) && section_named(
            root,
            "Rotation"@,
        ) matches Some(section) && !Rotation::complete(section),
    ensures
        !is_complete(nodes),
{
    let root = section_named(nodes, root_name())->0;
    let section = section_named(root, "Rotation"@)->0;
    if entry_combo(section, "Up"@) is None {
        assert(configured_combo(nodes, Action::RotationUp) is None);
    } else if entry_combo(section, "Down"@) is None {
        assert(configured_combo(nodes, Action::RotationDown) is None);
    } else if entry_combo(section, "Left"@) is None {
        assert(configured_combo(nodes, Action::RotationLeft) is None);
    } else if entry_combo(section, "Right"@) is None {
        assert(configured_combo(nodes, Action::RotationRight) is None);
    } else if entry_combo(section, "Clockwise"@) is None {
        assert(configured_combo(nodes, Action::RotationClockwise) is None);
    } else {
        assert(configured_combo(nodes, Action::RotationCounterClockwise) is None);
    }
}

/// A document whose `Resize` subsection lacks a combo for one of its four
/// actions is not complete.
proof fn lemma_incomplete_resize(nodes: Seq<ConfigNode>)
    requires
        section_named(nodes, root_name()) matches Some(root) && section_named(
            root,
            "Resize"@,
        ) matches Some(section) && !Resize::complete(section),
    ensures
        !is_complete(nodes),
{
    let root = section_named(nodes, root_name())->0;
    let section = section_named(root, "Resize"@)->0;
    if entry_combo(section, "Up"@) is None {
        assert(configured_combo(nodes, Action::ResizeUp) is None);
    } else if entry_combo(section, "Down"@) is None {
        assert(configured_combo(nodes, Action::ResizeDown) is None);
    } else if entry_combo(section, "Left"@) is None {
        assert(configured_combo(nodes, Action::ResizeLeft) is None);
    } else {
        assert(configured_combo(nodes, Action::ResizeRight) is None);
    }
}

} // verus!
