use key_shortcuts::document::{parse_document, ConfigNode};
use key_shortcuts::key::PhysicalKey;
use key_shortcuts::modifier::Modifier;
use key_shortcuts::shortcuts::{Action, Category, KeyboardShortcuts, Movement, Resize, Rotation};
use winit::event::VirtualKeyCode;

fn key(code: VirtualKeyCode) -> PhysicalKey {
    PhysicalKey { code: code as u32 }
}

fn tokens_of(action: Action) -> Vec<&'static str> {
    match action {
        Action::MovementUp => vec!["\"Up\""],
        Action::MovementDown => vec!["\"Down\""],
        Action::MovementLeft => vec!["\"Left\""],
        Action::MovementRight => vec!["\"Right\""],
        Action::MovementForward => vec!["Ctrl", "\"W\""],
        Action::MovementBackward => vec!["\"S\"", "Ctrl"],
        Action::RotationUp => vec!["Alt", "\"Up\""],
        Action::RotationDown => vec!["Alt", "\"Down\""],
        Action::RotationLeft => vec!["Alt", "\"Left\""],
        Action::RotationRight => vec!["Alt", "\"Right\""],
        Action::RotationClockwise => vec!["Alt", "Shift", "\"E\""],
        Action::RotationCounterClockwise => vec!["\"Q\"", "Alt", "Shift"],
        Action::ResizeUp => vec!["Mod", "\"Up\""],
        Action::ResizeDown => vec!["Mod", "\"Down\""],
        Action::ResizeLeft => vec!["Mod", "\"Left\"", "\"LShift\""],
        Action::ResizeRight => vec!["Mod"],
    }
}

fn expected(action: Action) -> (Vec<Modifier>, Vec<PhysicalKey>) {
    match action {
        Action::MovementUp => (vec![], vec![key(VirtualKeyCode::Up)]),
        Action::MovementDown => (vec![], vec![key(VirtualKeyCode::Down)]),
        Action::MovementLeft => (vec![], vec![key(VirtualKeyCode::Left)]),
        Action::MovementRight => (vec![], vec![key(VirtualKeyCode::Right)]),
        Action::MovementForward => (vec![Modifier::Ctrl], vec![key(VirtualKeyCode::W)]),
        Action::MovementBackward => (vec![Modifier::Ctrl], vec![key(VirtualKeyCode::S)]),
        Action::RotationUp => (vec![Modifier::Alt], vec![key(VirtualKeyCode::Up)]),
        Action::RotationDown => (vec![Modifier::Alt], vec![key(VirtualKeyCode::Down)]),
        Action::RotationLeft => (vec![Modifier::Alt], vec![key(VirtualKeyCode::Left)]),
        Action::RotationRight => (vec![Modifier::Alt], vec![key(VirtualKeyCode::Right)]),
        Action::RotationClockwise => {
            (vec![Modifier::Alt, Modifier::Shift], vec![key(VirtualKeyCode::E)])
        }
        Action::RotationCounterClockwise => {
            (vec![Modifier::Alt, Modifier::Shift], vec![key(VirtualKeyCode::Q)])
        }
        Action::ResizeUp => (vec![Modifier::Mod], vec![key(VirtualKeyCode::Up)]),
        Action::ResizeDown => (vec![Modifier::Mod], vec![key(VirtualKeyCode::Down)]),
        Action::ResizeLeft => {
            (vec![Modifier::Mod], vec![key(VirtualKeyCode::Left), key(VirtualKeyCode::LShift)])
        }
        Action::ResizeRight => (vec![Modifier::Mod], vec![]),
    }
}

fn entry_line(action: Action, tokens: &[&str]) -> String {
    let mut line = format!("        {}", action.name());
    for token in tokens {
        line.push_str(&format!(" \"{}\"", token.replace('"', "\\\"")));
    }
    line.push('\n');
    line
}

/// The text of a configuration: the categories of `categories`, each with the
/// actions of `actions` that belong to it, with the tokens that `tokens`
/// gives.
fn config_text(
    categories: &[Category],
    actions: &[Action],
    tokens: &dyn Fn(Action) -> Vec<&'static str>,
) -> String {
    let mut text = String::from("KeyboardShortcuts {\n");
    for category in categories {
        text.push_str(&format!("    {} {{\n", category.name()));
        for action in actions {
            if action.category() == *category {
                text.push_str(&entry_line(*action, &tokens(*action)));
            }
        }
        text.push_str("    }\n");
    }
    text.push_str("}\n");
    text
}

const CATEGORIES: [Category; 3] = [Category::Movement, Category::Rotation, Category::Resize];

fn complete_text() -> String {
    config_text(&CATEGORIES, &Action::ordered(), &tokens_of)
}

fn assert_reflects_tokens(table: &KeyboardShortcuts) {
    for action in Action::ordered() {
        let (modifiers, keys) = expected(action);
        assert_eq!(table.combo(action).modifiers(), &modifiers, "{:?}", action);
        assert_eq!(table.combo(action).keys(), &keys, "{:?}", action);
    }
}

#[test]
fn a_complete_document_loads_with_every_combo_as_configured() {
    let table = KeyboardShortcuts::new(&complete_text()).unwrap();
    assert_reflects_tokens(&table);
}

#[test]
fn the_fields_of_the_table_are_the_combos_of_the_actions() {
    let table = KeyboardShortcuts::new(&complete_text()).unwrap();
    let Movement { up, down, left, right, forward, backward } = &table.movement;
    assert_eq!(up.keys(), &vec![key(VirtualKeyCode::Up)]);
    assert_eq!(down.keys(), &vec![key(VirtualKeyCode::Down)]);
    assert_eq!(left.keys(), &vec![key(VirtualKeyCode::Left)]);
    assert_eq!(right.keys(), &vec![key(VirtualKeyCode::Right)]);
    assert_eq!(forward.keys(), &vec![key(VirtualKeyCode::W)]);
    assert_eq!(backward.keys(), &vec![key(VirtualKeyCode::S)]);
    let Rotation { up, down, left, right, clockwise, counter_clockwise } = &table.rotation;
    assert_eq!(up.modifiers(), &vec![Modifier::Alt]);
    assert_eq!(down.keys(), &vec![key(VirtualKeyCode::Down)]);
    assert_eq!(left.keys(), &vec![key(VirtualKeyCode::Left)]);
    assert_eq!(right.keys(), &vec![key(VirtualKeyCode::Right)]);
    assert_eq!(clockwise.keys(), &vec![key(VirtualKeyCode::E)]);
    assert_eq!(counter_clockwise.keys(), &vec![key(VirtualKeyCode::Q)]);
    let Resize { up, down, left, right } = &table.resize;
    assert_eq!(up.modifiers(), &vec![Modifier::Mod]);
    assert_eq!(down.keys(), &vec![key(VirtualKeyCode::Down)]);
    assert_eq!(left.keys(), &vec![key(VirtualKeyCode::Left), key(VirtualKeyCode::LShift)]);
    assert!(right.keys().is_empty());
}

#[test]
fn a_document_built_by_hand_loads_like_its_text() {
    let section = |category: Category| ConfigNode {
        name: category.name().to_string(),
        values: Vec::new(),
        children: Some(
            Action::ordered()
                .into_iter()
                .filter(|a| a.category() == category)
                .map(|a| ConfigNode {
                    name: a.name().to_string(),
                    values: tokens_of(a).into_iter().map(|t| Some(t.to_string())).collect(),
                    children: None,
                })
                .collect(),
        ),
    };
    let nodes = vec![ConfigNode {
        name: "KeyboardShortcuts".to_string(),
        values: Vec::new(),
        children: Some(CATEGORIES.iter().map(|c| section(*c)).collect()),
    }];
    assert_eq!(parse_document(&complete_text()), Some(nodes.iter().map(copy_of).collect()));
    let table = KeyboardShortcuts::from_nodes(&nodes).unwrap();
    assert_reflects_tokens(&table);
}

fn copy_of(node: &ConfigNode) -> ConfigNode {
    ConfigNode {
        name: node.name.clone(),
        values: node.values.clone(),
        children: node.children.as_ref().map(|c| c.iter().map(copy_of).collect()),
    }
}

#[test]
fn the_order_of_categories_and_entries_does_not_matter() {
    let mut actions = Action::ordered();
    actions.reverse();
    let text =
        config_text(&[Category::Resize, Category::Movement, Category::Rotation], &actions, &tokens_of);
    let table = KeyboardShortcuts::new(&text).unwrap();
    assert_reflects_tokens(&table);
}

#[test]
fn nodes_that_the_table_does_not_need_are_passed_over() {
    let text = format!(
        "Other {{\n    Movement {{\n    }}\n}}\n{}Theme \"dark\"\n",
        complete_text().replace("    Rotation {\n", "    Extra \"x\"\n    Rotation {\n        Sideways \"Ctrl\"\n")
    );
    let table = KeyboardShortcuts::new(&text).unwrap();
    assert_reflects_tokens(&table);
}

#[test]
fn the_first_of_two_entries_of_one_name_counts() {
    let text = complete_text()
        .replace("        Forward \"Ctrl\" \"\\\"W\\\"\"\n", "        Forward \"Ctrl\" \"\\\"W\\\"\"\n        Forward \"Alt\" \"\\\"X\\\"\"\n");
    assert!(text.contains("Forward \"Alt\""));
    let table = KeyboardShortcuts::new(&text).unwrap();
    assert_reflects_tokens(&table);
}

#[test]
fn removing_any_one_action_fails_the_load() {
    for removed in Action::ordered() {
        let kept: Vec<Action> =
            Action::ordered().into_iter().filter(|a| *a != removed).collect();
        assert_eq!(kept.len(), 15);
        let text = config_text(&CATEGORIES, &kept, &tokens_of);
        assert!(KeyboardShortcuts::new(&text).is_none(), "{:?}", removed);
    }
}

#[test]
fn removing_any_one_category_fails_the_load() {
    for removed in CATEGORIES {
        let kept: Vec<Category> = CATEGORIES.into_iter().filter(|c| *c != removed).collect();
        let text = config_text(&kept, &Action::ordered(), &tokens_of);
        assert!(KeyboardShortcuts::new(&text).is_none(), "{:?}", removed);
    }
}

#[test]
fn removing_the_top_level_section_fails_the_load() {
    let text = complete_text().replace("KeyboardShortcuts {", "Shortcuts {");
    assert!(parse_document(&text).is_some());
    assert!(KeyboardShortcuts::new(&text).is_none());
}

#[test]
fn an_empty_document_fails_the_load() {
    assert!(KeyboardShortcuts::new("").is_none());
    assert!(KeyboardShortcuts::from_nodes(&Vec::new()).is_none());
}

#[test]
fn a_section_without_a_block_fails_the_load() {
    assert!(KeyboardShortcuts::new("KeyboardShortcuts\n").is_none());
    let text = complete_text().replace("    Resize {\n", "    Resize\n    Other {\n");
    assert!(parse_document(&text).is_some());
    assert!(KeyboardShortcuts::new(&text).is_none());
}

#[test]
fn an_entry_in_the_wrong_category_does_not_count() {
    let text = complete_text()
        .replace("        Forward \"Ctrl\" \"\\\"W\\\"\"\n", "")
        .replace("    Rotation {\n", "    Rotation {\n        Forward \"Ctrl\" \"\\\"W\\\"\"\n");
    assert!(text.contains("Forward"));
    assert!(KeyboardShortcuts::new(&text).is_none());
}

#[test]
fn an_unrecognised_token_in_any_one_action_fails_the_load() {
    for spoiled in Action::ordered() {
        let tokens = move |action: Action| {
            let mut tokens = tokens_of(action);
            if action == spoiled {
                tokens.push("\"Wx\"");
            }
            tokens
        };
        let text = config_text(&CATEGORIES, &Action::ordered(), &tokens);
        assert!(parse_document(&text).is_some());
        assert!(KeyboardShortcuts::new(&text).is_none(), "{:?}", spoiled);
    }
}

#[test]
fn a_key_without_its_quotes_is_an_unrecognised_token() {
    let tokens = |action: Action| match action {
        Action::MovementForward => vec!["Ctrl", "W"],
        other => tokens_of(other),
    };
    let text = config_text(&CATEGORIES, &Action::ordered(), &tokens);
    assert!(KeyboardShortcuts::new(&text).is_none());
}

#[test]
fn a_value_that_is_no_string_fails_the_load() {
    let text = complete_text().replace("        Right \"Mod\"\n", "        Right \"Mod\" 3\n");
    assert!(text.contains("\"Mod\" 3"));
    assert!(KeyboardShortcuts::new(&text).is_none());
}

#[test]
fn text_that_is_not_kdl_fails_the_load() {
    let mut text = complete_text();
    text.pop();
    text.pop();
    assert!(parse_document(&text).is_none());
    assert!(KeyboardShortcuts::new(&text).is_none());
}

#[test]
fn text_that_the_parser_cannot_take_fails_the_load() {
    assert!(KeyboardShortcuts::new("(true)").is_none());
    assert!(KeyboardShortcuts::new("(null)").is_none());
    assert!(KeyboardShortcuts::new("a (false)x").is_none());
    let text = complete_text().replace("        Right \"Mod\"\n", "        (null)Right \"Mod\"\n");
    assert!(text.contains("(null)Right"));
    assert!(KeyboardShortcuts::new(&text).is_none());
    let mut deep = String::new();
    for _ in 0..10000 {
        deep.push_str("a {\n");
    }
    assert!(KeyboardShortcuts::new(&deep).is_none());
}

#[test]
fn remarks_in_the_text_do_not_matter() {
    let mut remarks = String::from("// shortcuts\n/* set up\n * by hand */\n");
    for _ in 0..50 {
        remarks.push_str("//- (null) { see /* https://example.org/keys */\n");
    }
    let text = format!(
        "{remarks}{}// the end\n",
        complete_text().replace(
            "    Rotation {\n",
            "    /-Unused \"Ctrl\"\n    /-Old \"(true)\"\n    Note \"{ (null) /- \"\n    Rotation { // turning\n"
        )
    );
    let table = KeyboardShortcuts::new(&text).unwrap();
    assert_reflects_tokens(&table);
}

#[test]
fn many_blocks_beside_the_table_do_not_matter() {
    let mut text = complete_text();
    for _ in 0..100 {
        text.push_str("Other {\n    /-Gone\n    Kept {\n    }\n}\n");
    }
    let table = KeyboardShortcuts::new(&text).unwrap();
    assert_reflects_tokens(&table);
}

#[test]
fn the_actions_in_their_order() {
    let actions = Action::ordered();
    assert_eq!(actions.len(), 16);
    assert_eq!(actions[0], Action::MovementUp);
    assert_eq!(actions[5], Action::MovementBackward);
    assert_eq!(actions[6], Action::RotationUp);
    assert_eq!(actions[11], Action::RotationCounterClockwise);
    assert_eq!(actions[12], Action::ResizeUp);
    assert_eq!(actions[15], Action::ResizeRight);
    for (i, a) in actions.iter().enumerate() {
        for b in &actions[i + 1..] {
            assert_ne!(a, b);
        }
    }
}

#[test]
fn the_categories_hold_six_six_and_four_actions() {
    let count = |c: Category| Action::ordered().into_iter().filter(|a| a.category() == c).count();
    assert_eq!(count(Category::Movement), 6);
    assert_eq!(count(Category::Rotation), 6);
    assert_eq!(count(Category::Resize), 4);
}

#[test]
fn the_names_of_categories_and_actions() {
    assert_eq!(Category::Movement.name(), "Movement");
    assert_eq!(Category::Rotation.name(), "Rotation");
    assert_eq!(Category::Resize.name(), "Resize");
    assert_eq!(Action::MovementForward.name(), "Forward");
    assert_eq!(Action::MovementBackward.name(), "Backward");
    assert_eq!(Action::RotationClockwise.name(), "Clockwise");
    assert_eq!(Action::RotationCounterClockwise.name(), "CounterClockwise");
    assert_eq!(Action::ResizeUp.name(), "Up");
    assert_eq!(Action::RotationDown.name(), "Down");
    assert_eq!(Action::MovementLeft.name(), "Left");
    assert_eq!(Action::ResizeRight.name(), "Right");
}

#[test]
fn the_identifier_is_category_dot_action() {
    assert_eq!(Action::MovementForward.identifier(), "Movement.Forward");
    assert_eq!(Action::RotationCounterClockwise.identifier(), "Rotation.CounterClockwise");
    assert_eq!(Action::ResizeUp.identifier(), "Resize.Up");
    for action in Action::ordered() {
        assert_eq!(
            action.identifier(),
            format!("{}.{}", action.category().name(), action.name())
        );
    }
}
