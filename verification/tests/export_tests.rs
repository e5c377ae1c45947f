use rbxsync::export::{export_snapshot, ExportItem};

fn item(name: &str, id: u64, price: Option<u64>) -> ExportItem {
    ExportItem { name: name.to_string(), id, price }
}

#[test]
fn snapshot_of_empty_universe() {
    let text = export_snapshot(&vec![], &vec![], &vec![]);
    assert_eq!(
        text,
        "return {\n  game_passes = {\n  },\n  developer_products = {\n  },\n  badges = {\n  },\n}\n"
    );
}

#[test]
fn names_are_escaped_in_lua_strings() {
    let badges = vec![item("say \"hi\" \\ twice\nplease", 9, None)];
    let text = export_snapshot(&vec![], &vec![], &badges);
    assert!(text.contains("name = \"say \\\"hi\\\" \\\\ twice\\nplease\""));
}

#[test]
fn snapshot_renders_each_block() {
    let passes = vec![item("Sword", 1, Some(25))];
    let products = vec![item("Gems", 2, Some(100)), item("Coins", 3, None)];
    let badges = vec![item("Explorer", 4, None)];
    let text = export_snapshot(&passes, &products, &badges);
    let mut expected = String::new();
    expected.push_str("return {\n");
    expected.push_str("  game_passes = {\n");
    expected.push_str("    {\n      name = \"Sword\",\n      id = 1,\n      price = 25,\n    },\n");
    expected.push_str("  },\n");
    expected.push_str("  developer_products = {\n");
    expected.push_str("    {\n      name = \"Gems\",\n      id = 2,\n      price = 100,\n    },\n");
    expected.push_str("    {\n      name = \"Coins\",\n      id = 3,\n    },\n");
    expected.push_str("  },\n");
    expected.push_str("  badges = {\n");
    expected.push_str("    {\n      name = \"Explorer\",\n      id = 4,\n    },\n");
    expected.push_str("  },\n");
    expected.push_str("}\n");
    assert_eq!(text, expected);
}
