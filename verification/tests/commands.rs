use pumpkin_wasm_host::commands::{
    DetachedNode, WasmCommand, WasmCommandExecutor, WasmCommandNode,
    WasmCommandSuggestionProvider, argument, literal, suggestion_request,
};

#[test]
fn command_root_takes_the_first_name() {
    let cmd = WasmCommand::new(vec!["warp".to_string(), "w".to_string()], "Warps".to_string());
    assert_eq!(cmd.names, vec!["warp".to_string(), "w".to_string()]);
    assert_eq!(cmd.builder.name, "warp");
    assert_eq!(cmd.builder.description, "Warps");
    assert!(cmd.builder.children.is_empty());
    assert_eq!(cmd.builder.executor, None);

    let unnamed = WasmCommand::new(Vec::new(), String::new());
    assert_eq!(unnamed.builder.name, "");
}

#[test]
fn command_tree_collects_children_and_handlers() {
    let target = WasmCommandNode::Argument(argument("target".to_string()))
        .suggests(WasmCommandSuggestionProvider { handler_id: 4 })
        .executes(WasmCommandExecutor { handler_id: 5 });
    let set = WasmCommandNode::Literal(literal("set".to_string())).then(target);
    let cmd = WasmCommand::new(vec!["warp".to_string()], String::new())
        .then(set)
        .executes(WasmCommandExecutor { handler_id: 1 });
    assert_eq!(cmd.builder.executor, Some(WasmCommandExecutor { handler_id: 1 }));
    assert_eq!(cmd.builder.children.len(), 1);
    match &cmd.builder.children[0] {
        DetachedNode::Literal { literal, children, executor } => {
            assert_eq!(literal, "set");
            assert_eq!(*executor, None);
            assert_eq!(children.len(), 1);
            match &children[0] {
                DetachedNode::Argument { name, children, executor, suggestions } => {
                    assert_eq!(name, "target");
                    assert!(children.is_empty());
                    assert_eq!(*executor, Some(WasmCommandExecutor { handler_id: 5 }));
                    assert_eq!(*suggestions, Some(WasmCommandSuggestionProvider { handler_id: 4 }));
                }
                DetachedNode::Literal { .. } => panic!("expected an argument node"),
            }
        }
        DetachedNode::Argument { .. } => panic!("expected a literal node"),
    }
}

#[test]
fn literal_nodes_take_no_suggestions() {
    let node = WasmCommandNode::Literal(literal("home".to_string()))
        .suggests(WasmCommandSuggestionProvider { handler_id: 9 });
    match node.into_detached_node() {
        DetachedNode::Literal { literal, children, executor } => {
            assert_eq!(literal, "home");
            assert!(children.is_empty());
            assert_eq!(executor, None);
        }
        DetachedNode::Argument { .. } => panic!("expected a literal node"),
    }
}

#[test]
fn suggestion_request_counts_bytes_and_saturates() {
    let req = suggestion_request("warp \u{e9}".to_string(), 5, "\u{e9}".to_string());
    assert_eq!(req.input, "warp \u{e9}");
    assert_eq!(req.cursor, 7);
    assert_eq!(req.start, 5);
    assert_eq!(req.remaining, "\u{e9}");

    let far = suggestion_request(String::new(), usize::MAX, String::new());
    assert_eq!(far.cursor, 0);
    assert_eq!(far.start, u32::MAX);
}
