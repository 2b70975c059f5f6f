use wasm_server::bind_address;
use wasm_server::graph::graph_body;
use wasm_server::graph::graph_nodes;
use wasm_server::graph::render_graph_document;
use wasm_server::graph::GraphNode;
use wasm_server::hello::hello_body;
use wasm_server::hello::hello_content_type;
use wasm_server::modules::get_color;
use wasm_server::modules::get_text;
use wasm_server::routes::match_route;
use wasm_server::routes::Route;
use wasm_server::static_files::candidate_path;
use wasm_server::static_files::plan_wasm_reply;
use wasm_server::text::str_eq;

#[test]
fn hello_body_is_fixed_json() {
    assert_eq!(hello_body(), "{\"message\":\"Hello from wasm server\"}");
    assert_eq!(hello_content_type(), "application/json");
}

#[test]
fn hello_body_is_valid_json_with_message() {
    let v: serde_json::Value = serde_json::from_str(&hello_body()).unwrap();
    assert_eq!(v["message"], serde_json::Value::String("Hello from wasm server".to_string()));
}

#[test]
fn hello_body_is_stable_across_calls() {
    let first = hello_body();
    let second = hello_body();
    assert_eq!(first, second);
}

#[test]
fn graph_body_is_the_literal_document() {
    assert_eq!(
        graph_body(),
        "{\"start\":\"node!\",\"nodes\":{\"node1\":{\"wasm\":\"/wasm/module1.wasm\",\"next\":\"node2\"},\"node2\":{\"wasm\":\"/wasm/module2.wasm\",\"next\":\"node3\"},\"node3\":{\"wasm\":\"/wasm/module3.wasm\",\"next\":null}}}"
    );
}

#[test]
fn graph_body_is_byte_stable_across_calls() {
    let first = graph_body();
    let second = graph_body();
    assert_eq!(first.as_bytes(), second.as_bytes());
}

#[test]
fn graph_body_parses_with_preserved_start_value() {
    let v: serde_json::Value = serde_json::from_str(&graph_body()).unwrap();
    assert_eq!(v["start"], serde_json::Value::String("node!".to_string()));
    assert_eq!(
        v["nodes"]["node1"]["wasm"],
        serde_json::Value::String("/wasm/module1.wasm".to_string())
    );
    assert_eq!(v["nodes"]["node1"]["next"], serde_json::Value::String("node2".to_string()));
    assert_eq!(v["nodes"]["node2"]["next"], serde_json::Value::String("node3".to_string()));
    assert_eq!(v["nodes"]["node3"]["next"], serde_json::Value::Null);
    assert!(v["nodes"].get("node!").is_none());
}

#[test]
fn graph_nodes_table_is_fixed() {
    let nodes = graph_nodes();
    assert_eq!(nodes.len(), 3);
    assert_eq!(nodes[0].name, "node1");
    assert_eq!(nodes[0].wasm, "/wasm/module1.wasm");
    assert_eq!(nodes[0].next.as_deref(), Some("node2"));
    assert_eq!(nodes[2].name, "node3");
    assert_eq!(nodes[2].next, None);
}

#[test]
fn render_empty_table() {
    let nodes: Vec<GraphNode> = Vec::new();
    assert_eq!(render_graph_document("s", &nodes), "{\"start\":\"s\",\"nodes\":{}}");
}

#[test]
fn render_single_node_without_successor() {
    let nodes = vec![GraphNode {
        name: "a".to_string(),
        wasm: "/wasm/a.wasm".to_string(),
        next: None,
    }];
    assert_eq!(
        render_graph_document("a", &nodes),
        "{\"start\":\"a\",\"nodes\":{\"a\":{\"wasm\":\"/wasm/a.wasm\",\"next\":null}}}"
    );
}

#[test]
fn routes_dispatch_each_path() {
    assert!(matches!(match_route("GET", "/hello"), Route::Hello));
    assert!(matches!(match_route("GET", "/graph.json"), Route::Graph));
    match match_route("GET", "/wasm/module1.wasm") {
        Route::Wasm(f) => assert_eq!(f, "module1.wasm"),
        _ => panic!("expected the file route"),
    }
}

#[test]
fn routes_reject_other_requests() {
    assert!(matches!(match_route("POST", "/hello"), Route::NotFound));
    assert!(matches!(match_route("GET", "/"), Route::NotFound));
    assert!(matches!(match_route("GET", "/unknown"), Route::NotFound));
    assert!(matches!(match_route("GET", "/wasm/"), Route::NotFound));
    assert!(matches!(match_route("GET", "/wasm/a/b"), Route::NotFound));
    assert!(matches!(match_route("GET", "/wasm"), Route::NotFound));
}

#[test]
fn candidate_path_joins_under_static_root() {
    assert_eq!(candidate_path("module1.wasm"), "./static/module1.wasm");
    assert_eq!(candidate_path("module2.wasm"), "./static/module2.wasm");
}

#[test]
fn candidate_path_passes_traversal_names_through() {
    assert_eq!(candidate_path("../../secret.txt"), "./static/../../secret.txt");
}

#[test]
fn candidate_path_lets_an_absolute_name_replace_the_root() {
    assert_eq!(candidate_path("/etc/hosts"), "/etc/hosts");
}

#[test]
fn concurrent_file_requests_use_their_own_paths() {
    let a = candidate_path("a.wasm");
    let b = candidate_path("b.wasm");
    assert_eq!(a, "./static/a.wasm");
    assert_eq!(b, "./static/b.wasm");
    assert_ne!(a, b);
}

#[test]
fn opened_file_is_streamed_with_wasm_headers() {
    let plan = plan_wasm_reply(true);
    assert_eq!(plan.status, 200);
    assert_eq!(plan.content_type, "application/wasm");
    assert_eq!(plan.cache_control.as_deref(), Some("no_cache"));
    assert!(plan.body.is_none());
}

#[test]
fn failed_open_is_a_uniform_plain_not_found() {
    let plan = plan_wasm_reply(false);
    assert_eq!(plan.status, 404);
    assert_eq!(plan.content_type, "text/plain");
    assert_eq!(plan.cache_control, None);
    assert_eq!(plan.body.as_deref(), Some("Not Found"));
}

#[test]
fn str_eq_compares_by_characters() {
    assert!(str_eq("abc", "abc"));
    assert!(!str_eq("abc", "abd"));
    assert!(!str_eq("abc", "ab"));
    assert!(str_eq("", ""));
}

#[test]
fn bind_address_is_fixed() {
    assert_eq!(bind_address(), "0.0.0.0:3002");
}

#[test]
fn module_values_are_fixed() {
    assert_eq!(get_color(), 0xC0C0C0FF);
    assert_eq!(get_text(), b"Hello from module 4\0");
}
