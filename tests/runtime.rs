use prisma_client_rust_sdk::casing::to_snake_case;
use prisma_client_rust_sdk::config::{check_layout, check_output_path, ClientFormat, LayoutError};
use prisma_client_rust_sdk::module::{join, Module};
use prisma_client_rust_sdk::protocol::{str_equal, ResponseData, Session, SessionState, Step};
use prisma_client_rust_sdk::runtime::{
    GenerateArgs, GenerateError, GenerationPlan, GeneratorError, GeneratorMetadata,
};

const HEADER: &str = "// File generated by Test Generator. DO NOT EDIT\n\n";

fn leaf(name: &str, contents: &str) -> Module {
    Module::new(name.to_string(), contents.to_string(), vec![])
}

fn client_tree() -> Module {
    Module::new("Client".to_string(), "A".to_string(), vec![leaf("Model", "B")])
}

fn tree_generator(_args: GenerateArgs) -> Result<Module, GeneratorError> {
    Ok(client_tree())
}

fn failing_generator(_args: GenerateArgs) -> Result<Module, GeneratorError> {
    Err(GeneratorError::new("schema has no models".to_string()))
}

fn never_called(_args: GenerateArgs) -> Result<Module, GeneratorError> {
    panic!("the generation function must not be called")
}

fn args(output: &str) -> GenerateArgs {
    GenerateArgs {
        datamodel: "model User { id Int @id }".to_string(),
        output: output.to_string(),
        config: serde_json::Value::Null,
    }
}

fn writes_of(plan: &GenerationPlan) -> Vec<(String, String)> {
    plan.writes.iter().map(|w| (w.path.clone(), w.contents.clone())).collect()
}

#[test]
fn snake_case_of_names() {
    assert_eq!(to_snake_case("Client"), "client");
    assert_eq!(to_snake_case("UserPost"), "user_post");
    assert_eq!(to_snake_case("model2Name"), "model2_name");
    assert_eq!(to_snake_case("already_snake"), "already_snake");
    assert_eq!(to_snake_case("HTTP"), "http");
    assert_eq!(to_snake_case(""), "");
}

#[test]
fn join_adds_separator() {
    assert_eq!(join("./generated", "model"), "./generated/model");
}

#[test]
fn header_names_generator() {
    let meta = GeneratorMetadata::new(tree_generator, "Test Generator", "./prisma.rs");
    assert_eq!(meta.header(), HEADER);
}

#[test]
fn flatten_children_before_own_text() {
    assert_eq!(client_tree().flatten(), "BA");
    let deep = Module::new(
        "Root".to_string(),
        "R".to_string(),
        vec![
            Module::new("Inner".to_string(), "I".to_string(), vec![leaf("X", "x"), leaf("Y", "y")]),
            leaf("Z", "z"),
        ],
    );
    assert_eq!(deep.flatten(), "xyIzR");
}

#[test]
fn flatten_twice_gives_same_text() {
    let tree = client_tree();
    let first = tree.flatten();
    let second = tree.flatten();
    assert_eq!(first, second);
}

#[test]
fn aggregator_declares_each_child() {
    let tree = Module::new(
        "Client".to_string(),
        "A".to_string(),
        vec![leaf("Model", "B"), leaf("UserPost", "C")],
    );
    assert_eq!(tree.aggregator_contents(), "pub mod model;\npub mod user_post;\nA");
}

#[test]
fn paths_one_per_leaf_and_aggregator() {
    let tree = Module::new(
        "Root".to_string(),
        "R".to_string(),
        vec![
            Module::new("Inner".to_string(), "I".to_string(), vec![leaf("X", "x"), leaf("Y", "y")]),
            leaf("Z", "z"),
        ],
    );
    let paths = tree.get_all_paths("out");
    assert_eq!(
        paths,
        vec!["out/inner/x.rs", "out/inner/y.rs", "out/inner/mod.rs", "out/z.rs", "out/mod.rs"]
    );
    let written: Vec<String> = tree.materialize("out", "").iter().map(|w| w.path.clone()).collect();
    assert_eq!(written, paths);
}

#[test]
fn leaf_root_is_single_file() {
    let tree = leaf("Only", "o");
    assert_eq!(tree.get_all_paths("./generated"), vec!["./generated.rs"]);
    let writes = tree.materialize("./generated", "H");
    assert_eq!(writes.len(), 1);
    assert_eq!(writes[0].contents, "Ho");
}

#[test]
fn layout_checks() {
    assert!(matches!(check_layout(ClientFormat::Folder, true), Err(LayoutError::FolderNeedsDirectory)));
    assert!(check_layout(ClientFormat::Folder, false).is_ok());
    assert!(check_layout(ClientFormat::File, true).is_ok());
    assert!(matches!(check_layout(ClientFormat::File, false), Err(LayoutError::FileNeedsFile)));
}

#[test]
fn output_path_extension_is_read() {
    assert!(check_output_path(ClientFormat::Folder, "./generated").is_ok());
    assert!(check_output_path(ClientFormat::File, "./generated.rs").is_ok());
    assert!(check_output_path(ClientFormat::Folder, "./generated.rs").is_err());
    assert!(check_output_path(ClientFormat::File, "./generated").is_err());
    assert!(check_output_path(ClientFormat::Folder, "./out.d/generated").is_ok());
}

#[test]
fn layout_error_messages() {
    assert_eq!(
        LayoutError::FolderNeedsDirectory.message(),
        "The output path must be a directory when using the folder format."
    );
    assert_eq!(
        LayoutError::FileNeedsFile.message(),
        "The output path must be a file when using the file format."
    );
}

#[test]
fn folder_layout_end_to_end() {
    let meta = GeneratorMetadata::new(tree_generator, "Test Generator", "./prisma.rs");
    let plan = match meta.generate(args("./generated"), ClientFormat::Folder) {
        Ok(plan) => plan,
        Err(_) => panic!("generation failed"),
    };
    assert_eq!(plan.output, "./generated");
    assert_eq!(
        writes_of(&plan),
        vec![
            ("./generated/model.rs".to_string(), format!("{HEADER}B")),
            ("./generated/mod.rs".to_string(), format!("{HEADER}pub mod model;\nA")),
        ]
    );
    assert_eq!(plan.format_paths, vec!["./generated/model.rs", "./generated/mod.rs"]);
}

#[test]
fn file_layout_end_to_end() {
    let meta = GeneratorMetadata::new(tree_generator, "Test Generator", "./prisma.rs");
    let plan = match meta.generate(args("./generated.rs"), ClientFormat::File) {
        Ok(plan) => plan,
        Err(_) => panic!("generation failed"),
    };
    assert_eq!(plan.output, "./generated.rs");
    assert_eq!(
        writes_of(&plan),
        vec![("./generated.rs".to_string(), format!("{HEADER}BA"))]
    );
    assert_eq!(plan.format_paths, vec!["./generated.rs"]);
}

#[test]
fn folder_layout_with_extension_never_generates() {
    let meta = GeneratorMetadata::new(never_called, "Test Generator", "./prisma.rs");
    let r = meta.generate(args("./generated.rs"), ClientFormat::Folder);
    assert!(matches!(r, Err(GenerateError::Layout(LayoutError::FolderNeedsDirectory))));
}

#[test]
fn file_layout_without_extension_never_generates() {
    let meta = GeneratorMetadata::new(never_called, "Test Generator", "./prisma.rs");
    let r = meta.generate(args("./generated"), ClientFormat::File);
    assert!(matches!(r, Err(GenerateError::Layout(LayoutError::FileNeedsFile))));
}

#[test]
fn generator_failure_is_reported() {
    let meta = GeneratorMetadata::new(failing_generator, "Test Generator", "./prisma.rs");
    match meta.generate(args("./generated"), ClientFormat::Folder) {
        Err(GenerateError::Generator(e)) => assert_eq!(e.message, "schema has no models"),
        _ => panic!("expected the generator's error"),
    }
}

#[test]
fn manifest_answers_identity_whatever_params() {
    let meta = GeneratorMetadata::new(tree_generator, "Test Generator", "./prisma.rs");
    for params in [serde_json::Value::Null, serde_json::Value::from("anything"), serde_json::Value::from(7)] {
        let mut session = Session::new();
        match session.handle(&meta, serde_json::Value::from(1), "getManifest", params) {
            Step::Respond(resp) => {
                assert_eq!(resp.id, serde_json::Value::from(1));
                match resp.data {
                    ResponseData::Manifest { pretty_name, default_output } => {
                        assert_eq!(pretty_name, "Test Generator");
                        assert_eq!(default_output, "./prisma.rs");
                    }
                    _ => panic!("expected a manifest"),
                }
            }
            _ => panic!("expected a response"),
        }
        assert!(session.is_open());
    }
}

#[test]
fn unknown_method_is_an_error_and_session_goes_on() {
    let meta = GeneratorMetadata::new(tree_generator, "Test Generator", "./prisma.rs");
    let mut session = Session::new();
    match session.handle(&meta, serde_json::Value::from("req-7"), "shutdown", serde_json::Value::Null) {
        Step::Respond(resp) => {
            assert_eq!(resp.id, serde_json::Value::from("req-7"));
            match resp.data {
                ResponseData::Error { code, message } => {
                    assert_eq!(code, 0);
                    assert_eq!(message, "Test Generator cannot handle method shutdown");
                }
                _ => panic!("expected an error"),
            }
        }
        _ => panic!("expected a response"),
    }
    assert!(session.is_open());
    assert_eq!(session.state, SessionState::Handshaking);
}

#[test]
fn generate_ends_session() {
    let meta = GeneratorMetadata::new(tree_generator, "Test Generator", "./prisma.rs");
    let mut session = Session::new();
    let params = serde_json::Value::from("payload");
    match session.handle(&meta, serde_json::Value::from(3), "generate", params.clone()) {
        Step::Generate { id, params: p } => {
            assert_eq!(id, serde_json::Value::from(3));
            assert_eq!(p, params);
        }
        _ => panic!("expected a generation"),
    }
    assert!(!session.is_open());
    let resp = session.finish_generate(serde_json::Value::from(3), Ok(()));
    assert!(matches!(resp.data, ResponseData::Null));
    assert_eq!(session.state, SessionState::Terminated);
    assert!(!session.is_open());
}

#[test]
fn failed_generate_reports_and_ends_session() {
    let meta = GeneratorMetadata::new(tree_generator, "Test Generator", "./prisma.rs");
    let mut session = Session::new();
    let _ = session.handle(&meta, serde_json::Value::from(4), "generate", serde_json::Value::Null);
    let resp = session.finish_generate(
        serde_json::Value::from(4),
        Err(GeneratorError::new("bad schema".to_string())),
    );
    match resp.data {
        ResponseData::Error { code, message } => {
            assert_eq!(code, 0);
            assert_eq!(message, "bad schema");
        }
        _ => panic!("expected an error"),
    }
    assert!(!session.is_open());
}

#[test]
fn string_equality() {
    assert!(str_equal("generate", "generate"));
    assert!(!str_equal("generate", "generat"));
    assert!(!str_equal("getManifest", "getManifesT"));
    assert!(str_equal("", ""));
}
