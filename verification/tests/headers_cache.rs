use phala_registry::headers_cache::{Action, Args, Grab, Import, Step};

fn steps(action: Action) -> Vec<String> {
    Args { action }.plan().iter().map(|step: &Step| format!("{:?}", step)).collect()
}

#[test]
fn headers_are_grabbed_into_a_file() {
    assert_eq!(
        steps(Action::Grab {
            node_uri: "ws://localhost:9945".to_string(),
            what: Grab::Headers {
                from_block: 1,
                count: u32::MAX,
                justification_interval: 1000,
                output: "headers.bin".to_string(),
            },
        }),
        vec![
            "Connect { node_uri: \"ws://localhost:9945\" }".to_string(),
            "CreateOutput { path: \"headers.bin\" }".to_string(),
            "GrabHeaders { from_block: 1, count: 4294967295, justification_interval: 1000 }"
                .to_string(),
        ]
    );
}

#[test]
fn the_genesis_is_grabbed_into_a_file() {
    assert_eq!(
        steps(Action::Grab {
            node_uri: "ws://node".to_string(),
            what: Grab::Genesis { block: 3, output: "genesis.bin".to_string() },
        }),
        vec![
            "Connect { node_uri: \"ws://node\" }".to_string(),
            "CreateOutput { path: \"genesis.bin\" }".to_string(),
            "GrabGenesis { block: 3 }".to_string(),
        ]
    );
}

#[test]
fn imports_open_the_database_first() {
    assert_eq!(
        steps(Action::Import {
            db: "cache.db".to_string(),
            what: Import::Headers { input: "headers.bin".to_string() },
        }),
        vec![
            "OpenDb { path: \"cache.db\" }".to_string(),
            "ImportHeaders { path: \"headers.bin\" }".to_string(),
        ]
    );
    assert_eq!(
        steps(Action::Import {
            db: "cache.db".to_string(),
            what: Import::Genesis { input: "genesis.bin".to_string() },
        }),
        vec![
            "OpenDb { path: \"cache.db\" }".to_string(),
            "ImportGenesis { path: \"genesis.bin\" }".to_string(),
        ]
    );
}

#[test]
fn the_server_serves_the_database() {
    assert_eq!(
        steps(Action::Serve { db: "cache.db".to_string() }),
        vec!["Serve { db: \"cache.db\" }".to_string()]
    );
}
