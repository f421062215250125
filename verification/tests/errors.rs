use abstract_server::errors::{decode_json, ErrorLayer, ServerError};

fn sticky_layer(e: &ServerError) -> Option<&ErrorLayer> {
    match e {
        ServerError::StickyProblem(d) => Some(&d.layer),
        _ => None,
    }
}

#[test]
fn json_fault_is_sticky_data_layer() {
    let err = serde_json::from_str::<serde_json::Value>("{malformed").unwrap_err();
    let rendered = err.to_string();
    let e = ServerError::from_json_error(err);
    match &e {
        ServerError::StickyProblem(d) => {
            assert!(matches!(d.layer, ErrorLayer::DataLayer));
            assert_eq!(d.message, rendered);
        }
        _ => panic!("expected a sticky problem"),
    }
}

#[test]
fn decode_json_malformed_is_sticky_data_layer() {
    let e = decode_json("[1, 2,").unwrap_err();
    assert!(matches!(sticky_layer(&e), Some(ErrorLayer::DataLayer)));
}

#[test]
fn regex_fault_is_sticky_bad_input() {
    let err = regex::Regex::new("[unclosed").unwrap_err();
    let e = ServerError::from_regex_error(err);
    match &e {
        ServerError::StickyProblem(d) => {
            assert!(matches!(d.layer, ErrorLayer::BadInput));
            assert!(d.message.starts_with("bad regexp: "));
        }
        _ => panic!("expected a sticky problem"),
    }
}

#[test]
fn join_fault_is_sticky_runtime_invariant_violation() {
    let rt = tokio::runtime::Builder::new_current_thread().build().unwrap();
    let err = rt.block_on(async {
        let handle = tokio::task::spawn(async { 1u32 });
        handle.abort();
        handle.await.unwrap_err()
    });
    let e = ServerError::from_join_error(err);
    match &e {
        ServerError::StickyProblem(d) => {
            assert!(matches!(d.layer, ErrorLayer::RuntimeInvariantViolation));
            assert!(d.message.starts_with("task panicked?: "));
        }
        _ => panic!("expected a sticky problem"),
    }
}

#[test]
fn template_fault_is_sticky_config_layer() {
    let err = match liquid::ParserBuilder::with_stdlib()
        .build()
        .unwrap()
        .parse("{% unknown_tag %}")
    {
        Ok(_) => panic!("template with an unknown tag should not parse"),
        Err(e) => e,
    };
    let e = ServerError::from_template_error(err);
    match &e {
        ServerError::StickyProblem(d) => {
            assert!(matches!(d.layer, ErrorLayer::ConfigLayer));
            assert!(d.message.starts_with("Liquid error: "));
        }
        _ => panic!("expected a sticky problem"),
    }
}
