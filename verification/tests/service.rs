use colsink::accumulator::Rows;
use colsink::engine::json::{JsonNum, JsonValue};
use colsink::engine::schema::{ColumnType, Field, ScalarType, Schema};
use colsink::engine::Engine;
use colsink::picodata::rpc::Path;
use colsink::picodata::service::ServiceWarnings;
use colsink::service::SharedServiceErrors;
use colsink::state::SharedState;

#[test]
fn insert_path_string() {
    assert_eq!(Path::Insert.as_str(), "/insert");
}

#[test]
fn shared_errors_start_empty_and_report_in_order() {
    let mut se = SharedServiceErrors::default();
    assert!(se.check().is_ok());
    se.set_private_api_error(Some("boom".to_string()));
    let msgs = se.check().unwrap_err();
    assert_eq!(msgs, vec!["private api server: boom".to_string()]);
    se.set_public_api_error(Some("down".to_string()));
    let msgs = se.check().unwrap_err();
    assert_eq!(
        msgs,
        vec![
            "private api server: boom".to_string(),
            "public api server: down".to_string(),
        ]
    );
    se.set_private_api_error(None);
    let msgs = se.check().unwrap_err();
    assert_eq!(msgs, vec!["public api server: down".to_string()]);
    se.set_public_api_error(None);
    assert!(se.check().is_ok());
}

#[test]
fn service_warnings_report_like_shared_errors() {
    let mut sw = ServiceWarnings::default();
    assert!(sw.check().is_ok());
    sw.set_public_api_error(Some("tls".to_string()));
    let msgs = sw.check().unwrap_err();
    assert_eq!(msgs, vec!["public api server: tls".to_string()]);
}

#[test]
fn shared_state_carries_engine() {
    let schema = Schema {
        fields: vec![Field {
            name: "id".to_string(),
            ty: ColumnType::Scalar(ScalarType::Int64),
            nullable: false,
        }],
    };
    let engine = Engine::new(schema);
    let state = SharedState::new(engine, SharedServiceErrors::default());
    assert_eq!(state.engine().accumulator.rows_count, 0);
    let mut state = state;
    let rejected = state.engine.accumulator.add_rows(Rows::Json(vec![JsonValue::Obj(vec![(
        "id".to_string(),
        JsonValue::Num(JsonNum::PosInt(9)),
    )])]));
    assert!(rejected.is_empty());
    assert_eq!(state.engine().accumulator.rows_count, 1);
}
