//! Node kinds and the plain data types of the other crates.

use std::sync::Arc;

use media::engine::RgbaFrame;
use media::launcher::{elapsed_of_reading, elapsed_time, ProjectKnownState, StopWorkReason};
use media::noise::streams::NoiseStreamError;
use media::ui::node::{connect, disconnect_input, Connection, NodeCategory, NodeItemId, NodeType, PortType, StockNodeId};

#[test]
fn node_type_names() {
    let names: Vec<&str> = NodeType::all().iter().map(|t| t.name()).collect();
    assert_eq!(
        names,
        vec!["Blur", "Color Correction", "Edge Detection", "Color Grading", "Data Input"]
    );
}

#[test]
fn node_items() {
    let blur = NodeItemId::Stock(StockNodeId::Blur);
    assert_eq!(blur.clone(), NodeItemId::Stock(StockNodeId::Blur));
    assert_ne!(blur, NodeItemId::UserMade("Blur".to_string()));
    assert_ne!(NodeCategory::Effect, NodeCategory::IO);
    let c = Connection { from_node_idx: 0, to_node_idx: 2 };
    assert_eq!((c.from_node_idx, c.to_node_idx), (0, 2));
    assert!(matches!(PortType::Output, PortType::Output));
}

#[test]
fn plain_data_types() {
    assert!(ProjectKnownState::NotNew < ProjectKnownState::New);
    assert!(ProjectKnownState::New < ProjectKnownState::Missing);
    assert_ne!(StopWorkReason::FatalError("x".to_string()), StopWorkReason::ConnectionDropped);
    assert_eq!(
        NoiseStreamError::Generator("failed".to_string()),
        NoiseStreamError::Generator("failed".to_string())
    );
    let frame = RgbaFrame {
        width: 2,
        height: 1,
        bpr: 256,
        data: Arc::from(vec![0u8; 256]),
        pts_ns: Some(5),
    };
    assert_eq!(frame.data.len(), (frame.bpr * frame.height) as usize);
}

#[test]
fn elapsed_time_since_start() {
    let start = std::time::SystemTime::now();
    assert!(elapsed_time(start) < std::time::Duration::from_secs(60));
    let future = start + std::time::Duration::from_secs(3600);
    assert_eq!(elapsed_time(future), std::time::Duration::ZERO);
}

#[test]
fn node_connections_follow_the_rules() {
    let mut conns: Vec<Connection> = Vec::new();
    assert!(connect(&mut conns, 0, 1));
    assert!(!connect(&mut conns, 0, 1));
    assert!(!connect(&mut conns, 2, 2));
    assert!(connect(&mut conns, 2, 1));
    assert_eq!(conns.len(), 2);
    assert_eq!(disconnect_input(&mut conns, 1), Some(0));
    assert_eq!(conns.len(), 1);
    assert_eq!((conns[0].from_node_idx, conns[0].to_node_idx), (2, 1));
    assert_eq!(disconnect_input(&mut conns, 0), None);
    assert_eq!(conns.len(), 1);
}

#[test]
fn elapsed_time_of_a_reading() {
    let d = std::time::Duration::new(3, 25);
    assert_eq!(elapsed_of_reading(Some(d)), d);
    assert_eq!(elapsed_of_reading(None), std::time::Duration::ZERO);
}
