//! Tests for adapter selection, the recommended minimum limits, the
//! pipeline description, and the window event dispatcher.

use mesh_frame::adapter::AdapterCaps;
use mesh_frame::adapter::MESH_SHADING;
use mesh_frame::adapter::MeshLimits;
use mesh_frame::adapter::adapter_qualifies;
use mesh_frame::adapter::limits_met;
use mesh_frame::adapter::required_limits;
use mesh_frame::adapter::select_adapter;
use mesh_frame::events::Action;
use mesh_frame::events::Event;
use mesh_frame::events::Op;
use mesh_frame::events::on_event;
use mesh_frame::pipeline::Blend;
use mesh_frame::pipeline::Face;
use mesh_frame::pipeline::FrontFace;
use mesh_frame::pipeline::Topology;
use mesh_frame::pipeline::build_pipeline;

fn capable() -> AdapterCaps {
    AdapterCaps { features: MESH_SHADING, limits: required_limits() }
}

#[test]
fn required_limits_hold_the_recommended_minimums() {
    let r = required_limits();
    assert_eq!(r.max_task_workgroup_total_count, 4194304);
    assert_eq!(r.max_task_workgroups_per_dimension, 65535);
    assert_eq!(r.max_mesh_workgroup_total_count, 1024);
    assert_eq!(r.max_mesh_workgroups_per_dimension, 1024);
    assert_eq!(r.max_task_invocations_per_workgroup, 128);
    assert_eq!(r.max_task_invocations_per_dimension, 64);
    assert_eq!(r.max_mesh_invocations_per_workgroup, 128);
    assert_eq!(r.max_mesh_invocations_per_dimension, 128);
    assert_eq!(r.max_task_payload_size, 16352);
    assert_eq!(r.max_mesh_output_vertices, 256);
    assert_eq!(r.max_mesh_output_primitives, 256);
    assert_eq!(r.max_mesh_output_layers, 8);
    assert_eq!(r.max_mesh_multiview_view_count, 0);
}

#[test]
fn limits_met_accepts_equal_and_larger() {
    let r = required_limits();
    assert!(limits_met(&r, &r));
    let larger = MeshLimits { max_mesh_output_vertices: 1024, ..r };
    assert!(limits_met(&r, &larger));
}

#[test]
fn one_short_limit_disqualifies() {
    let r = required_limits();
    let short = MeshLimits { max_task_invocations_per_workgroup: 127, ..r };
    assert!(!limits_met(&r, &short));
    assert!(!adapter_qualifies(&AdapterCaps { features: MESH_SHADING, limits: short }));
}

#[test]
fn missing_feature_disqualifies() {
    let caps = AdapterCaps { features: 0, limits: required_limits() };
    assert!(!adapter_qualifies(&caps));
    let unrelated_bits = AdapterCaps { features: 6, limits: required_limits() };
    assert!(!adapter_qualifies(&unrelated_bits));
}

#[test]
fn capable_adapter_qualifies() {
    assert!(adapter_qualifies(&capable()));
}

#[test]
fn selection_takes_the_first_qualifying_adapter() {
    let incapable = AdapterCaps { features: 0, limits: required_limits() };
    let adapters = vec![incapable, capable(), capable()];
    assert_eq!(select_adapter(&adapters), Some(1));
}

#[test]
fn selection_fails_when_no_adapter_qualifies() {
    let incapable = AdapterCaps { features: 0, limits: required_limits() };
    assert_eq!(select_adapter(&vec![incapable]), None);
    assert_eq!(select_adapter(&vec![]), None);
}

#[test]
fn pipeline_description_is_the_fixed_mesh_pipeline() {
    let p = build_pipeline(11);
    assert_eq!(p.target_format, 11);
    assert!(p.has_task_stage);
    assert!(p.has_mesh_stage);
    assert!(p.has_fragment_stage);
    assert_eq!(p.bind_group_layouts, 0);
    assert_eq!(p.topology, Topology::TriangleList);
    assert_eq!(p.front_face, FrontFace::Ccw);
    assert_eq!(p.cull_mode, Some(Face::Back));
    assert_eq!(p.blend, Blend::Replace);
    assert!(!p.has_depth_stencil);
    assert_eq!(p.sample_count, 1);
}

#[test]
fn resize_event_resizes_and_requests_redraw() {
    let a = on_event(&Event::Resized(300, 200));
    assert_eq!(a, Action { op: Op::Resize(300, 200), request_redraw: true });
}

#[test]
fn redraw_event_renders_and_requests_the_next_redraw() {
    let a = on_event(&Event::RedrawRequested);
    assert_eq!(a, Action { op: Op::Render, request_redraw: true });
}

#[test]
fn close_request_exits() {
    let a = on_event(&Event::CloseRequested);
    assert_eq!(a, Action { op: Op::Exit, request_redraw: false });
}

#[test]
fn escape_press_without_repeat_exits() {
    let a = on_event(&Event::KeyPressed { escape: true, repeat: false });
    assert_eq!(a, Action { op: Op::Exit, request_redraw: false });
}

#[test]
fn repeated_escape_and_other_keys_are_ignored() {
    let repeated = on_event(&Event::KeyPressed { escape: true, repeat: true });
    assert_eq!(repeated, Action { op: Op::Nothing, request_redraw: false });
    let other_key = on_event(&Event::KeyPressed { escape: false, repeat: false });
    assert_eq!(other_key, Action { op: Op::Nothing, request_redraw: false });
    let other = on_event(&Event::Other);
    assert_eq!(other, Action { op: Op::Nothing, request_redraw: false });
}
