//! Adapter selection: the decision of which GPU adapter, out of those the
//! backend enumerates, can drive the mesh-shading pipeline. An adapter
//! qualifies when its feature set includes mesh shading and each of its
//! resource limits meets or exceeds the recommended minimum for mesh shading.
//! The platform adapter reports each candidate's capabilities as plain values
//! of [`AdapterCaps`]; the selection itself is decided and proved here.

use vstd::prelude::*;

verus! {

/// The library's encoding of the mesh-shading feature flag inside a feature
/// bitmask. The platform adapter sets this bit when the backend reports mesh
/// shader support for the device.
pub const MESH_SHADING: u64 = 1;

/// The resource limits that mesh shading draws on, as the backend reports
/// them for one adapter. Each field is a maximum: an adapter offering at
/// least the recommended minimum in every field can run the pipeline.
#[derive(Clone, Copy, PartialEq, Eq, Structural, Debug)]
pub struct MeshLimits {
    pub max_task_workgroup_total_count: u32,
    pub max_task_workgroups_per_dimension: u32,
    pub max_mesh_workgroup_total_count: u32,
    pub max_mesh_workgroups_per_dimension: u32,
    pub max_task_invocations_per_workgroup: u32,
    pub max_task_invocations_per_dimension: u32,
    pub max_mesh_invocations_per_workgroup: u32,
    pub max_mesh_invocations_per_dimension: u32,
    pub max_task_payload_size: u32,
    pub max_mesh_output_vertices: u32,
    pub max_mesh_output_primitives: u32,
    pub max_mesh_output_layers: u32,
    pub max_mesh_multiview_view_count: u32,
}

/// The capabilities of one enumerated adapter: its feature bitmask in the
/// library's encoding, and its mesh-shading resource limits.
#[derive(Clone, Copy, PartialEq, Eq, Structural, Debug)]
pub struct AdapterCaps {
    pub features: u64,
    pub limits: MeshLimits,
}

/// The recommended minimum limits for mesh shading, in every field. An
/// adapter must meet or exceed each of them.
pub open spec fn spec_required_limits() -> MeshLimits {
    MeshLimits {
        max_task_workgroup_total_count: 4194304,
        max_task_workgroups_per_dimension: 65535,
        max_mesh_workgroup_total_count: 1024,
        max_mesh_workgroups_per_dimension: 1024,
        max_task_invocations_per_workgroup: 128,
        max_task_invocations_per_dimension: 64,
        max_mesh_invocations_per_workgroup: 128,
        max_mesh_invocations_per_dimension: 128,
        max_task_payload_size: 16352,
        max_mesh_output_vertices: 256,
        max_mesh_output_primitives: 256,
        max_mesh_output_layers: 8,
        max_mesh_multiview_view_count: 0,
    }
}

/// The recommended minimum limits, as a value the platform adapter can hand
/// to the backend when requesting the device.
pub fn required_limits() -> (r: MeshLimits)
    ensures
        r == spec_required_limits(),
{
    MeshLimits {
        max_task_workgroup_total_count: 4194304,
        max_task_workgroups_per_dimension: 65535,
        max_mesh_workgroup_total_count: 1024,
        max_mesh_workgroups_per_dimension: 1024,
        max_task_invocations_per_workgroup: 128,
        max_task_invocations_per_dimension: 64,
        max_mesh_invocations_per_workgroup: 128,
        max_mesh_invocations_per_dimension: 128,
        max_task_payload_size: 16352,
        max_mesh_output_vertices: 256,
        max_mesh_output_primitives: 256,
        max_mesh_output_layers: 8,
        max_mesh_multiview_view_count: 0,
    }
}

/// Whether `available` meets or exceeds `required` in every field.
pub open spec fn spec_limits_met(required: MeshLimits, available: MeshLimits) -> bool {
    &&& required.max_task_workgroup_total_count <= available.max_task_workgroup_total_count
    &&& required.max_task_workgroups_per_dimension <= available.max_task_workgroups_per_dimension
    &&& required.max_mesh_workgroup_total_count <= available.max_mesh_workgroup_total_count
    &&& required.max_mesh_workgroups_per_dimension <= available.max_mesh_workgroups_per_dimension
    &&& required.max_task_invocations_per_workgroup <= available.max_task_invocations_per_workgroup
    &&& required.max_task_invocations_per_dimension <= available.max_task_invocations_per_dimension
    &&& required.max_mesh_invocations_per_workgroup <= available.max_mesh_invocations_per_workgroup
    &&& required.max_mesh_invocations_per_dimension <= available.max_mesh_invocations_per_dimension
    &&& required.max_task_payload_size <= available.max_task_payload_size
    &&& required.max_mesh_output_vertices <= available.max_mesh_output_vertices
    &&& required.max_mesh_output_primitives <= available.max_mesh_output_primitives
    &&& required.max_mesh_output_layers <= available.max_mesh_output_layers
    &&& required.max_mesh_multiview_view_count <= available.max_mesh_multiview_view_count
}

/// Whether `available` meets or exceeds `required` in every field.
pub fn limits_met(required: &MeshLimits, available: &MeshLimits) -> (r: bool)
    ensures
        r == spec_limits_met(*required, *available),
{
    required.max_task_workgroup_total_count <= available.max_task_workgroup_total_count
        && required.max_task_workgroups_per_dimension <= available.max_task_workgroups_per_dimension
        && required.max_mesh_workgroup_total_count <= available.max_mesh_workgroup_total_count
        && required.max_mesh_workgroups_per_dimension <= available.max_mesh_workgroups_per_dimension
        && required.max_task_invocations_per_workgroup <= available.max_task_invocations_per_workgroup
        && required.max_task_invocations_per_dimension <= available.max_task_invocations_per_dimension
        && required.max_mesh_invocations_per_workgroup <= available.max_mesh_invocations_per_workgroup
        && required.max_mesh_invocations_per_dimension <= available.max_mesh_invocations_per_dimension
        && required.max_task_payload_size <= available.max_task_payload_size
        && required.max_mesh_output_vertices <= available.max_mesh_output_vertices
        && required.max_mesh_output_primitives <= available.max_mesh_output_primitives
        && required.max_mesh_output_layers <= available.max_mesh_output_layers
        && required.max_mesh_multiview_view_count <= available.max_mesh_multiview_view_count
}

/// Whether one adapter qualifies: its features include mesh shading and its
/// limits meet the recommended minimum in every field.
pub open spec fn spec_qualifies(caps: AdapterCaps) -> bool {
    &&& caps.features & MESH_SHADING == MESH_SHADING
    &&& spec_limits_met(spec_required_limits(), caps.limits)
}

/// Whether one adapter qualifies for the mesh-shading pipeline.
pub fn adapter_qualifies(caps: &AdapterCaps) -> (r: bool)
    ensures
        r == spec_qualifies(*caps),
{
    let required = required_limits();
    (caps.features & MESH_SHADING == MESH_SHADING) && limits_met(&required, &caps.limits)
}

/// Select the first qualifying adapter, in enumeration order. Returns its
/// index, or `None` exactly when no enumerated adapter qualifies.
pub fn select_adapter(adapters: &Vec<AdapterCaps>) -> (r: Option<usize>)
    ensures
        match r {
            Some(i) => {
                &&& i < adapters@.len()
                &&& spec_qualifies(adapters@[i as int])
                &&& forall|j: int| 0 <= j < i ==> !spec_qualifies(adapters@[j])
            },
            None => forall|j: int| 0 <= j < adapters@.len() ==> !spec_qualifies(adapters@[j]),
        },
{
    let mut i: usize = 0;
    while i < adapters.len()
        invariant
            i <= adapters@.len(),
            forall|j: int| 0 <= j < i ==> !spec_qualifies(adapters@[j]),
        decreases adapters@.len() - i,
    {
        if adapter_qualifies(&adapters[i]) {
            return Some(i);
        }
        i = i + 1;
    }
    None
}

} // verus!
