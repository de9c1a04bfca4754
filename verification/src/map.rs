//! Maps and their contents as the packages store them.

use vstd::prelude::*;

use crate::bootstrap::Tagged;
use crate::channels::Vec4Bits;
use crate::geometry::{Mat4Bits, SShadowkeepDynamicMaterialVariant, SShadowkeepStaticMeshInstances};
use crate::light::BoundingBox;
use crate::tag::NO_TAG;

verus! {

/// The root of a map.
#[derive(Debug)]
pub struct SShadowkeepBubbleParent {
    pub file_size: u64,
    pub child_map: u32,
    pub unkc: u32,
    pub unk10: u64,
    pub map_name: u32,
    pub trailing_records: Vec<SShadowkeepBubbleParentRecord>,
}

#[derive(Clone, Copy, Debug)]
pub struct SShadowkeepBubbleParentRecord {
    pub unk0: [u32; 4],
}

/// The parts of a map, by their 64-bit hashes.
#[derive(Debug)]
pub struct SShadowkeepBubbleDefinition {
    pub file_size: u64,
    pub map_resources: Vec<u64>,
}

#[derive(Debug)]
pub struct SShadowkeepMapContainer {
    pub file_size: u64,
    pub data_tables: Vec<u32>,
}

#[derive(Debug)]
pub struct SShadowkeepMapDataTable {
    pub file_size: u64,
    pub data_entries: Vec<SShadowkeepMapDataTableEntry>,
}

/// An object of a map: where it stands, and the class and address of what it is.
#[derive(Clone, Copy, Debug)]
pub struct SShadowkeepMapDataTableEntry {
    pub entity: u32,
    pub unk4: [u32; 3],
    pub rotation: Vec4Bits,
    pub translation: Vec4Bits,
    pub unk30: [u32; 11],
    pub unk5c: u32,
    pub unk60: u32,
    pub unk64: u32,
    pub unk68: [u32; 2],
    pub world_id: u64,
    pub data_resource: ResourcePointer,
    pub unk80: [u32; 4],
}

/// A resource inside the same tag, by its class and its address.
#[derive(Clone, Copy, Debug, PartialEq, Eq, Structural)]
pub struct ResourcePointer {
    pub class: u32,
    pub offset: u64,
}

#[derive(Debug)]
pub struct SShadowkeepStaticPlacement {
    pub unk0: u64,
    pub instances: Tagged<SShadowkeepStaticMeshInstances>,
}

#[derive(Clone, Copy, Debug, PartialEq, Eq, Structural)]
pub struct SShadowkeepTerrainPlacement {
    pub unk10: u16,
    pub unk12: u16,
    pub identifier: u32,
    pub terrain: u32,
    pub terrain_bounds: u32,
}

/// A cubemap volume.
#[derive(Clone, Copy, Debug)]
pub struct SShadowkeepCubemapPlacement {
    pub volume_extents: Vec4Bits,
    pub volume_center: Vec4Bits,
    pub unk40: u32,
    pub unk44: [u32; 3],
    pub fade_near: Vec4Bits,
    pub fade_far: Vec4Bits,
    pub shape: Vec4Bits,
    pub fade_power: u32,
    pub volume_to_world: Mat4Bits,
    pub cubemap_to_world: Mat4Bits,
    pub probes_resolution: [u32; 3],
    pub unk14c: u32,
    pub intensity: Vec4Bits,
    pub relighting: Vec4Bits,
    pub unk170: Vec4Bits,
    pub texture_cube_specular_ibl: u32,
    pub texture_cube_alpha: u32,
    pub texture_voxel_diffuse: u32,
}

/// A cubemap volume in the form that the renderer works on.
#[derive(Clone, Copy, Debug)]
pub struct SCubemapComponent {
    pub unk0: u64,
    pub volume_extents: Vec4Bits,
    pub volume_center: Vec4Bits,
    pub unk30: u32,
    pub unk34: [u32; 3],
    pub unk40_fade1: Vec4Bits,
    pub unk50_fade2: Vec4Bits,
    pub unk60: Vec4Bits,
    pub unk70: u32,
    pub unkb0: Mat4Bits,
    pub unkf0: Vec4Bits,
    pub unk100: Vec4Bits,
    pub unk110: Mat4Bits,
    pub probes_resolution: [u32; 3],
    pub unk15c: u32,
    pub unk160: Vec4Bits,
    pub unk170: Vec4Bits,
    pub unk180: Vec4Bits,
    pub unk190: u64,
    pub unk198: u16,
    pub unk19a: u16,
    pub texture_cube_specular_ibl: u32,
    pub texture_cube_alpha: u32,
    pub texture_voxel_diffuse: u32,
    pub unk1a8: u32,
    pub unk1ac: [u32; 3],
}

impl SShadowkeepCubemapPlacement {
    /// The component takes each stored field to its place, and leaves the others empty.
    pub open spec fn is_component(self, component: SCubemapComponent) -> bool {
        &&& component.unk0 == 0
        &&& component.volume_extents == self.volume_extents
        &&& component.volume_center == self.volume_center
        &&& component.unk30 == self.unk40
        &&& component.unk34 == self.unk44
        &&& component.unk40_fade1 == self.fade_near
        &&& component.unk50_fade2 == self.fade_far
        &&& component.unk60 == self.shape
        &&& component.unk70 == self.fade_power
        &&& component.unkb0 == self.volume_to_world
        &&& component.unkf0 == (Vec4Bits { x: 0, y: 0, z: 0, w: 0 })
        &&& component.unk100 == (Vec4Bits { x: 0, y: 0, z: 0, w: 0 })
        &&& component.unk110 == self.cubemap_to_world
        &&& component.probes_resolution == self.probes_resolution
        &&& component.unk15c == self.unk14c
        &&& component.unk160 == self.intensity
        &&& component.unk170 == self.relighting
        &&& component.unk180 == self.unk170
        &&& component.unk190 == 0
        &&& component.unk198 == 0
        &&& component.unk19a == 0
        &&& component.texture_cube_specular_ibl == self.texture_cube_specular_ibl
        &&& component.texture_cube_alpha == self.texture_cube_alpha
        &&& component.texture_voxel_diffuse == self.texture_voxel_diffuse
        &&& component.unk1a8 == NO_TAG
        &&& component.unk1ac@ =~= seq![0u32, 0, 0]
    }

    pub fn normalized(&self) -> (component: SCubemapComponent)
        ensures
            self.is_component(component),
    {
        let zero = Vec4Bits { x: 0, y: 0, z: 0, w: 0 };
        SCubemapComponent {
            unk0: 0,
            volume_extents: self.volume_extents,
            volume_center: self.volume_center,
            unk30: self.unk40,
            unk34: self.unk44,
            unk40_fade1: self.fade_near,
            unk50_fade2: self.fade_far,
            unk60: self.shape,
            unk70: self.fade_power,
            unkb0: self.volume_to_world,
            unkf0: zero,
            unk100: zero,
            unk110: self.cubemap_to_world,
            probes_resolution: self.probes_resolution,
            unk15c: self.unk14c,
            unk160: self.intensity,
            unk170: self.relighting,
            unk180: self.unk170,
            unk190: 0,
            unk198: 0,
            unk19a: 0,
            texture_cube_specular_ibl: self.texture_cube_specular_ibl,
            texture_cube_alpha: self.texture_cube_alpha,
            texture_voxel_diffuse: self.texture_voxel_diffuse,
            unk1a8: NO_TAG,
            unk1ac: [0; 3],
        }
    }
}

#[derive(Clone, Copy, Debug, PartialEq, Eq, Structural)]
pub struct SShadowkeepRotationTranslation {
    pub rotation: Vec4Bits,
    pub translation: Vec4Bits,
}

#[derive(Debug)]
pub struct SShadowkeepOcclusionBounds {
    pub file_size: u64,
    pub bounds: Vec<SShadowkeepObjectOcclusionBounds>,
}

#[derive(Clone, Copy, Debug)]
pub struct SShadowkeepObjectOcclusionBounds {
    pub bb: BoundingBox,
    pub unk20: [u32; 4],
}

/// The lights of a map, each with its place.
#[derive(Debug)]
pub struct SShadowkeepLightCollection {
    pub file_size: u64,
    pub unk8: u64,
    pub bounds: BoundingBox,
    pub lights: Vec<SShadowkeepLight>,
    pub transforms: Vec<SShadowkeepRotationTranslation>,
    pub light_count: u32,
    pub unk54: u32,
    pub occlusion_bounds: Tagged<SShadowkeepOcclusionBounds>,
}

#[derive(Clone, Copy, Debug)]
pub struct SShadowkeepLight {
    pub unk0: Vec4Bits,
    pub unk10: Vec4Bits,
    pub light_to_world: Mat4Bits,
    pub unk60: [u32; 8],
    pub technique_shading: u32,
    pub unk84: u32,
    pub unk88: u32,
    pub unk8c: u32,
    pub unk90: [u32; 4],
}

#[derive(Clone, Copy, Debug)]
pub struct SShadowkeepShadowingLight {
    pub unk0: Vec4Bits,
    pub unk10: Vec4Bits,
    pub light_to_world: Mat4Bits,
    pub unk60: [u32; 8],
    pub far_plane: u32,
    pub half_fov: u32,
    pub unkc8: u32,
    pub unkcc: u32,
    pub technique_shading: u32,
    pub technique_shading_shadowing: u32,
    pub technique_volumetrics: u32,
    pub technique_volumetrics_shadowing: u32,
    pub unka0: u32,
    pub unka4: u32,
}

#[derive(Debug)]
pub struct SShadowkeepEntity {
    pub file_size: u64,
    pub unk8: [u32; 2],
    pub entity_resources: Vec<SShadowkeepEntityResourceRef>,
}

#[derive(Debug)]
pub struct SShadowkeepEntityResourceRef {
    pub resource: Tagged<SShadowkeepEntityResource>,
    pub unk4: u32,
    pub unk8: u32,
}

#[derive(Debug)]
pub struct SShadowkeepEntityResource {
    pub file_size: u64,
    pub unk8: ResourcePointer,
    pub resource: ResourcePointer,
    pub definition: ResourcePointer,
    pub resource_table: Vec<ResourcePointer>,
    pub resource_table1: Vec<()>,
    pub unk80: u32,
    pub unk84: u32,
}

/// The rigid model of an entity.
#[derive(Debug)]
pub struct SShadowkeepRigidModelComponent {
    pub model: u32,
    pub material_variants: Vec<SShadowkeepDynamicMaterialVariant>,
    pub techniques: Vec<u32>,
}

/// A normalized component keeps the volume, the fades, the placement, the probes and the textures of
/// the stored one, and holds nothing in the fields that came later.
pub proof fn law_normalized_components_keep_their_volume(
    stored: SShadowkeepCubemapPlacement,
    component: SCubemapComponent,
)
    requires
        stored.is_component(component),
    ensures
        component.unk0 == 0,
        component.volume_extents == stored.volume_extents,
        component.volume_center == stored.volume_center,
        component.unk30 == stored.unk40,
        component.unk34 == stored.unk44,
        component.unk40_fade1 == stored.fade_near,
        component.unk50_fade2 == stored.fade_far,
        component.unk60 == stored.shape,
        component.unk70 == stored.fade_power,
        component.unkb0 == stored.volume_to_world,
        component.unkf0 == (Vec4Bits { x: 0, y: 0, z: 0, w: 0 }),
        component.unk100 == (Vec4Bits { x: 0, y: 0, z: 0, w: 0 }),
        component.unk110 == stored.cubemap_to_world,
        component.probes_resolution == stored.probes_resolution,
        component.unk15c == stored.unk14c,
        component.unk160 == stored.intensity,
        component.unk170 == stored.relighting,
        component.unk180 == stored.unk170,
        component.unk190 == 0,
        component.unk198 == 0,
        component.unk19a == 0,
        component.texture_cube_specular_ibl == stored.texture_cube_specular_ibl,
        component.texture_cube_alpha == stored.texture_cube_alpha,
        component.texture_voxel_diffuse == stored.texture_voxel_diffuse,
        component.unk1a8 == 0xffff_ffff,
        component.unk1ac@ =~= seq![0u32, 0, 0],
{
}

} // verus!
