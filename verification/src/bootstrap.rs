//! The render bootstrap: what a package has to offer before anything is drawn.

use crate::globals::{find_tag, offered, tag_named, NamedTag};
use crate::tag::{is_tag, tag_is_some};
use crate::text::Error;
use vstd::prelude::*;

verus! {

/// The class of the client bootstrap.
pub const CLIENT_BOOTSTRAP_CLASS: u32 = 0x8080_9780;

/// The hash of the client bootstrap.
pub const CLIENT_BOOTSTRAP_HASH: u32 = 0x80B9_E57D;

/// The class of the render globals.
pub const RENDER_GLOBALS_CLASS: u32 = 0x8080_6CB1;

/// The class of a scope.
pub const SCOPE_CLASS: u32 = 0x8080_71F3;

/// The class of a technique.
pub const TECHNIQUE_CLASS: u32 = 0x8080_71E8;

/// Bytes of the dynamic constants of a stage.
pub const DYNAMIC_CONSTANTS_SIZE: usize = 0x68;

/// The name of the client bootstrap.
pub const CLIENT_BOOTSTRAP_NAME: &'static str = "client_bootstrap_patchable";

/// The identity of the package era.
#[derive(Clone, Copy, Debug, PartialEq, Eq, Structural)]
pub struct ShadowkeepEraProfile;

/// The classes of the renderer's resources.
#[derive(Clone, Copy, Debug, PartialEq, Eq, Structural)]
pub struct ShadowkeepRendererClasses {
    pub client_bootstrap: u32,
    pub render_globals: u32,
    pub input_layouts: u32,
    pub input_layout_mapping: u32,
    pub input_element_sets: u32,
    pub input_element_set: u32,
    pub input_element: u32,
    pub scope: u32,
    pub technique: u32,
    pub lookup_textures: u32,
}

/// The classes of geometry.
#[derive(Clone, Copy, Debug, PartialEq, Eq, Structural)]
pub struct ShadowkeepGeometryClasses {
    pub bubble_parent: u32,
    pub bubble_definition: u32,
    pub map_container: u32,
    pub map_table: u32,
    pub entity: u32,
    pub entity_resource: u32,
    pub rigid_model_component: u32,
    pub static_mesh: u32,
    pub static_instances: u32,
    pub terrain: u32,
    pub dynamic_model: u32,
}

impl ShadowkeepEraProfile {
    pub fn package_version_name(self) -> (name: &'static str)
        ensures
            name@ == "Destiny2Shadowkeep"@,
    {
        "Destiny2Shadowkeep"
    }

    pub fn renderer_classes(self) -> (classes: ShadowkeepRendererClasses)
        ensures
            classes == (ShadowkeepRendererClasses {
                client_bootstrap: CLIENT_BOOTSTRAP_CLASS,
                render_globals: RENDER_GLOBALS_CLASS,
                input_layouts: 0x8080_72A6,
                input_layout_mapping: 0x8080_72A9,
                input_element_sets: 0x8080_72AD,
                input_element_set: 0x8080_72AF,
                input_element: 0x8080_72B2,
                scope: SCOPE_CLASS,
                technique: TECHNIQUE_CLASS,
                lookup_textures: 0x8080_6B99,
            }),
    {
        ShadowkeepRendererClasses {
            client_bootstrap: CLIENT_BOOTSTRAP_CLASS,
            render_globals: RENDER_GLOBALS_CLASS,
            input_layouts: 0x8080_72A6,
            input_layout_mapping: 0x8080_72A9,
            input_element_sets: 0x8080_72AD,
            input_element_set: 0x8080_72AF,
            input_element: 0x8080_72B2,
            scope: SCOPE_CLASS,
            technique: TECHNIQUE_CLASS,
            lookup_textures: 0x8080_6B99,
        }
    }

    pub fn geometry_classes(self) -> (classes: ShadowkeepGeometryClasses)
        ensures
            classes == (ShadowkeepGeometryClasses {
                bubble_parent: 0x8080_7DAE,
                bubble_definition: 0x8080_91E0,
                map_container: 0x8080_8A54,
                map_table: 0x8080_99D6,
                entity: 0x8080_9C0F,
                entity_resource: 0x8080_9C36,
                rigid_model_component: 0x8080_72B8,
                static_mesh: 0x8080_71A7,
                static_instances: 0x8080_966D,
                terrain: 0x8080_714F,
                dynamic_model: 0x8080_73A5,
            }),
    {
        ShadowkeepGeometryClasses {
            bubble_parent: 0x8080_7DAE,
            bubble_definition: 0x8080_91E0,
            map_container: 0x8080_8A54,
            map_table: 0x8080_99D6,
            entity: 0x8080_9C0F,
            entity_resource: 0x8080_9C36,
            rigid_model_component: 0x8080_72B8,
            static_mesh: 0x8080_71A7,
            static_instances: 0x8080_966D,
            terrain: 0x8080_714F,
            dynamic_model: 0x8080_73A5,
        }
    }

    /// Take the bootstrap that a package holds.
    pub fn load_bootstrap(self, found: Option<&SClientBootstrapPatchable>) -> (result: Result<
        ShadowkeepRenderBootstrap,
        Error,
    >)
        ensures
            match result {
                Ok(bootstrap) => bootstrap_failure(found) is None && found is Some
                    && bootstrap.describes(*found->Some_0),
                Err(error) => bootstrap_failure(found) == Some(error@),
            },
    {
        load_renderer_bootstrap(found)
    }
}

/// A resource that lies under a tag of its own.
#[derive(Debug)]
pub struct Tagged<T> {
    pub tag: u32,
    pub value: T,
}

#[derive(Debug)]
pub struct SClientBootstrapPatchable {
    pub render_globals: SShadowkeepRenderGlobals,
}

#[derive(Debug)]
pub struct SShadowkeepRenderGlobals {
    pub file_size: u64,
    pub input_layouts: Tagged<SShadowkeepVertexInputLayouts>,
    pub scopes: Vec<SShadowkeepRenderGlobalScope>,
    pub pipelines: Vec<SShadowkeepRenderGlobalPipeline>,
    pub lookup_textures: Tagged<SShadowkeepLookupTextures>,
    pub channel_defaults: u32,
    pub trailing_resource: u32,
}

#[derive(Clone, Copy, Debug, PartialEq, Eq, Structural)]
pub struct SShadowkeepLookupTextures {
    pub file_size: u64,
    pub specular_tint_lookup_texture: u32,
    pub specular_lobe_lookup_texture: u32,
    pub specular_lobe_3d_lookup_texture: u32,
    pub iridescence_lookup_texture: u32,
}

#[derive(Debug)]
pub struct SShadowkeepRenderGlobalScope {
    pub name: String,
    pub unk8: u32,
    pub scope: u32,
}

#[derive(Debug)]
pub struct SShadowkeepRenderGlobalPipeline {
    pub name: String,
    pub unk8: u32,
    pub technique: u32,
}

#[derive(Debug)]
pub struct SShadowkeepVertexInputLayouts {
    pub file_size: u64,
    pub unk8: u32,
    pub element_sets: SShadowkeepVertexInputElementSets,
    pub elements_10: u32,
    pub elements_14: u32,
    pub elements_18: u32,
    pub elements_1c: u32,
    pub elements_20: u32,
    pub elements_24: u32,
    pub mapping: SShadowkeepVertexInputLayoutMapping,
}

#[derive(Debug)]
pub struct SShadowkeepVertexInputLayoutMapping {
    pub file_size: u64,
    pub layouts: Vec<SShadowkeepVertexLayout>,
}

/// A vertex layout: the element sets of up to four buffers.
#[derive(Clone, Copy, Debug, PartialEq, Eq, Structural)]
pub struct SShadowkeepVertexLayout {
    pub index: u8,
    pub element_0: u32,
    pub element_1: u32,
    pub element_2: u32,
    pub element_3: u32,
    pub unk18: u8,
    pub unk19: u8,
    pub unk1a: u8,
    pub unk1b: u8,
}

#[derive(Debug)]
pub struct SShadowkeepVertexInputElementSets {
    pub file_size: u64,
    pub sets: Vec<SShadowkeepVertexInputElementSet>,
}

#[derive(Debug)]
pub struct SShadowkeepVertexInputElementSet {
    pub elements: Vec<SShadowkeepVertexInputElement>,
}

#[derive(Clone, Copy, Debug, PartialEq, Eq, Structural)]
pub struct SShadowkeepVertexInputElement {
    pub semantic: u8,
    pub semantic_index: u8,
    pub format: u8,
}

/// The bootstrap as the renderer takes it: names and their tags.
#[derive(Debug)]
pub struct ShadowkeepRenderBootstrap {
    pub input_layouts: u32,
    pub input_layout_count: usize,
    pub scopes: Vec<NamedTag>,
    pub pipelines: Vec<NamedTag>,
    pub lookup_textures: u32,
    pub channel_defaults: u32,
}

impl ShadowkeepRenderBootstrap {
    /// The bootstrap says what the stored one says.
    pub open spec fn describes(self, stored: SClientBootstrapPatchable) -> bool {
        let globals = stored.render_globals;
        &&& self.input_layouts == globals.input_layouts.tag
        &&& self.input_layout_count == globals.input_layouts.value.mapping.layouts@.len()
        &&& self.lookup_textures == globals.lookup_textures.tag
        &&& self.channel_defaults == globals.channel_defaults
        &&& self.scopes@.len() == globals.scopes@.len()
        &&& forall|i: int|
            0 <= i < globals.scopes@.len() ==> (#[trigger] self.scopes@[i]).name@
                == globals.scopes@[i].name@ && self.scopes@[i].tag == globals.scopes@[i].scope
        &&& self.pipelines@.len() == globals.pipelines@.len()
        &&& forall|i: int|
            0 <= i < globals.pipelines@.len() ==> (#[trigger] self.pipelines@[i]).name@
                == globals.pipelines@[i].name@ && self.pipelines@[i].tag
                == globals.pipelines@[i].technique
    }
}

/// Why a package has no usable bootstrap.
pub open spec fn bootstrap_failure(found: Option<&SClientBootstrapPatchable>) -> Option<Seq<char>> {
    match found {
        None => Some(
            "Shadowkeep bootstrap client_bootstrap_patchable (0x80B9E57D, class 0x80809780) is unavailable"@,
        ),
        Some(stored) => if stored.render_globals.scopes@.len() == 0 {
            Some("Shadowkeep render globals class 0x80806CB1 contains no scopes"@)
        } else if stored.render_globals.pipelines@.len() == 0 {
            Some("Shadowkeep render globals class 0x80806CB1 contains no techniques"@)
        } else if stored.render_globals.input_layouts.value.mapping.layouts@.len() == 0 {
            Some("Shadowkeep input layout mapping class 0x808072A9 contains no layouts"@)
        } else {
            None
        },
    }
}

/// Take the bootstrap that a package holds, where it has scopes, techniques and
/// input layouts.
pub fn load_renderer_bootstrap(found: Option<&SClientBootstrapPatchable>) -> (result: Result<
    ShadowkeepRenderBootstrap,
    Error,
>)
    ensures
        match result {
            Ok(bootstrap) => bootstrap_failure(found) is None && found is Some
                && bootstrap.describes(*found->Some_0),
            Err(error) => bootstrap_failure(found) == Some(error@),
        },
{
    let stored = match found {
        Some(stored) => stored,
        None => {
            return Err(
                Error {
                    message:
                        "Shadowkeep bootstrap client_bootstrap_patchable (0x80B9E57D, class 0x80809780) is unavailable".to_owned(),
                },
            );
        },
    };
    let globals = &stored.render_globals;
    if globals.scopes.len() == 0 {
        return Err(
            Error {
                message: "Shadowkeep render globals class 0x80806CB1 contains no scopes".to_owned(),
            },
        );
    }
    if globals.pipelines.len() == 0 {
        return Err(
            Error {
                message:
                    "Shadowkeep render globals class 0x80806CB1 contains no techniques".to_owned(),
            },
        );
    }
    if globals.input_layouts.value.mapping.layouts.len() == 0 {
        return Err(
            Error {
                message:
                    "Shadowkeep input layout mapping class 0x808072A9 contains no layouts".to_owned(),
            },
        );
    }
    let mut scopes: Vec<NamedTag> = Vec::new();
    let mut i: usize = 0;
    while i < globals.scopes.len()
        invariant
            i <= globals.scopes@.len(),
            scopes@.len() == i,
            forall|j: int|
                0 <= j < i ==> (#[trigger] scopes@[j]).name@ == globals.scopes@[j].name@
                    && scopes@[j].tag == globals.scopes@[j].scope,
        decreases globals.scopes@.len() - i,
    {
        scopes.push(
            NamedTag { name: globals.scopes[i].name.clone(), tag: globals.scopes[i].scope },
        );
        i = i + 1;
    }
    let mut pipelines: Vec<NamedTag> = Vec::new();
    let mut j: usize = 0;
    while j < globals.pipelines.len()
        invariant
            j <= globals.pipelines@.len(),
            pipelines@.len() == j,
            forall|k: int|
                0 <= k < j ==> (#[trigger] pipelines@[k]).name@ == globals.pipelines@[k].name@
                    && pipelines@[k].tag == globals.pipelines@[k].technique,
        decreases globals.pipelines@.len() - j,
    {
        pipelines.push(
            NamedTag {
                name: globals.pipelines[j].name.clone(),
                tag: globals.pipelines[j].technique,
            },
        );
        j = j + 1;
    }
    Ok(
        ShadowkeepRenderBootstrap {
            input_layouts: globals.input_layouts.tag,
            input_layout_count: globals.input_layouts.value.mapping.layouts.len(),
            scopes,
            pipelines,
            lookup_textures: globals.lookup_textures.tag,
            channel_defaults: globals.channel_defaults,
        },
    )
}

/// Check that a package holds a usable bootstrap.
pub fn validate_renderer_bootstrap(found: Option<&SClientBootstrapPatchable>) -> (result: Result<
    (),
    Error,
>)
    ensures
        match result {
            Ok(_) => bootstrap_failure(found) is None,
            Err(error) => bootstrap_failure(found) == Some(error@),
        },
{
    match load_renderer_bootstrap(found) {
        Ok(_) => Ok(()),
        Err(error) => Err(error),
    }
}

/// The scopes and techniques of a package by name, so that one can be loaded
/// when it is needed.
#[derive(Debug)]
pub struct ShadowkeepTechniqueRegistry {
    pub scopes: Vec<NamedTag>,
    pub techniques: Vec<NamedTag>,
}

/// Which tag to load for a name, or why there is none. `kind` says what is
/// being looked for.
pub open spec fn tag_to_load(entries: Seq<NamedTag>, kind: Seq<char>, name: Seq<char>) -> Result<
    u32,
    Seq<char>,
> {
    match tag_named(entries, name) {
        None => Err("Shadowkeep render globals has no "@ + kind + " named "@ + name),
        Some(tag) => if is_tag(tag) {
            Ok(tag)
        } else {
            Err("Shadowkeep "@ + kind + " "@ + name + " is explicitly null"@)
        },
    }
}

fn find_tag_to_load(entries: &[NamedTag], kind: &str, name: &str) -> (result: Result<u32, Error>)
    ensures
        match result {
            Ok(tag) => tag_to_load(entries@, kind@, name@) == Ok::<u32, Seq<char>>(tag),
            Err(error) => tag_to_load(entries@, kind@, name@) == Err::<u32, Seq<char>>(error@),
        },
{
    match find_tag(entries, name) {
        None => {
            let mut message = "Shadowkeep render globals has no ".to_owned();
            message.append(kind);
            message.append(" named ");
            message.append(name);
            Err(Error { message })
        },
        Some(tag) => {
            if tag_is_some(tag) {
                Ok(tag)
            } else {
                let mut message = "Shadowkeep ".to_owned();
                message.append(kind);
                message.append(" ");
                message.append(name);
                message.append(" is explicitly null");
                Err(Error { message })
            }
        },
    }
}

fn copy_names(entries: &Vec<NamedTag>) -> (copied: Vec<NamedTag>)
    ensures
        copied@.len() == entries@.len(),
        forall|i: int|
            0 <= i < entries@.len() ==> (#[trigger] copied@[i]).name@ == entries@[i].name@
                && copied@[i].tag == entries@[i].tag,
{
    let mut copied: Vec<NamedTag> = Vec::new();
    let mut i: usize = 0;
    while i < entries.len()
        invariant
            i <= entries@.len(),
            copied@.len() == i,
            forall|j: int|
                0 <= j < i ==> (#[trigger] copied@[j]).name@ == entries@[j].name@ && copied@[j].tag
                    == entries@[j].tag,
        decreases entries@.len() - i,
    {
        copied.push(NamedTag { name: entries[i].name.clone(), tag: entries[i].tag });
        i = i + 1;
    }
    copied
}

proof fn lemma_same_names(a: Seq<NamedTag>, b: Seq<NamedTag>, name: Seq<char>)
    requires
        a.len() == b.len(),
        forall|i: int|
            0 <= i < b.len() ==> (#[trigger] a[i]).name@ == b[i].name@ && a[i].tag == b[i].tag,
    ensures
        tag_named(a, name) == tag_named(b, name),
    decreases a.len(),
{
    if a.len() > 0 {
        assert(a[a.len() - 1].name@ == b[b.len() - 1].name@);
        assert forall|i: int| 0 <= i < b.drop_last().len() implies (
        #[trigger] a.drop_last()[i]).name@ == b.drop_last()[i].name@ && a.drop_last()[i].tag
            == b.drop_last()[i].tag by {
            assert(a[i].name@ == b[i].name@);
        }
        lemma_same_names(a.drop_last(), b.drop_last(), name);
    }
}

impl ShadowkeepTechniqueRegistry {
    pub fn new(bootstrap: &ShadowkeepRenderBootstrap) -> (registry: Self)
        ensures
            forall|name: Seq<char>| #[trigger]
                tag_named(registry.scopes@, name) == tag_named(bootstrap.scopes@, name),
            forall|name: Seq<char>| #[trigger]
                tag_named(registry.techniques@, name) == tag_named(bootstrap.pipelines@, name),
    {
        let registry = ShadowkeepTechniqueRegistry {
            scopes: copy_names(&bootstrap.scopes),
            techniques: copy_names(&bootstrap.pipelines),
        };
        proof {
            assert forall|name: Seq<char>| #[trigger] tag_named(registry.scopes@, name)
                == tag_named(bootstrap.scopes@, name) by {
                lemma_same_names(registry.scopes@, bootstrap.scopes@, name);
            }
            assert forall|name: Seq<char>| #[trigger] tag_named(registry.techniques@, name)
                == tag_named(bootstrap.pipelines@, name) by {
                lemma_same_names(registry.techniques@, bootstrap.pipelines@, name);
            }
        }
        registry
    }

    /// The tag of the scope to load.
    pub fn load_scope(&self, name: &str) -> (result: Result<u32, Error>)
        ensures
            match result {
                Ok(tag) => tag_to_load(self.scopes@, "scope"@, name@) == Ok::<u32, Seq<char>>(tag),
                Err(error) => tag_to_load(self.scopes@, "scope"@, name@) == Err::<u32, Seq<char>>(
                    error@,
                ),
            },
    {
        find_tag_to_load(self.scopes.as_slice(), "scope", name)
    }

    /// The tag of the technique to load.
    pub fn load_technique(&self, name: &str) -> (result: Result<u32, Error>)
        ensures
            match result {
                Ok(tag) => tag_to_load(self.techniques@, "technique"@, name@) == Ok::<
                    u32,
                    Seq<char>,
                >(tag),
                Err(error) => tag_to_load(self.techniques@, "technique"@, name@) == Err::<
                    u32,
                    Seq<char>,
                >(error@),
            },
    {
        find_tag_to_load(self.techniques.as_slice(), "technique", name)
    }

    pub fn has_scope(&self, name: &str) -> (result: bool)
        ensures
            result == (offered(self.scopes@, name@) is Some),
    {
        match find_tag(self.scopes.as_slice(), name) {
            Some(tag) => tag_is_some(tag),
            None => false,
        }
    }

    pub fn has_technique(&self, name: &str) -> (result: bool)
        ensures
            result == (offered(self.techniques@, name@) is Some),
    {
        match find_tag(self.techniques.as_slice(), name) {
            Some(tag) => tag_is_some(tag),
            None => false,
        }
    }
}

/// A scope or technique is there exactly where it can be loaded.
pub proof fn law_presence_is_loadability(
    entries: Seq<NamedTag>,
    kind: Seq<char>,
    name: Seq<char>,
)
    ensures
        offered(entries, name) is Some <==> tag_to_load(entries, kind, name) is Ok,
        offered(entries, name) matches Some(tag) ==> tag_to_load(entries, kind, name) == Ok::<
            u32,
            Seq<char>,
        >(tag),
{
}

/// A bootstrap is refused exactly where it is missing or has no scopes, no techniques or no
/// layouts.
pub proof fn law_only_empty_bootstraps_are_refused(found: Option<&SClientBootstrapPatchable>)
    ensures
        bootstrap_failure(found) is None <==> found is Some
            && found->Some_0.render_globals.scopes@.len() > 0
            && found->Some_0.render_globals.pipelines@.len() > 0
            && found->Some_0.render_globals.input_layouts.value.mapping.layouts@.len() > 0,
{
}

/// A loaded bootstrap names the stored layouts, lookups and defaults, and lists every scope and
/// every technique under its own name.
pub proof fn law_bootstraps_list_what_is_stored(
    bootstrap: ShadowkeepRenderBootstrap,
    stored: SClientBootstrapPatchable,
    at: int,
)
    requires
        bootstrap.describes(stored),
    ensures
        bootstrap.input_layouts == stored.render_globals.input_layouts.tag,
        bootstrap.input_layout_count
            == stored.render_globals.input_layouts.value.mapping.layouts@.len(),
        bootstrap.lookup_textures == stored.render_globals.lookup_textures.tag,
        bootstrap.channel_defaults == stored.render_globals.channel_defaults,
        bootstrap.scopes@.len() == stored.render_globals.scopes@.len(),
        bootstrap.pipelines@.len() == stored.render_globals.pipelines@.len(),
        0 <= at < bootstrap.scopes@.len() ==> {
            &&& bootstrap.scopes@[at].name@ == stored.render_globals.scopes@[at].name@
            &&& bootstrap.scopes@[at].tag == stored.render_globals.scopes@[at].scope
        },
        0 <= at < bootstrap.pipelines@.len() ==> {
            &&& bootstrap.pipelines@[at].name@ == stored.render_globals.pipelines@[at].name@
            &&& bootstrap.pipelines@[at].tag == stored.render_globals.pipelines@[at].technique
        },
{
}

} // verus!
