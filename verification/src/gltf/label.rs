//! Labels and names of the assets of a glTF file.

use crate::text::{append_decimal, numbered, spec_decimal};
use vstd::prelude::*;
use vstd::string::StringExecFns;

verus! {

/// The label of an asset within a glTF file.
#[derive(Debug, Clone, Copy, PartialEq, Eq, Structural)]
pub enum GltfAssetLabel {
    /// Scene number `.0`.
    Scene(usize),
    /// Node number `.0`.
    Node(usize),
    /// Mesh number `.0`.
    Mesh(usize),
    /// Primitive number `primitive` of mesh number `mesh`.
    Primitive { mesh: usize, primitive: usize },
    /// Texture number `.0`.
    Texture(usize),
    /// Material number `index`.
    Material { index: usize },
    /// The material of primitives that name none.
    DefaultMaterial,
}

impl GltfAssetLabel {
    /// The label as text: the kind of asset followed by its number.
    pub open spec fn spec_text(self) -> Seq<char> {
        match self {
            GltfAssetLabel::Scene(index) => "Scene"@ + spec_decimal(index as nat),
            GltfAssetLabel::Node(index) => "Node"@ + spec_decimal(index as nat),
            GltfAssetLabel::Mesh(index) => "Mesh"@ + spec_decimal(index as nat),
            GltfAssetLabel::Primitive { mesh, primitive } => "Mesh"@ + spec_decimal(mesh as nat)
                + "/Primitive"@ + spec_decimal(primitive as nat),
            GltfAssetLabel::Texture(index) => "Texture"@ + spec_decimal(index as nat),
            GltfAssetLabel::Material { index } => "Material"@ + spec_decimal(index as nat),
            GltfAssetLabel::DefaultMaterial => "DefaultMaterial"@,
        }
    }

    /// The label as text, such as `Scene0` or `Mesh2/Primitive1`.
    pub fn to_string(&self) -> (text: String)
        ensures
            text@ == self.spec_text(),
    {
        match *self {
            GltfAssetLabel::Scene(index) => numbered("Scene", index),
            GltfAssetLabel::Node(index) => numbered("Node", index),
            GltfAssetLabel::Mesh(index) => numbered("Mesh", index),
            GltfAssetLabel::Primitive { mesh, primitive } => {
                let mut text = numbered("Mesh", mesh);
                text.append("/Primitive");
                append_decimal(&mut text, primitive);
                text
            },
            GltfAssetLabel::Texture(index) => numbered("Texture", index),
            GltfAssetLabel::Material { index } => numbered("Material", index),
            GltfAssetLabel::DefaultMaterial => String::from_str("DefaultMaterial"),
        }
    }
}

/// The name of node number `index`: the name the file gives it, or
/// `GltfNode` and its number.
pub fn node_name(name: Option<&str>, index: usize) -> (text: String)
    ensures
        text@ == match name {
            Some(given) => given@,
            None => "GltfNode"@ + spec_decimal(index as nat),
        },
{
    match name {
        Some(given) => String::from_str(given),
        None => numbered("GltfNode", index),
    }
}

/// The name of mesh number `index`: the name the file gives it, or
/// `GltfMesh` and its number.
pub fn mesh_name(name: Option<&str>, index: usize) -> (text: String)
    ensures
        text@ == match name {
            Some(given) => given@,
            None => "GltfMesh"@ + spec_decimal(index as nat),
        },
{
    match name {
        Some(given) => String::from_str(given),
        None => numbered("GltfMesh", index),
    }
}

} // verus!
