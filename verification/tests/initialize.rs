use stilb::config::StilbConfig;
use stilb::mesh::{Mesh, RawMesh};
use stilb::pacer::{SubmitPacer, MAX_SAMPLES_PER_SUBMIT};
use stilb::texture2d::Texture2D;

type Vector3 = [f32; 3];
type Vector2 = [f32; 2];

fn quad() -> (Vec<Vector3>, Vec<Vector3>, Vec<Vector2>, Vec<u32>) {
    let vertices = vec![[-0.5, 0.0, -0.5], [0.5, 0.0, -0.5], [0.5, 0.0, 0.5], [-0.5, 0.0, 0.5]];
    let normals = vec![[0.0, 1.0, 0.0], [0.0, 1.0, 0.0], [0.0, 1.0, 0.0], [0.0, 1.0, 0.0]];
    let uvs = vec![[0.0, 0.0], [1.0, 0.0], [1.0, 1.0], [0.0, 1.0]];
    let indices: Vec<u32> = vec![0, 1, 2, 2, 3, 0];
    (vertices, normals, uvs, indices)
}

#[test]
fn lib_test_initialize() {
    let config = StilbConfig::new(0, 512, 512);
    let vulkan_config = config.vulkan_config(false);
    assert!(!vulkan_config.enable_window);
    assert_eq!((vulkan_config.width, vulkan_config.height), (512, 512));

    let (vertices, normals, uvs, indices) = quad();

    assert!(uvs.len() == vertices.len());
    assert!(normals.len() == vertices.len());

    let raw = RawMesh {
        vertices: &vertices,
        normals: &normals,
        uvs: &uvs,
        indices: &indices,
        vertices_length: vertices.len() as u32,
        indices_length: indices.len() as u32,
    };
    let mesh = Mesh::from_raw_mesh(raw);
    assert_eq!(mesh.vertices.len(), 4);
    assert_eq!(mesh.indices.len(), 6);
}

#[test]
fn test_test_initialize() {
    let preview = true;
    let config = StilbConfig::new(if preview { 1 } else { 0 }, 512, 512);
    let vulkan_config = config.vulkan_config(true);
    assert!(vulkan_config.enable_window);
    assert!(vulkan_config.enable_validation_layers);

    let (vertices, normals, uvs, indices) = quad();

    assert!(uvs.len() == vertices.len());
    assert!(normals.len() == vertices.len());

    let raw = RawMesh {
        vertices: &vertices,
        normals: &normals,
        uvs: &uvs,
        indices: &indices,
        vertices_length: vertices.len() as u32,
        indices_length: indices.len() as u32,
    };
    let mesh = Mesh::from_raw_mesh(raw);
    assert_eq!(*mesh.vertices[2].position(), [0.5, 0.0, 0.5]);

    // A 2x2 RGBA32F texture, released once at the end.
    let mut texture = Texture2D::new(2, 2, ash::vk::Format::R32G32B32A32_SFLOAT.as_raw(), 7, 8, 9);
    let pixels: [f32; 16] = [
        1.0, 0.0, 0.0, 1.0, //
        0.0, 1.0, 0.0, 1.0, //
        0.0, 0.0, 1.0, 1.0, //
        1.0, 1.0, 0.0, 1.0,
    ];
    let bytes: Vec<u8> = pixels.iter().flat_map(|p| p.to_ne_bytes()).collect();
    texture.set_pixels(&bytes);
    assert_eq!(texture.layout(), ash::vk::ImageLayout::UNDEFINED.as_raw());
    assert_eq!(texture.destroy(), Some((9, 8, 7)));
    assert_eq!(texture.destroy(), None);

    let pacer = SubmitPacer::new(MAX_SAMPLES_PER_SUBMIT);
    assert_eq!(pacer.chunk(16), 1);
}
