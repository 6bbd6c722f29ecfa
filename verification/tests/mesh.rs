use stilb::mesh::{GpuMesh, Mesh, RawMesh, Vertex};

type Vector3 = [f32; 3];
type Vector2 = [f32; 2];

fn quad() -> (Vec<Vector3>, Vec<Vector3>, Vec<Vector2>, Vec<u32>) {
    let vertices = vec![[-0.5, 0.0, -0.5], [0.5, 0.0, -0.5], [0.5, 0.0, 0.5], [-0.5, 0.0, 0.5]];
    let normals = vec![[0.0, 1.0, 0.0]; 4];
    let uvs = vec![[0.0, 0.0], [1.0, 0.0], [1.0, 1.0], [0.0, 1.0]];
    let indices: Vec<u32> = vec![0, 1, 2, 2, 3, 0];
    (vertices, normals, uvs, indices)
}

#[test]
fn from_raw_mesh_interleaves_attributes() {
    let (vertices, normals, uvs, indices) = quad();
    let raw = RawMesh {
        vertices: &vertices,
        normals: &normals,
        uvs: &uvs,
        indices: &indices,
        vertices_length: 4,
        indices_length: 6,
    };
    let mesh = Mesh::from_raw_mesh(raw);
    assert_eq!(mesh.vertices.len(), 4);
    assert_eq!(mesh.indices, vec![0, 1, 2, 2, 3, 0]);
    for i in 0..4 {
        assert_eq!(*mesh.vertices[i].position(), vertices[i]);
        assert_eq!(*mesh.vertices[i].normal(), [0.0, 1.0, 0.0]);
        assert_eq!(*mesh.vertices[i].uv(), uvs[i]);
    }
}

#[test]
fn from_raw_mesh_reads_only_the_given_lengths() {
    let (vertices, normals, uvs, indices) = quad();
    let raw = RawMesh {
        vertices: &vertices,
        normals: &normals,
        uvs: &uvs,
        indices: &indices,
        vertices_length: 2,
        indices_length: 3,
    };
    let mesh = Mesh::from_raw_mesh(raw);
    assert_eq!(mesh.vertices.len(), 2);
    assert_eq!(*mesh.vertices[1].position(), [0.5, 0.0, -0.5]);
    assert_eq!(*mesh.vertices[1].uv(), [1.0, 0.0]);
    assert_eq!(mesh.indices, vec![0, 1, 2]);
}

#[test]
fn from_raw_mesh_of_empty_mesh() {
    let raw: RawMesh<Vector3, Vector2> = RawMesh {
        vertices: &[],
        normals: &[],
        uvs: &[],
        indices: &[],
        vertices_length: 0,
        indices_length: 0,
    };
    let mesh = Mesh::from_raw_mesh(raw);
    assert!(mesh.vertices.is_empty());
    assert!(mesh.indices.is_empty());
    assert_eq!(mesh.vertex_bytes(), 0);
    assert_eq!(mesh.index_bytes(), 0);
}

#[test]
fn buffer_sizes_of_quad() {
    let (vertices, normals, uvs, indices) = quad();
    let raw = RawMesh {
        vertices: &vertices,
        normals: &normals,
        uvs: &uvs,
        indices: &indices,
        vertices_length: 4,
        indices_length: 6,
    };
    let mesh = Mesh::from_raw_mesh(raw);
    assert_eq!(mesh.index_bytes(), 24);
    assert_eq!(mesh.vertex_bytes(), (4 * std::mem::size_of::<Vertex<Vector3, Vector2>>()) as u64);
    assert_eq!(mesh.vertex_bytes(), 128);
}

#[test]
fn gpu_mesh_release_hands_back_handles_in_order() {
    let mut g = GpuMesh::new(1, 2, 0x1000, 3, 4, 0x2000);
    assert!(g.is_live());
    assert_eq!(g.destroy(), (1, 2, 3, 4));
    assert!(!g.is_live());
}

#[test]
fn gpu_mesh_with_a_null_handle_is_not_live() {
    assert!(!GpuMesh::new(0, 2, 0, 3, 4, 0).is_live());
    assert!(!GpuMesh::new(1, 0, 0, 3, 4, 0).is_live());
    assert!(!GpuMesh::new(1, 2, 0, 0, 4, 0).is_live());
    assert!(!GpuMesh::new(1, 2, 0, 3, 0, 0).is_live());
}
