use irid::model::{mesh_vertex_attributes, Material, Mesh, Model};

#[test]
fn attributes_are_regrouped_per_vertex() {
    let positions = [0.0f32, 1.0, 2.0, 3.0, 4.0, 5.0, 6.0];
    let texcoords = [0.5f32, 0.25, 0.75, 1.0];
    let normals = [0.0f32, 0.0, 1.0, 0.0, 1.0, 0.0];
    let v = mesh_vertex_attributes(&positions, &texcoords, &normals);
    assert_eq!(v.len(), 2);
    assert_eq!(v[0].position, [0.0, 1.0, 2.0]);
    assert_eq!(v[1].position, [3.0, 4.0, 5.0]);
    assert_eq!(v[0].tex_coords, [0.5, 0.25]);
    assert_eq!(v[1].tex_coords, [0.75, 1.0]);
    assert_eq!(v[1].normal, [0.0, 1.0, 0.0]);
}

#[test]
fn no_positions_no_vertices() {
    let v = mesh_vertex_attributes::<f32>(&[1.0, 2.0], &[], &[]);
    assert!(v.is_empty());
}

#[test]
fn mesh_counts_its_indices() {
    let mesh = Mesh::new(String::from("cube"), vec![1u8, 2, 3], vec![0, 1, 2, 2, 1, 0], Some(3));
    assert_eq!(mesh.num_elements, 6);
    assert_eq!(mesh.material, 3);
    let mesh: Mesh<u8> = Mesh::new(String::from("tri"), vec![], vec![0, 1, 2], None);
    assert_eq!(mesh.material, 0);
    let model = Model { meshes: vec![mesh], materials: vec![Material { name: String::from("m"), image: () }] };
    assert_eq!(model.meshes[0].name, "tri");
    assert_eq!(model.materials.len(), 1);
}
