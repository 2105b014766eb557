use obj_vbo::error::LoadError;
use obj_vbo::load_obj::{expand_lines, scan_attributes, ObjLoader};
use obj_vbo::math::Vec3;
use obj_vbo::order::{parse_data_order, ActiveKinds, AttributeKind, BufferDataType};
use obj_vbo::pools::AttributePools;
use obj_vbo::scan::{load_normals, load_texs, load_verts, PointText, TexText};

fn lines(text: &[&str]) -> Vec<String> {
    text.iter().map(|l| l.to_string()).collect()
}

fn scalar(text: &Vec<char>) -> f32 {
    text.iter().collect::<String>().parse::<f32>().unwrap()
}

fn unit(v: (f32, f32, f32)) -> (f32, f32, f32) {
    let len = (v.0 * v.0 + v.1 * v.1 + v.2 * v.2).sqrt();
    (v.0 / len, v.1 / len, v.2 / len)
}

fn point(p: &PointText) -> (f32, f32, f32) {
    let v = (scalar(&p.x), scalar(&p.y), scalar(&p.z));
    match &p.w {
        Some(w) => {
            let w = scalar(w);
            (v.0 / w, v.1 / w, v.2 / w)
        }
        None => v,
    }
}

fn texcoord(t: &TexText) -> (f32, f32, f32) {
    let w = match &t.w {
        Some(w) => scalar(w),
        None => 0.0,
    };
    unit((scalar(&t.u), scalar(&t.v), w))
}

fn words(v: (f32, f32, f32)) -> Vec3 {
    Vec3::new(v.0.to_bits(), v.1.to_bits(), v.2.to_bits())
}

fn vec3(x: f32, y: f32, z: f32) -> Vec3 {
    words((x, y, z))
}

fn floats(out: &Vec<u32>) -> Vec<f32> {
    out.iter().map(|w| f32::from_bits(*w)).collect()
}

fn convert(text: &Vec<String>, order: &str) -> Result<(ObjLoader, Vec<f32>), LoadError> {
    let order = parse_data_order(order);
    let found = scan_attributes(text, &order)?;
    let pools = AttributePools {
        positions: found.verts.iter().map(|p| words(point(p))).collect(),
        normals: found.normals.iter().map(|p| words(unit(point(p)))).collect(),
        texcoords: found.texs.iter().map(|t| words(texcoord(t))).collect(),
    };
    let mut loader = ObjLoader::new();
    let out = loader.load(text, order, pools)?;
    Ok((loader, floats(&out)))
}

#[test]
fn a_position_with_a_weight_is_divided_by_it() {
    let found = load_verts(&lines(&["v 1.0 2.0 3.0 2.0"])).unwrap();
    assert_eq!(found.len(), 1);
    assert_eq!(point(&found[0]), (0.5, 1.0, 1.5));
    let (loader, _) = convert(&lines(&["v 1.0 2.0 3.0 2.0"]), "vx").unwrap();
    assert_eq!(loader.positions(), &vec![vec3(0.5, 1.0, 1.5)]);
}

#[test]
fn a_normal_is_brought_to_unit_length() {
    let found = load_normals(&lines(&["vn 3.0 0.0 0.0"])).unwrap();
    assert_eq!(found.len(), 1);
    assert_eq!(unit(point(&found[0])), (1.0, 0.0, 0.0));
    let (loader, _) = convert(&lines(&["vn 3.0 0.0 0.0"]), "nx").unwrap();
    assert_eq!(loader.normals(), &vec![vec3(1.0, 0.0, 0.0)]);
}

#[test]
fn a_texture_coordinate_of_two_numbers_has_zero_for_its_third() {
    let found = load_texs(&lines(&["vt 3.0 4.0"])).unwrap();
    assert_eq!(found.len(), 1);
    assert_eq!(found[0].w, None);
    assert_eq!(texcoord(&found[0]), (0.6, 0.8, 0.0));
    let (loader, _) = convert(&lines(&["vt 3.0 4.0"]), "tu").unwrap();
    assert_eq!(loader.texcoords(), &vec![vec3(0.6, 0.8, 0.0)]);
}

#[test]
fn a_new_loader_holds_nothing() {
    let loader = ObjLoader::new();
    assert!(loader.positions().is_empty());
    assert!(loader.normals().is_empty());
    assert!(loader.texcoords().is_empty());
    assert!(loader.data_order().is_empty());
    assert_eq!(
        loader.active_kinds(),
        ActiveKinds { position: false, texcoord: false, normal: false }
    );
}

#[test]
fn three_positions_and_one_face() {
    let text = lines(&["f 1 2 3"]);
    let pools = AttributePools {
        positions: vec![vec3(1.0, 0.0, 0.0), vec3(0.0, 1.0, 0.0), vec3(0.0, 0.0, 1.0)],
        texcoords: vec![],
        normals: vec![],
    };
    let order = vec![BufferDataType::PosX, BufferDataType::PosY, BufferDataType::PosZ];
    let mut loader = ObjLoader::new();
    let out = loader.load(&text, order, pools).unwrap();
    assert_eq!(floats(&out), vec![1.0, 0.0, 0.0, 0.0, 1.0, 0.0, 0.0, 0.0, 1.0]);
    assert_eq!(
        loader.active_kinds(),
        ActiveKinds { position: true, texcoord: false, normal: false }
    );
}

#[test]
fn a_description_is_converted_from_its_lines() {
    let text = lines(&[
        "# a triangle",
        "v 1 0 0",
        "v 0 1 0",
        "v 0 0 1",
        "f 1 2 3",
    ]);
    let (_, out) = convert(&text, "vx vy vz").unwrap();
    assert_eq!(out, vec![1.0, 0.0, 0.0, 0.0, 1.0, 0.0, 0.0, 0.0, 1.0]);
}

#[test]
fn faces_follow_one_another_in_the_order_of_the_lines() {
    let text = lines(&[
        "v 1 2 3",
        "f 1/1/1 2/1/1 3/2/1",
        "v 4 5 6 2",
        "vt 3 4",
        "vn 0 0 -5",
        "v 7 8 9",
        "o ignored",
        "vt 0 2 0",
        "f 3/2/1 2/2/1 1/2/1",
    ]);
    let (loader, out) = convert(&text, "tu tv tw vx vy * nz *").unwrap();
    assert_eq!(
        out,
        vec![
            0.6, 0.8, 0.0, 1.0, 2.0, 0.0, -1.0, 0.0, //
            0.6, 0.8, 0.0, 2.0, 2.5, 0.0, -1.0, 0.0, //
            0.0, 1.0, 0.0, 7.0, 8.0, 0.0, -1.0, 0.0, //
            0.0, 1.0, 0.0, 7.0, 8.0, 0.0, -1.0, 0.0, //
            0.0, 1.0, 0.0, 2.0, 2.5, 0.0, -1.0, 0.0, //
            0.0, 1.0, 0.0, 1.0, 2.0, 0.0, -1.0, 0.0,
        ]
    );
    assert_eq!(loader.positions().len(), 3);
    assert_eq!(loader.texcoords().len(), 2);
    assert_eq!(loader.normals().len(), 1);
    assert_eq!(loader.data_order(), &parse_data_order("tu tv tw vx vy * nz *"));
}

#[test]
fn the_buffer_has_three_vertices_for_each_face_line() {
    let mut text = lines(&["v 1 2 3", "v 4 5 6", "# f 1 1 1", "v 7 8 9"]);
    let order = "vx * vz vz";
    for faces in 0..7 {
        let (_, out) = convert(&text, order).unwrap();
        assert_eq!(out.len(), 3 * 4 * faces);
        text.push("f 1 3 2".to_string());
        text.push("g group".to_string());
    }
}

#[test]
fn a_description_without_faces_gives_an_empty_buffer() {
    let (loader, out) = convert(&lines(&["v 1 2 3", "vn 0 1 0"]), "vx nx").unwrap();
    assert!(out.is_empty());
    assert_eq!(loader.positions().len(), 1);
    let (_, out) = convert(&lines(&[]), "vx nx").unwrap();
    assert!(out.is_empty());
}

#[test]
fn an_empty_order_gives_an_empty_buffer() {
    let (loader, out) = convert(&lines(&["v 1 2 3", "f 1 1 1", "f a b c"]), "").unwrap();
    assert!(out.is_empty());
    assert!(loader.positions().is_empty());
    assert!(loader.data_order().is_empty());
}

#[test]
fn a_face_line_must_be_a_triangle_even_when_nothing_is_read() {
    assert_eq!(
        convert(&lines(&["f 1 1 1", "f x"]), "").err(),
        Some(LoadError::NotTriangle { line: 1 })
    );
}

#[test]
fn a_kind_that_the_order_does_not_read_is_not_kept() {
    let text = lines(&["f 1 1 1"]);
    let pools = AttributePools {
        positions: vec![vec3(1.0, 2.0, 3.0)],
        texcoords: vec![vec3(4.0, 5.0, 6.0)],
        normals: vec![vec3(7.0, 8.0, 9.0)],
    };
    let mut loader = ObjLoader::new();
    let out = loader.load(&text, vec![BufferDataType::PosY, BufferDataType::Void], pools).unwrap();
    assert_eq!(floats(&out), vec![2.0, 0.0, 2.0, 0.0, 2.0, 0.0]);
    assert_eq!(loader.positions(), &vec![vec3(1.0, 2.0, 3.0)]);
    assert!(loader.texcoords().is_empty());
    assert!(loader.normals().is_empty());
}

#[test]
fn loading_again_replaces_every_pool() {
    let first = lines(&["v 1 2 3", "v 4 5 6", "vn 0 0 1", "vt 1 0", "f 1/1/1 2/1/1 1/1/1"]);
    let second = lines(&["v 9 9 9", "f 1 1 1"]);
    let mut loader = ObjLoader::new();

    let order = parse_data_order("vx nz tu");
    let pools = AttributePools {
        positions: vec![vec3(1.0, 2.0, 3.0), vec3(4.0, 5.0, 6.0)],
        texcoords: vec![vec3(1.0, 0.0, 0.0)],
        normals: vec![vec3(0.0, 0.0, 1.0)],
    };
    let out = loader.load(&first, order, pools).unwrap();
    assert_eq!(out.len(), 9);
    assert_eq!(loader.positions().len(), 2);
    assert_eq!(loader.texcoords().len(), 1);
    assert_eq!(loader.normals().len(), 1);

    let order = parse_data_order("vx vy");
    let pools = AttributePools {
        positions: vec![vec3(9.0, 9.0, 9.0)],
        texcoords: vec![],
        normals: vec![],
    };
    let out = loader.load(&second, order, pools).unwrap();
    assert_eq!(floats(&out), vec![9.0, 9.0, 9.0, 9.0, 9.0, 9.0]);
    assert_eq!(loader.positions(), &vec![vec3(9.0, 9.0, 9.0)]);
    assert!(loader.texcoords().is_empty());
    assert!(loader.normals().is_empty());
    assert_eq!(loader.data_order(), &vec![BufferDataType::PosX, BufferDataType::PosY]);
}

#[test]
fn a_used_loader_gives_what_a_new_one_gives() {
    let text = lines(&["v 1 0 0", "v 0 1 0", "v 0 0 1", "f 1 2 3", "f 3 2 1"]);
    let (mut used, _) = convert(
        &lines(&["v 5 5 5", "vn 1 1 1", "vt 1 1", "f 1/1/1 1/1/1 1/1/1"]),
        "nx ny nz tu tv vx",
    )
    .unwrap();
    let (fresh, expected) = convert(&text, "vz vy vx").unwrap();
    let order = parse_data_order("vz vy vx");
    let pools = AttributePools {
        positions: vec![vec3(1.0, 0.0, 0.0), vec3(0.0, 1.0, 0.0), vec3(0.0, 0.0, 1.0)],
        texcoords: vec![],
        normals: vec![],
    };
    let out = used.load(&text, order, pools).unwrap();
    assert_eq!(floats(&out), expected);
    assert_eq!(used.positions(), fresh.positions());
    assert_eq!(used.normals(), fresh.normals());
    assert_eq!(used.texcoords(), fresh.texcoords());
    assert_eq!(used.active_kinds(), fresh.active_kinds());
}

#[test]
fn the_first_refused_face_line_ends_the_run() {
    let text = lines(&["v 1 2 3", "f 1 1 1", "f 1 2 1", "f 1 x 1"]);
    assert_eq!(
        convert(&text, "vx").err(),
        Some(LoadError::IndexOutOfRange { line: 2, kind: AttributeKind::Position })
    );
    let text = lines(&["v 1 2 3", "f 1 1 1", "f 1 x 1", "f 1 2 1"]);
    assert_eq!(
        convert(&text, "vx").err(),
        Some(LoadError::MalformedIndex { line: 2, kind: AttributeKind::Position })
    );
}

#[test]
fn a_normal_that_is_asked_for_must_be_written() {
    let text = lines(&["v 1 2 3", "f 1 1 1"]);
    assert_eq!(
        convert(&text, "vx nz").err(),
        Some(LoadError::MissingIndex { line: 1, kind: AttributeKind::Normal })
    );
    let text = lines(&["v 1 2 3", "f 1//1 1//1 1//1"]);
    assert_eq!(
        convert(&text, "vx nz").err(),
        Some(LoadError::IndexOutOfRange { line: 1, kind: AttributeKind::Normal })
    );
}

#[test]
fn each_refusal_can_be_met() {
    assert_eq!(
        convert(&lines(&["v 1 2"]), "vx").err(),
        Some(LoadError::MissingComponent { line: 0, kind: AttributeKind::Position })
    );
    assert_eq!(
        convert(&lines(&["f 1 2"]), "vx").err(),
        Some(LoadError::NotTriangle { line: 0 })
    );
    assert_eq!(
        convert(&lines(&["v 1 2 3", "f 1 1 1"]), "tu").err(),
        Some(LoadError::MissingIndex { line: 1, kind: AttributeKind::TexCoord })
    );
    assert_eq!(
        convert(&lines(&["v 1 2 3", "f a b c"]), "vz").err(),
        Some(LoadError::MalformedIndex { line: 1, kind: AttributeKind::Position })
    );
    assert_eq!(
        convert(&lines(&["v 1 2 3", "f 1 1 0"]), "vz").err(),
        Some(LoadError::IndexOutOfRange { line: 1, kind: AttributeKind::Position })
    );
}

#[test]
fn lines_are_laid_out_with_pools_given_directly() {
    let text = lines(&["f 2 1 2", "x", "f 1 1 2"]);
    let pools = AttributePools {
        positions: vec![vec3(1.0, 2.0, 3.0), vec3(4.0, 5.0, 6.0)],
        texcoords: vec![],
        normals: vec![],
    };
    let active = ActiveKinds { position: true, texcoord: false, normal: false };
    let order = vec![BufferDataType::PosZ, BufferDataType::NormZ];
    let out = expand_lines(&text, &active, &order, &pools).unwrap();
    assert_eq!(
        floats(&out),
        vec![6.0, 0.0, 3.0, 0.0, 6.0, 0.0, 3.0, 0.0, 3.0, 0.0, 6.0, 0.0]
    );
}
