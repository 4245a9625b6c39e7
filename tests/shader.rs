use open_gl_learning::shader::{is_c_compatible, DrawCall, Shader, VertexAttribute};

fn triangle() -> [u32; 9] {
    let v: [f32; 9] = [-0.5, -0.5, 0.0, 0.5, -0.5, 0.0, 0.0, 0.5, 0.0];
    let mut bits = [0u32; 9];
    for i in 0..9 {
        bits[i] = v[i].to_bits();
    }
    bits
}

#[test]
fn new_keeps_sources_and_vertices() {
    let vs = String::from("#version 330 core\nvoid main(){gl_Position=vec4(0,0,0,1);}");
    let fs = String::from("#version 330 core\nout vec4 c;\nvoid main(){c=vec4(1,0,0,1);}");
    let s = Shader::new(vs.clone(), fs.clone(), triangle());
    assert_eq!(s.vertex_shader_string, vs);
    assert_eq!(s.fragment_shader_string, fs);
    assert_eq!(s.vertices, triangle());
    assert_eq!(f32::from_bits(s.vertices[3]), 0.5);
}

#[test]
fn geometry_upload_layout() {
    let s = Shader::new(String::new(), String::new(), triangle());
    let u = s.geometry_upload();
    assert_eq!(u.words, triangle());
    assert_eq!(u.byte_len, 36);
    assert_eq!(
        u.attribute,
        VertexAttribute { index: 0, components: 3, normalized: false, stride: 12, offset: 0 }
    );
}

#[test]
fn draw_call_covers_three_vertices() {
    let s = Shader::new(String::new(), String::new(), triangle());
    assert_eq!(s.draw_call(), DrawCall { first: 0, count: 3 });
}

#[test]
fn nul_in_source_is_rejected() {
    assert!(is_c_compatible(b"#version 330 core\nvoid main({"));
    assert!(is_c_compatible(b""));
    assert!(!is_c_compatible(b"void\0main"));
    assert!(!is_c_compatible(b"\0"));
}
