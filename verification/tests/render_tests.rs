use vector_shooter::render::{Drawable, RenderMode, Renderer};

struct Marker(u8);

impl Drawable<u8> for Marker {
    fn draw(&self, renderer: &mut Renderer<'_, u8>) {
        renderer.draw_line(self.0, self.0 + 1);
    }
}

#[test]
fn lines_and_triangles_index_their_vertices() {
    let mut vertices: Vec<u8> = vec![100];
    let mut indices: Vec<u32> = Vec::new();
    {
        let mut r = Renderer::new(&mut vertices, &mut indices);
        assert_eq!(r.mode, RenderMode::Lines);
        r.draw_line(1, 2);
        r.set_mode(RenderMode::Triangles);
        assert_eq!(r.mode, RenderMode::Triangles);
        r.draw_triangle(3, 4, 5);
        Marker(7).draw(&mut r);
    }
    assert_eq!(vertices, vec![100, 1, 2, 3, 4, 5, 7, 8]);
    assert_eq!(indices, vec![1, 2, 3, 4, 5, 6, 7]);
    assert!(indices.iter().all(|&i| (i as usize) < vertices.len()));
}
