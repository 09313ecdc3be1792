use shape_batch::batch::{byte_range, BatchState, DrawError, DrawCommand, MAX_TEXTURES_PER_DRAW_CALL};

fn quad() -> Vec<u16> {
    vec![0, 1, 3, 1, 3, 2]
}

fn open_batch(max_vertices: u32, max_indices: u32) -> BatchState {
    let mut s = BatchState::new(max_vertices, max_indices);
    s.begin_render();
    s
}

fn draw(s: &mut BatchState, vertices: usize, indices: &Vec<u16>, texture: Option<&str>) -> DrawCommand {
    s.draw(vertices, indices, texture.map(String::from))
}

#[test]
fn new_batch_is_idle_and_empty() {
    let s = BatchState::new(100, 150);
    assert!(!s.is_open());
    assert_eq!(s.max_vertices(), 100);
    assert_eq!(s.max_indices(), 150);
    assert_eq!(s.num_vertices(), 0);
    assert_eq!(s.num_indices(), 0);
    for i in 0..MAX_TEXTURES_PER_DRAW_CALL {
        assert_eq!(s.slot_texture(i), None);
    }
}

#[test]
fn begin_render_opens_the_bracket() {
    let s = open_batch(100, 150);
    assert!(s.is_open());
    assert_eq!(s.num_vertices(), 0);
    assert_eq!(s.num_indices(), 0);
    for i in 0..MAX_TEXTURES_PER_DRAW_CALL {
        assert_eq!(s.slot_texture(i), None);
    }
}

#[test]
fn draws_are_rebased_onto_the_vertex_cursor() {
    let mut s = open_batch(100, 150);
    let c0 = draw(&mut s, 4, &quad(), None);
    assert!(c0.flush.is_none());
    assert_eq!(c0.first_vertex, 0);
    assert_eq!(c0.first_index, 0);
    assert_eq!(c0.indices, vec![0, 1, 3, 1, 3, 2]);
    assert_eq!(c0.texture_slot, None);
    let c1 = draw(&mut s, 4, &quad(), None);
    assert!(c1.flush.is_none());
    assert_eq!(c1.first_vertex, 4);
    assert_eq!(c1.first_index, 6);
    assert_eq!(c1.indices, vec![4, 5, 7, 5, 7, 6]);
    assert_eq!(s.num_vertices(), 8);
    assert_eq!(s.num_indices(), 12);
}

#[test]
fn filling_the_vertex_buffer_exactly_does_not_flush() {
    let mut s = open_batch(12, 100);
    for _ in 0..3 {
        let c = draw(&mut s, 4, &quad(), None);
        assert!(c.flush.is_none());
    }
    assert_eq!(s.num_vertices(), 12);
    let c = draw(&mut s, 1, &vec![0], None);
    let f = c.flush.expect("one vertex past the buffer flushes");
    assert_eq!(f.index_count, 18);
    assert!(f.clear_target);
    assert_eq!(c.first_vertex, 0);
    assert_eq!(c.first_index, 0);
    assert_eq!(c.indices, vec![0]);
    assert_eq!(s.num_vertices(), 1);
    assert_eq!(s.num_indices(), 1);
}

#[test]
fn index_buffer_overflow_flushes() {
    let mut s = open_batch(100, 10);
    assert!(draw(&mut s, 4, &quad(), None).flush.is_none());
    let c = draw(&mut s, 4, &quad(), None);
    let f = c.flush.expect("the index buffer is full");
    assert_eq!(f.index_count, 6);
    assert_eq!(c.indices, vec![0, 1, 3, 1, 3, 2]);
}

#[test]
fn later_flushes_in_a_bracket_keep_the_target() {
    let mut s = open_batch(4, 100);
    assert!(draw(&mut s, 4, &quad(), None).flush.is_none());
    let first = draw(&mut s, 4, &quad(), None).flush.unwrap();
    assert!(first.clear_target);
    let second = draw(&mut s, 4, &quad(), None).flush.unwrap();
    assert!(!second.clear_target);
    let last = s.end_render();
    assert!(!last.clear_target);
    assert_eq!(last.index_count, 6);
    assert!(!s.is_open());
    assert_eq!(s.num_vertices(), 0);
}

#[test]
fn end_render_flushes_everything_gathered() {
    let mut s = open_batch(100, 100);
    draw(&mut s, 4, &quad(), Some("tree"));
    draw(&mut s, 3, &vec![0, 1, 2], None);
    let f = s.end_render();
    assert_eq!(f.index_count, 9);
    assert!(f.clear_target);
    assert_eq!(f.textures.len(), MAX_TEXTURES_PER_DRAW_CALL);
    assert_eq!(f.textures[0], Some(String::from("tree")));
    assert!(f.textures[1..].iter().all(|t| t.is_none()));
    assert_eq!(s.slot_texture(0), None);
}

#[test]
fn empty_bracket_still_flushes_once() {
    let mut s = open_batch(100, 100);
    let f = s.end_render();
    assert_eq!(f.index_count, 0);
    assert!(f.clear_target);
}

#[test]
fn same_texture_reuses_its_slot() {
    let mut s = open_batch(100, 100);
    let a = draw(&mut s, 4, &quad(), Some("face"));
    let b = draw(&mut s, 4, &quad(), Some("tree"));
    let c = draw(&mut s, 4, &quad(), Some("face"));
    assert_eq!(a.texture_slot, Some(0));
    assert_eq!(b.texture_slot, Some(1));
    assert_eq!(c.texture_slot, Some(0));
    assert!(c.flush.is_none());
    assert_eq!(s.slot_texture(0), Some(String::from("face")));
    assert_eq!(s.slot_texture(1), Some(String::from("tree")));
    assert_eq!(s.slot_texture(2), None);
}

#[test]
fn eleventh_texture_flushes_once_and_takes_slot_zero() {
    let mut s = open_batch(1000, 1000);
    for i in 0..10 {
        let c = draw(&mut s, 4, &quad(), Some(&format!("tex{}", i)));
        assert!(c.flush.is_none());
        assert_eq!(c.texture_slot, Some(i));
    }
    let again = draw(&mut s, 4, &quad(), Some("tex7"));
    assert!(again.flush.is_none());
    assert_eq!(again.texture_slot, Some(7));
    let c = draw(&mut s, 4, &quad(), Some("tex10"));
    let f = c.flush.expect("the slot table is full");
    assert_eq!(f.index_count, 66);
    for i in 0..10 {
        assert_eq!(f.textures[i], Some(format!("tex{}", i)));
    }
    assert_eq!(c.texture_slot, Some(0));
    assert_eq!(c.first_vertex, 0);
    assert_eq!(c.indices, vec![0, 1, 3, 1, 3, 2]);
    assert_eq!(s.slot_texture(0), Some(String::from("tex10")));
    assert_eq!(s.slot_texture(1), None);
}

#[test]
fn capacity_flush_also_clears_the_slot_table() {
    let mut s = open_batch(8, 100);
    draw(&mut s, 4, &quad(), Some("a"));
    draw(&mut s, 4, &quad(), Some("b"));
    let c = draw(&mut s, 4, &quad(), Some("b"));
    let f = c.flush.unwrap();
    assert_eq!(f.textures[0], Some(String::from("a")));
    assert_eq!(f.textures[1], Some(String::from("b")));
    assert_eq!(c.texture_slot, Some(0));
    assert_eq!(s.slot_texture(1), None);
}

#[test]
fn largest_vertex_buffer_rebases_to_the_last_index() {
    let mut s = open_batch(65536, 100);
    assert!(draw(&mut s, 65533, &vec![0], None).flush.is_none());
    let c = draw(&mut s, 3, &vec![0, 1, 2], None);
    assert!(c.flush.is_none());
    assert_eq!(c.indices, vec![65533, 65534, 65535]);
}

#[test]
fn byte_ranges_scale_by_the_element_size() {
    assert_eq!(byte_range(0, 6, 2), (0, 12));
    assert_eq!(byte_range(10, 4, 28), (280, 392));
    assert_eq!(byte_range(3, 0, 2), (6, 6));
}

#[test]
fn check_draw_accepts_a_shape_that_fits() {
    let s = open_batch(4, 6);
    assert_eq!(s.check_draw(4, &quad()), Ok(()));
}

#[test]
fn check_draw_reports_each_fault() {
    let idle = BatchState::new(4, 6);
    assert_eq!(idle.check_draw(4, &quad()), Err(DrawError::NotRendering));
    let s = open_batch(4, 6);
    assert_eq!(s.check_draw(4, &vec![0; 7]), Err(DrawError::TooManyIndices));
    assert_eq!(s.check_draw(5, &quad()), Err(DrawError::TooManyVertices));
    assert_eq!(s.check_draw(3, &quad()), Err(DrawError::IndexOutOfRange));
    assert_eq!(
        DrawError::TooManyVertices.message(),
        "shape has more vertices than the renderer's max_vertices"
    );
}
