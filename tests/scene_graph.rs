use geo_kernel::{get_id, Anchor, Element, GeometryType, Scene};

fn is_upper_hex(s: &str) -> bool {
    s.chars().all(|c| c.is_ascii_digit() || ('A'..='F').contains(&c))
}

#[test]
fn ids_are_32_upper_hex_digits() {
    let id = get_id();
    assert_eq!(id.len(), 32);
    assert!(is_upper_hex(&id));
}

#[test]
fn ids_differ_between_calls() {
    let a = get_id();
    let b = get_id();
    assert_ne!(a, b);
}

#[test]
fn anchor_keeps_its_geometry_and_id() {
    let mut a: Anchor<[i32; 3]> = Anchor::new([1, 2, 3]);
    let id = a.get_id();
    assert_eq!(id.len(), 32);
    assert!(is_upper_hex(&id));
    assert_eq!(*a.geometry_ref(), [1, 2, 3]);
    a.set_geometry([4, 5, 6]);
    assert_eq!(*a.geometry_ref(), [4, 5, 6]);
    assert_eq!(a.get_id(), id);
}

#[test]
fn new_element_is_empty() {
    let e: Element<u8, &str> = Element::new(GeometryType::Quad, "identity");
    assert_eq!(e.get_anchor_count(), 0);
    assert_eq!(e.get_anchor(0), None);
    assert_eq!(e.geometry_type(), GeometryType::Quad);
    assert_eq!(*e.transform_ref(), "identity");
    assert!(is_upper_hex(&e.get_id()));
}

#[test]
fn added_anchor_is_read_back_by_index() {
    let mut e: Element<u8, u8> = Element::new(GeometryType::Line, 0);
    let id = e.add_anchor(7);
    assert_eq!(e.get_anchor_count(), 1);
    assert_eq!(e.get_anchor(0), Some(id));
}

#[test]
fn anchor_index_out_of_range_is_not_found() {
    let mut e: Element<u8, u8> = Element::new(GeometryType::Line, 0);
    e.add_anchor(1);
    e.add_anchor(2);
    assert_eq!(e.get_anchor(2), None);
    assert_eq!(e.get_anchor(usize::MAX), None);
}

#[test]
fn anchors_keep_insertion_order() {
    let mut e: Element<u8, u8> = Element::new(GeometryType::Line, 0);
    let a = e.add_anchor(1);
    let b = e.add_anchor(2);
    let c = e.add_anchor(3);
    assert_eq!(e.get_anchor(0), Some(a));
    assert_eq!(e.get_anchor(1), Some(b));
    assert_eq!(e.get_anchor(2), Some(c));
}

#[test]
fn new_scene_is_empty() {
    let s: Scene<u8, i8> = Scene::new(-1);
    assert_eq!(s.element_count(), 0);
    assert_eq!(*s.camera_ref(), -1);
}

#[test]
fn added_element_renders_one_anchor() {
    let mut s: Scene<u8, u8> = Scene::new(0);
    let id = s.add_element(GeometryType::Line, 0, 9);
    assert_eq!(s.element_count(), 1);
    assert_eq!(s.render(id), Some(vec![1]));
}

#[test]
fn render_of_unknown_id_is_not_found() {
    let mut s: Scene<u8, u8> = Scene::new(0);
    s.add_element(GeometryType::Quad, 0, 9);
    assert_eq!(s.render("nonexistent".to_string()), None);
}

#[test]
fn render_of_empty_scene_is_not_found() {
    let s: Scene<u8, u8> = Scene::new(0);
    assert_eq!(s.render(get_id()), None);
}

#[test]
fn scene_reads_seed_anchor_of_element() {
    let mut s: Scene<u8, u8> = Scene::new(0);
    let first = s.add_element(GeometryType::Line, 0, 1);
    let second = s.add_element(GeometryType::Quad, 0, 2);
    let a = s.get_anchor(first.clone(), 0).unwrap();
    let b = s.get_anchor(second.clone(), 0).unwrap();
    assert_eq!(a.len(), 32);
    assert_ne!(a, b);
    assert_ne!(a, first);
    assert_eq!(s.get_anchor(first, 1), None);
    assert_eq!(s.get_anchor("nonexistent".to_string(), 0), None);
    assert_eq!(s.render(second), Some(vec![1]));
}

#[test]
fn greeting_is_fixed() {
    assert_eq!(geo_kernel::greeting::greet(), "Howdy, from wasm!");
}

#[test]
fn salutation_addresses_the_name() {
    assert_eq!(geo_kernel::salutation::greet("Ada"), "Hello, Ada!");
    assert_eq!(geo_kernel::salutation::greet(""), "Hello, !");
}
