//! The resource load protocol: request bookkeeping, delivery, completion.

use gru_opengl::resource::{File, Id, Loadprotocol};

fn file(path: &str, key: u64, data: &[u8]) -> File {
    File { path: path.to_string(), key, data: data.to_vec() }
}

#[test]
fn requests_hand_out_fresh_keys_and_count_missing() {
    let mut keys: Id<u64> = Id::new(10);
    let mut lp = Loadprotocol::empty("Shader \"sprite\"".to_string());
    let (path_a, key_a) = lp.request_file(&mut keys, "shaders/sprite.vert", "vert");
    let (path_b, key_b) = lp.request_file(&mut keys, "shaders/sprite.frag", "frag");
    assert_eq!(path_a, "shaders/sprite.vert");
    assert_eq!(path_b, "shaders/sprite.frag");
    assert_eq!(key_a, 10);
    assert_eq!(key_b, 11);
    assert_eq!(*keys.current(), 12);
    assert!(!lp.can_be_interpreted());
    assert!(lp.needs_key(10));
    assert!(lp.needs_key(11));
    assert!(!lp.needs_key(12));
}

#[test]
fn delivery_completes_the_protocol() {
    let mut keys: Id<u64> = Id::new(0);
    let mut lp = Loadprotocol::empty("Model \"tree\"".to_string());
    let (_, gltf_key) = lp.request_file(&mut keys, "models/tree.gltf", "gltf");
    let (_, bin_key) = lp.request_file(&mut keys, "models/tree.bin", "bin");
    lp.add_file(file("models/tree.gltf", gltf_key, b"document"));
    assert!(!lp.can_be_interpreted());
    lp.add_file(file("models/tree.bin", bin_key, &[1, 2, 3]));
    assert!(lp.can_be_interpreted());
    assert_eq!(lp.get_data("gltf"), b"document");
    assert_eq!(lp.get_data("bin"), &[1, 2, 3]);
}

#[test]
fn name_is_kept() {
    let lp = Loadprotocol::empty("Sound \"step\"".to_string());
    assert_eq!(lp.name(), "Sound \"step\"");
}

#[test]
fn empty_protocol_is_immediately_complete() {
    let lp = Loadprotocol::empty("nothing".to_string());
    assert!(lp.can_be_interpreted());
    assert!(!lp.needs_key(0));
}
