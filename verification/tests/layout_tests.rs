use image_intake::format::ImageKind;
use image_intake::identity::Identity;
use image_intake::layout::file_name;
use image_intake::layout::split_chunks;
use image_intake::layout::StorageLayout;
use image_intake::layout::CHUNK_SIZE;

const TOKEN: &str = "67e55044-10b1-426f-9247-bb680e5fe0c8";

fn payload(len: usize) -> Vec<u8> {
    (0..len).map(|i| (i * 7 + i / 256) as u8).collect()
}

#[test]
fn chunk_size_is_one_kibibyte() {
    assert_eq!(CHUNK_SIZE, 1024);
}

#[test]
fn file_name_is_identity_dot_extension() {
    let identity = Identity::parse(TOKEN).unwrap();
    assert_eq!(file_name(&identity, ImageKind::Png), "67e55044-10b1-426f-9247-bb680e5fe0c8.png");
    assert_eq!(file_name(&identity, ImageKind::Jpeg), "67e55044-10b1-426f-9247-bb680e5fe0c8.jpeg");
}

#[test]
fn paths_lie_under_the_root() {
    let layout = StorageLayout::new(String::from("/srv/images"));
    let identity = Identity::parse(TOKEN).unwrap();
    assert_eq!(layout.root(), "/srv/images");
    assert_eq!(layout.preview_directory(), "/srv/images/preview");
    assert_eq!(
        layout.original_path(&identity, ImageKind::Png),
        "/srv/images/67e55044-10b1-426f-9247-bb680e5fe0c8.png"
    );
    assert_eq!(
        layout.preview_path(&identity, ImageKind::Png),
        "/srv/images/preview/67e55044-10b1-426f-9247-bb680e5fe0c8.png"
    );
    assert_eq!(
        layout.preview_path(&identity, ImageKind::Jpeg),
        "/srv/images/preview/67e55044-10b1-426f-9247-bb680e5fe0c8.jpeg"
    );
}

#[test]
fn original_and_preview_share_the_file_name() {
    let layout = StorageLayout::new(String::from("store"));
    let identity = Identity::allocate();
    let name = file_name(&identity, ImageKind::Jpeg);
    assert_eq!(layout.original_path(&identity, ImageKind::Jpeg), format!("store/{}", name));
    assert_eq!(layout.preview_path(&identity, ImageKind::Jpeg), format!("store/preview/{}", name));
    assert!(!name.contains('/'));
}

#[test]
fn an_empty_payload_has_no_chunk() {
    assert_eq!(split_chunks(&[]), Vec::<Vec<u8>>::new());
}

#[test]
fn chunks_have_the_expected_lengths() {
    for (len, expected) in [
        (1usize, vec![1usize]),
        (1023, vec![1023]),
        (1024, vec![1024]),
        (1025, vec![1024, 1]),
        (2048, vec![1024, 1024]),
        (2500, vec![1024, 1024, 452]),
    ] {
        let chunks = split_chunks(&payload(len));
        let lengths: Vec<usize> = chunks.iter().map(|chunk| chunk.len()).collect();
        assert_eq!(lengths, expected);
    }
}

#[test]
fn chunks_join_to_the_payload() {
    for len in [0usize, 1, 1023, 1024, 1025, 4096, 10_000] {
        let data = payload(len);
        let chunks = split_chunks(&data);
        assert_eq!(chunks.concat(), data);
    }
}
