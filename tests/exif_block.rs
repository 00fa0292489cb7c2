use avif_converter::error::Error;
use avif_converter::exif::{create_exif_from_png_chunks, TextChunk};

fn chunk(keyword: &str, text: &str) -> TextChunk {
    TextChunk { keyword: keyword.to_string(), text: text.to_string() }
}

#[test]
fn no_chunks_no_block() {
    assert_eq!(create_exif_from_png_chunks(&Vec::new()), Ok(None));
}

#[test]
fn prompt_and_other_chunk_layout() {
    let block = create_exif_from_png_chunks(&vec![chunk("prompt", "a cat"), chunk("Author", "me")])
        .unwrap()
        .unwrap();
    let expected: Vec<u8> = vec![
        0, 0, 0, 6, 69, 120, 105, 102, 0, 0, 77, 77, 0, 42, 0, 0, 0, 8, 0, 2, 1, 15, 0, 2, 0, 0,
        0, 14, 0, 0, 0, 38, 146, 134, 0, 2, 0, 0, 0, 11, 0, 0, 0, 52, 0, 0, 0, 0, 80, 114, 111,
        109, 112, 116, 58, 32, 97, 32, 99, 97, 116, 0, 65, 117, 116, 104, 111, 114, 58, 32, 109,
        101, 0,
    ];
    assert_eq!(block, expected);
}

#[test]
fn workflow_chunk_goes_to_image_description() {
    let block = create_exif_from_png_chunks(&vec![chunk("workflow", "{}")]).unwrap().unwrap();
    // Entry tag right after the entry count.
    assert_eq!(&block[18..22], &[0, 1, 1, 14]);
    assert_eq!(&block[block.len() - 13..], b"Workflow: {}\0");
}

#[test]
fn too_many_chunks_is_rejected() {
    let chunks: Vec<TextChunk> = (0..65536).map(|_| chunk("k", "")).collect();
    assert_eq!(create_exif_from_png_chunks(&chunks), Err(Error::ExifTooLarge));
}
