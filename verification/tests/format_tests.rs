use encore::file_format::{check_file, header_table, FormatError, HEADER_SPAN};
use encore::FileFormat;

#[test]
fn ogg_is_audio() {
    assert_eq!(check_file(b"OggS\x00\x02"), Ok(FileFormat::Audio));
}

#[test]
fn mp3_with_id3_tag_is_audio() {
    assert_eq!(check_file(b"ID3\x04"), Ok(FileFormat::Audio));
}

#[test]
fn flac_is_audio() {
    assert_eq!(check_file(b"fLaC"), Ok(FileFormat::Audio));
}

#[test]
fn wav_is_audio() {
    assert_eq!(check_file(b"RIFF"), Ok(FileFormat::Audio));
}

#[test]
fn text_is_other() {
    assert_eq!(check_file(b"// playlist\n"), Ok(FileFormat::Other));
}

#[test]
fn short_file_is_a_short_read() {
    // The Ogg header is read first and needs four bytes.
    assert_eq!(check_file(b"ID3"), Err(FormatError::ShortRead));
    assert_eq!(check_file(b""), Err(FormatError::ShortRead));
}

#[test]
fn long_input_is_always_classified() {
    for data in [&b"OggS"[..], b"xxxx", b"ID3!", b"RIFX"] {
        assert!(data.len() >= HEADER_SPAN);
        assert!(check_file(data).is_ok());
    }
    assert_eq!(check_file(b"RIFX"), Ok(FileFormat::Other));
}

#[test]
fn header_table_fits_the_span() {
    let t = header_table();
    assert_eq!(t.len(), 4);
    for h in &t {
        assert!(h.offset + h.magic.len() <= HEADER_SPAN);
        assert_eq!(h.format, FileFormat::Audio);
    }
    assert_eq!(t[0].magic, b"OggS".to_vec());
    assert_eq!(t[3].magic, b"RIFF".to_vec());
}
