use clip_codec::clip::{read_clip_configuration_header, Clip};
use clip_codec::error::{Error, IoFailure};
use clip_codec::header::{read_clip_header, write_clip_header, CLIP_FILE_HEADER};
use clip_codec::source::ByteSource;

const HEADER: [u8; 8] = [0x53, 0x4D, 0x46, 0x32, 0x43, 0x4C, 0x49, 0x50];

fn file(configuration: &[u8]) -> ByteSource {
    let mut bytes = HEADER.to_vec();
    bytes.extend_from_slice(configuration);
    ByteSource::new(bytes)
}

#[test]
fn read_clip_checks_for_missing_header() {
    let data: &[u8] = &[];
    let mut read = ByteSource::new(data.to_vec());
    assert!(Clip::read_clip_file(&mut read).is_err());
}

#[test]
fn read_clip_checks_for_incorrect_header() {
    let data: &[u8] = &[0x53, 0x4D, 0x46, 0x32, 0x43, 0x4C, 0x49, 0x0];
    let mut read = ByteSource::new(data.to_vec());
    assert!(Clip::read_clip_file(&mut read).is_err());
}

#[test]
fn read_clip_checks_for_correct_header() {
    let data: &[u8] = &[
        0x53, 0x4D, 0x46, 0x32, 0x43, 0x4C, 0x49, 0x50, // header
        0x00, 0x20, 0x00, 0x00, // dcs
        0x00, 0x30, 0x00, 0x00, // dcstpqn
    ];
    let mut read = ByteSource::new(data.to_vec());
    assert_eq!(
        Clip::read_clip_file(&mut read).unwrap(),
        Clip::from_words(vec![0x0020_0000, 0x0030_0000,])
    );
}

#[test]
fn write_clip_writes_correct_file_header() {
    let mut data = Vec::new();
    Clip::from_words(Vec::new())
        .write_clip_file(&mut data)
        .unwrap();
    assert_eq!(
        &data[..],
        &[0x53, 0x4D, 0x46, 0x32, 0x43, 0x4C, 0x49, 0x50][..]
    );
}

#[test]
fn header_constant_spells_the_marker() {
    assert_eq!(&CLIP_FILE_HEADER, b"SMF2CLIP");
}

#[test]
fn every_short_header_is_incorrect() {
    for len in 0..8 {
        let mut read = ByteSource::new(HEADER[..len].to_vec());
        assert!(matches!(
            read_clip_header(&mut read),
            Err(Error::IncorrectHeader)
        ));
        assert_eq!(read.remaining_len(), 0);
    }
}

#[test]
fn a_single_wrong_byte_is_an_incorrect_header() {
    for at in 0..8 {
        let mut bytes = HEADER.to_vec();
        bytes[at] ^= 0x01;
        let mut read = ByteSource::new(bytes);
        assert!(matches!(
            read_clip_header(&mut read),
            Err(Error::IncorrectHeader)
        ));
    }
}

#[test]
fn the_exact_marker_is_accepted_and_consumed() {
    let mut bytes = HEADER.to_vec();
    bytes.extend_from_slice(&[0xAA, 0xBB, 0xCC]);
    let mut read = ByteSource::new(bytes);
    assert!(read_clip_header(&mut read).is_ok());
    assert_eq!(read.remaining_len(), 3);
    assert_eq!(read.read_exact(3).unwrap(), vec![0xAA, 0xBB, 0xCC]);
}

#[test]
fn a_wrong_marker_of_full_length_is_consumed() {
    let mut read = ByteSource::new(vec![0; 11]);
    assert!(matches!(
        read_clip_header(&mut read),
        Err(Error::IncorrectHeader)
    ));
    assert_eq!(read.remaining_len(), 3);
}

#[test]
fn missing_header_is_reported_as_incorrect_header() {
    let mut read = ByteSource::new(Vec::new());
    assert!(matches!(
        Clip::read_clip_file(&mut read),
        Err(Error::IncorrectHeader)
    ));
}

#[test]
fn write_header_appends_to_what_is_there() {
    let mut data: Vec<u8> = vec![0x01, 0x02];
    write_clip_header(&mut data).unwrap();
    assert_eq!(
        data,
        vec![0x01, 0x02, 0x53, 0x4D, 0x46, 0x32, 0x43, 0x4C, 0x49, 0x50]
    );
}

#[test]
fn write_ignores_the_words_of_the_clip() {
    let mut data = Vec::new();
    Clip::from_words(vec![0x0020_0000, 0x0030_0000, 0x1234_5678])
        .write_clip_file(&mut data)
        .unwrap();
    assert_eq!(data, HEADER.to_vec());
}

#[test]
fn a_written_clip_reads_back_as_truncated() {
    let mut data = Vec::new();
    Clip::default().write_clip_file(&mut data).unwrap();
    let mut read = ByteSource::new(data);
    assert!(matches!(
        Clip::read_clip_file(&mut read),
        Err(Error::Io(IoFailure::UnexpectedEof))
    ));
}

#[test]
fn nonzero_initial_clockstamp_is_a_parse_error() {
    let mut read = file(&[0x00, 0x20, 0x00, 0x01, 0x00, 0x30, 0x00, 0x00]);
    match Clip::read_clip_file(&mut read) {
        Err(Error::Parse(reason)) => {
            assert_eq!(reason, "Initial delta clockstamp message should be set to 0")
        }
        other => panic!("unexpected result: {:?}", other),
    }
    assert_eq!(read.remaining_len(), 4);
}

#[test]
fn time_data_is_the_low_sixteen_bits() {
    let mut high = file(&[0x00, 0x20, 0x80, 0x00, 0x00, 0x30, 0x00, 0x00]);
    assert!(matches!(
        Clip::read_clip_file(&mut high),
        Err(Error::Parse(_))
    ));
    let mut above = file(&[0x00, 0x2F, 0x00, 0x00, 0x00, 0x30, 0x00, 0x00]);
    assert_eq!(
        Clip::read_clip_file(&mut above).unwrap(),
        Clip::from_words(vec![0x002F_0000, 0x0030_0000])
    );
}

#[test]
fn first_word_of_another_kind_is_a_format_error() {
    let mut read = file(&[0x00, 0x40, 0x00, 0x00, 0x00, 0x30, 0x00, 0x00]);
    match Clip::read_clip_file(&mut read) {
        Err(Error::Ump(invalid)) => assert_eq!(invalid.0, "Incorrect message status"),
        other => panic!("unexpected result: {:?}", other),
    }
    let mut typed = file(&[0x10, 0x20, 0x00, 0x00, 0x00, 0x30, 0x00, 0x00]);
    match Clip::read_clip_file(&mut typed) {
        Err(Error::Ump(invalid)) => assert_eq!(invalid.0, "Incorrect ump message type"),
        other => panic!("unexpected result: {:?}", other),
    }
}

#[test]
fn malformed_ticks_word_is_a_format_error() {
    let mut read = file(&[0x00, 0x20, 0x00, 0x00, 0x00, 0x20, 0x00, 0x00]);
    assert!(matches!(
        Clip::read_clip_file(&mut read),
        Err(Error::Ump(_))
    ));
    assert_eq!(read.remaining_len(), 0);
    let mut typed = file(&[0x00, 0x20, 0x00, 0x00, 0x40, 0x30, 0x00, 0x00]);
    assert!(matches!(
        Clip::read_clip_file(&mut typed),
        Err(Error::Ump(_))
    ));
}

#[test]
fn ticks_value_and_group_are_free() {
    let mut read = file(&[0x05, 0x20, 0x00, 0x00, 0x0A, 0x30, 0x01, 0xE0, 0xFF]);
    assert_eq!(
        Clip::read_clip_file(&mut read).unwrap(),
        Clip::from_words(vec![0x0520_0000, 0x0A30_01E0])
    );
    assert_eq!(read.remaining_len(), 1);
}

#[test]
fn truncated_configuration_is_a_source_failure() {
    for len in 0..8 {
        let configuration: [u8; 8] = [0x00, 0x20, 0x00, 0x00, 0x00, 0x30, 0x00, 0x00];
        let mut read = file(&configuration[..len]);
        assert!(matches!(
            Clip::read_clip_file(&mut read),
            Err(Error::Io(IoFailure::UnexpectedEof))
        ));
        assert_eq!(read.remaining_len(), 0);
    }
}

#[test]
fn a_bad_first_word_is_reported_before_a_missing_second() {
    let mut read = file(&[0x00, 0x20, 0x00, 0x07]);
    assert!(matches!(
        Clip::read_clip_file(&mut read),
        Err(Error::Parse(_))
    ));
}

#[test]
fn configuration_header_appends_to_the_clip() {
    let mut clip = Clip::from_words(vec![0xDEAD_BEEF]);
    let mut read = ByteSource::new(vec![0x00, 0x20, 0x00, 0x00, 0x00, 0x30, 0x00, 0x60]);
    read_clip_configuration_header(&mut read, &mut clip).unwrap();
    assert_eq!(clip.words(), &vec![0xDEAD_BEEF, 0x0020_0000, 0x0030_0060]);
}

#[test]
fn configuration_header_keeps_the_first_word_when_the_second_fails() {
    let mut clip = Clip::default();
    let mut read = ByteSource::new(vec![0x00, 0x20, 0x00, 0x00, 0x00, 0x10, 0x00, 0x00]);
    assert!(matches!(
        read_clip_configuration_header(&mut read, &mut clip),
        Err(Error::Ump(_))
    ));
    assert_eq!(clip.words(), &vec![0x0020_0000]);

    let mut untouched = Clip::default();
    let mut bad = ByteSource::new(vec![0x00, 0x10, 0x00, 0x00, 0x00, 0x30, 0x00, 0x00]);
    assert!(read_clip_configuration_header(&mut bad, &mut untouched).is_err());
    assert_eq!(untouched, Clip::default());
    assert_eq!(bad.remaining_len(), 4);
}

#[test]
fn default_clip_is_empty() {
    assert_eq!(Clip::default().words().len(), 0);
    assert_eq!(Clip::default(), Clip::from_words(Vec::new()));
}
