use aira_brain::audio::{
    create_wav, decode_wav, detect_container, keep_decoded, samples_to_base64_wav, wav_to_base64,
    AudioContainer, AudioError,
};

#[test]
fn wav_header_and_samples_are_laid_out_low_byte_first() {
    let wav = create_wav(&vec![1, -2, 256], 22050).unwrap();
    let expected: Vec<u8> = vec![
        0x52, 0x49, 0x46, 0x46, 42, 0, 0, 0, 0x57, 0x41, 0x56, 0x45, 0x66, 0x6D, 0x74, 0x20, 16,
        0, 0, 0, 1, 0, 1, 0, 0x22, 0x56, 0, 0, 0x44, 0xAC, 0, 0, 2, 0, 16, 0, 0x64, 0x61, 0x74,
        0x61, 6, 0, 0, 0, 1, 0, 0xFE, 0xFF, 0, 1,
    ];
    assert_eq!(wav, expected);
}

#[test]
fn wav_of_no_samples_is_the_bare_header() {
    let wav = create_wav(&Vec::new(), 16000).unwrap();
    assert_eq!(wav.len(), 44);
    assert_eq!(&wav[4..8], &[36, 0, 0, 0]);
    assert_eq!(&wav[24..28], &[0x80, 0x3E, 0, 0]);
    assert_eq!(&wav[28..32], &[0x00, 0x7D, 0, 0]);
    assert_eq!(&wav[40..44], &[0, 0, 0, 0]);
}

#[test]
fn wav_refuses_a_rate_of_zero() {
    assert!(matches!(create_wav(&vec![0], 0), Err(AudioError::InvalidSampleRate)));
}

#[test]
fn wav_refuses_a_rate_above_the_limit() {
    assert!(matches!(create_wav(&vec![0], 0x8000_0000), Err(AudioError::InvalidSampleRate)));
    assert!(create_wav(&vec![0], 0x7FFF_FFFF).is_ok());
}

#[test]
fn base64_pads_one_and_two_bytes_left_over() {
    assert_eq!(wav_to_base64(&Vec::new()).unwrap(), "");
    assert_eq!(wav_to_base64(&vec![b'f']).unwrap(), "Zg==");
    assert_eq!(wav_to_base64(&vec![b'f', b'o']).unwrap(), "Zm8=");
    assert_eq!(wav_to_base64(&vec![b'f', b'o', b'o']).unwrap(), "Zm9v");
    assert_eq!(wav_to_base64(&vec![b'f', b'o', b'o', b'b']).unwrap(), "Zm9vYg==");
    assert_eq!(wav_to_base64(&vec![0xFB, 0xFF, 0xBF]).unwrap(), "+/+/");
}

#[test]
fn speech_is_encoded_as_base64_of_the_wave_file() {
    let text = samples_to_base64_wav(&vec![0, 32767, -32768]).unwrap();
    let wav = create_wav(&vec![0, 32767, -32768], 22050).unwrap();
    assert_eq!(text, wav_to_base64(&wav).unwrap());
    assert!(text.starts_with("UklGRioAAABXQVZFZm10IBAAAAABAAEAIlYAAESsAAACABAAZGF0YQYAAAAAAP9/AIA="));
}

#[test]
fn decoding_gives_back_what_was_encoded() {
    let samples: Vec<i16> = vec![0, 1, -1, 12345, -12345, 32767, -32768];
    let wav = create_wav(&samples, 22050).unwrap();
    assert_eq!(decode_wav(&wav).unwrap(), samples);
}

#[test]
fn decoding_refuses_what_is_no_wave_file() {
    assert!(matches!(decode_wav(&vec![1, 2, 3, 4, 5]), Err(AudioError::Decoder(_))));
    assert!(matches!(decode_wav(&Vec::new()), Err(AudioError::Decoder(_))));
}

#[test]
fn decoding_leaves_out_samples_that_are_missing() {
    let mut wav = create_wav(&vec![7, 8, 9], 22050).unwrap();
    wav.truncate(48);
    assert_eq!(decode_wav(&wav).unwrap(), vec![7, 8]);
}

#[test]
fn unread_entries_are_dropped_in_order() {
    assert_eq!(keep_decoded(&vec![Some(1), None, Some(-3), None]), vec![1, -3]);
    assert_eq!(keep_decoded(&Vec::new()), Vec::<i16>::new());
}

#[test]
fn container_is_told_by_the_first_four_bytes() {
    assert_eq!(detect_container(&b"RIFF....WAVE".to_vec()), AudioContainer::Wave);
    assert_eq!(detect_container(&b"RIF".to_vec()), AudioContainer::Other);
    assert_eq!(detect_container(&vec![0x1A, 0x45, 0xDF, 0xA3, 0x00]), AudioContainer::Other);
    assert_eq!(detect_container(&Vec::new()), AudioContainer::Other);
}

#[test]
fn encoding_succeeds_for_any_samples_that_fit() {
    for samples in [Vec::new(), vec![0i16], vec![i16::MIN, i16::MAX, -1, 1], vec![7; 10_000]] {
        for rate in [1u32, 8000, 22050, 0x7FFF_FFFF] {
            let wav = create_wav(&samples, rate).unwrap();
            assert_eq!(wav.len(), 44 + 2 * samples.len());
            assert_eq!(decode_wav(&wav).unwrap(), samples);
        }
        let text = samples_to_base64_wav(&samples).unwrap();
        assert_eq!(text.len(), (44 + 2 * samples.len() + 2) / 3 * 4);
    }
}
