use decimator::driver::{output_descriptor, output_name, AudioDescriptor, SampleEncoding};

#[test]
fn output_file_name_is_prefixed() {
    let name = b"gc.wav".to_vec();
    assert_eq!(output_name(&name), b"rgc.wav".to_vec());
}

#[test]
fn output_name_of_empty_name() {
    assert_eq!(output_name(&Vec::new()), b"r".to_vec());
}

#[test]
fn output_descriptor_fields() {
    let d = output_descriptor(24000);
    assert_eq!(
        d,
        AudioDescriptor {
            channel_count: 1,
            sample_rate: 24000,
            bits_per_sample: 16,
            encoding: SampleEncoding::SignedInteger,
        }
    );
}
